//! Where the exchange is reached.

use vstd::prelude::*;

verus! {

/// One of the exchange's networks.
#[derive(Debug, Clone, Copy, PartialEq, Eq, Structural)]
pub enum BaseUrl {
    Localhost,
    Testnet,
    Mainnet,
}

impl BaseUrl {
    /// The URL of the network's HTTP interface.
    pub open spec fn url(self) -> Seq<char> {
        match self {
            BaseUrl::Localhost => "http://localhost:3001"@,
            BaseUrl::Testnet => "https://api.hyperliquid-testnet.xyz"@,
            BaseUrl::Mainnet => "https://api.hyperliquid.xyz"@,
        }
    }

    /// The URL of the network's WebSocket: `http` gives way to `ws`, so that `https`
    /// gives way to `wss`.
    pub open spec fn socket_url(self) -> Seq<char> {
        "ws"@ + self.url().skip(4) + "/ws"@
    }

    /// The URL of the network's HTTP interface.
    pub fn get_url(&self) -> (url: String)
        ensures
            url@ == self.url(),
    {
        match self {
            BaseUrl::Localhost => "http://localhost:3001".to_owned(),
            BaseUrl::Testnet => "https://api.hyperliquid-testnet.xyz".to_owned(),
            BaseUrl::Mainnet => "https://api.hyperliquid.xyz".to_owned(),
        }
    }

    /// The URL of the network's WebSocket.
    pub fn ws_url(&self) -> (url: String)
        ensures
            url@ == self.socket_url(),
    {
        let url = self.get_url();
        proof {
            law_urls_are_http(*self);
        }
        let rest = url.as_str().substring_char(4, url.as_str().unicode_len());
        "ws".to_owned().concat(rest).concat("/ws")
    }

    /// Whether requests are signed for the main network: whether the network is reached
    /// where the main one is.
    pub fn is_mainnet(&self) -> (mainnet: bool)
        ensures
            mainnet == (*self == BaseUrl::Mainnet),
    {
        let mainnet = self.get_url() == BaseUrl::Mainnet.get_url();
        proof {
            law_urls_are_distinct(*self, BaseUrl::Mainnet);
        }
        mainnet
    }
}

/// Every network is reached by an URL that starts with `http`.
pub proof fn law_urls_are_http(base_url: BaseUrl)
    ensures
        base_url.url().len() > 4,
        base_url.url().take(4) == "http"@,
{
    reveal_strlit("http");
    reveal_strlit("http://localhost:3001");
    reveal_strlit("https://api.hyperliquid-testnet.xyz");
    reveal_strlit("https://api.hyperliquid.xyz");
    assert(base_url.url().take(4) =~= "http"@);
}

/// A network that is reached over TLS has a WebSocket that is reached over TLS, at the
/// same host.
pub proof fn law_tls_is_kept(base_url: BaseUrl, host: Seq<char>)
    requires
        base_url.url() == "https://"@ + host,
    ensures
        base_url.socket_url() == "wss://"@ + host + "/ws"@,
{
    reveal_strlit("https://");
    reveal_strlit("wss://");
    reveal_strlit("ws");
    assert(base_url.socket_url() =~= "wss://"@ + host + "/ws"@);
}

/// No two networks are reached by one URL.
pub proof fn law_urls_are_distinct(a: BaseUrl, b: BaseUrl)
    ensures
        a.url() == b.url() <==> a == b,
{
    reveal_strlit("http://localhost:3001");
    reveal_strlit("https://api.hyperliquid-testnet.xyz");
    reveal_strlit("https://api.hyperliquid.xyz");
    assert(BaseUrl::Localhost.url().len() == 21);
    assert(BaseUrl::Testnet.url().len() == 35);
    assert(BaseUrl::Mainnet.url().len() == 27);
}

/// Each network has its own URL, and its WebSocket at the same host: over TLS where the
/// network is.
pub proof fn law_networks_have_their_urls()
    ensures
        BaseUrl::Localhost.url() == "http://localhost:3001"@,
        BaseUrl::Testnet.url() == "https://api.hyperliquid-testnet.xyz"@,
        BaseUrl::Mainnet.url() == "https://api.hyperliquid.xyz"@,
        BaseUrl::Localhost.socket_url() == "ws://localhost:3001/ws"@,
        BaseUrl::Testnet.socket_url() == "wss://api.hyperliquid-testnet.xyz/ws"@,
        BaseUrl::Mainnet.socket_url() == "wss://api.hyperliquid.xyz/ws"@,
{
    reveal_strlit("ws");
    reveal_strlit("/ws");
    reveal_strlit("http://localhost:3001");
    reveal_strlit("https://api.hyperliquid-testnet.xyz");
    reveal_strlit("https://api.hyperliquid.xyz");
    reveal_strlit("ws://localhost:3001/ws");
    reveal_strlit("wss://api.hyperliquid-testnet.xyz/ws");
    reveal_strlit("wss://api.hyperliquid.xyz/ws");
    assert(BaseUrl::Localhost.socket_url() =~= "ws://localhost:3001/ws"@);
    assert(BaseUrl::Testnet.socket_url() =~= "wss://api.hyperliquid-testnet.xyz/ws"@);
    assert(BaseUrl::Mainnet.socket_url() =~= "wss://api.hyperliquid.xyz/ws"@);
}

/// No two networks have one WebSocket.
pub proof fn law_sockets_are_distinct(a: BaseUrl, b: BaseUrl)
    ensures
        a.socket_url() == b.socket_url() <==> a == b,
{
    reveal_strlit("http://localhost:3001");
    reveal_strlit("https://api.hyperliquid-testnet.xyz");
    reveal_strlit("https://api.hyperliquid.xyz");
    let ends = "ws"@.len() + "/ws"@.len();
    assert(BaseUrl::Localhost.socket_url().len() == ends + 17);
    assert(BaseUrl::Testnet.socket_url().len() == ends + 31);
    assert(BaseUrl::Mainnet.socket_url().len() == ends + 23);
}

/// The WebSocket of a network is found at the network's URL, with `ws` for `http` and
/// `/ws` after it; only the main network is taken for the main one.
pub proof fn law_socket_is_at_the_networks_url(
    base_url: BaseUrl,
    url: String,
    socket: String,
    mainnet: bool,
)
    requires
        call_ensures(BaseUrl::get_url, (&base_url,), url),
        call_ensures(BaseUrl::ws_url, (&base_url,), socket),
        call_ensures(BaseUrl::is_mainnet, (&base_url,), mainnet),
    ensures
        url@.take(4) == "http"@,
        socket@ == "ws"@ + url@.skip(4) + "/ws"@,
        mainnet <==> url@ == "https://api.hyperliquid.xyz"@,
        mainnet <==> base_url == BaseUrl::Mainnet,
{
    law_urls_are_http(base_url);
    law_urls_are_distinct(base_url, BaseUrl::Mainnet);
}

} // verus!
