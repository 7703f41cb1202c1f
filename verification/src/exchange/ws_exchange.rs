//! The client: how its connection is opened and how an action is sent over it.

use vstd::hash_map::StringHashMap;
use vstd::prelude::*;

use crate::base_url::{law_sockets_are_distinct, BaseUrl};
use crate::error::{outcome_view, Error, ErrorView};
use crate::exchange::actions::{Actions, BulkCancel, BulkCancelCloid, BulkOrder};
use crate::exchange::cancel::{
    cancel_by_cloid_carried, cancel_carried, CancelRequest, CancelRequestCloid,
    ClientCancelRequest, ClientCancelRequestCloid,
};
use crate::exchange::order::{order_carried, ClientOrderRequest, OrderRequest};
use crate::exchange::requests::{RequestTable, RequestTableView};
use crate::helpers::{uuid_to_hex_string, H160};
use crate::meta::{
    asset_indices, law_last_coin_of_a_name_counts, law_only_listed_coins_are_found, Meta,
};
use crate::signature::{
    connection_id, hashed_octets, keccak256_digest, sign_l1_action, signs_l1_action, LocalWallet,
    Signature,
};

verus! {

/// The client of one connection.
pub struct WsExchangeClient {
    pub wallet: LocalWallet,
    pub meta: Meta,
    pub vault_address: Option<H160>,
    pub coin_to_asset: StringHashMap<u32>,
    pub is_mainnet: bool,
}

/// Where to connect to, and what is known of the exchange there.
pub struct ConnectTarget {
    pub ws_url: String,
    pub is_mainnet: bool,
    pub meta: Meta,
}

/// What opening a connection starts with.
pub enum OpeningStep {
    /// The coins are not known: ask the network for them.
    FetchMeta(BaseUrl),
    /// The coins are known: connect.
    Connect(ConnectTarget),
}

/// `target` is the WebSocket of `base_url`, with the coins `meta`.
pub open spec fn targets(target: ConnectTarget, base_url: BaseUrl, meta: Meta) -> bool {
    &&& target.ws_url@ == base_url.socket_url()
    &&& target.is_mainnet == (base_url == BaseUrl::Mainnet)
    &&& target.meta == meta
}

/// The network that is meant: the main one, unless another is given.
pub open spec fn network(base_url: Option<BaseUrl>) -> BaseUrl {
    match base_url {
        Some(base_url) => base_url,
        None => BaseUrl::Mainnet,
    }
}

/// Begins to open a connection: to the main network, unless another is given.
pub fn open(base_url: Option<BaseUrl>, meta: Option<Meta>) -> (step: OpeningStep)
    ensures
        match meta {
            None => step == OpeningStep::FetchMeta(network(base_url)),
            Some(meta) => step matches OpeningStep::Connect(target) && targets(
                target,
                network(base_url),
                meta,
            ),
        },
{
    let base_url = base_url.unwrap_or(BaseUrl::Mainnet);
    match meta {
        Some(meta) => OpeningStep::Connect(connect_target(base_url, meta)),
        None => OpeningStep::FetchMeta(base_url),
    }
}

/// Goes on once the coins were asked for. If they could not be had, the reason is the
/// error.
pub fn meta_fetched(base_url: BaseUrl, fetched: Result<Meta, Error>) -> (target: Result<
    ConnectTarget,
    Error,
>)
    ensures
        match (fetched, target) {
            (Ok(meta), Ok(target)) => targets(target, base_url, meta),
            (Err(reason), Err(error)) => error == reason,
            _ => false,
        },
{
    match fetched {
        Ok(meta) => Ok(connect_target(base_url, meta)),
        Err(error) => Err(error),
    }
}

fn connect_target(base_url: BaseUrl, meta: Meta) -> (target: ConnectTarget)
    ensures
        targets(target, base_url, meta),
{
    ConnectTarget { ws_url: base_url.ws_url(), is_mainnet: base_url.is_mainnet(), meta }
}

/// An action with what its hash is taken of.
pub struct ActionDraft {
    pub action: Actions,
    pub nonce: u64,
    pub vault_address: Option<H160>,
    pub is_mainnet: bool,
}

/// An action whose hash is known.
pub struct HashedAction {
    pub draft: ActionDraft,
    pub connection_id: [u8; 32],
}

/// An action that is signed.
pub struct SignedAction {
    pub draft: ActionDraft,
    pub signature: Signature,
}

/// What the exchange is sent of an action.
pub struct WsActionRequestPayload {
    pub action: Actions,
    pub nonce: u64,
    pub signature: Signature,
    pub vault_address: Option<H160>,
}

/// A signed action under the number of its request.
pub struct NumberedAction {
    pub id: u64,
    pub payload: WsActionRequestPayload,
}

/// The body of a request. `P` is the payload as a JSON value.
pub struct WsRequestPayload<P> {
    pub req_type: String,
    pub payload: P,
}

/// A request as it is sent.
pub struct WsPostRequest<P> {
    pub method: String,
    pub id: u64,
    pub request: WsRequestPayload<P>,
}

impl WsExchangeClient {
    /// The client of a new connection, once it was tried to connect to `target`, and the
    /// table of its requests.
    pub fn new<S>(
        wallet: LocalWallet,
        target: ConnectTarget,
        vault_address: Option<H160>,
        connected: Result<(), String>,
    ) -> (opened: Result<(WsExchangeClient, RequestTable<S>), Error>)
        ensures
            match (connected, opened) {
                (Ok(_), Ok((client, table))) => {
                    &&& client.wallet == wallet
                    &&& client.vault_address == vault_address
                    &&& client.belongs_to(target)
                    &&& table@ == RequestTableView::<S>::fresh()
                },
                (Err(reason), Err(error)) => error@ == ErrorView::Websocket(
                    "Failed to connect: "@ + reason@,
                ),
                _ => false,
            },
    {
        match connected {
            Ok(_) => {
                let coin_to_asset = target.meta.coin_to_asset();
                let client = WsExchangeClient {
                    wallet,
                    meta: target.meta,
                    vault_address,
                    coin_to_asset,
                    is_mainnet: target.is_mainnet,
                };
                Ok((client, RequestTable::new()))
            },
            Err(reason) => Err(
                Error::Websocket("Failed to connect: ".to_owned().concat(reason.as_str())),
            ),
        }
    }

    /// The wallet that signs: the client's own, unless another is given.
    pub fn signing_wallet<'a>(&'a self, wallet_override: Option<&'a LocalWallet>) -> (wallet:
        &'a LocalWallet)
        ensures
            *wallet == (match wallet_override {
                Some(given) => *given,
                None => self.wallet,
            }),
    {
        wallet_override.unwrap_or(&self.wallet)
    }

    /// Begins to send `action`, for the client's vault and network.
    pub fn draft_action(&self, action: Actions, nonce: u64) -> (draft: ActionDraft)
        ensures
            draft.action == action,
            draft.nonce == nonce,
            draft.vault_address == self.vault_address,
            draft.is_mainnet == self.is_mainnet,
    {
        ActionDraft {
            action,
            nonce,
            vault_address: self.vault_address,
            is_mainnet: self.is_mainnet,
        }
    }

    /// The client has its coins and its network from `target`.
    pub open spec fn belongs_to(self, target: ConnectTarget) -> bool {
        &&& self.meta == target.meta
        &&& self.coin_to_asset@ == asset_indices(target.meta.universe@)
        &&& self.is_mainnet == target.is_mainnet
    }

    /// Whether the client knows the coin `name`.
    pub open spec fn knows(self, name: Seq<char>) -> bool {
        self.coin_to_asset@.contains_key(name)
    }

    /// The action that places `orders` together. It is refused if a coin is not known.
    pub fn bulk_order(&self, orders: Vec<ClientOrderRequest>) -> (action: Result<Actions, Error>)
        ensures
            match action {
                Ok(Actions::Order(bulk)) => {
                    &&& bulk.orders.len() == orders.len()
                    &&& forall|i: int|
                        0 <= i < orders.len() ==> self.knows((#[trigger] orders[i]).asset@)
                            && order_carried(
                            orders[i],
                            self.coin_to_asset@[orders[i].asset@],
                            bulk.orders[i],
                        )
                    &&& bulk.grouping@ == "na"@
                    &&& bulk.builder is None
                },
                Ok(_) => false,
                Err(error) => {
                    &&& error == Error::AssetNotFound
                    &&& exists|i: int|
                        0 <= i < orders.len() && !self.knows((#[trigger] orders[i]).asset@)
                },
            },
    {
        let ghost all = orders@;
        let mut transformed_orders: Vec<OrderRequest> = Vec::new();
        for order in it: orders
            invariant
                it.seq() == all,
                transformed_orders.len() == it.index(),
                forall|i: int|
                    0 <= i < it.index() ==> self.knows((#[trigger] all[i]).asset@)
                        && order_carried(
                        all[i],
                        self.coin_to_asset@[all[i].asset@],
                        transformed_orders[i],
                    ),
        {
            assert(order == all[it.index()]);
            match order.convert(&self.coin_to_asset) {
                Ok(wire) => transformed_orders.push(wire),
                Err(error) => return Err(error),
            }
        }
        Ok(
            Actions::Order(
                BulkOrder { orders: transformed_orders, grouping: "na".to_owned(), builder: None },
            ),
        )
    }

    /// The index of the coin `name`.
    fn asset(&self, name: &String) -> (asset: Result<u32, Error>)
        ensures
            match asset {
                Ok(asset) => self.knows(name@) && asset == self.coin_to_asset@[name@],
                Err(error) => error == Error::AssetNotFound && !self.knows(name@),
            },
    {
        match self.coin_to_asset.get(name.as_str()) {
            Some(asset) => Ok(*asset),
            None => Err(Error::AssetNotFound),
        }
    }

    /// The action that cancels orders together, by the exchange's numbers. It is refused
    /// if a coin is not known.
    pub fn bulk_cancel(&self, cancels: Vec<ClientCancelRequest>) -> (action: Result<Actions, Error>)
        ensures
            match action {
                Ok(Actions::Cancel(bulk)) => {
                    &&& bulk.cancels.len() == cancels.len()
                    &&& forall|i: int|
                        0 <= i < cancels.len() ==> self.knows((#[trigger] cancels[i]).asset@)
                            && cancel_carried(
                            cancels[i],
                            self.coin_to_asset@[cancels[i].asset@],
                            bulk.cancels[i],
                        )
                },
                Ok(_) => false,
                Err(error) => {
                    &&& error == Error::AssetNotFound
                    &&& exists|i: int|
                        0 <= i < cancels.len() && !self.knows((#[trigger] cancels[i]).asset@)
                },
            },
    {
        let ghost all = cancels@;
        let mut transformed_cancels: Vec<CancelRequest> = Vec::new();
        for cancel in it: cancels
            invariant
                it.seq() == all,
                transformed_cancels.len() == it.index(),
                forall|i: int|
                    0 <= i < it.index() ==> self.knows((#[trigger] all[i]).asset@) && cancel_carried(
                        all[i],
                        self.coin_to_asset@[all[i].asset@],
                        transformed_cancels[i],
                    ),
        {
            assert(cancel == all[it.index()]);
            match self.asset(&cancel.asset) {
                Ok(asset) => transformed_cancels.push(CancelRequest { asset, oid: cancel.oid }),
                Err(error) => return Err(error),
            }
        }
        Ok(Actions::Cancel(BulkCancel { cancels: transformed_cancels }))
    }

    /// The action that cancels orders together, by the client's ids. It is refused if a
    /// coin is not known.
    pub fn bulk_cancel_by_cloid(&self, cancels: Vec<ClientCancelRequestCloid>) -> (action: Result<
        Actions,
        Error,
    >)
        ensures
            match action {
                Ok(Actions::CancelByCloid(bulk)) => {
                    &&& bulk.cancels.len() == cancels.len()
                    &&& forall|i: int|
                        0 <= i < cancels.len() ==> self.knows((#[trigger] cancels[i]).asset@)
                            && cancel_by_cloid_carried(
                            cancels[i],
                            self.coin_to_asset@[cancels[i].asset@],
                            bulk.cancels[i],
                        )
                },
                Ok(_) => false,
                Err(error) => {
                    &&& error == Error::AssetNotFound
                    &&& exists|i: int|
                        0 <= i < cancels.len() && !self.knows((#[trigger] cancels[i]).asset@)
                },
            },
    {
        let ghost all = cancels@;
        let mut transformed_cancels: Vec<CancelRequestCloid> = Vec::new();
        for cancel in it: cancels
            invariant
                it.seq() == all,
                transformed_cancels.len() == it.index(),
                forall|i: int|
                    0 <= i < it.index() ==> self.knows((#[trigger] all[i]).asset@) && cancel_by_cloid_carried(
                        all[i],
                        self.coin_to_asset@[all[i].asset@],
                        transformed_cancels[i],
                    ),
        {
            assert(cancel == all[it.index()]);
            match self.asset(&cancel.asset) {
                Ok(asset) => transformed_cancels.push(
                    CancelRequestCloid { asset, cloid: uuid_to_hex_string(cancel.cloid) },
                ),
                Err(error) => return Err(error),
            }
        }
        Ok(Actions::CancelByCloid(BulkCancelCloid { cancels: transformed_cancels }))
    }
}

impl ActionDraft {
    /// Goes on once it was tried to write the action as MessagePack: takes its hash. The
    /// octets are the caller's: that they are those of this action is left unsaid.
    pub fn hash(self, encoded: Result<Vec<u8>, String>) -> (next: Result<HashedAction, Error>)
        ensures
            match (encoded, next) {
                (Ok(action), Ok(next)) => {
                    &&& next.draft == self
                    &&& next.connection_id@ == keccak256_digest(
                        hashed_octets(action@, self.nonce, self.vault_address),
                    )
                },
                (Err(reason), Err(error)) => error@ == ErrorView::RmpParse(reason@),
                _ => false,
            },
    {
        match encoded {
            Ok(action) => {
                let connection_id = connection_id(
                    action.as_slice(),
                    self.nonce,
                    self.vault_address,
                );
                Ok(HashedAction { draft: self, connection_id })
            },
            Err(reason) => Err(Error::RmpParse(reason)),
        }
    }
}

impl HashedAction {
    /// Goes on by signing the action with `wallet`, for the network that it is drafted
    /// for.
    pub fn sign(self, wallet: &LocalWallet) -> (next: Result<SignedAction, Error>)
        ensures
            match next {
                Ok(next) => {
                    &&& next.draft == self.draft
                    &&& signs_l1_action(
                        *wallet,
                        self.connection_id@,
                        self.draft.is_mainnet,
                        Ok(next.signature),
                    )
                },
                Err(error) => signs_l1_action(
                    *wallet,
                    self.connection_id@,
                    self.draft.is_mainnet,
                    Err(error),
                ),
            },
    {
        let signed = sign_l1_action(wallet, self.connection_id, self.draft.is_mainnet);
        self.signed(signed)
    }

    /// Goes on once it was tried to sign the action.
    pub fn signed(self, signed: Result<Signature, Error>) -> (next: Result<SignedAction, Error>)
        ensures
            match (signed, next) {
                (Ok(signature), Ok(next)) => next == (SignedAction {
                    draft: self.draft,
                    signature,
                }),
                (Err(reason), Err(error)) => error == reason,
                _ => false,
            },
    {
        match signed {
            Ok(signature) => Ok(SignedAction { draft: self.draft, signature }),
            Err(error) => Err(error),
        }
    }
}

/// What the exchange is sent of a signed action.
pub open spec fn payload_of(signed: SignedAction) -> WsActionRequestPayload {
    WsActionRequestPayload {
        action: signed.draft.action,
        nonce: signed.draft.nonce,
        signature: signed.signature,
        vault_address: signed.draft.vault_address,
    }
}

impl SignedAction {
    /// Goes on once it was tried to write the action as JSON. If that failed, no number
    /// is handed out.
    pub fn action_encoded<S>(
        self,
        encoded: Result<(), String>,
        table: &mut RequestTable<S>,
    ) -> (next: Result<NumberedAction, Error>)
        requires
            encoded is Ok ==> old(table)@.next_req_id < u64::MAX,
        ensures
            match (encoded, next) {
                (Ok(_), Ok(next)) => {
                    &&& next.id == old(table)@.next_req_id
                    &&& next.payload == payload_of(self)
                    &&& final(table)@ == old(table)@.issue()
                },
                (Err(reason), Err(error)) => {
                    &&& error@ == ErrorView::JsonParse(reason@)
                    &&& final(table)@ == old(table)@
                },
                _ => false,
            },
    {
        match encoded {
            Ok(_) => {
                let payload = WsActionRequestPayload {
                    action: self.draft.action,
                    nonce: self.draft.nonce,
                    signature: self.signature,
                    vault_address: self.draft.vault_address,
                };
                let id: u64 = table.generate_req_id();
                Ok(NumberedAction { id, payload })
            },
            Err(reason) => Err(Error::JsonParse(reason)),
        }
    }
}

impl NumberedAction {
    /// Goes on once it was tried to turn the payload into a JSON value. The value is the
    /// caller's: that it is that of this payload is left unsaid.
    pub fn payload_encoded<P>(self, encoded: Result<P, String>) -> (next: Result<
        WsPostRequest<P>,
        Error,
    >)
        ensures
            match (encoded, next) {
                (Ok(payload), Ok(next)) => {
                    &&& next.method@ == "post"@
                    &&& next.id == self.id
                    &&& next.request.req_type@ == "action"@
                    &&& next.request.payload == payload
                },
                (Err(reason), Err(error)) => error@ == ErrorView::JsonParse(reason@),
                _ => false,
            },
    {
        match encoded {
            Ok(payload) => Ok(
                WsPostRequest {
                    method: "post".to_owned(),
                    id: self.id,
                    request: WsRequestPayload { req_type: "action".to_owned(), payload },
                },
            ),
            Err(reason) => Err(Error::JsonParse(reason)),
        }
    }
}

impl<P> WsPostRequest<P> {
    /// Goes on once it was tried to write the request as text: the request begins to wait
    /// for its response at `sender`, and the text is to be sent. If the request could not
    /// be written, it does not wait. The text is the caller's: that it is that of this
    /// request is left unsaid.
    pub fn request_encoded<S>(
        self,
        encoded: Result<String, String>,
        sender: S,
        table: &mut RequestTable<S>,
    ) -> (text: Result<String, Error>)
        ensures
            match (encoded, text) {
                (Ok(request), Ok(text)) => {
                    &&& text == request
                    &&& final(table)@ == old(table)@.register(self.id, sender)
                },
                (Err(reason), Err(error)) => {
                    &&& error@ == ErrorView::JsonParse(reason@)
                    &&& final(table)@ == old(table)@
                },
                _ => false,
            },
    {
        match encoded {
            Ok(request) => {
                table.register(self.id, sender);
                Ok(request)
            },
            Err(reason) => Err(Error::JsonParse(reason)),
        }
    }
}

/// Goes on once it was tried to send a request. If that failed, the request goes on
/// waiting in the table, but its sender's other end is given up.
pub fn request_sent(sent: Result<(), String>) -> (next: Result<(), Error>)
    ensures
        match (sent, next) {
            (Ok(_), Ok(_)) => true,
            (Err(reason), Err(error)) => error@ == ErrorView::Websocket("Send error: "@ + reason@),
            _ => false,
        },
{
    match sent {
        Ok(_) => Ok(()),
        Err(reason) => Err(Error::Websocket("Send error: ".to_owned().concat(reason.as_str()))),
    }
}

/// What a request comes to: the reply that was delivered, or why none could be.
pub fn response_received<T>(received: Result<Result<T, Error>, String>) -> (outcome: Result<
    T,
    Error,
>)
    ensures
        match received {
            Ok(reply) => outcome == reply,
            Err(reason) => outcome_view(outcome) == Err::<T, ErrorView>(
                ErrorView::Websocket("Oneshot recv error: "@ + reason@),
            ),
        },
{
    match received {
        Ok(reply) => reply,
        Err(reason) => Err(
            Error::Websocket("Oneshot recv error: ".to_owned().concat(reason.as_str())),
        ),
    }
}

/// A client connects to the WebSocket of the network that is meant, whatever the coins
/// are: the network's own URL with `ws` for `http`, and `/ws` after it. It signs for the
/// main network exactly if it is that network, and it keeps the coins as they are.
pub proof fn law_target_is_the_networks_own(target: ConnectTarget, base_url: BaseUrl, meta: Meta)
    requires
        targets(target, base_url, meta),
    ensures
        target.ws_url@ == "ws"@ + base_url.url().skip(4) + "/ws"@,
        target.is_mainnet <==> base_url == BaseUrl::Mainnet,
        target.meta == meta,
{
}

/// Targets of different networks have different URLs, whatever the coins are, and targets
/// of one network have one URL.
pub proof fn law_targets_tell_networks_apart(
    a: ConnectTarget,
    b: ConnectTarget,
    network_a: BaseUrl,
    network_b: BaseUrl,
    meta_a: Meta,
    meta_b: Meta,
)
    requires
        targets(a, network_a, meta_a),
        targets(b, network_b, meta_b),
    ensures
        a.ws_url@ == b.ws_url@ <==> network_a == network_b,
{
    law_sockets_are_distinct(network_a, network_b);
}

/// The network that is given is the one that is meant; none given means the main one.
pub proof fn law_network_is_the_one_given(base_url: BaseUrl)
    ensures
        network(Some(base_url)) == base_url,
        network(None) == BaseUrl::Mainnet,
{
}

/// A client knows a coin exactly if its target lists it, and by the place of the last coin
/// of that name. It signs for the network of its target.
pub proof fn law_client_keeps_its_target(client: WsExchangeClient, target: ConnectTarget, i: int)
    requires
        client.belongs_to(target),
        0 <= i < target.meta.universe@.len(),
        forall|j: int|
            i < j < target.meta.universe@.len() ==> (#[trigger] target.meta.universe@[j]).name@
                != target.meta.universe@[i].name@,
    ensures
        client.knows(target.meta.universe@[i].name@),
        client.coin_to_asset@[target.meta.universe@[i].name@] == i as u32,
        client.meta == target.meta,
        client.is_mainnet == target.is_mainnet,
{
    law_last_coin_of_a_name_counts(target.meta.universe@, i);
}

/// A client knows no coin that its target does not list.
pub proof fn law_client_knows_only_listed_coins(
    client: WsExchangeClient,
    target: ConnectTarget,
    name: Seq<char>,
)
    requires
        client.belongs_to(target),
        forall|i: int|
            0 <= i < target.meta.universe@.len() ==> (#[trigger] target.meta.universe@[i]).name@
                != name,
    ensures
        !client.knows(name),
        !client.coin_to_asset@.contains_key(name),
{
    law_only_listed_coins_are_found(target.meta.universe@, name);
}

/// What is sent of a signed action is the action itself, with its own nonce, vault and
/// signature.
pub proof fn law_payload_is_the_signed_action(signed: SignedAction)
    ensures
        payload_of(signed).action == signed.draft.action,
        payload_of(signed).nonce == signed.draft.nonce,
        payload_of(signed).vault_address == signed.draft.vault_address,
        payload_of(signed).signature.r@ == signed.signature.r@,
        payload_of(signed).signature.s@ == signed.signature.s@,
        payload_of(signed).signature.v == signed.signature.v,
{
}

} // verus!
