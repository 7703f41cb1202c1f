use hyperliquid_ws::base_url::BaseUrl;
use hyperliquid_ws::error::Error;
use hyperliquid_ws::exchange::connection::{
    next_ping, stopped_after_ping, PingOutcome, SEND_PING_INTERVAL,
};
use hyperliquid_ws::exchange::ws_exchange::{
    meta_fetched, open, ConnectTarget, OpeningStep, WsExchangeClient,
};
use hyperliquid_ws::helpers::H160;
use hyperliquid_ws::meta::{AssetMeta, Meta};
use hyperliquid_ws::signature::LocalWallet;

fn meta() -> Meta {
    Meta { universe: vec![AssetMeta { name: "ETH".to_string(), sz_decimals: 4 }] }
}

fn target(base_url: Option<BaseUrl>) -> ConnectTarget {
    match open(base_url, Some(meta())) {
        OpeningStep::Connect(target) => target,
        OpeningStep::FetchMeta(_) => panic!("the coins are known"),
    }
}

#[test]
fn where_the_networks_are() {
    assert_eq!(BaseUrl::Mainnet.get_url(), "https://api.hyperliquid.xyz");
    assert_eq!(BaseUrl::Mainnet.ws_url(), "wss://api.hyperliquid.xyz/ws");
    assert_eq!(BaseUrl::Testnet.ws_url(), "wss://api.hyperliquid-testnet.xyz/ws");
    assert_eq!(BaseUrl::Localhost.ws_url(), "ws://localhost:3001/ws");
}

#[test]
fn only_the_main_network_is_the_main_network() {
    assert!(BaseUrl::Mainnet.is_mainnet());
    assert!(!BaseUrl::Testnet.is_mainnet());
    assert!(!BaseUrl::Localhost.is_mainnet());
}

#[test]
fn the_main_network_is_meant_by_default() {
    let target = target(None);
    assert_eq!(target.ws_url, "wss://api.hyperliquid.xyz/ws");
    assert!(target.is_mainnet);
    assert!(matches!(open(None, None), OpeningStep::FetchMeta(BaseUrl::Mainnet)));
}

#[test]
fn coins_are_fetched_where_they_are_not_known() {
    let base_url = match open(Some(BaseUrl::Testnet), None) {
        OpeningStep::FetchMeta(base_url) => base_url,
        OpeningStep::Connect(_) => panic!("the coins are not known"),
    };
    assert_eq!(base_url, BaseUrl::Testnet);
    let target = meta_fetched(base_url, Ok(meta())).ok().unwrap();
    assert_eq!(target.ws_url, "wss://api.hyperliquid-testnet.xyz/ws");
    assert!(!target.is_mainnet);
    assert_eq!(target.meta.universe[0].name, "ETH");
    match meta_fetched(base_url, Err(Error::GenericRequest("no route".to_string()))) {
        Err(Error::GenericRequest(reason)) => assert_eq!(reason, "no route"),
        _ => panic!("the coins could not be had"),
    }
}

#[test]
fn a_new_client() {
    let wallet = LocalWallet { key: [3; 32] };
    let vault = Some(H160 { bytes: [4; 20] });
    let opened = WsExchangeClient::new::<char>(wallet, target(None), vault, Ok(()));
    let (client, mut table) = opened.ok().unwrap();
    assert_eq!(client.wallet.key, [3; 32]);
    assert_eq!(client.vault_address, vault);
    assert!(client.is_mainnet);
    assert_eq!(client.meta.universe.len(), 1);
    assert_eq!(client.coin_to_asset.get("ETH"), Some(&0));
    assert_eq!(table.generate_req_id(), 1);
    assert!(table.close::<()>().is_empty());
}

#[test]
fn a_client_that_cannot_connect() {
    let wallet = LocalWallet { key: [3; 32] };
    let refused = Err("connection refused".to_string());
    match WsExchangeClient::new::<char>(wallet, target(None), None, refused) {
        Err(Error::Websocket(reason)) => {
            assert_eq!(reason, "Failed to connect: connection refused")
        }
        _ => panic!("there is no connection"),
    }
}

#[test]
fn pings_until_the_client_stops() {
    assert_eq!(SEND_PING_INTERVAL, 50);
    assert_eq!(next_ping(false).unwrap().method, "ping");
    assert!(next_ping(true).is_none());
}

#[test]
fn a_ping_that_cannot_be_sent_stops_the_client() {
    assert!(stopped_after_ping(false, PingOutcome::SendFailed));
    assert!(!stopped_after_ping(false, PingOutcome::Sent));
    assert!(!stopped_after_ping(false, PingOutcome::NotEncoded));
    assert!(stopped_after_ping(true, PingOutcome::Sent));
}
