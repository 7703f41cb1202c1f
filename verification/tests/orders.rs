use hyperliquid_ws::base_url::BaseUrl;
use hyperliquid_ws::error::Error;
use hyperliquid_ws::exchange::actions::Actions;
use hyperliquid_ws::exchange::cancel::{ClientCancelRequest, ClientCancelRequestCloid};
use hyperliquid_ws::exchange::modify::{
    ClientId, ClientModifyRequest, ModifyRequest, SerializedClientId,
};
use hyperliquid_ws::exchange::order::{ClientOrderRequest, Limit, Order, Trigger};
use hyperliquid_ws::exchange::ws_exchange::{open, OpeningStep, WsExchangeClient};
use hyperliquid_ws::helpers::{uuid_to_hex_string, Uuid};
use hyperliquid_ws::meta::{AssetMeta, Meta};
use hyperliquid_ws::signature::LocalWallet;

fn meta(names: &[&str]) -> Meta {
    let universe = names
        .iter()
        .map(|name| AssetMeta { name: name.to_string(), sz_decimals: 3 })
        .collect();
    Meta { universe }
}

fn client(names: &[&str]) -> WsExchangeClient {
    let target = match open(Some(BaseUrl::Testnet), Some(meta(names))) {
        OpeningStep::Connect(target) => target,
        OpeningStep::FetchMeta(_) => unreachable!(),
    };
    let wallet = LocalWallet { key: [1; 32] };
    WsExchangeClient::new::<()>(wallet, target, None, Ok(())).unwrap().0
}

fn order(asset: &str, cloid: Option<Uuid>) -> ClientOrderRequest {
    ClientOrderRequest {
        asset: asset.to_string(),
        is_buy: true,
        reduce_only: false,
        limit_px: "1000".to_string(),
        sz: "0.01".to_string(),
        cloid,
        order_type: Order::Limit(Limit { tif: "Gtc".to_string() }),
    }
}

fn uuid() -> Uuid {
    let id = uuid::Uuid::from_u128(0x00112233_4455_6677_8899_aabbccddeeff);
    Uuid { bytes: *id.as_bytes() }
}

#[test]
fn coins_are_numbered_by_their_place() {
    let coins = meta(&["BTC", "ETH", "ATOM"]).coin_to_asset();
    assert_eq!(coins.get("BTC"), Some(&0));
    assert_eq!(coins.get("ETH"), Some(&1));
    assert_eq!(coins.get("ATOM"), Some(&2));
    assert_eq!(coins.get("eth"), None);
    assert_eq!(coins.len(), 3);
}

#[test]
fn the_last_of_two_coins_of_one_name_counts() {
    let coins = meta(&["BTC", "ETH", "BTC"]).coin_to_asset();
    assert_eq!(coins.get("BTC"), Some(&2));
    assert_eq!(coins.len(), 2);
}

#[test]
fn no_coins() {
    assert!(meta(&[]).coin_to_asset().is_empty());
}

#[test]
fn orders_are_placed_in_order() {
    let client = client(&["BTC", "ETH"]);
    let mut sell = order("BTC", None);
    sell.is_buy = false;
    sell.reduce_only = true;
    sell.order_type = Order::Trigger(Trigger {
        is_market: true,
        trigger_px: "900".to_string(),
        tpsl: "sl".to_string(),
    });
    match client.bulk_order(vec![order("ETH", Some(uuid())), sell]) {
        Ok(Actions::Order(bulk)) => {
            assert_eq!(bulk.grouping, "na");
            assert!(bulk.builder.is_none());
            assert_eq!(bulk.orders.len(), 2);
            let first = &bulk.orders[0];
            assert_eq!(first.asset, 1);
            assert!(first.is_buy);
            assert!(!first.reduce_only);
            assert_eq!(first.limit_px, "1000");
            assert_eq!(first.sz, "0.01");
            assert_eq!(first.cloid.as_deref(), Some("0x00112233445566778899aabbccddeeff"));
            assert!(matches!(&first.order_type, Order::Limit(limit) if limit.tif == "Gtc"));
            let second = &bulk.orders[1];
            assert_eq!(second.asset, 0);
            assert!(!second.is_buy);
            assert!(second.reduce_only);
            assert!(second.cloid.is_none());
            match &second.order_type {
                Order::Trigger(trigger) => {
                    assert!(trigger.is_market);
                    assert_eq!(trigger.trigger_px, "900");
                    assert_eq!(trigger.tpsl, "sl");
                }
                other => panic!("{:?}", other),
            }
        }
        other => panic!("{:?}", other),
    }
}

#[test]
fn one_unknown_coin_refuses_all_orders() {
    let client = client(&["BTC", "ETH"]);
    let orders = vec![order("ETH", None), order("DOGE", None)];
    assert!(matches!(client.bulk_order(orders), Err(Error::AssetNotFound)));
}

#[test]
fn no_orders_are_an_empty_action() {
    match client(&["BTC"]).bulk_order(vec![]) {
        Ok(Actions::Order(bulk)) => assert!(bulk.orders.is_empty()),
        other => panic!("{:?}", other),
    }
}

#[test]
fn cancels_by_number() {
    let client = client(&["BTC", "ETH"]);
    let cancel = |asset: &str, oid: u64| ClientCancelRequest { asset: asset.to_string(), oid };
    match client.bulk_cancel(vec![cancel("ETH", 77), cancel("BTC", 78)]) {
        Ok(Actions::Cancel(bulk)) => {
            let got: Vec<(u32, u64)> = bulk.cancels.iter().map(|c| (c.asset, c.oid)).collect();
            assert_eq!(got, vec![(1, 77), (0, 78)]);
        }
        other => panic!("{:?}", other),
    }
    let unknown = client.bulk_cancel(vec![cancel("ETH", 77), cancel("", 78)]);
    assert!(matches!(unknown, Err(Error::AssetNotFound)));
}

#[test]
fn cancels_by_client_id() {
    let client = client(&["BTC", "ETH"]);
    let cancel = |asset: &str| ClientCancelRequestCloid { asset: asset.to_string(), cloid: uuid() };
    match client.bulk_cancel_by_cloid(vec![cancel("ETH")]) {
        Ok(Actions::CancelByCloid(bulk)) => {
            assert_eq!(bulk.cancels.len(), 1);
            assert_eq!(bulk.cancels[0].asset, 1);
            assert_eq!(bulk.cancels[0].cloid, "0x00112233445566778899aabbccddeeff");
        }
        other => panic!("{:?}", other),
    }
    let unknown = client.bulk_cancel_by_cloid(vec![cancel("DOGE")]);
    assert!(matches!(unknown, Err(Error::AssetNotFound)));
}

#[test]
fn client_ids_as_the_exchange_reads_them() {
    assert!(matches!(SerializedClientId::from(ClientId::Oid(42)), SerializedClientId::U64(42)));
    match SerializedClientId::from(ClientId::Cloid(uuid())) {
        SerializedClientId::Str(text) => assert_eq!(text, "0x00112233445566778899aabbccddeeff"),
        other => panic!("{:?}", other),
    }
}

#[test]
fn hexadecimal_text_is_that_of_the_uuid() {
    for n in [0u128, 1, u128::MAX, 0x9f8e7d6c5b4a39281706f5e4d3c2b1a0] {
        let id = uuid::Uuid::from_u128(n);
        let text = uuid_to_hex_string(Uuid { bytes: *id.as_bytes() });
        assert_eq!(text, format!("0x{}", id.simple()));
        assert_eq!(text.len(), 34);
    }
}

#[test]
fn client_ids_stay_distinct() {
    let mut other = uuid();
    other.bytes[15] ^= 1;
    assert_ne!(uuid_to_hex_string(uuid()), uuid_to_hex_string(other));
}

#[test]
fn a_change_and_a_cancel_name_the_order_that_was_placed() {
    let client = client(&["ETH"]);
    let asked = ClientModifyRequest {
        oid: ClientId::Cloid(uuid()),
        order: order("ETH", Some(uuid())),
    };
    let change = ModifyRequest {
        oid: SerializedClientId::from(asked.oid),
        order: asked.order.convert(&client.coin_to_asset).unwrap(),
    };
    let cancel = ClientCancelRequestCloid { asset: "ETH".to_string(), cloid: uuid() };
    let cancelled = match client.bulk_cancel_by_cloid(vec![cancel]) {
        Ok(Actions::CancelByCloid(bulk)) => bulk.cancels[0].cloid.clone(),
        other => panic!("{:?}", other),
    };
    match (change.oid, change.order.cloid) {
        (SerializedClientId::Str(oid), Some(cloid)) => {
            assert_eq!(oid, cloid);
            assert_eq!(cancelled, cloid);
        }
        other => panic!("{:?}", other),
    }
}

#[test]
fn an_order_of_an_unknown_coin_does_not_convert() {
    let client = client(&["ETH"]);
    let converted = order("BTC", None).convert(&client.coin_to_asset);
    assert!(matches!(converted, Err(Error::AssetNotFound)));
}
