use hyperliquid_ws::base_url::BaseUrl;
use hyperliquid_ws::error::Error;
use hyperliquid_ws::exchange::actions::{Actions, BulkCancel};
use hyperliquid_ws::exchange::cancel::CancelRequest;
use hyperliquid_ws::exchange::requests::RequestTable;
use hyperliquid_ws::exchange::ws_exchange::{
    open, request_sent, response_received, HashedAction, OpeningStep, SignedAction,
    WsExchangeClient,
};
use hyperliquid_ws::helpers::H160;
use hyperliquid_ws::meta::Meta;
use hyperliquid_ws::signature::{connection_id, sign_l1_action, LocalWallet};

const VAULT: H160 = H160 { bytes: [6; 20] };

fn opened(base_url: BaseUrl) -> (WsExchangeClient, RequestTable<char>) {
    let target = match open(Some(base_url), Some(Meta { universe: vec![] })) {
        OpeningStep::Connect(target) => target,
        OpeningStep::FetchMeta(_) => unreachable!(),
    };
    let wallet = LocalWallet { key: [7; 32] };
    WsExchangeClient::new(wallet, target, Some(VAULT), Ok(())).ok().unwrap()
}

fn cancel(oid: u64) -> Actions {
    Actions::Cancel(BulkCancel { cancels: vec![CancelRequest { asset: 2, oid }] })
}

fn hashed(client: &WsExchangeClient) -> HashedAction {
    client.draft_action(cancel(5), 1000).hash(Ok(vec![1, 2, 3])).ok().unwrap()
}

fn signed(client: &WsExchangeClient) -> SignedAction {
    hashed(client).sign(&client.wallet).ok().unwrap()
}

fn failed<T>(step: Result<T, Error>) -> Error {
    match step {
        Ok(_) => panic!("the step goes on"),
        Err(error) => error,
    }
}

#[test]
fn another_wallet_may_sign() {
    let (client, _) = opened(BaseUrl::Testnet);
    assert_eq!(client.signing_wallet(None).key, [7; 32]);
    let other = LocalWallet { key: [8; 32] };
    assert_eq!(client.signing_wallet(Some(&other)).key, [8; 32]);
}

#[test]
fn a_draft_is_for_the_clients_vault_and_network() {
    let (client, _) = opened(BaseUrl::Mainnet);
    let draft = client.draft_action(cancel(5), 1000);
    assert_eq!(draft.nonce, 1000);
    assert_eq!(draft.vault_address, Some(VAULT));
    assert!(draft.is_mainnet);
    assert!(!opened(BaseUrl::Testnet).0.draft_action(cancel(5), 1000).is_mainnet);
}

#[test]
fn an_action_is_hashed_and_signed() {
    let (client, _) = opened(BaseUrl::Testnet);
    let hashed = hashed(&client);
    assert_eq!(hashed.connection_id, connection_id(&[1, 2, 3], 1000, Some(VAULT)));
    let expected = sign_l1_action(&client.wallet, hashed.connection_id, false).unwrap();
    let signed = hashed.sign(&client.wallet).ok().unwrap();
    assert_eq!(signed.signature.r, expected.r);
    assert_eq!(signed.signature.s, expected.s);
    assert_eq!(signed.signature.v, expected.v);
}

#[test]
fn an_action_that_cannot_be_hashed_or_signed() {
    let (client, _) = opened(BaseUrl::Testnet);
    let error = failed(client.draft_action(cancel(5), 1000).hash(Err("too deep".to_string())));
    assert!(matches!(error, Error::RmpParse(reason) if reason == "too deep"));
    let zero = LocalWallet { key: [0; 32] };
    assert!(matches!(failed(hashed(&client).sign(&zero)), Error::SignatureFailure(_)));
    let reason = Err(Error::SignatureFailure("locked".to_string()));
    let error = failed(hashed(&client).signed(reason));
    assert!(matches!(error, Error::SignatureFailure(reason) if reason == "locked"));
}

#[test]
fn a_request_from_draft_to_reply() {
    let (client, mut table) = opened(BaseUrl::Testnet);
    let signed = signed(&client);
    let signature = signed.signature;
    let numbered = signed.action_encoded(Ok(()), &mut table).ok().unwrap();
    assert_eq!(numbered.id, 1);
    assert_eq!(numbered.payload.nonce, 1000);
    assert_eq!(numbered.payload.vault_address, Some(VAULT));
    assert_eq!(numbered.payload.signature.r, signature.r);
    match &numbered.payload.action {
        Actions::Cancel(bulk) => assert_eq!(bulk.cancels[0].oid, 5),
        other => panic!("{:?}", other),
    }
    let post = numbered.payload_encoded(Ok("payload")).ok().unwrap();
    assert_eq!(post.method, "post");
    assert_eq!(post.id, 1);
    assert_eq!(post.request.req_type, "action");
    assert_eq!(post.request.payload, "payload");
    let text = post.request_encoded(Ok("{}".to_string()), 's', &mut table).unwrap();
    assert_eq!(text, "{}");
    assert!(request_sent(Ok(())).is_ok());
    assert_eq!(table.take(1), Some('s'));
    assert!(matches!(response_received(Ok(Ok(11))), Ok(11)));
}

#[test]
fn calls_at_one_time_do_not_collide() {
    let (client, mut table) = opened(BaseUrl::Testnet);
    let first = signed(&client).action_encoded(Ok(()), &mut table).ok().unwrap();
    let second = signed(&client).action_encoded(Ok(()), &mut table).ok().unwrap();
    let first = first.payload_encoded(Ok(())).ok().unwrap();
    let second = second.payload_encoded(Ok(())).ok().unwrap();
    assert_ne!(first.id, second.id);
    let (first_id, second_id) = (first.id, second.id);
    second.request_encoded(Ok("2".to_string()), 'b', &mut table).unwrap();
    first.request_encoded(Ok("1".to_string()), 'a', &mut table).unwrap();
    assert_eq!(table.take(second_id), Some('b'));
    assert_eq!(table.take(first_id), Some('a'));
    assert!(table.close::<()>().is_empty());
}

#[test]
fn an_action_that_cannot_be_written_uses_no_number() {
    let (client, mut table) = opened(BaseUrl::Testnet);
    let error = failed(signed(&client).action_encoded(Err("bad key".to_string()), &mut table));
    assert!(matches!(error, Error::JsonParse(reason) if reason == "bad key"));
    assert_eq!(table.generate_req_id(), 1);
}

#[test]
fn a_payload_that_cannot_be_written() {
    let (client, mut table) = opened(BaseUrl::Testnet);
    let numbered = signed(&client).action_encoded(Ok(()), &mut table).ok().unwrap();
    let error = failed(numbered.payload_encoded::<()>(Err("bad payload".to_string())));
    assert!(matches!(error, Error::JsonParse(reason) if reason == "bad payload"));
    assert_eq!(table.generate_req_id(), 2);
}

#[test]
fn a_request_that_cannot_be_written_does_not_wait() {
    let (client, mut table) = opened(BaseUrl::Testnet);
    let numbered = signed(&client).action_encoded(Ok(()), &mut table).ok().unwrap();
    let post = numbered.payload_encoded(Ok(())).ok().unwrap();
    let error = failed(post.request_encoded(Err("bad request".to_string()), 's', &mut table));
    assert!(matches!(error, Error::JsonParse(reason) if reason == "bad request"));
    assert_eq!(table.take(1), None);
}

#[test]
fn a_request_that_cannot_be_sent() {
    let error = failed(request_sent(Err("broken pipe".to_string())));
    assert!(matches!(error, Error::Websocket(text) if text == "Send error: broken pipe"));
}

#[test]
fn a_reply_that_never_comes() {
    let outcome = response_received::<u8>(Err("channel closed".to_string()));
    let error = failed(outcome);
    assert!(
        matches!(error, Error::Websocket(text) if text == "Oneshot recv error: channel closed")
    );
    let refused = response_received::<u8>(Ok(Err(Error::JsonParse("no".to_string()))));
    assert!(matches!(failed(refused), Error::JsonParse(text) if text == "no"));
}
