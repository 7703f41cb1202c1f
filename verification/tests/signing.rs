use ethers::signers::Signer;
use ethers::types::transaction::eip712::{Eip712, TypedData};
use ethers::types::{Signature, H256, U256};
use hyperliquid_ws::error::Error;
use hyperliquid_ws::helpers::H160;
use hyperliquid_ws::signature::{
    action_octets, agent_octets, connection_id, domain_octets, l1_action_hash, sign_l1_action,
    typed_data_octets, LocalWallet,
};

fn hex(octets: &[u8]) -> String {
    octets.iter().map(|octet| format!("{:02x}", octet)).collect()
}

fn text(octets: &mut Vec<u8>, text: &str) {
    octets.push(0xa0 + text.len() as u8);
    octets.extend_from_slice(text.as_bytes());
}

/// An order to buy, as MessagePack.
fn order_octets() -> Vec<u8> {
    let mut octets = vec![0x83];
    text(&mut octets, "type");
    text(&mut octets, "order");
    text(&mut octets, "orders");
    octets.extend_from_slice(&[0x91, 0x86]);
    text(&mut octets, "a");
    octets.push(1);
    text(&mut octets, "b");
    octets.push(0xc3);
    text(&mut octets, "p");
    text(&mut octets, "2000.0");
    text(&mut octets, "s");
    text(&mut octets, "3.5");
    text(&mut octets, "r");
    octets.push(0xc2);
    text(&mut octets, "t");
    octets.push(0x81);
    text(&mut octets, "limit");
    octets.push(0x81);
    text(&mut octets, "tif");
    text(&mut octets, "Ioc");
    text(&mut octets, "grouping");
    text(&mut octets, "na");
    octets
}

fn agent(connection_id: [u8; 32], source: &str) -> TypedData {
    let json = format!(
        r#"{{
            "types": {{
                "EIP712Domain": [
                    {{"name": "name", "type": "string"}},
                    {{"name": "version", "type": "string"}},
                    {{"name": "chainId", "type": "uint256"}},
                    {{"name": "verifyingContract", "type": "address"}}
                ],
                "Agent": [
                    {{"name": "source", "type": "string"}},
                    {{"name": "connectionId", "type": "bytes32"}}
                ]
            }},
            "primaryType": "Agent",
            "domain": {{
                "name": "Exchange",
                "version": "1",
                "chainId": 1337,
                "verifyingContract": "0x0000000000000000000000000000000000000000"
            }},
            "message": {{"source": "{}", "connectionId": "0x{}"}}
        }}"#,
        source,
        hex(&connection_id)
    );
    serde_json::from_str(&json).unwrap()
}

#[test]
fn hash_of_an_order() {
    let hash = connection_id(&order_octets(), 1583838, None);
    assert_eq!(hex(&hash), "5983a9453b8d32668daefa9310e1a81bc1f4d7da50a9ad8869a4011d12068ea0");
}

#[test]
fn hash_of_an_order_for_a_vault() {
    let vault = H160 { bytes: [0x22; 20] };
    let hash = connection_id(&order_octets(), 1583838, Some(vault));
    assert_eq!(hex(&hash), "cb381fbabd33082d855806c47e3d4a79034883cdae45045fcea422e99c3874c9");
}

#[test]
fn hash_is_taken_of_the_framed_octets() {
    let nonce: u64 = 0x0102_0304_0506_0708;
    let framed = [0xaa, 0xbb, 1, 2, 3, 4, 5, 6, 7, 8, 0];
    assert_eq!(connection_id(&[0xaa, 0xbb], nonce, None), ethers::utils::keccak256(framed));
    let mut framed = vec![0xaa, 0xbb, 1, 2, 3, 4, 5, 6, 7, 8, 1];
    framed.extend_from_slice(&[9; 20]);
    let vault = Some(H160 { bytes: [9; 20] });
    assert_eq!(connection_id(&[0xaa, 0xbb], nonce, vault), ethers::utils::keccak256(&framed));
}

#[test]
fn octets_of_an_action() {
    let octets = action_octets(&[0xaa], 0x0102_0304_0506_0708, None);
    assert_eq!(octets, vec![0xaa, 1, 2, 3, 4, 5, 6, 7, 8, 0]);
    let octets = action_octets(&[], u64::MAX, Some(H160 { bytes: [9; 20] }));
    assert_eq!(octets[..9], [255, 255, 255, 255, 255, 255, 255, 255, 1]);
    assert_eq!(octets[9..], [9; 20]);
}

#[test]
fn octets_of_the_typed_data() {
    let domain = domain_octets([1; 32], [2; 32], [3; 32]);
    assert_eq!(domain.len(), 160);
    assert_eq!(domain[..32], [1; 32]);
    assert_eq!(domain[32..64], [2; 32]);
    assert_eq!(domain[64..96], [3; 32]);
    assert_eq!(domain[96..126], [0; 30]);
    assert_eq!(domain[126..128], [0x05, 0x39]);
    assert_eq!(domain[128..], [0; 32]);
    let agent = agent_octets([4; 32], [5; 32], [6; 32]);
    assert_eq!(agent, [[4; 32], [5; 32], [6; 32]].concat());
    let typed = typed_data_octets([7; 32], [8; 32]);
    assert_eq!(typed[..2], [0x19, 0x01]);
    assert_eq!(typed[2..], [[7; 32], [8; 32]].concat());
}

#[test]
fn nonce_and_vault_change_the_hash() {
    let plain = connection_id(&[1, 2, 3], 7, None);
    assert_ne!(plain, connection_id(&[1, 2, 3], 8, None));
    assert_ne!(plain, connection_id(&[1, 2, 3], 7, Some(H160 { bytes: [0; 20] })));
}

#[test]
fn signed_hash_is_that_of_the_typed_data() {
    let id = connection_id(&order_octets(), 1583838, None);
    assert_eq!(l1_action_hash(id, true), agent(id, "a").encode_eip712().unwrap());
    assert_eq!(l1_action_hash(id, false), agent(id, "b").encode_eip712().unwrap());
}

#[test]
fn signature_of_an_order() {
    let wallet = LocalWallet { key: [0x11; 32] };
    let id = connection_id(&order_octets(), 1583838, None);
    let main = sign_l1_action(&wallet, id, true).unwrap();
    assert_eq!(hex(&main.r), "0f2aaa65ac45443116fbe5be50e408d33265a6f1c851211d84d0a362c9d6c162");
    assert_eq!(hex(&main.s), "51c80c8e1d7cc45be0a5a2a6faf9a791e0562ef35f60750c1847945baeaa5ec9");
    assert_eq!(main.v, 28);
    let test = sign_l1_action(&wallet, id, false).unwrap();
    assert_eq!(hex(&test.r), "39fb28f077ea1a26c9532272f51fe77f9b16faef03beb08544c6daf406a33106");
    assert_eq!(hex(&test.s), "384bd113608f09bc9bbc6971e4f5371e0ce32e079a4362b4825992c13a2640b0");
    assert_eq!(test.v, 27);
}

#[test]
fn signature_is_the_wallets() {
    let key = [0x5a; 32];
    let id = [0xc3; 32];
    let signed = sign_l1_action(&LocalWallet { key }, id, true).unwrap();
    let signature = Signature {
        r: U256::from_big_endian(&signed.r),
        s: U256::from_big_endian(&signed.s),
        v: signed.v,
    };
    let address = ethers::signers::LocalWallet::from_bytes(&key).unwrap().address();
    assert_eq!(signature.recover(H256(l1_action_hash(id, true))).unwrap(), address);
}

#[test]
fn a_key_out_of_range_does_not_sign() {
    let wallet = LocalWallet { key: [0; 32] };
    match sign_l1_action(&wallet, [1; 32], true) {
        Err(Error::SignatureFailure(reason)) => assert!(!reason.is_empty()),
        other => panic!("{:?}", other),
    }
}
