//! What a wallet signs so that the exchange takes an action.

use vstd::prelude::*;
use vstd::utf8::encode_utf8;

use crate::error::{Error, ErrorView};
use crate::helpers::H160;

verus! {

/// A wallet: the private key that signs, as a number in big-endian octets.
pub struct LocalWallet {
    pub key: [u8; 32],
}

/// A recoverable ECDSA signature. `r` and `s` are numbers in big-endian octets.
#[derive(Debug, Clone, Copy)]
pub struct Signature {
    pub r: [u8; 32],
    pub s: [u8; 32],
    pub v: u64,
}

/// The signature (`r`, `s` and `v`) of `hash` with the private key `key`, or why there is
/// none.
pub uninterp spec fn ecdsa_signature(key: Seq<u8>, hash: Seq<u8>) -> Result<
    (Seq<u8>, Seq<u8>, u64),
    Seq<char>,
>;

/// The numbers of a signature, or why there is none.
pub open spec fn signature_view(signature: Result<Signature, String>) -> Result<
    (Seq<u8>, Seq<u8>, u64),
    Seq<char>,
> {
    match signature {
        Ok(signature) => Ok((signature.r@, signature.s@, signature.v)),
        Err(reason) => Err(reason@),
    }
}

/// Makes an `ethers::signers::LocalWallet` of `key` and calls its `sign_hash`. The
/// signature is deterministic: it, or the text of the error, depends on `key` and `hash`
/// alone; `ecdsa_signature` names it.
#[verifier::external_body]
fn sign_hash(key: &[u8; 32], hash: &[u8; 32]) -> (signature: Result<Signature, String>)
    ensures
        signature_view(signature) == ecdsa_signature(key@, hash@),
{
    let wallet = ethers::signers::LocalWallet::from_bytes(key).map_err(|e| e.to_string())?;
    let signed = wallet.sign_hash(ethers::types::H256(*hash)).map_err(|e| e.to_string())?;
    let (mut r, mut s) = ([0u8; 32], [0u8; 32]);
    signed.r.to_big_endian(&mut r);
    signed.s.to_big_endian(&mut s);
    Ok(Signature { r, s, v: signed.v })
}

/// The Keccak-256 hash of `data`.
pub uninterp spec fn keccak256_digest(data: Seq<u8>) -> Seq<u8>;

/// Calls `ethers::utils::keccak256`. The thirty-two octets that it returns depend on
/// `data` alone; `keccak256_digest` names them.
#[verifier::external_body]
fn keccak256(data: &[u8]) -> (digest: [u8; 32])
    ensures
        digest@ == keccak256_digest(data@),
{
    ethers::utils::keccak256(data)
}

/// The octets of `n`, the most significant first.
pub open spec fn big_endian(n: u64) -> Seq<u8> {
    seq![
        (n / 0x100_0000_0000_0000 % 256) as u8,
        (n / 0x1_0000_0000_0000 % 256) as u8,
        (n / 0x100_0000_0000 % 256) as u8,
        (n / 0x1_0000_0000 % 256) as u8,
        (n / 0x100_0000 % 256) as u8,
        (n / 0x1_0000 % 256) as u8,
        (n / 0x100 % 256) as u8,
        (n % 256) as u8,
    ]
}

/// What the hash of an action is taken of: the action, the nonce, and the vault that it
/// is for, if any.
pub open spec fn hashed_octets(action: Seq<u8>, nonce: u64, vault_address: Option<H160>) -> Seq<
    u8,
> {
    action + big_endian(nonce) + match vault_address {
        Some(address) => seq![1u8] + address.bytes@,
        None => seq![0u8],
    }
}

fn append_big_endian(octets: &mut Vec<u8>, n: u64)
    ensures
        final(octets)@ == old(octets)@ + big_endian(n),
{
    octets.push((n / 0x100_0000_0000_0000 % 256) as u8);
    octets.push((n / 0x1_0000_0000_0000 % 256) as u8);
    octets.push((n / 0x100_0000_0000 % 256) as u8);
    octets.push((n / 0x1_0000_0000 % 256) as u8);
    octets.push((n / 0x100_0000 % 256) as u8);
    octets.push((n / 0x1_0000 % 256) as u8);
    octets.push((n / 0x100 % 256) as u8);
    octets.push((n % 256) as u8);
}

/// What the hash of an action is taken of.
pub fn action_octets(action: &[u8], nonce: u64, vault_address: Option<H160>) -> (octets: Vec<u8>)
    ensures
        octets@ == hashed_octets(action@, nonce, vault_address),
{
    let mut octets: Vec<u8> = Vec::new();
    octets.extend_from_slice(action);
    append_big_endian(&mut octets, nonce);
    match vault_address {
        Some(address) => {
            octets.push(1);
            octets.extend_from_slice(address.bytes.as_slice());
        },
        None => {
            octets.push(0);
        },
    }
    assert(octets@ =~= hashed_octets(action@, nonce, vault_address));
    octets
}

/// The hash of an action that is written as MessagePack in `action`.
pub fn connection_id(action: &[u8], nonce: u64, vault_address: Option<H160>) -> (hash: [u8; 32])
    ensures
        hash@ == keccak256_digest(hashed_octets(action@, nonce, vault_address)),
{
    keccak256(action_octets(action, nonce, vault_address).as_slice())
}

/// The hash of a text's UTF-8 octets.
pub open spec fn text_digest(text: Seq<char>) -> Seq<u8> {
    keccak256_digest(encode_utf8(text))
}

/// `n` as a word of thirty-two octets.
pub open spec fn word(n: u64) -> Seq<u8> {
    Seq::new(24, |i: int| 0u8) + big_endian(n)
}

/// The members of the domain in which the exchange reads signatures, by the hashes of
/// the domain's type, name and version. Its chain is 1337, and it has no contract.
pub open spec fn domain_members(type_hash: Seq<u8>, name: Seq<u8>, version: Seq<u8>) -> Seq<u8> {
    type_hash + name + version + word(1337) + word(0)
}

/// The hash of the domain in which the exchange reads signatures.
pub open spec fn domain_separator() -> Seq<u8> {
    keccak256_digest(
        domain_members(
            text_digest(
                "EIP712Domain(string name,string version,uint256 chainId,address verifyingContract)"@,
            ),
            text_digest("Exchange"@),
            text_digest("1"@),
        ),
    )
}

/// The letter by which the exchange tells its networks apart.
pub open spec fn source(is_mainnet: bool) -> Seq<char> {
    if is_mainnet {
        "a"@
    } else {
        "b"@
    }
}

/// The hash of the agent that vouches for an action.
pub open spec fn agent_hash(connection_id: Seq<u8>, is_mainnet: bool) -> Seq<u8> {
    keccak256_digest(
        text_digest("Agent(string source,bytes32 connectionId)"@) + text_digest(source(is_mainnet))
            + connection_id,
    )
}

/// What the hash of typed data is taken of, by the hashes of its domain and its message.
pub open spec fn typed_data(domain: Seq<u8>, message: Seq<u8>) -> Seq<u8> {
    seq![0x19u8, 0x01u8] + domain + message
}

/// What the wallet signs for the action of the hash `connection_id`.
pub open spec fn signed_hash(connection_id: Seq<u8>, is_mainnet: bool) -> Seq<u8> {
    keccak256_digest(typed_data(domain_separator(), agent_hash(connection_id, is_mainnet)))
}

fn append_word(octets: &mut Vec<u8>, n: u64)
    ensures
        final(octets)@ == old(octets)@ + word(n),
{
    let zeros: [u8; 24] = [0; 24];
    octets.extend_from_slice(zeros.as_slice());
    append_big_endian(octets, n);
    assert(octets@ =~= old(octets)@ + word(n));
}

/// The members of the domain, by the hashes of its type, name and version.
pub fn domain_octets(type_hash: [u8; 32], name: [u8; 32], version: [u8; 32]) -> (octets: Vec<u8>)
    ensures
        octets@ == domain_members(type_hash@, name@, version@),
{
    let mut octets: Vec<u8> = Vec::new();
    octets.extend_from_slice(type_hash.as_slice());
    octets.extend_from_slice(name.as_slice());
    octets.extend_from_slice(version.as_slice());
    append_word(&mut octets, 1337);
    append_word(&mut octets, 0);
    assert(octets@ =~= domain_members(type_hash@, name@, version@));
    octets
}

/// The members of the agent, by the hashes of its type and its source.
pub fn agent_octets(type_hash: [u8; 32], source: [u8; 32], connection_id: [u8; 32]) -> (octets: Vec<
    u8,
>)
    ensures
        octets@ == type_hash@ + source@ + connection_id@,
{
    let mut octets: Vec<u8> = Vec::new();
    octets.extend_from_slice(type_hash.as_slice());
    octets.extend_from_slice(source.as_slice());
    octets.extend_from_slice(connection_id.as_slice());
    assert(octets@ =~= type_hash@ + source@ + connection_id@);
    octets
}

/// What the hash of typed data is taken of, by the hashes of its domain and its message.
pub fn typed_data_octets(domain: [u8; 32], message: [u8; 32]) -> (octets: Vec<u8>)
    ensures
        octets@ == typed_data(domain@, message@),
{
    let mut octets: Vec<u8> = Vec::new();
    octets.push(0x19);
    octets.push(0x01);
    octets.extend_from_slice(domain.as_slice());
    octets.extend_from_slice(message.as_slice());
    assert(octets@ =~= typed_data(domain@, message@));
    octets
}

fn text_hash(text: &str) -> (hash: [u8; 32])
    ensures
        hash@ == text_digest(text@),
{
    keccak256(text.as_bytes())
}

/// What the wallet signs for the action of the hash `connection_id`, by EIP-712.
pub fn l1_action_hash(connection_id: [u8; 32], is_mainnet: bool) -> (hash: [u8; 32])
    ensures
        hash@ == signed_hash(connection_id@, is_mainnet),
{
    let domain = domain_octets(
        text_hash(
            "EIP712Domain(string name,string version,uint256 chainId,address verifyingContract)",
        ),
        text_hash("Exchange"),
        text_hash("1"),
    );
    let source = if is_mainnet {
        "a"
    } else {
        "b"
    };
    let agent = agent_octets(
        text_hash("Agent(string source,bytes32 connectionId)"),
        text_hash(source),
        connection_id,
    );
    let octets = typed_data_octets(keccak256(domain.as_slice()), keccak256(agent.as_slice()));
    keccak256(octets.as_slice())
}

/// `signed` is what comes of signing the action of the hash `connection_id` with
/// `wallet`.
pub open spec fn signs_l1_action(
    wallet: LocalWallet,
    connection_id: Seq<u8>,
    is_mainnet: bool,
    signed: Result<Signature, Error>,
) -> bool {
    match (ecdsa_signature(wallet.key@, signed_hash(connection_id, is_mainnet)), signed) {
        (Ok((r, s, v)), Ok(signature)) => {
            signature.r@ == r && signature.s@ == s && signature.v == v
        },
        (Err(reason), Err(error)) => error@ == ErrorView::SignatureFailure(reason),
        _ => false,
    }
}

/// Signs the action of the hash `connection_id`.
pub fn sign_l1_action(wallet: &LocalWallet, connection_id: [u8; 32], is_mainnet: bool) -> (signed:
    Result<Signature, Error>)
    ensures
        signs_l1_action(*wallet, connection_id@, is_mainnet, signed),
{
    let hash = l1_action_hash(connection_id, is_mainnet);
    match sign_hash(&wallet.key, &hash) {
        Ok(signature) => Ok(signature),
        Err(reason) => Err(Error::SignatureFailure(reason)),
    }
}

/// The octets that are hashed of one action differ as soon as the nonce or the vault
/// does.
pub proof fn law_hash_binds_nonce_and_vault(
    action: Seq<u8>,
    nonce: u64,
    vault_address: Option<H160>,
    other_nonce: u64,
    other_vault_address: Option<H160>,
)
    requires
        hashed_octets(action, nonce, vault_address) == hashed_octets(
            action,
            other_nonce,
            other_vault_address,
        ),
    ensures
        nonce == other_nonce,
        vault_address == other_vault_address,
{
    let a = hashed_octets(action, nonce, vault_address);
    let b = hashed_octets(action, other_nonce, other_vault_address);
    let n = action.len() as int;
    assert(a.subrange(n, n + 8) =~= big_endian(nonce));
    assert(b.subrange(n, n + 8) =~= big_endian(other_nonce));
    assert forall|i: int| 0 <= i < 8 implies #[trigger] big_endian(nonce)[i] == big_endian(
        other_nonce,
    )[i] by {
        assert(a.subrange(n, n + 8)[i] == b.subrange(n, n + 8)[i]);
    }
    big_endian_injective(nonce, other_nonce);
    if let (Some(x), Some(y)) = (vault_address, other_vault_address) {
        assert(a.skip(n + 9) =~= x.bytes@);
        assert(b.skip(n + 9) =~= y.bytes@);
        assert(x.bytes =~= y.bytes);
    } else {
        assert(a[n + 8] == (if vault_address is Some {
            1u8
        } else {
            0u8
        }));
        assert(b[n + 8] == (if other_vault_address is Some {
            1u8
        } else {
            0u8
        }));
    }
}

proof fn big_endian_injective(a: u64, b: u64)
    requires
        big_endian(a) == big_endian(b),
    ensures
        a == b,
{
    let (x, y) = (big_endian(a), big_endian(b));
    assert(x[0] == y[0] && x[1] == y[1] && x[2] == y[2] && x[3] == y[3]);
    assert(x[4] == y[4] && x[5] == y[5] && x[6] == y[6] && x[7] == y[7]);
    assert(a == b) by (bit_vector)
        requires
            a / 0x100_0000_0000_0000 % 256 == b / 0x100_0000_0000_0000 % 256,
            a / 0x1_0000_0000_0000 % 256 == b / 0x1_0000_0000_0000 % 256,
            a / 0x100_0000_0000 % 256 == b / 0x100_0000_0000 % 256,
            a / 0x1_0000_0000 % 256 == b / 0x1_0000_0000 % 256,
            a / 0x100_0000 % 256 == b / 0x100_0000 % 256,
            a / 0x1_0000 % 256 == b / 0x1_0000 % 256,
            a / 0x100 % 256 == b / 0x100 % 256,
            a % 256 == b % 256,
    ;
}

/// The octets of a number are eight, and the number can be read back from them, the most
/// significant first.
pub proof fn law_octets_read_back(n: u64)
    ensures
        big_endian(n).len() == 8,
        big_endian(n)[0] * 0x100_0000_0000_0000 + big_endian(n)[1] * 0x1_0000_0000_0000
            + big_endian(n)[2] * 0x100_0000_0000 + big_endian(n)[3] * 0x1_0000_0000 + big_endian(
            n,
        )[4] * 0x100_0000 + big_endian(n)[5] * 0x1_0000 + big_endian(n)[6] * 0x100 + big_endian(
            n,
        )[7] == n,
{
    assert((n / 0x100_0000_0000_0000 % 256) * 0x100_0000_0000_0000 + (n / 0x1_0000_0000_0000 % 256)
        * 0x1_0000_0000_0000 + (n / 0x100_0000_0000 % 256) * 0x100_0000_0000 + (n / 0x1_0000_0000
        % 256) * 0x1_0000_0000 + (n / 0x100_0000 % 256) * 0x100_0000 + (n / 0x1_0000 % 256)
        * 0x1_0000 + (n / 0x100 % 256) * 0x100 + (n % 256) == n) by (bit_vector);
}

/// The hash of an action is taken of the whole action, whatever its length, then of the
/// nonce, then of the vault or of its absence, and of nothing else.
pub proof fn law_hash_covers_the_whole_action(
    action: Seq<u8>,
    nonce: u64,
    vault_address: Option<H160>,
)
    ensures
        ({
            let octets = hashed_octets(action, nonce, vault_address);
            let n = action.len() as int;
            &&& octets.take(n) == action
            &&& octets.subrange(n, n + 8) == big_endian(nonce)
            &&& match vault_address {
                Some(address) => {
                    &&& octets.len() == n + 29
                    &&& octets[n + 8] == 1
                    &&& octets.skip(n + 9) == address.bytes@
                },
                None => octets.len() == n + 9 && octets[n + 8] == 0,
            }
        }),
{
    let octets = hashed_octets(action, nonce, vault_address);
    let n = action.len() as int;
    assert(octets.take(n) =~= action);
    assert(octets.subrange(n, n + 8) =~= big_endian(nonce));
    if let Some(address) = vault_address {
        assert(octets.skip(n + 9) =~= address.bytes@);
    }
}

/// Of actions that are both for a vault, or both for none, the octets that are hashed
/// differ as soon as the action, the nonce or the vault does.
pub proof fn law_hash_tells_actions_apart(
    action: Seq<u8>,
    nonce: u64,
    vault_address: Option<H160>,
    other_action: Seq<u8>,
    other_nonce: u64,
    other_vault_address: Option<H160>,
)
    requires
        vault_address is Some <==> other_vault_address is Some,
        hashed_octets(action, nonce, vault_address) == hashed_octets(
            other_action,
            other_nonce,
            other_vault_address,
        ),
    ensures
        action == other_action,
        nonce == other_nonce,
        vault_address == other_vault_address,
{
    law_hash_covers_the_whole_action(action, nonce, vault_address);
    law_hash_covers_the_whole_action(other_action, other_nonce, other_vault_address);
    big_endian_injective(nonce, other_nonce);
    if let (Some(x), Some(y)) = (vault_address, other_vault_address) {
        assert(x.bytes =~= y.bytes);
    }
}

/// A word is twenty-four zeros and then the octets of its number.
pub proof fn law_word_is_padded_in_front(n: u64)
    ensures
        word(n).len() == 32,
        forall|i: int| 0 <= i < 24 ==> #[trigger] word(n)[i] == 0,
        word(n).skip(24) == big_endian(n),
{
    assert(word(n).skip(24) =~= big_endian(n));
}

/// The domain is its three hashes, one after the other, then the chain as a word, then a
/// word of zeros for the contract.
pub proof fn law_domain_members_are_in_their_places(
    type_hash: Seq<u8>,
    name: Seq<u8>,
    version: Seq<u8>,
)
    requires
        type_hash.len() == 32,
        name.len() == 32,
        version.len() == 32,
    ensures
        ({
            let members = domain_members(type_hash, name, version);
            &&& members.len() == 160
            &&& members.subrange(0, 32) == type_hash
            &&& members.subrange(32, 64) == name
            &&& members.subrange(64, 96) == version
            &&& members.subrange(96, 128) == word(1337)
            &&& forall|i: int| 128 <= i < 160 ==> #[trigger] members[i] == 0
        }),
{
    let members = domain_members(type_hash, name, version);
    assert(members.subrange(0, 32) =~= type_hash);
    assert(members.subrange(32, 64) =~= name);
    assert(members.subrange(64, 96) =~= version);
    assert(members.subrange(96, 128) =~= word(1337));
}

/// Typed data is its two marks, the hash of the domain and the hash of the message, both
/// whole.
pub proof fn law_typed_data_holds_both_hashes(domain: Seq<u8>, message: Seq<u8>)
    ensures
        ({
            let octets = typed_data(domain, message);
            let n = domain.len() as int;
            &&& octets.len() == 2 + n + message.len()
            &&& octets[0] == 0x19
            &&& octets[1] == 0x01
            &&& octets.subrange(2, 2 + n) == domain
            &&& octets.skip(2 + n) == message
        }),
{
    let n = domain.len() as int;
    assert(typed_data(domain, message).subrange(2, 2 + n) =~= domain);
    assert(typed_data(domain, message).skip(2 + n) =~= message);
}

/// What is signed is the EIP-712 hash of the agent that vouches for the action, in the
/// domain of the exchange: of the action's whole hash, and of `a` for the main network and
/// `b` for any other. The domain is one for all actions and networks.
pub proof fn law_signed_hash_is_that_of_the_agent(connection_id: Seq<u8>, is_mainnet: bool)
    ensures
        ({
            let domain = keccak256_digest(
                domain_members(
                    keccak256_digest(
                        encode_utf8(
                            "EIP712Domain(string name,string version,uint256 chainId,address verifyingContract)"@,
                        ),
                    ),
                    keccak256_digest(encode_utf8("Exchange"@)),
                    keccak256_digest(encode_utf8("1"@)),
                ),
            );
            let agent_type = keccak256_digest(
                encode_utf8("Agent(string source,bytes32 connectionId)"@),
            );
            let network = keccak256_digest(
                encode_utf8(
                    if is_mainnet {
                        "a"@
                    } else {
                        "b"@
                    },
                ),
            );
            signed_hash(connection_id, is_mainnet) == keccak256_digest(
                typed_data(domain, keccak256_digest(agent_type + network + connection_id)),
            )
        }),
{
}

/// An action is signed with the wallet's own key, over what is to be signed for its hash
/// and its network, and the signature is handed on whole. It is refused exactly if the key
/// cannot sign that, and then for that reason.
pub proof fn law_signature_is_the_wallets(
    wallet: LocalWallet,
    connection_id: Seq<u8>,
    is_mainnet: bool,
    signed: Result<Signature, Error>,
)
    requires
        signs_l1_action(wallet, connection_id, is_mainnet, signed),
    ensures
        match signed {
            Ok(signature) => ecdsa_signature(wallet.key@, signed_hash(connection_id, is_mainnet))
                == Ok::<(Seq<u8>, Seq<u8>, u64), Seq<char>>(
                (signature.r@, signature.s@, signature.v),
            ),
            Err(Error::SignatureFailure(reason)) => ecdsa_signature(
                wallet.key@,
                signed_hash(connection_id, is_mainnet),
            ) == Err::<(Seq<u8>, Seq<u8>, u64), Seq<char>>(reason@),
            Err(_) => false,
        },
{
}

/// The numbers of a signature are its own, each in its place.
pub proof fn law_view_keeps_the_signature(signature: Signature, reason: String)
    ensures
        signature_view(Ok(signature)) == Ok::<(Seq<u8>, Seq<u8>, u64), Seq<char>>(
            (signature.r@, signature.s@, signature.v),
        ),
        signature_view(Err(reason)) == Err::<(Seq<u8>, Seq<u8>, u64), Seq<char>>(reason@),
{
}

/// What is hashed of an action starts with the whole action, goes on with its nonce, and
/// ends with its vault: two calls give the same octets, for vaults both given or both
/// absent, only for the same action, nonce and vault.
pub proof fn law_hashed_octets_tell_actions_apart(
    action: &[u8],
    nonce: u64,
    vault_address: Option<H160>,
    octets: Vec<u8>,
    other_action: &[u8],
    other_nonce: u64,
    other_vault_address: Option<H160>,
    other_octets: Vec<u8>,
)
    requires
        call_ensures(action_octets, (action, nonce, vault_address), octets),
        call_ensures(
            action_octets,
            (other_action, other_nonce, other_vault_address),
            other_octets,
        ),
        vault_address is Some <==> other_vault_address is Some,
    ensures
        octets@.len() == action@.len() + 9 + (if vault_address is Some {
            20int
        } else {
            0int
        }),
        octets@.take(action@.len() as int) == action@,
        octets@.skip(action@.len() as int).take(8) == big_endian(nonce),
        octets@ == other_octets@ <==> action@ == other_action@ && nonce == other_nonce
            && vault_address == other_vault_address,
{
    let n = action@.len() as int;
    law_hash_covers_the_whole_action(action@, nonce, vault_address);
    assert(octets@.skip(n).take(8) =~= octets@.subrange(n, n + 8));
    if octets@ == other_octets@ {
        law_hash_tells_actions_apart(
            action@,
            nonce,
            vault_address,
            other_action@,
            other_nonce,
            other_vault_address,
        );
    }
}

/// The hash of an action is that of the octets that it is taken of.
pub proof fn law_action_hash_is_that_of_its_octets(
    action: &[u8],
    nonce: u64,
    vault_address: Option<H160>,
    octets: Vec<u8>,
    hash: [u8; 32],
)
    requires
        call_ensures(action_octets, (action, nonce, vault_address), octets),
        call_ensures(connection_id, (action, nonce, vault_address), hash),
    ensures
        hash@ == keccak256_digest(octets@),
{
}

/// What is signed is put together of the parts that are hashed: the domain of its three
/// hashes, the agent of its type, its network and the action's hash, each of them whole.
pub proof fn law_signed_parts_are_whole(
    type_hash: [u8; 32],
    name: [u8; 32],
    version: [u8; 32],
    domain: Vec<u8>,
    agent_type: [u8; 32],
    source_hash: [u8; 32],
    action_hash: [u8; 32],
    agent: Vec<u8>,
    domain_hash: [u8; 32],
    agent_digest: [u8; 32],
    octets: Vec<u8>,
)
    requires
        call_ensures(domain_octets, (type_hash, name, version), domain),
        call_ensures(agent_octets, (agent_type, source_hash, action_hash), agent),
        call_ensures(typed_data_octets, (domain_hash, agent_digest), octets),
    ensures
        domain@.len() == 160,
        domain@.subrange(0, 32) == type_hash@,
        domain@.subrange(32, 64) == name@,
        domain@.subrange(64, 96) == version@,
        domain@.subrange(96, 128) == word(1337),
        forall|i: int| 128 <= i < 160 ==> #[trigger] domain@[i] == 0,
        agent@.len() == 96,
        agent@.subrange(0, 32) == agent_type@,
        agent@.subrange(32, 64) == source_hash@,
        agent@.subrange(64, 96) == action_hash@,
        octets@.len() == 66,
        octets@[0] == 0x19,
        octets@[1] == 0x01,
        octets@.subrange(2, 34) == domain_hash@,
        octets@.subrange(34, 66) == agent_digest@,
{
    law_domain_members_are_in_their_places(type_hash@, name@, version@);
    law_typed_data_holds_both_hashes(domain_hash@, agent_digest@);
    assert(agent@.subrange(0, 32) =~= agent_type@);
    assert(agent@.subrange(32, 64) =~= source_hash@);
    assert(agent@.subrange(64, 96) =~= action_hash@);
    assert(octets@.subrange(34, 66) =~= agent_digest@);
}

/// A signature is the wallet's own, over the hash that is to be signed for the action and
/// the network. There is none exactly if the wallet cannot sign that hash.
pub proof fn law_wallet_signs_the_hash_of_the_action(
    wallet: LocalWallet,
    action_hash: [u8; 32],
    is_mainnet: bool,
    hash: [u8; 32],
    signed: Result<Signature, Error>,
)
    requires
        call_ensures(l1_action_hash, (action_hash, is_mainnet), hash),
        call_ensures(sign_l1_action, (&wallet, action_hash, is_mainnet), signed),
    ensures
        hash@ == signed_hash(action_hash@, is_mainnet),
        match (ecdsa_signature(wallet.key@, hash@), signed) {
            (Ok((r, s, v)), Ok(signature)) => {
                signature.r@ == r && signature.s@ == s && signature.v == v
            },
            (Err(reason), Err(Error::SignatureFailure(text))) => text@ == reason,
            _ => false,
        },
{
}

} // verus!
