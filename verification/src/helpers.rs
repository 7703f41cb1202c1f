//! Identifiers and their text on the wire.

use vstd::prelude::*;

verus! {

/// The octets of a UUID, first to last.
#[derive(Debug, Clone, Copy, PartialEq, Eq)]
pub struct Uuid {
    pub bytes: [u8; 16],
}

/// An Ethereum address: twenty octets.
#[derive(Debug, Clone, Copy, PartialEq, Eq)]
pub struct H160 {
    pub bytes: [u8; 20],
}

/// The hexadecimal digit of `n`, in lower case.
pub open spec fn hex_digit(n: int) -> char
    recommends
        0 <= n < 16,
{
    if n < 10 {
        (48 + n) as char
    } else {
        (87 + n) as char
    }
}

/// Each octet as two hexadecimal digits, the high one first.
pub open spec fn hex_text(bytes: Seq<u8>) -> Seq<char> {
    Seq::new(
        2 * bytes.len(),
        |i: int|
            if i % 2 == 0 {
                hex_digit(bytes[i / 2] as int / 16)
            } else {
                hex_digit(bytes[i / 2] as int % 16)
            },
    )
}

/// The text under which the exchange knows a client order id: `0x` and the octets.
pub open spec fn uuid_text(uuid: Uuid) -> Seq<char> {
    "0x"@ + hex_text(uuid.bytes@)
}

fn hex_digit_text(n: u8) -> (text: &'static str)
    requires
        n < 16,
    ensures
        text@ == seq![hex_digit(n as int)],
{
    proof {
        reveal_strlit("0");
        reveal_strlit("1");
        reveal_strlit("2");
        reveal_strlit("3");
        reveal_strlit("4");
        reveal_strlit("5");
        reveal_strlit("6");
        reveal_strlit("7");
        reveal_strlit("8");
        reveal_strlit("9");
        reveal_strlit("a");
        reveal_strlit("b");
        reveal_strlit("c");
        reveal_strlit("d");
        reveal_strlit("e");
        reveal_strlit("f");
    }
    match n {
        0 => "0",
        1 => "1",
        2 => "2",
        3 => "3",
        4 => "4",
        5 => "5",
        6 => "6",
        7 => "7",
        8 => "8",
        9 => "9",
        10 => "a",
        11 => "b",
        12 => "c",
        13 => "d",
        14 => "e",
        _ => "f",
    }
}

/// Writes the octets of `uuid` as a hexadecimal number.
pub fn uuid_to_hex_string(uuid: Uuid) -> (text: String)
    ensures
        text@ == uuid_text(uuid),
{
    let mut text = "0x".to_owned();
    let ghost bytes = uuid.bytes@;
    let mut i: usize = 0;
    while i < 16
        invariant
            i <= 16,
            bytes == uuid.bytes@,
            text@ == "0x"@ + hex_text(bytes.take(i as int)),
        decreases 16 - i,
    {
        let byte: u8 = uuid.bytes[i];
        text.append(hex_digit_text(byte / 16));
        text.append(hex_digit_text(byte % 16));
        proof {
            let digits = seq![hex_digit(byte as int / 16), hex_digit(byte as int % 16)];
            assert(hex_text(bytes.take(i + 1)) =~= hex_text(bytes.take(i as int)) + digits);
        }
        i += 1;
    }
    assert(bytes.take(16) == bytes);
    text
}

/// Octets that differ have texts that differ.
pub proof fn hex_text_injective(a: Seq<u8>, b: Seq<u8>)
    requires
        hex_text(a) == hex_text(b),
    ensures
        a == b,
{
    assert(hex_text(a).len() == 2 * a.len());
    assert(hex_text(b).len() == 2 * b.len());
    assert forall|i: int| 0 <= i < a.len() implies a[i] == b[i] by {
        assert((2 * i) / 2 == i && (2 * i + 1) / 2 == i);
        assert(hex_text(a)[2 * i] == hex_digit(a[i] as int / 16));
        assert(hex_text(b)[2 * i] == hex_digit(b[i] as int / 16));
        assert(hex_text(a)[2 * i + 1] == hex_digit(a[i] as int % 16));
        assert(hex_text(b)[2 * i + 1] == hex_digit(b[i] as int % 16));
    }
    assert(a =~= b);
}

/// The text of a client order id is `0x` and thirty-two hexadecimal digits in lower
/// case.
pub proof fn law_client_id_text_is_hex(uuid: Uuid)
    ensures
        uuid_text(uuid).len() == 34,
        uuid_text(uuid).take(2) == "0x"@,
        forall|i: int|
            2 <= i < 34 ==> {
                let digit = #[trigger] uuid_text(uuid)[i];
                '0' <= digit <= '9' || 'a' <= digit <= 'f'
            },
{
    reveal_strlit("0x");
    assert(uuid_text(uuid).take(2) =~= "0x"@);
    assert forall|i: int| 2 <= i < 34 implies {
        let digit = #[trigger] uuid_text(uuid)[i];
        '0' <= digit <= '9' || 'a' <= digit <= 'f'
    } by {
        assert(uuid_text(uuid)[i] == hex_text(uuid.bytes@)[i - 2]);
    }
}

/// The digits after `0x` are those of the octets, first to last, two for each and the high
/// one first.
pub proof fn law_client_id_text_has_each_octet(uuid: Uuid, i: int)
    requires
        0 <= i < 16,
    ensures
        uuid_text(uuid)[2 + 2 * i] == "0123456789abcdef"@[uuid.bytes@[i] as int / 16],
        uuid_text(uuid)[3 + 2 * i] == "0123456789abcdef"@[uuid.bytes@[i] as int % 16],
{
    reveal_strlit("0x");
    reveal_strlit("0123456789abcdef");
    assert((2 * i) / 2 == i && (2 * i + 1) / 2 == i);
    assert(uuid_text(uuid)[2 + 2 * i] == hex_text(uuid.bytes@)[2 * i]);
    assert(uuid_text(uuid)[3 + 2 * i] == hex_text(uuid.bytes@)[2 * i + 1]);
}

/// A client order id is written as `0x` and the digits of its octets.
pub proof fn law_client_id_is_written_in_hex(uuid: Uuid, text: String, i: int)
    requires
        call_ensures(uuid_to_hex_string, (uuid,), text),
        0 <= i < 16,
    ensures
        text@.len() == 34,
        text@.take(2) == "0x"@,
        text@[2 + 2 * i] == "0123456789abcdef"@[uuid.bytes@[i] as int / 16],
        text@[3 + 2 * i] == "0123456789abcdef"@[uuid.bytes@[i] as int % 16],
{
    law_client_id_text_is_hex(uuid);
    law_client_id_text_has_each_octet(uuid, i);
}

} // verus!
