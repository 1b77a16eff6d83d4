//! Hardware addresses and their colon-separated hexadecimal text form.

use vstd::prelude::*;

verus! {

/// A 6-byte hardware (MAC) address.
#[derive(Clone, Copy, Debug, PartialEq, Eq, Structural)]
pub struct MacAddr(pub u8, pub u8, pub u8, pub u8, pub u8, pub u8);

/// The address whose octets are the six bytes of `b`, in order.
pub open spec fn mac_of(b: Seq<u8>) -> MacAddr {
    MacAddr(b[0], b[1], b[2], b[3], b[4], b[5])
}

/// The lowercase hexadecimal digit of a value below 16.
pub open spec fn hex_char(n: int) -> char {
    seq!['0', '1', '2', '3', '4', '5', '6', '7', '8', '9', 'a', 'b', 'c', 'd', 'e', 'f'][n]
}

/// The value of a lowercase hexadecimal digit (16 for any other character).
pub open spec fn hex_value(c: char) -> int {
    if '0' <= c && c <= '9' {
        c as int - '0' as int
    } else if 'a' <= c && c <= 'f' {
        c as int - 'a' as int + 10
    } else {
        16
    }
}

/// Two lowercase hexadecimal digits for one byte, high nibble first.
pub open spec fn byte_hex(b: u8) -> Seq<char> {
    seq![hex_char(b as int / 16), hex_char(b as int % 16)]
}

/// The colon-separated hexadecimal text of a byte sequence.
pub open spec fn mac_text(b: Seq<u8>) -> Seq<char>
    decreases b.len(),
{
    if b.len() == 0 {
        Seq::empty()
    } else if b.len() == 1 {
        byte_hex(b[0])
    } else {
        mac_text(b.drop_last()) + seq![':'] + byte_hex(b.last())
    }
}

/// Reads `raw` as a 6-byte address; any other length gives `None`.
pub fn parse_as_mac(raw: &[u8]) -> (r: Option<MacAddr>)
    ensures
        r == (if raw@.len() == 6 {
            Some(mac_of(raw@))
        } else {
            None::<MacAddr>
        }),
{
    if raw.len() == 6 {
        Some(MacAddr(raw[0], raw[1], raw[2], raw[3], raw[4], raw[5]))
    } else {
        None
    }
}

/// Each hexadecimal digit reads back as its value and is no colon.
pub proof fn lemma_hex_char(n: int)
    requires
        0 <= n < 16,
    ensures
        hex_value(hex_char(n)) == n,
        hex_char(n) != ':',
{
    let digits = seq!['0', '1', '2', '3', '4', '5', '6', '7', '8', '9', 'a', 'b', 'c', 'd', 'e', 'f'];
    assert(digits[0] == '0' && digits[1] == '1' && digits[2] == '2' && digits[3] == '3');
    assert(digits[4] == '4' && digits[5] == '5' && digits[6] == '6' && digits[7] == '7');
    assert(digits[8] == '8' && digits[9] == '9' && digits[10] == 'a' && digits[11] == 'b');
    assert(digits[12] == 'c' && digits[13] == 'd' && digits[14] == 'e' && digits[15] == 'f');
}

/// The text of `N >= 1` bytes has `3N - 1` characters; the colons stand
/// exactly at the positions `3i + 2`, so there are `N - 1` of them; and the
/// two digits at `3i` and `3i + 1` read back as byte `i`.
pub proof fn lemma_mac_text_shape(b: Seq<u8>)
    requires
        b.len() >= 1,
    ensures
        mac_text(b).len() == 3 * b.len() - 1,
        forall|j: int| 0 <= j < mac_text(b).len() ==> (#[trigger] mac_text(b)[j] == ':' <==> j % 3 == 2),
        forall|i: int|
            0 <= i < b.len() ==> hex_value(#[trigger] mac_text(b)[3 * i]) * 16 + hex_value(
                mac_text(b)[3 * i + 1],
            ) == b[i] as int,
    decreases b.len(),
{
    let t = mac_text(b);
    let n = b.len() as int;
    let last = b.last();
    lemma_hex_char(last as int / 16);
    lemma_hex_char(last as int % 16);
    if n == 1 {
        assert forall|j: int| 0 <= j < t.len() implies (#[trigger] t[j] == ':' <==> j % 3 == 2) by {
        }
        assert forall|i: int| 0 <= i < n implies hex_value(#[trigger] t[3 * i]) * 16 + hex_value(
            t[3 * i + 1],
        ) == b[i] as int by {
            assert(i == 0);
        }
    } else {
        let p = b.drop_last();
        let u = mac_text(p);
        lemma_mac_text_shape(p);
        assert(t == u + seq![':'] + byte_hex(last));
        assert forall|j: int| 0 <= j < t.len() implies (#[trigger] t[j] == ':' <==> j % 3 == 2) by {
            if j < u.len() {
                assert(t[j] == u[j]);
            } else if j == u.len() {
                assert(t[j] == ':');
            } else {
                assert(t[j] == byte_hex(last)[j - u.len() - 1]);
            }
        }
        assert forall|i: int| 0 <= i < n implies hex_value(#[trigger] t[3 * i]) * 16 + hex_value(
            t[3 * i + 1],
        ) == b[i] as int by {
            if i < n - 1 {
                assert(3 * i + 1 < u.len());
                assert(t[3 * i] == u[3 * i]);
                assert(t[3 * i + 1] == u[3 * i + 1]);
                assert(p[i] == b[i]);
            } else {
                assert(t[3 * i] == byte_hex(last)[0]);
                assert(t[3 * i + 1] == byte_hex(last)[1]);
            }
        }
    }
}

fn hex_digit(n: u8) -> (r: &'static str)
    requires
        n < 16,
    ensures
        r@ == seq![hex_char(n as int)],
{
    proof {
        reveal_strlit("0");
        reveal_strlit("1");
        reveal_strlit("2");
        reveal_strlit("3");
        reveal_strlit("4");
        reveal_strlit("5");
        reveal_strlit("6");
        reveal_strlit("7");
        reveal_strlit("8");
        reveal_strlit("9");
        reveal_strlit("a");
        reveal_strlit("b");
        reveal_strlit("c");
        reveal_strlit("d");
        reveal_strlit("e");
        reveal_strlit("f");
    }
    match n {
        0 => "0",
        1 => "1",
        2 => "2",
        3 => "3",
        4 => "4",
        5 => "5",
        6 => "6",
        7 => "7",
        8 => "8",
        9 => "9",
        10 => "a",
        11 => "b",
        12 => "c",
        13 => "d",
        14 => "e",
        _ => "f",
    }
}

/// Renders `raw` as two lowercase hexadecimal digits per byte, with a
/// single colon between consecutive bytes.
pub fn mac2str(raw: &[u8]) -> (r: String)
    requires
        raw@.len() >= 1,
    ensures
        r@ == mac_text(raw@),
{
    let mut acc = String::new();
    let mut i: usize = 0;
    while i < raw.len()
        invariant
            i <= raw@.len(),
            acc@ == mac_text(raw@.subrange(0, i as int)),
        decreases raw@.len() - i,
    {
        let item = raw[i];
        if i > 0 {
            acc.append(":");
        }
        acc.append(hex_digit(item / 16));
        acc.append(hex_digit(item % 16));
        proof {
            reveal_strlit(":");
            let pre = raw@.subrange(0, i as int);
            let cur = raw@.subrange(0, i + 1);
            assert(cur.drop_last() =~= pre);
            assert(cur.last() == item);
        }
        i = i + 1;
    }
    proof {
        assert(raw@.subrange(0, raw@.len() as int) =~= raw@);
    }
    acc
}

} // verus!
