//! The few pieces of text the protocol needs: hardware addresses, decimal
//! numbers and tracker ids.

use vstd::prelude::*;

verus! {

/// `String::push` appends one character.
pub assume_specification[ String::push ](s: &mut String, c: char)
    ensures
        final(s)@ == old(s)@.push(c),
;

/// The lowercase hexadecimal digit for a value below sixteen.
pub open spec fn spec_hex_digit(n: int) -> char {
    if n == 0 {
        '0'
    } else if n == 1 {
        '1'
    } else if n == 2 {
        '2'
    } else if n == 3 {
        '3'
    } else if n == 4 {
        '4'
    } else if n == 5 {
        '5'
    } else if n == 6 {
        '6'
    } else if n == 7 {
        '7'
    } else if n == 8 {
        '8'
    } else if n == 9 {
        '9'
    } else if n == 10 {
        'a'
    } else if n == 11 {
        'b'
    } else if n == 12 {
        'c'
    } else if n == 13 {
        'd'
    } else if n == 14 {
        'e'
    } else {
        'f'
    }
}

fn hex_digit(n: u8) -> (r: char)
    requires
        n < 16,
    ensures
        r == spec_hex_digit(n as int),
{
    if n == 0 {
        '0'
    } else if n == 1 {
        '1'
    } else if n == 2 {
        '2'
    } else if n == 3 {
        '3'
    } else if n == 4 {
        '4'
    } else if n == 5 {
        '5'
    } else if n == 6 {
        '6'
    } else if n == 7 {
        '7'
    } else if n == 8 {
        '8'
    } else if n == 9 {
        '9'
    } else if n == 10 {
        'a'
    } else if n == 11 {
        'b'
    } else if n == 12 {
        'c'
    } else if n == 13 {
        'd'
    } else if n == 14 {
        'e'
    } else {
        'f'
    }
}

/// A byte as two lowercase hexadecimal digits.
pub open spec fn spec_hex_byte(b: u8) -> Seq<char> {
    seq![spec_hex_digit(b as int / 16), spec_hex_digit(b as int % 16)]
}

/// A hardware address as text: six bytes, each as two lowercase hexadecimal
/// digits, with colons between them.
pub open spec fn spec_mac_text(mac: Seq<u8>) -> Seq<char>
    recommends
        mac.len() == 6,
{
    spec_hex_byte(mac[0]) + seq![':'] + spec_hex_byte(mac[1]) + seq![':'] + spec_hex_byte(mac[2])
        + seq![':'] + spec_hex_byte(mac[3]) + seq![':'] + spec_hex_byte(mac[4]) + seq![':']
        + spec_hex_byte(mac[5])
}

fn push_hex_byte(out: &mut String, b: u8)
    ensures
        final(out)@ == old(out)@ + spec_hex_byte(b),
{
    out.push(hex_digit(b / 16));
    out.push(hex_digit(b % 16));
    assert(out@ =~= old(out)@ + spec_hex_byte(b));
}

fn push_mac(out: &mut String, mac: &[u8; 6])
    ensures
        final(out)@ == old(out)@ + spec_mac_text(mac@),
{
    push_hex_byte(out, mac[0]);
    out.push(':');
    push_hex_byte(out, mac[1]);
    out.push(':');
    push_hex_byte(out, mac[2]);
    out.push(':');
    push_hex_byte(out, mac[3]);
    out.push(':');
    push_hex_byte(out, mac[4]);
    out.push(':');
    push_hex_byte(out, mac[5]);
    assert(out@ =~= old(out)@ + spec_mac_text(mac@));
}

/// A hardware address as text, as in `42:42:00:00:00:0a`.
pub fn mac_text(mac: &[u8; 6]) -> (r: String)
    ensures
        r@ == spec_mac_text(mac@),
{
    let mut out = String::new();
    push_mac(&mut out, mac);
    assert(out@ =~= spec_mac_text(mac@));
    out
}

/// The decimal digit for a value below ten.
pub open spec fn spec_decimal_digit(n: int) -> char {
    spec_hex_digit(n)
}

/// A number in decimal, without leading zeros.
pub open spec fn spec_decimal(n: nat) -> Seq<char>
    decreases n,
{
    if n < 10 {
        seq![spec_decimal_digit(n as int)]
    } else {
        spec_decimal(n / 10).push(spec_decimal_digit((n % 10) as int))
    }
}

/// Appends a number in decimal.
pub fn push_decimal(out: &mut String, n: u64)
    ensures
        final(out)@ == old(out)@ + spec_decimal(n as nat),
    decreases n,
{
    if n >= 10 {
        push_decimal(out, n / 10);
    }
    out.push(hex_digit((n % 10) as u8));
    assert(out@ =~= old(out)@ + spec_decimal(n as nat));
}

/// The id of the tracker at `index` on the device with address `mac`: the
/// address as text, a slash, the index in decimal.
pub open spec fn spec_tracker_id(mac: Seq<u8>, index: u8) -> Seq<char>
    recommends
        mac.len() == 6,
{
    spec_mac_text(mac) + seq!['/'] + spec_decimal(index as nat)
}

/// The id of the tracker at `index` on the device with address `mac`, as in
/// `42:42:00:00:00:0a/3`.
pub fn tracker_id(mac: &[u8; 6], index: u8) -> (r: String)
    ensures
        r@ == spec_tracker_id(mac@, index),
{
    let mut out = String::new();
    push_mac(&mut out, mac);
    out.push('/');
    push_decimal(&mut out, index as u64);
    assert(out@ =~= spec_tracker_id(mac@, index));
    out
}

/// Different values below sixteen have different digits.
pub proof fn lemma_hex_digit_injective(a: int, b: int)
    requires
        0 <= a < 16,
        0 <= b < 16,
        spec_hex_digit(a) == spec_hex_digit(b),
    ensures
        a == b,
{
}

/// Different bytes read differently.
pub proof fn lemma_hex_byte_injective(a: u8, b: u8)
    requires
        spec_hex_byte(a) == spec_hex_byte(b),
    ensures
        a == b,
{
    assert(spec_hex_byte(a)[0] == spec_hex_byte(b)[0]);
    assert(spec_hex_byte(a)[1] == spec_hex_byte(b)[1]);
    lemma_hex_digit_injective(a as int / 16, b as int / 16);
    lemma_hex_digit_injective(a as int % 16, b as int % 16);
}

/// A hardware address reads as seventeen characters, each byte at its
/// place.
pub proof fn lemma_mac_text_shape(mac: Seq<u8>, k: int)
    requires
        mac.len() == 6,
        0 <= k < 6,
    ensures
        spec_mac_text(mac).len() == 17,
        spec_mac_text(mac).subrange(3 * k, 3 * k + 2) == spec_hex_byte(mac[k]),
{
    assert(spec_mac_text(mac).subrange(3 * k, 3 * k + 2) =~= spec_hex_byte(mac[k]));
}

/// Different hardware addresses read differently.
pub proof fn lemma_mac_text_injective(a: Seq<u8>, b: Seq<u8>)
    requires
        a.len() == 6,
        b.len() == 6,
        spec_mac_text(a) == spec_mac_text(b),
    ensures
        a == b,
{
    assert forall|k: int| 0 <= k < 6 implies a[k] == b[k] by {
        lemma_mac_text_shape(a, k);
        lemma_mac_text_shape(b, k);
        lemma_hex_byte_injective(a[k], b[k]);
    }
    assert(a =~= b);
}

/// A number takes at least one digit, and ten or more take at least two.
pub proof fn lemma_decimal_len(n: nat)
    ensures
        spec_decimal(n).len() >= 1,
        n >= 10 ==> spec_decimal(n).len() >= 2,
    decreases n,
{
    if n >= 10 {
        lemma_decimal_len(n / 10);
    }
}

/// Different numbers read differently.
pub proof fn lemma_decimal_injective(a: nat, b: nat)
    requires
        spec_decimal(a) == spec_decimal(b),
    ensures
        a == b,
    decreases a,
{
    lemma_decimal_len(a);
    lemma_decimal_len(b);
    if a < 10 || b < 10 {
        assert(a < 10 && b < 10);
        assert(spec_decimal(a)[0] == spec_hex_digit(a as int));
        assert(spec_decimal(b)[0] == spec_hex_digit(b as int));
        lemma_hex_digit_injective(a as int, b as int);
    } else {
        let da = spec_decimal(a / 10);
        let db = spec_decimal(b / 10);
        assert(spec_decimal(a) == da.push(spec_hex_digit((a % 10) as int)));
        assert(spec_decimal(b) == db.push(spec_hex_digit((b % 10) as int)));
        assert(spec_decimal(a).last() == spec_hex_digit((a % 10) as int));
        assert(spec_decimal(b).last() == spec_hex_digit((b % 10) as int));
        lemma_hex_digit_injective((a % 10) as int, (b % 10) as int);
        assert(da =~= spec_decimal(a).drop_last());
        assert(db =~= spec_decimal(b).drop_last());
        lemma_decimal_injective(a / 10, b / 10);
    }
}

/// A tracker id names one tracker: the ids of two trackers are the same
/// only if the trackers sit on the same device at the same index.
pub proof fn lemma_tracker_id_injective(mac_a: Seq<u8>, index_a: u8, mac_b: Seq<u8>, index_b: u8)
    requires
        mac_a.len() == 6,
        mac_b.len() == 6,
        spec_tracker_id(mac_a, index_a) == spec_tracker_id(mac_b, index_b),
    ensures
        mac_a == mac_b,
        index_a == index_b,
{
    let a = spec_tracker_id(mac_a, index_a);
    let b = spec_tracker_id(mac_b, index_b);
    lemma_mac_text_shape(mac_a, 0);
    lemma_mac_text_shape(mac_b, 0);
    assert(a.subrange(0, 17) =~= spec_mac_text(mac_a));
    assert(b.subrange(0, 17) =~= spec_mac_text(mac_b));
    lemma_mac_text_injective(mac_a, mac_b);
    assert(a.subrange(18, a.len() as int) =~= spec_decimal(index_a as nat));
    assert(b.subrange(18, b.len() as int) =~= spec_decimal(index_b as nat));
    lemma_decimal_injective(index_a as nat, index_b as nat);
}

} // verus!
