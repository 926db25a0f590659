//! Content addressing: a 64-bit digest of a property list, written as sixteen
//! lower-case hexadecimal digits.
//!
//! The digest is that of the standard library's default hasher, started
//! afresh for every list. Equal lists have equal digests; which digest a list
//! has is the standard library's business and may differ from one release of
//! it to the next.

use std::collections::hash_map::DefaultHasher;
use std::hash::{Hash, Hasher};
use vstd::prelude::*;
use vstd::std_specs::hash::DefaultHasherAdditionalSpecFns;
use crate::text::pairs_view;

verus! {

/// The byte runs that hashing a property list feeds to a hasher: a function of
/// the keys and values, in their order, and of nothing else.
pub uninterp spec fn property_writes(props: Seq<(Seq<char>, Seq<char>)>) -> Seq<Seq<u8>>;

/// The digest of a property list: what a fresh default hasher reports once the
/// list has been fed to it.
pub open spec fn properties_digest(props: Seq<(Seq<char>, Seq<char>)>) -> u64 {
    DefaultHasher::spec_finish(Seq::<Seq<u8>>::empty() + property_writes(props))
}

/// The eight bytes of `h`, most significant first.
pub open spec fn be_bytes(h: u64) -> Seq<u8> {
    seq![
        (h / 0x100_0000_0000_0000) as u8,
        (h / 0x1_0000_0000_0000 % 0x100) as u8,
        (h / 0x100_0000_0000 % 0x100) as u8,
        (h / 0x1_0000_0000 % 0x100) as u8,
        (h / 0x100_0000 % 0x100) as u8,
        (h / 0x1_0000 % 0x100) as u8,
        (h / 0x100 % 0x100) as u8,
        (h % 0x100) as u8,
    ]
}

/// The lower-case hexadecimal digit that stands for `d`, for `0 <= d < 16`.
pub open spec fn hex_digit(d: int) -> char {
    if d == 0 {
        '0'
    } else if d == 1 {
        '1'
    } else if d == 2 {
        '2'
    } else if d == 3 {
        '3'
    } else if d == 4 {
        '4'
    } else if d == 5 {
        '5'
    } else if d == 6 {
        '6'
    } else if d == 7 {
        '7'
    } else if d == 8 {
        '8'
    } else if d == 9 {
        '9'
    } else if d == 10 {
        'a'
    } else if d == 11 {
        'b'
    } else if d == 12 {
        'c'
    } else if d == 13 {
        'd'
    } else if d == 14 {
        'e'
    } else {
        'f'
    }
}

/// Two lower-case hexadecimal digits for each byte, high half first.
pub open spec fn hex_lower(bytes: Seq<u8>) -> Seq<char> {
    Seq::new(
        2 * bytes.len(),
        |i: int|
            if i % 2 == 0 {
                hex_digit(bytes[i / 2] as int / 16)
            } else {
                hex_digit(bytes[i / 2] as int % 16)
            },
    )
}

/// The checksum of a property list: its digest in hexadecimal.
pub open spec fn checksum(props: Seq<(Seq<char>, Seq<char>)>) -> Seq<char> {
    hex_lower(be_bytes(properties_digest(props)))
}

/// Calls `Hash::hash` of the standard library on the property list. The pairs
/// reach the hasher as a run of writes that depends on the keys and values
/// alone; which bytes they are is left to the standard library.
#[verifier::external_body]
fn feed_properties(state: &mut DefaultHasher, props: &Vec<(String, String)>)
    ensures
        final(state)@ == old(state)@ + property_writes(pairs_view(props@)),
{
    props.hash(state);
}

/// Calls `hex::encode`. Each byte comes out as two characters of
/// `0123456789abcdef`: first the one for its high four bits, then the one for
/// its low four bits.
#[verifier::external_body]
fn hex_encode(bytes: &Vec<u8>) -> (s: String)
    ensures
        s@ == hex_lower(bytes@),
{
    hex::encode(bytes)
}

/// Splits `h` into its eight bytes, most significant first.
pub fn to_be_bytes(h: u64) -> (bytes: Vec<u8>)
    ensures
        bytes@ == be_bytes(h),
{
    let mut bytes: Vec<u8> = Vec::new();
    bytes.push((h / 0x100_0000_0000_0000) as u8);
    bytes.push((h / 0x1_0000_0000_0000 % 0x100) as u8);
    bytes.push((h / 0x100_0000_0000 % 0x100) as u8);
    bytes.push((h / 0x1_0000_0000 % 0x100) as u8);
    bytes.push((h / 0x100_0000 % 0x100) as u8);
    bytes.push((h / 0x1_0000 % 0x100) as u8);
    bytes.push((h / 0x100 % 0x100) as u8);
    bytes.push((h % 0x100) as u8);
    assert(bytes@ =~= be_bytes(h));
    bytes
}

/// Writes a digest as sixteen hexadecimal digits.
pub fn hex_of_digest(h: u64) -> (s: String)
    ensures
        s@ == hex_lower(be_bytes(h)),
{
    let bytes = to_be_bytes(h);
    hex_encode(&bytes)
}

/// Hashes a property list with a fresh default hasher.
pub fn digest_of(props: &Vec<(String, String)>) -> (h: u64)
    ensures
        h == properties_digest(pairs_view(props@)),
{
    let mut state = DefaultHasher::new();
    feed_properties(&mut state, props);
    state.finish()
}

/// The checksum of a property list.
pub fn calculate_hash(props: &Vec<(String, String)>) -> (s: String)
    ensures
        s@ == checksum(pairs_view(props@)),
{
    hex_of_digest(digest_of(props))
}

/// Distinct digits below sixteen have distinct characters.
pub proof fn lemma_hex_digit_injective(a: int, b: int)
    requires
        0 <= a < 16,
        0 <= b < 16,
        hex_digit(a) == hex_digit(b),
    ensures
        a == b,
{
}

/// Hexadecimal writing loses nothing: equal texts come from equal bytes.
pub proof fn lemma_hex_lower_injective(a: Seq<u8>, b: Seq<u8>)
    requires
        hex_lower(a) == hex_lower(b),
    ensures
        a == b,
{
    assert(hex_lower(a).len() == 2 * a.len());
    assert(hex_lower(b).len() == 2 * b.len());
    assert(a.len() == b.len());
    assert forall|i: int| 0 <= i < a.len() implies a[i] == b[i] by {
        assert((2 * i) % 2 == 0 && (2 * i) / 2 == i);
        assert((2 * i + 1) % 2 == 1 && (2 * i + 1) / 2 == i);
        assert(hex_lower(a)[2 * i] == hex_digit(a[i] as int / 16));
        assert(hex_lower(b)[2 * i] == hex_digit(b[i] as int / 16));
        assert(hex_lower(a)[2 * i + 1] == hex_digit(a[i] as int % 16));
        assert(hex_lower(b)[2 * i + 1] == hex_digit(b[i] as int % 16));
        lemma_hex_digit_injective(a[i] as int / 16, b[i] as int / 16);
        lemma_hex_digit_injective(a[i] as int % 16, b[i] as int % 16);
    }
    assert(a =~= b);
}

/// The eight bytes determine the number.
pub proof fn lemma_be_bytes_injective(x: u64, y: u64)
    requires
        be_bytes(x) == be_bytes(y),
    ensures
        x == y,
{
    let bx = be_bytes(x);
    let by = be_bytes(y);
    assert(bx[0] == by[0] && bx[1] == by[1] && bx[2] == by[2] && bx[3] == by[3]);
    assert(bx[4] == by[4] && bx[5] == by[5] && bx[6] == by[6] && bx[7] == by[7]);
    assert(x / 0x100_0000_0000_0000 == y / 0x100_0000_0000_0000);
    assert(x / 0x1_0000_0000_0000 % 0x100 == y / 0x1_0000_0000_0000 % 0x100);
    assert(x / 0x100_0000_0000 % 0x100 == y / 0x100_0000_0000 % 0x100);
    assert(x / 0x1_0000_0000 % 0x100 == y / 0x1_0000_0000 % 0x100);
    assert(x / 0x100_0000 % 0x100 == y / 0x100_0000 % 0x100);
    assert(x / 0x1_0000 % 0x100 == y / 0x1_0000 % 0x100);
    assert(x / 0x100 % 0x100 == y / 0x100 % 0x100);
    assert(x % 0x100 == y % 0x100);
    assert(x == y) by (bit_vector)
        requires
            x / 0x100_0000_0000_0000 == y / 0x100_0000_0000_0000,
            x / 0x1_0000_0000_0000 % 0x100 == y / 0x1_0000_0000_0000 % 0x100,
            x / 0x100_0000_0000 % 0x100 == y / 0x100_0000_0000 % 0x100,
            x / 0x1_0000_0000 % 0x100 == y / 0x1_0000_0000 % 0x100,
            x / 0x100_0000 % 0x100 == y / 0x100_0000 % 0x100,
            x / 0x1_0000 % 0x100 == y / 0x1_0000 % 0x100,
            x / 0x100 % 0x100 == y / 0x100 % 0x100,
            x % 0x100 == y % 0x100,
    ;
}

/// The checksum of a digest tells the digest.
pub proof fn lemma_hex_of_digest_injective(x: u64, y: u64)
    requires
        hex_lower(be_bytes(x)) == hex_lower(be_bytes(y)),
    ensures
        x == y,
{
    lemma_hex_lower_injective(be_bytes(x), be_bytes(y));
    lemma_be_bytes_injective(x, y);
}

} // verus!
