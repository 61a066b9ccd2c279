//! Content hashing: an incremental SHA-1 accumulator from the `sha1`
//! crate behind trusted declarations, and a verified lowercase-hex
//! rendering of its digest.

use vstd::prelude::*;
use crate::text::push_char;

verus! {

/// `sha1::Sha1`, the incremental SHA-1 accumulator, declared so that a
/// value of it can stand in fields and signatures. What it has absorbed
/// so far is tracked by `sha1_absorbed`.
#[verifier::external_type_specification]
#[verifier::external_body]
pub struct ExSha1(sha1::Sha1);

/// The bytes a `sha1::Sha1` accumulator has absorbed so far.
pub uninterp spec fn sha1_absorbed(h: sha1::Sha1) -> Seq<u8>;

/// The 20-byte SHA-1 digest of a byte sequence.
pub uninterp spec fn sha1_digest(bytes: Seq<u8>) -> Seq<u8>;

/// Relies on `sha1::Sha1::new` (through `digest::Digest`): a fresh
/// accumulator that has absorbed nothing.
#[verifier::external_body]
pub(crate) fn sha1_new() -> (h: sha1::Sha1)
    ensures
        sha1_absorbed(h) == Seq::<u8>::empty(),
{
    <sha1::Sha1 as sha1::Digest>::new()
}

/// Relies on `digest::Digest::update`: absorbs the chunk after
/// everything absorbed before.
#[verifier::external_body]
pub(crate) fn sha1_update(h: &mut sha1::Sha1, chunk: &[u8])
    ensures
        sha1_absorbed(*final(h)) == sha1_absorbed(*old(h)) + chunk@,
{
    sha1::Digest::update(h, chunk);
}

/// Relies on `digest::Digest::finalize`: the SHA-1 digest of everything
/// absorbed, 20 bytes as SHA-1's output size is fixed at 160 bits.
#[verifier::external_body]
pub(crate) fn sha1_finalize(h: sha1::Sha1) -> (r: Vec<u8>)
    ensures
        r@ == sha1_digest(sha1_absorbed(h)),
        r@.len() == 20,
{
    sha1::Digest::finalize(h).to_vec()
}

/// The lowercase hexadecimal digit character for `d`.
pub open spec fn hex_digit(d: int) -> char
    recommends
        0 <= d < 16,
{
    if d < 10 {
        ((0x30 + d) as u8) as char
    } else {
        ((0x61 + (d - 10)) as u8) as char
    }
}

/// Lowercase hexadecimal rendering of a byte sequence, two digits per
/// byte, high nibble first.
pub open spec fn spec_hex(bytes: Seq<u8>) -> Seq<char>
    decreases bytes.len(),
{
    if bytes.len() == 0 {
        Seq::empty()
    } else {
        spec_hex(bytes.drop_last()) + seq![
            hex_digit(bytes.last() as int / 16),
            hex_digit(bytes.last() as int % 16),
        ]
    }
}

/// The rendered hash of a file's content: the SHA-1 digest of its bytes
/// in lowercase hex.
pub open spec fn spec_file_hash(content: Seq<u8>) -> Seq<char> {
    spec_hex(sha1_digest(content))
}

fn hex_digit_char(d: u8) -> (c: char)
    requires
        d < 16,
    ensures
        c == hex_digit(d as int),
{
    if d < 10 {
        (0x30 + d) as char
    } else {
        (0x61 + (d - 10)) as char
    }
}

/// Renders `bytes` in lowercase hex.
pub fn hex_lower(bytes: &Vec<u8>) -> (r: String)
    ensures
        r@ == spec_hex(bytes@),
{
    let mut s = String::new();
    let mut i: usize = 0;
    while i < bytes.len()
        invariant
            i <= bytes.len(),
            s@ == spec_hex(bytes@.take(i as int)),
        decreases bytes.len() - i,
    {
        let b = bytes[i];
        push_char(&mut s, hex_digit_char(b / 16));
        push_char(&mut s, hex_digit_char(b % 16));
        i = i + 1;
        proof {
            assert(bytes@.take(i as int).drop_last() =~= bytes@.take(i - 1));
            assert(bytes@.take(i as int).last() == bytes@[i - 1]);
        }
    }
    proof {
        assert(bytes@.take(bytes@.len() as int) =~= bytes@);
    }
    s
}

/// Hashing is content-addressed: the rendered hash is a function of the
/// byte sequence alone, so the same bytes give the same hash however
/// and through whatever path they were read.
pub proof fn lemma_hash_deterministic(b1: Seq<u8>, b2: Seq<u8>)
    requires
        b1 == b2,
    ensures
        spec_file_hash(b1) == spec_file_hash(b2),
{
}

} // verus!
