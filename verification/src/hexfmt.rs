//! Rendering a transaction hash as a `0x`-prefixed lowercase hexadecimal
//! string, and testing it against a target prefix.

use vstd::prelude::*;

verus! {

/// One hexadecimal digit, lowercase, as an ASCII byte.
pub open spec fn hex_digit(v: u8) -> u8
    recommends
        v < 16,
{
    if v < 10 {
        (0x30 + v) as u8
    } else {
        (0x57 + v) as u8
    }
}

/// The lowercase hexadecimal rendering of a byte string: two digits per byte,
/// high nibble first.
pub open spec fn hex_bytes_of(b: Seq<u8>) -> Seq<u8>
    decreases b.len(),
{
    if b.len() == 0 {
        Seq::empty()
    } else {
        seq![hex_digit((b[0] / 16) as u8), hex_digit((b[0] % 16) as u8)] + hex_bytes_of(
            b.drop_first(),
        )
    }
}

/// Relies on hex::encode: the lowercase hexadecimal rendering of the input,
/// two digits per byte, high nibble first.
#[verifier::external_body]
fn hex_encode_bytes(b: &Vec<u8>) -> (r: Vec<u8>)
    ensures
        r@ == hex_bytes_of(b@),
{
    hex::encode(b).into_bytes()
}

/// The ASCII marker "0x" followed by the lowercase hex digits of `hash`.
pub open spec fn rendered_spec(hash: Seq<u8>) -> Seq<u8> {
    seq![0x30u8, 0x78u8] + hex_bytes_of(hash)
}

/// Renders a hash as ASCII bytes: the marker "0x", then two lowercase
/// hexadecimal digits per byte.
pub fn rendered_hash(hash: &Vec<u8>) -> (r: Vec<u8>)
    ensures
        r@ == rendered_spec(hash@),
{
    let mut r: Vec<u8> = Vec::new();
    r.push(0x30);
    r.push(0x78);
    let mut digits = hex_encode_bytes(hash);
    r.append(&mut digits);
    proof {
        assert(r@ =~= rendered_spec(hash@));
    }
    r
}

/// A target prefix matches a hash when the prefix is an initial segment of
/// the rendered hash, marker included.
pub open spec fn matches_spec(hash: Seq<u8>, prefix: Seq<u8>) -> bool {
    prefix.is_prefix_of(rendered_spec(hash))
}

/// The empty target prefix matches every hash, so the first candidate any
/// worker tests is accepted immediately.
pub proof fn lemma_empty_prefix_matches(hash: Seq<u8>)
    ensures
        matches_spec(hash, Seq::empty()),
{
    assert(Seq::<u8>::empty() =~= rendered_spec(hash).subrange(0, 0));
}

/// Tests whether the rendered form of `hash` starts with `prefix`.
pub fn prefix_matches(hash: &Vec<u8>, prefix: &Vec<u8>) -> (r: bool)
    ensures
        r == matches_spec(hash@, prefix@),
{
    let rendered = rendered_hash(hash);
    if prefix.len() > rendered.len() {
        return false;
    }
    let mut i: usize = 0;
    while i < prefix.len()
        invariant
            i <= prefix@.len() <= rendered@.len(),
            rendered@ == rendered_spec(hash@),
            forall|j: int| 0 <= j < i ==> prefix@[j] == rendered@[j],
        decreases prefix@.len() - i,
    {
        if prefix[i] != rendered[i] {
            proof {
                assert(rendered_spec(hash@).subrange(0, prefix@.len() as int)[i as int]
                    == rendered@[i as int]);
            }
            return false;
        }
        i += 1;
    }
    proof {
        assert(prefix@ =~= rendered_spec(hash@).subrange(0, prefix@.len() as int));
    }
    true
}

} // verus!
