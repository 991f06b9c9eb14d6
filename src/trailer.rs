use vstd::prelude::*;
use vstd::arithmetic::div_mod::{
    lemma_div_denominator,
    lemma_fundamental_div_mod,
    lemma_fundamental_div_mod_converse_div,
};

use crate::error::StandaloneError;

verus! {

/// Length of the trailer that closes every self-contained image.
pub const TRAILER_LEN: usize = 16;

/// The eight bytes `d3n0l4nd` that open the trailer.
pub open spec fn magic() -> Seq<u8> {
    seq![100u8, 51u8, 110u8, 48u8, 108u8, 52u8, 110u8, 100u8]
}

/// `256` raised to `n`: the weight of a byte `n` places from the right.
pub open spec fn place(n: nat) -> nat
    decreases n,
{
    if n == 0 {
        1
    } else {
        256 * place((n - 1) as nat)
    }
}

/// The unsigned number that `s` spells in big-endian order.
pub open spec fn be_value(s: Seq<u8>) -> nat
    decreases s.len(),
{
    if s.len() == 0 {
        0
    } else {
        be_value(s.drop_last()) * 256 + s.last() as nat
    }
}

/// `n` written as eight big-endian bytes.
pub open spec fn be_bytes(n: u64) -> Seq<u8> {
    Seq::new(8, |i: int| ((n as nat / place((7 - i) as nat)) % 256) as u8)
}

/// The trailer of an image whose payload starts at `offset`: the magic
/// followed by the offset as eight big-endian bytes.
pub open spec fn trailer_of(offset: u64) -> Seq<u8> {
    magic() + be_bytes(offset)
}

/// What a sixteen-byte trailer says: the offset it carries when it opens
/// with the magic, nothing otherwise.
pub open spec fn spec_decode(t: Seq<u8>) -> Option<u64> {
    if t.subrange(0, 8) == magic() {
        Some(be_value(t.subrange(8, 16)) as u64)
    } else {
        None
    }
}

/// The last sixteen bytes of an image.
pub open spec fn tail(image: Seq<u8>) -> Seq<u8> {
    image.subrange(image.len() - 16, image.len() as int)
}

/// What detection makes of a whole image.
pub open spec fn spec_read_trailer(image: Seq<u8>) -> Result<Option<u64>, StandaloneError> {
    if image.len() < 16 {
        Err(StandaloneError::ImageTooShort)
    } else {
        Ok(spec_decode(tail(image)))
    }
}

/// Byte weights grow with the place.
pub proof fn lemma_place_monotonic(a: nat, b: nat)
    requires
        a <= b,
    ensures
        place(a) <= place(b),
    decreases b,
{
    if a < b {
        lemma_place_monotonic(a, (b - 1) as nat);
    }
}

/// `n` bytes spell a number below `256` raised to `n`.
pub proof fn lemma_be_value_bound(s: Seq<u8>)
    ensures
        be_value(s) < place(s.len()),
    decreases s.len(),
{
    if s.len() > 0 {
        let d = s.drop_last();
        lemma_be_value_bound(d);
        let v = be_value(d);
        let p = place(d.len());
        let b = s.last() as nat;
        assert(v * 256 + b < 256 * p) by (nonlinear_arith)
            requires
                v < p,
                b < 256,
        ;
    }
}

/// The first `k` bytes of `be_bytes(n)` spell `n` with its last `8 - k`
/// bytes cut off.
pub proof fn lemma_be_bytes_prefix(n: u64, k: nat)
    requires
        k <= 8,
    ensures
        be_value(be_bytes(n).subrange(0, k as int)) == n as nat / place((8 - k) as nat),
    decreases k,
{
    let s = be_bytes(n);
    if k == 0 {
        reveal_with_fuel(place, 9);
        assert(s.subrange(0, 0) =~= Seq::<u8>::empty());
        lemma_fundamental_div_mod_converse_div(n as int, place(8) as int, 0, n as int);
    } else {
        let j = (k - 1) as nat;
        lemma_be_bytes_prefix(n, j);
        let p = place((7 - j) as nat);
        assert(place((8 - j) as nat) == 256 * p);
        lemma_place_monotonic(0, (7 - j) as nat);
        let y = n as nat / p;
        lemma_div_denominator(n as int, p as int, 256);
        lemma_fundamental_div_mod(y as int, 256);
        assert(s.subrange(0, k as int).drop_last() =~= s.subrange(0, j as int));
        assert(s.subrange(0, k as int).last() == (y % 256) as u8);
    }
}

/// Reading back the eight bytes of `be_bytes(n)` gives `n`.
pub proof fn lemma_be_bytes_value(n: u64)
    ensures
        be_value(be_bytes(n)) == n,
        be_bytes(n).len() == 8,
{
    lemma_be_bytes_prefix(n, 8);
    assert(be_bytes(n).subrange(0, 8) =~= be_bytes(n));
    assert(place(0) == 1);
    assert(n as nat / 1 == n as nat) by (nonlinear_arith);
}

/// Decoding the trailer built for `offset` gives `offset` back.
pub proof fn lemma_decode_trailer_of(offset: u64)
    ensures
        trailer_of(offset).len() == 16,
        spec_decode(trailer_of(offset)) == Some(offset),
{
    let t = trailer_of(offset);
    lemma_be_bytes_value(offset);
    assert(t.subrange(0, 8) =~= magic());
    assert(t.subrange(8, 16) =~= be_bytes(offset));
}

/// The magic, as bytes.
pub fn magic_bytes() -> (r: Vec<u8>)
    ensures
        r@ == magic(),
{
    let r: Vec<u8> = vec![100u8, 51u8, 110u8, 48u8, 108u8, 52u8, 110u8, 100u8];
    assert(r@ =~= magic());
    r
}

/// Builds the trailer for a payload that starts at `offset`.
pub fn encode_trailer(offset: u64) -> (r: Vec<u8>)
    ensures
        r@ == trailer_of(offset),
        spec_decode(r@) == Some(offset),
{
    let mut r = magic_bytes();
    let mut d: u64 = 72057594037927936;
    let mut k: usize = 0;
    proof {
        reveal_with_fuel(place, 9);
    }
    while k < 8
        invariant
            k <= 8,
            d > 0,
            r@.len() == 8 + k,
            r@.subrange(0, 8) == magic(),
            k < 8 ==> d as nat == place((7 - k) as nat),
            forall|j: int| 0 <= j < k ==> r@[8 + j] == be_bytes(offset)[j],
        decreases 8 - k,
    {
        let b: u8 = ((offset / d) % 256) as u8;
        proof {
            assert(r@.push(b).subrange(0, 8) =~= r@.subrange(0, 8));
        }
        r.push(b);
        if k < 7 {
            proof {
                let p = place((6 - k) as nat);
                assert(place((7 - k) as nat) == 256 * p);
                lemma_place_monotonic(0, (6 - k) as nat);
                assert((256 * p) / 256 == p) by (nonlinear_arith);
            }
            d = d / 256;
        }
        k = k + 1;
    }
    proof {
        assert(r@ =~= trailer_of(offset));
        lemma_decode_trailer_of(offset);
    }
    r
}

/// Reads a sixteen-byte trailer: the payload offset when it opens with the
/// magic, `None` when it does not (the image is then an ordinary one).
pub fn decode_trailer(t: &[u8]) -> (r: Option<u64>)
    requires
        t@.len() == 16,
    ensures
        r == spec_decode(t@),
{
    let mut i: usize = 0;
    while i < 8
        invariant
            t@.len() == 16,
            i <= 8,
            forall|j: int| 0 <= j < i ==> t@[j] == magic()[j],
        decreases 8 - i,
    {
        let m = magic_byte(i);
        if t[i] != m {
            proof {
                assert(t@.subrange(0, 8)[i as int] != magic()[i as int]);
            }
            return None;
        }
        i = i + 1;
    }
    assert(t@.subrange(0, 8) =~= magic());
    let mut v: u64 = 0;
    let mut i: usize = 8;
    while i < 16
        invariant
            t@.len() == 16,
            8 <= i <= 16,
            v as nat == be_value(t@.subrange(8, i as int)),
        decreases 16 - i,
    {
        proof {
            let s = t@.subrange(8, i as int);
            lemma_be_value_bound(s);
            lemma_place_monotonic(s.len(), 7);
            reveal_with_fuel(place, 8);
            assert(t@.subrange(8, i + 1).drop_last() =~= s);
            assert(v * 256 + t@[i as int] <= u64::MAX) by (nonlinear_arith)
                requires
                    v < 72057594037927936,
                    t@[i as int] < 256,
            ;
        }
        v = v * 256 + t[i] as u64;
        i = i + 1;
    }
    Some(v)
}

/// One byte of the magic.
fn magic_byte(i: usize) -> (r: u8)
    requires
        i < 8,
    ensures
        r == magic()[i as int],
{
    let m = magic_bytes();
    m[i]
}

/// Detection on a whole image: its last sixteen bytes, decoded.  An image
/// shorter than a trailer cannot be read and is an error.
pub fn read_trailer(image: &[u8]) -> (r: Result<Option<u64>, StandaloneError>)
    ensures
        r == spec_read_trailer(image@),
{
    let n = image.len();
    if n < TRAILER_LEN {
        return Err(StandaloneError::ImageTooShort);
    }
    let t = slice_range(image, n - TRAILER_LEN, n);
    Ok(decode_trailer(t.as_slice()))
}

/// A copy of `s[lo..hi]`.
pub fn slice_range(s: &[u8], lo: usize, hi: usize) -> (r: Vec<u8>)
    requires
        lo <= hi <= s@.len(),
    ensures
        r@ == s@.subrange(lo as int, hi as int),
{
    let mut r: Vec<u8> = Vec::with_capacity(hi - lo);
    let mut i: usize = lo;
    while i < hi
        invariant
            lo <= i <= hi <= s@.len(),
            r@ == s@.subrange(lo as int, i as int),
        decreases hi - i,
    {
        r.push(s[i]);
        i = i + 1;
        assert(r@ =~= s@.subrange(lo as int, i as int));
    }
    r
}

} // verus!
