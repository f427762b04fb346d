use vstd::prelude::*;
use base64::Engine;
use md5::Digest;

verus! {

/// What the MD5 algorithm returns for the given input bytes: a function of the
/// input alone, the same in every process and on every machine.
pub uninterp spec fn md5_of(input: Seq<u8>) -> Seq<u8>;

/// What the standard base64 alphabet (with padding) encodes the given bytes to:
/// a function of the input alone.
pub uninterp spec fn base64_of(input: Seq<u8>) -> Seq<char>;

/// Relies on md5::Md5 (through the Digest trait): a 16-byte digest that depends
/// on the input bytes alone.
#[verifier::external_body]
pub(crate) fn md5_digest(input: &Vec<u8>) -> (r: Vec<u8>)
    ensures
        r@ == md5_of(input@),
        r@.len() == 16,
{
    let mut hasher = md5::Md5::new();
    hasher.update(input.as_slice());
    hasher.finalize().to_vec()
}

/// Relies on base64's STANDARD engine: the encoding depends on the input bytes
/// alone; with padding, it renders every three input bytes (rounded up) as
/// four characters.
#[verifier::external_body]
pub(crate) fn b64_encode(input: &Vec<u8>) -> (r: String)
    ensures
        r@ == base64_of(input@),
        r@.len() == ((input@.len() + 2) / 3) * 4,
{
    base64::engine::general_purpose::STANDARD.encode(input.as_slice())
}

/// The little-endian bytes of `u`, lowest first, `n` of them.
pub open spec fn le_bytes(u: u64, n: nat) -> Seq<u8>
    decreases n,
{
    if n == 0 {
        Seq::empty()
    } else {
        seq![(u % 256) as u8] + le_bytes(u / 256, (n - 1) as nat)
    }
}

/// The eight little-endian bytes of a signed 64-bit integer, in its two's
/// complement representation.
pub open spec fn le_bytes_i64(x: i64) -> Seq<u8> {
    le_bytes(x as u64, 8)
}

/// Appends the eight little-endian bytes of `x` to `dst`.
pub(crate) fn push_le_i64(dst: &mut Vec<u8>, x: i64)
    ensures
        final(dst)@ == old(dst)@ + le_bytes_i64(x),
{
    let mut u = x as u64;
    let ghost u0 = u;
    let mut k: usize = 0;
    while k < 8
        invariant
            k <= 8,
            dst@ + le_bytes(u, (8 - k) as nat) == old(dst)@ + le_bytes(u0, 8),
        decreases 8 - k,
    {
        let b = (u % 256) as u8;
        let ghost pre = dst@;
        dst.push(b);
        proof {
            let rest = le_bytes(u / 256, (8 - k - 1) as nat);
            assert(le_bytes(u, (8 - k) as nat) == seq![b] + rest);
            assert(dst@ =~= pre + seq![b]);
            assert((pre + seq![b]) + rest =~= pre + (seq![b] + rest));
        }
        u = u / 256;
        k += 1;
    }
    proof {
        assert(dst@ + le_bytes(u, 0) =~= dst@);
        assert(dst@ =~= old(dst)@ + le_bytes_i64(x));
    }
}

} // verus!
