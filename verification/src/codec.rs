use vstd::bytes::*;
use vstd::prelude::*;
use vstd::string::*;
use sha2::{Digest, Sha256};

verus! {

/// The SHA-256 digest of a byte string.
pub uninterp spec fn sha256(data: Seq<u8>) -> Seq<u8>;

/// Computes the SHA-256 digest of `data` by one call of `sha2::Sha256::digest`.
/// Nothing is proved of this function: the contract only gives the digest its
/// name, so that equal inputs are known to give equal digests.
#[verifier::external_body]
pub(crate) fn sha256_digest(data: &[u8]) -> (out: [u8; 32])
    ensures
        out@ == sha256(data@),
{
    Sha256::digest(data).into()
}

/// `n` zero bytes.
pub open spec fn zeros(n: nat) -> Seq<u8> {
    Seq::new(n, |i: int| 0u8)
}

/// The eight bytes of `x`, most significant first.
pub open spec fn u64_be(x: u64) -> Seq<u8> {
    spec_u64_to_le_bytes(x).reverse()
}

/// The number whose big-endian bytes are `s`.
pub open spec fn u64_from_be(s: Seq<u8>) -> u64 {
    spec_u64_from_le_bytes(s.reverse())
}

/// An encoding has eight bytes, and decoding it gives the number back.
pub proof fn lemma_u64_be_roundtrip(x: u64)
    ensures
        u64_be(x).len() == 8,
        u64_from_be(u64_be(x)) == x,
{
    lemma_auto_spec_u64_to_from_le_bytes();
    let le = spec_u64_to_le_bytes(x);
    assert(le.reverse().reverse() =~= le);
}

/// Encoding undoes decoding of eight bytes.
pub proof fn lemma_u64_be_of_bytes(s: Seq<u8>)
    requires
        s.len() == 8,
    ensures
        u64_be(u64_from_be(s)) == s,
{
    lemma_auto_spec_u64_to_from_le_bytes();
}

/// The eight bytes of `x`, most significant first.
pub fn u64_to_be_bytes(x: u64) -> (out: [u8; 8])
    ensures
        out@ == u64_be(x),
{
    let le = u64_to_le_bytes(x);
    proof {
        lemma_auto_spec_u64_to_from_le_bytes();
    }
    let mut out = [0u8; 8];
    let mut i: usize = 0;
    while i < 8
        invariant
            i <= 8,
            le@.len() == 8,
            forall|j: int| 0 <= j < i ==> out@[j] == le@[7 - j],
        decreases 8 - i,
    {
        out[i] = le[7 - i];
        i += 1;
    }
    out
}

/// The number whose eight bytes, most significant first, are `s`.
pub fn u64_from_be_bytes(s: &[u8]) -> (x: u64)
    requires
        s@.len() == 8,
    ensures
        x == u64_from_be(s@),
{
    let mut le: Vec<u8> = Vec::new();
    let mut i: usize = 0;
    while i < 8
        invariant
            i <= 8,
            s@.len() == 8,
            le@.len() == i,
            forall|j: int| 0 <= j < i ==> le@[j] == s@[7 - j],
        decreases 8 - i,
    {
        le.push(s[7 - i]);
        i += 1;
    }
    assert(le@ =~= s@.reverse());
    u64_from_le_bytes(le.as_slice())
}

/// `s` with the bytes from `at` on replaced by `src`.
pub open spec fn overwrite(s: Seq<u8>, at: int, src: Seq<u8>) -> Seq<u8> {
    Seq::new(
        s.len(),
        |i: int|
            if at <= i < at + src.len() {
                src[i - at]
            } else {
                s[i]
            },
    )
}

/// Copies `src` into `dst`, starting at index `at`.
pub fn write_bytes<const N: usize>(dst: &mut [u8; N], at: usize, src: &[u8])
    requires
        at + src@.len() <= N,
    ensures
        final(dst)@ == overwrite(old(dst)@, at as int, src@),
{
    let n = src.len();
    let mut i: usize = 0;
    while i < n
        invariant
            i <= n,
            n == src@.len(),
            at + n <= N,
            dst@.len() == N,
            forall|j: int| 0 <= j < N && !(at <= j < at + i) ==> dst@[j] == old(dst)@[j],
            forall|j: int| at <= j < at + i ==> dst@[j] == src@[j - at],
        decreases n - i,
    {
        dst[at + i] = src[i];
        i += 1;
    }
}

/// The text of one decimal digit.
pub open spec fn digit_text(d: u128) -> Seq<char> {
    if d == 0 {
        "0"@
    } else if d == 1 {
        "1"@
    } else if d == 2 {
        "2"@
    } else if d == 3 {
        "3"@
    } else if d == 4 {
        "4"@
    } else if d == 5 {
        "5"@
    } else if d == 6 {
        "6"@
    } else if d == 7 {
        "7"@
    } else if d == 8 {
        "8"@
    } else {
        "9"@
    }
}

/// The decimal text of `n`, without leading zeros.
pub open spec fn decimal_text(n: u128) -> Seq<char>
    decreases n,
{
    if n < 10 {
        digit_text(n)
    } else {
        decimal_text(n / 10) + digit_text(n % 10)
    }
}

/// The text of one decimal digit.
fn digit(d: u128) -> (s: &'static str)
    requires
        d < 10,
    ensures
        s@ == digit_text(d),
{
    if d == 0 {
        "0"
    } else if d == 1 {
        "1"
    } else if d == 2 {
        "2"
    } else if d == 3 {
        "3"
    } else if d == 4 {
        "4"
    } else if d == 5 {
        "5"
    } else if d == 6 {
        "6"
    } else if d == 7 {
        "7"
    } else if d == 8 {
        "8"
    } else {
        "9"
    }
}

/// Writes `n` in decimal.
pub fn decimal(n: u128) -> (s: String)
    ensures
        s@ == decimal_text(n),
    decreases n,
{
    if n < 10 {
        String::from_str(digit(n))
    } else {
        decimal(n / 10).concat(digit(n % 10))
    }
}

/// A message that holds a number: `prefix`, the decimal text of `n`, `suffix`.
pub open spec fn numbered_text(prefix: Seq<char>, n: u128, suffix: Seq<char>) -> Seq<char> {
    prefix + decimal_text(n) + suffix
}

/// A message that holds a number.
pub fn numbered(prefix: &str, n: u128, suffix: &str) -> (s: String)
    ensures
        s@ == numbered_text(prefix@, n, suffix@),
{
    String::from_str(prefix).concat(decimal(n).as_str()).concat(suffix)
}

} // verus!
