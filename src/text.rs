//! Text read from fixed-size native buffers, and text comparison.
use vstd::prelude::*;
use vstd::utf8::{decode_utf8, encode_utf8, encode_utf8_decode_utf8, valid_utf8};

verus! {

/// `n` is where the C string in `b` ends: the first NUL byte, or the end of
/// the buffer when it holds none.
pub open spec fn is_nul_cut(b: Seq<u8>, n: int) -> bool {
    &&& 0 <= n <= b.len()
    &&& forall|i: int| 0 <= i < n ==> b[i] != 0
    &&& n < b.len() ==> b[n] == 0
}

/// The bytes of the C string held in `b`.
pub open spec fn until_nul(b: Seq<u8>) -> Seq<u8> {
    b.take(choose|n: int| is_nul_cut(b, n))
}

/// The text that `b` encodes in UTF-8, or `fallback` when it is not UTF-8.
pub open spec fn text_or(b: Seq<u8>, fallback: Seq<char>) -> Seq<char> {
    if valid_utf8(b) {
        decode_utf8(b)
    } else {
        fallback
    }
}

proof fn lemma_nul_cut_unique(b: Seq<u8>, n: int, m: int)
    requires
        is_nul_cut(b, n),
        is_nul_cut(b, m),
    ensures
        n == m,
{
    if n < m {
        assert(b[n] != 0);
    } else if m < n {
        assert(b[m] != 0);
    }
}

/// Relies on `String::from_utf8`: it succeeds exactly on valid UTF-8 and
/// then holds the characters that the bytes encode.
#[verifier::external_body]
fn string_from_utf8(bytes: Vec<u8>) -> (r: Option<String>)
    ensures
        r is Some <==> valid_utf8(bytes@),
        r is Some ==> r->0@ == decode_utf8(bytes@),
{
    String::from_utf8(bytes).ok()
}

/// The C string held in `buf`, as text, or `fallback` when it is not UTF-8.
pub fn text_until_nul(buf: &[u8], fallback: &str) -> (r: String)
    ensures
        r@ == text_or(until_nul(buf@), fallback@),
{
    let mut bytes: Vec<u8> = Vec::new();
    let mut i: usize = 0;
    while i < buf.len() && buf[i] != 0
        invariant
            i <= buf@.len(),
            bytes@ == buf@.take(i as int),
            forall|j: int| 0 <= j < i ==> buf@[j] != 0,
        decreases buf@.len() - i,
    {
        bytes.push(buf[i]);
        i = i + 1;
        assert(bytes@ =~= buf@.take(i as int));
    }
    proof {
        assert(is_nul_cut(buf@, i as int));
        let n = choose|n: int| is_nul_cut(buf@, n);
        lemma_nul_cut_unique(buf@, i as int, n);
    }
    match string_from_utf8(bytes) {
        Some(s) => s,
        None => fallback.to_owned(),
    }
}

/// Whether two texts are equal, compared byte by byte.
pub fn same_text(a: &str, b: &str) -> (r: bool)
    ensures
        r == (a@ == b@),
{
    let x = a.as_bytes();
    let y = b.as_bytes();
    if x.len() != y.len() {
        return false;
    }
    let mut i: usize = 0;
    while i < x.len()
        invariant
            x@ == encode_utf8(a@),
            y@ == encode_utf8(b@),
            x@.len() == y@.len(),
            i <= x@.len(),
            forall|j: int| 0 <= j < i ==> x@[j] == y@[j],
        decreases x@.len() - i,
    {
        if x[i] != y[i] {
            return false;
        }
        i = i + 1;
    }
    proof {
        assert(x@ =~= y@);
        encode_utf8_decode_utf8(a@);
        encode_utf8_decode_utf8(b@);
    }
    true
}

/// What `str::trim` leaves of a text.
pub uninterp spec fn trimmed(s: Seq<char>) -> Seq<char>;

/// Relies on `str::trim`: the text without leading and trailing white
/// space, a function of the characters alone.
#[verifier::external_body]
pub(crate) fn trim_text(s: &str) -> (r: &str)
    ensures
        r@ == trimmed(s@),
{
    s.trim()
}

} // verus!
