//! HTTP/1.1 detection by the method at the start of a stream.
//!
//! Only the method is looked at: URIs can be long, so the version is not
//! searched for. The longest HTTP/1.1 method is seven bytes long, so at most
//! the first seven bytes of the stream decide.
use vstd::prelude::*;

verus! {

/// Length of the longest HTTP/1.1 method (`OPTIONS`, `CONNECT`).
pub const LARGEST_HTTP_METHOD: usize = 7;

/// How long a reader waits for the first bytes of a stream.
pub const MAX_HTTP_DETECTION_SECONDS: u64 = 10;

/// Number of HTTP/1.1 methods.
pub const H1_METHOD_COUNT: usize = 9;

/// The HTTP/1.1 methods, as bytes, in the order in which they are tried:
/// GET, PUT, HEAD, POST, PATCH, TRACE, DELETE, OPTIONS, CONNECT.
pub open spec fn h1_methods() -> Seq<Seq<u8>> {
    seq![
        seq![71u8, 69u8, 84u8],
        seq![80u8, 85u8, 84u8],
        seq![72u8, 69u8, 65u8, 68u8],
        seq![80u8, 79u8, 83u8, 84u8],
        seq![80u8, 65u8, 84u8, 67u8, 72u8],
        seq![84u8, 82u8, 65u8, 67u8, 69u8],
        seq![68u8, 69u8, 76u8, 69u8, 84u8, 69u8],
        seq![79u8, 80u8, 84u8, 73u8, 79u8, 78u8, 83u8],
        seq![67u8, 79u8, 78u8, 78u8, 69u8, 67u8, 84u8],
    ]
}

/// `p` is a prefix of `s`.
pub open spec fn is_prefix(p: Seq<u8>, s: Seq<u8>) -> bool {
    &&& p.len() <= s.len()
    &&& forall|k: int| 0 <= k < p.len() ==> s[k] == p[k]
}

/// `buf` starts with one of the HTTP/1.1 methods.
pub open spec fn starts_with_h1_method(buf: Seq<u8>) -> bool {
    exists|i: int| 0 <= i < h1_methods().len() && #[trigger] is_prefix(h1_methods()[i], buf)
}

/// A read of `n` bytes into `buf` is taken for HTTP/1.1: something was read,
/// and it starts with an HTTP/1.1 method.
pub open spec fn http11_detected(buf: Seq<u8>, n: usize) -> bool {
    n != 0 && starts_with_h1_method(buf)
}

/// The `i`-th HTTP/1.1 method, as bytes.
fn h1_method(i: usize) -> (m: Vec<u8>)
    requires
        i < H1_METHOD_COUNT,
    ensures
        m@ == h1_methods()[i as int],
{
    let m = match i {
        0 => vec![71u8, 69u8, 84u8],
        1 => vec![80u8, 85u8, 84u8],
        2 => vec![72u8, 69u8, 65u8, 68u8],
        3 => vec![80u8, 79u8, 83u8, 84u8],
        4 => vec![80u8, 65u8, 84u8, 67u8, 72u8],
        5 => vec![84u8, 82u8, 65u8, 67u8, 69u8],
        6 => vec![68u8, 69u8, 76u8, 69u8, 84u8, 69u8],
        7 => vec![79u8, 80u8, 84u8, 73u8, 79u8, 78u8, 83u8],
        _ => vec![67u8, 79u8, 78u8, 78u8, 69u8, 67u8, 84u8],
    };
    assert(m@ =~= h1_methods()[i as int]);
    m
}

/// Whether `buf` starts with `prefix`.
fn starts_with(buf: &[u8], prefix: &[u8]) -> (r: bool)
    ensures
        r == is_prefix(prefix@, buf@),
{
    if prefix.len() > buf.len() {
        return false;
    }
    let mut k: usize = 0;
    while k < prefix.len()
        invariant
            prefix@.len() <= buf@.len(),
            k <= prefix@.len(),
            forall|j: int| 0 <= j < k ==> buf@[j] == prefix@[j],
        decreases prefix@.len() - k,
    {
        if buf[k] != prefix[k] {
            return false;
        }
        k = k + 1;
    }
    true
}

/// Whether `buf` starts with an HTTP/1.1 method, trying the methods in order.
fn matches_h1_method(buf: &[u8]) -> (r: bool)
    ensures
        r == starts_with_h1_method(buf@),
{
    let mut i: usize = 0;
    while i < H1_METHOD_COUNT
        invariant
            i <= H1_METHOD_COUNT,
            forall|j: int| 0 <= j < i ==> !#[trigger] is_prefix(h1_methods()[j], buf@),
        decreases H1_METHOD_COUNT - i,
    {
        let method = h1_method(i);
        if starts_with(buf, method.as_slice()) {
            assert(h1_methods().len() == H1_METHOD_COUNT);
            assert(is_prefix(h1_methods()[i as int], buf@));
            return true;
        }
        i = i + 1;
    }
    false
}

/// Decides from the first bytes of a stream whether it speaks HTTP/1.1:
/// `n` is the number of bytes read into `buf`. Nothing read means no HTTP;
/// otherwise the stream is HTTP/1.1 when it starts with one of the nine
/// methods, whatever follows the method. A read shorter than a method
/// does not match that method.
pub fn determine_http11(buf: &[u8], n: usize) -> (is_http: bool)
    ensures
        is_http == http11_detected(buf@, n),
{
    if n == 0 {
        return false;
    }
    matches_h1_method(buf)
}

/// Only the first `LARGEST_HTTP_METHOD` bytes decide: two reads that agree
/// on them are both HTTP/1.1 or both not.
pub proof fn lemma_detection_reads_first_bytes(a: Seq<u8>, b: Seq<u8>, n: usize)
    requires
        a.len() >= LARGEST_HTTP_METHOD,
        b.len() >= LARGEST_HTTP_METHOD,
        forall|k: int| 0 <= k < LARGEST_HTTP_METHOD ==> a[k] == b[k],
    ensures
        http11_detected(a, n) == http11_detected(b, n),
{
    assert forall|i: int| 0 <= i < h1_methods().len() implies #[trigger] is_prefix(
        h1_methods()[i],
        a,
    ) == is_prefix(h1_methods()[i], b) by {
        assert(h1_methods()[i].len() <= LARGEST_HTTP_METHOD);
    }
    if starts_with_h1_method(a) {
        let i = choose|i: int| 0 <= i < h1_methods().len() && #[trigger] is_prefix(h1_methods()[i], a);
        assert(is_prefix(h1_methods()[i], b));
    }
    if starts_with_h1_method(b) {
        let i = choose|i: int| 0 <= i < h1_methods().len() && #[trigger] is_prefix(h1_methods()[i], b);
        assert(is_prefix(h1_methods()[i], a));
    }
}

/// A non-empty read that starts with an HTTP/1.1 method is HTTP/1.1,
/// whatever follows the method.
pub proof fn lemma_method_then_anything_is_http(i: int, rest: Seq<u8>, n: usize)
    requires
        0 <= i < h1_methods().len(),
        n != 0,
    ensures
        http11_detected(h1_methods()[i] + rest, n),
{
    let buf = h1_methods()[i] + rest;
    assert(is_prefix(h1_methods()[i], buf));
}

/// The bytes of an ASCII text.
pub open spec fn ascii_bytes(text: Seq<char>) -> Seq<u8> {
    text.map_values(|c: char| c as u8)
}

/// The method table holds exactly the nine HTTP/1.1 method names, as ASCII
/// bytes, in the order in which they are tried.
pub proof fn lemma_h1_methods_are_the_method_names()
    ensures
        h1_methods().len() == H1_METHOD_COUNT,
        h1_methods()[0] == ascii_bytes("GET"@),
        h1_methods()[1] == ascii_bytes("PUT"@),
        h1_methods()[2] == ascii_bytes("HEAD"@),
        h1_methods()[3] == ascii_bytes("POST"@),
        h1_methods()[4] == ascii_bytes("PATCH"@),
        h1_methods()[5] == ascii_bytes("TRACE"@),
        h1_methods()[6] == ascii_bytes("DELETE"@),
        h1_methods()[7] == ascii_bytes("OPTIONS"@),
        h1_methods()[8] == ascii_bytes("CONNECT"@),
{
    reveal_strlit("GET");
    reveal_strlit("PUT");
    reveal_strlit("HEAD");
    reveal_strlit("POST");
    reveal_strlit("PATCH");
    reveal_strlit("TRACE");
    reveal_strlit("DELETE");
    reveal_strlit("OPTIONS");
    reveal_strlit("CONNECT");
    assert(h1_methods()[0] =~= ascii_bytes("GET"@));
    assert(h1_methods()[1] =~= ascii_bytes("PUT"@));
    assert(h1_methods()[2] =~= ascii_bytes("HEAD"@));
    assert(h1_methods()[3] =~= ascii_bytes("POST"@));
    assert(h1_methods()[4] =~= ascii_bytes("PATCH"@));
    assert(h1_methods()[5] =~= ascii_bytes("TRACE"@));
    assert(h1_methods()[6] =~= ascii_bytes("DELETE"@));
    assert(h1_methods()[7] =~= ascii_bytes("OPTIONS"@));
    assert(h1_methods()[8] =~= ascii_bytes("CONNECT"@));
}

/// A read is HTTP/1.1 exactly when something was read and it starts with the
/// ASCII bytes of one of the nine HTTP/1.1 method names.
pub proof fn lemma_detected_iff_a_method_name_leads(buf: Seq<u8>, n: usize)
    ensures
        http11_detected(buf, n) <==> n != 0 && (is_prefix(ascii_bytes("GET"@), buf) || is_prefix(
            ascii_bytes("PUT"@),
            buf,
        ) || is_prefix(ascii_bytes("HEAD"@), buf) || is_prefix(ascii_bytes("POST"@), buf)
            || is_prefix(ascii_bytes("PATCH"@), buf) || is_prefix(ascii_bytes("TRACE"@), buf)
            || is_prefix(ascii_bytes("DELETE"@), buf) || is_prefix(ascii_bytes("OPTIONS"@), buf)
            || is_prefix(ascii_bytes("CONNECT"@), buf)),
{
    lemma_h1_methods_are_the_method_names();
    if starts_with_h1_method(buf) {
        let i = choose|i: int| 0 <= i < h1_methods().len() && #[trigger] is_prefix(h1_methods()[i], buf);
        assert(0 <= i < 9);
    }
    if is_prefix(ascii_bytes("GET"@), buf) { assert(is_prefix(h1_methods()[0], buf)); }
    if is_prefix(ascii_bytes("PUT"@), buf) { assert(is_prefix(h1_methods()[1], buf)); }
    if is_prefix(ascii_bytes("HEAD"@), buf) { assert(is_prefix(h1_methods()[2], buf)); }
    if is_prefix(ascii_bytes("POST"@), buf) { assert(is_prefix(h1_methods()[3], buf)); }
    if is_prefix(ascii_bytes("PATCH"@), buf) { assert(is_prefix(h1_methods()[4], buf)); }
    if is_prefix(ascii_bytes("TRACE"@), buf) { assert(is_prefix(h1_methods()[5], buf)); }
    if is_prefix(ascii_bytes("DELETE"@), buf) { assert(is_prefix(h1_methods()[6], buf)); }
    if is_prefix(ascii_bytes("OPTIONS"@), buf) { assert(is_prefix(h1_methods()[7], buf)); }
    if is_prefix(ascii_bytes("CONNECT"@), buf) { assert(is_prefix(h1_methods()[8], buf)); }
}

} // verus!
