use vstd::prelude::*;
use vstd::string::StrSliceExecFns;
use vstd::string::StringSliceAdditionalSpecFns;
use vstd::utf8::{decode_utf8, encode_utf8, valid_utf8};

use crate::error::Error;

verus! {

/// Size of the backend's bounded name-query buffer: a known boundary of the
/// metadata channel, not a property of names themselves. A name this long or
/// longer arrives truncated (and then unterminated) through that channel.
pub const NAME_BUF_LEN: usize = 256;

/// `s` holds a terminator byte somewhere.
pub open spec fn has_nul(s: Seq<u8>) -> bool {
    exists|i: int| 0 <= i < s.len() && s[i] == 0
}

/// `i` is the index of the first terminator byte of `s`.
pub open spec fn first_nul_at(s: Seq<u8>, i: int) -> bool {
    &&& 0 <= i < s.len()
    &&& s[i] == 0
    &&& forall|j: int| 0 <= j < i ==> s[j] != 0
}

/// `p` is the prefix of `buf` that ends at the first terminator byte of
/// `buf`, or all of `buf` when it holds none. This is the portion of a
/// bounded metadata buffer that carries the name.
pub open spec fn is_nul_prefix(buf: Seq<u8>, p: Seq<u8>) -> bool {
    &&& p.len() <= buf.len()
    &&& p == buf.take(p.len() as int)
    &&& forall|i: int| 0 <= i < p.len() ==> p[i] != 0
    &&& (p.len() == buf.len() || buf[p.len() as int] == 0)
}

/// At most one sequence is the terminator-bounded prefix of `buf`.
pub proof fn lemma_nul_prefix_unique(buf: Seq<u8>, p1: Seq<u8>, p2: Seq<u8>)
    requires
        is_nul_prefix(buf, p1),
        is_nul_prefix(buf, p2),
    ensures
        p1 == p2,
{
    if p1.len() < p2.len() {
        assert(p2[p1.len() as int] == buf[p1.len() as int]);
        assert(buf[p1.len() as int] == 0);
        assert(false);
    }
    if p2.len() < p1.len() {
        assert(p1[p2.len() as int] == buf[p2.len() as int]);
        assert(buf[p2.len() as int] == 0);
        assert(false);
    }
    assert(p1 =~= p2);
}

/// Encode a caller-supplied name into the backend's null-terminated byte
/// convention: the name's UTF-8 bytes followed by one terminator byte.
/// A name holding an interior terminator byte cannot be represented and is
/// rejected before any system call is attempted.
pub fn encode_name(name: &str) -> (r: Result<Vec<u8>, Error>)
    ensures
        r is Ok <==> !has_nul(name.spec_bytes()),
        r matches Ok(v) ==> v@ == name.spec_bytes().push(0u8),
        r matches Err(e) ==> (e matches Error::Null(i) && first_nul_at(
            name.spec_bytes(),
            i as int,
        )),
{
    let mut bytes = name.as_bytes_vec();
    let n = bytes.len();
    let mut i: usize = 0;
    while i < n
        invariant
            n == bytes.len(),
            bytes@ == name.spec_bytes(),
            i <= n,
            forall|j: int| 0 <= j < i ==> bytes@[j] != 0,
        decreases n - i,
    {
        if bytes[i] == 0 {
            return Err(Error::Null(i));
        }
        i += 1;
    }
    bytes.push(0u8);
    Ok(bytes)
}

/// Cut a backend metadata buffer at its first terminator byte: the bytes
/// before it carry the recovered name. A buffer with no terminator is taken
/// whole (the backend's buffer is bounded, so a maximal-length name arrives
/// unterminated).
pub fn take_until_nul(buf: &[u8]) -> (r: Vec<u8>)
    ensures
        is_nul_prefix(buf@, r@),
{
    let n = buf.len();
    let mut out: Vec<u8> = Vec::new();
    let mut i: usize = 0;
    while i < n
        invariant
            n == buf@.len(),
            i <= n,
            out@ == buf@.take(i as int),
            forall|j: int| 0 <= j < i ==> buf@[j] != 0,
        decreases n - i,
    {
        let b = buf[i];
        if b == 0 {
            assert(out@ =~= buf@.take(i as int));
            return out;
        }
        out.push(b);
        assert(out@ =~= buf@.take(i + 1));
        i += 1;
    }
    assert(out@ =~= buf@.take(n as int));
    out
}

/// Relies on `String::from_utf8`: it returns the string made of exactly the
/// given bytes when they are valid UTF-8, and otherwise an error whose
/// `valid_up_to` marks a prefix verified to be valid UTF-8.
#[verifier::external_body]
fn string_from_utf8(bytes: Vec<u8>) -> (r: Result<String, usize>)
    ensures
        r is Ok <==> valid_utf8(bytes@),
        r matches Ok(s) ==> s@ == decode_utf8(bytes@),
        r matches Err(k) ==> k <= bytes@.len() && valid_utf8(bytes@.take(k as int)),
{
    match String::from_utf8(bytes) {
        Ok(s) => Ok(s),
        Err(e) => Err(e.utf8_error().valid_up_to()),
    }
}

/// Decode recovered name bytes into text, surfacing bytes that are not
/// valid UTF-8 as a distinct error kind, so that callers can tell a backend
/// failure from unparseable backend metadata.
pub fn decode_name(bytes: Vec<u8>) -> (r: Result<String, Error>)
    ensures
        r is Ok <==> valid_utf8(bytes@),
        r matches Ok(s) ==> s@ == decode_utf8(bytes@),
        r matches Err(e) ==> (e matches Error::Utf8(k) && k <= bytes@.len() && valid_utf8(
            bytes@.take(k as int),
        )),
{
    match string_from_utf8(bytes) {
        Ok(s) => Ok(s),
        Err(k) => Err(Error::Utf8(k)),
    }
}

/// Recover a name from a backend metadata buffer: cut at the first
/// terminator byte, then decode the prefix as UTF-8.
pub fn parse_name(buf: &[u8]) -> (r: Result<String, Error>)
    ensures
        forall|p: Seq<u8>|
            is_nul_prefix(buf@, p) ==> match r {
                Ok(s) => valid_utf8(p) && s@ == decode_utf8(p),
                Err(e) => e is Utf8 && !valid_utf8(p),
            },
{
    let prefix = take_until_nul(buf);
    let ghost q = prefix@;
    let r = decode_name(prefix);
    proof {
        assert forall|p: Seq<u8>| is_nul_prefix(buf@, p) implies match r {
            Ok(s) => valid_utf8(p) && s@ == decode_utf8(p),
            Err(e) => e is Utf8 && !valid_utf8(p),
        } by {
            lemma_nul_prefix_unique(buf@, p, q);
        }
    }
    r
}

/// A name without an interior terminator byte survives the round trip
/// through the backend's metadata channel: writing its encoded bytes, a
/// terminator, and arbitrary trailing bytes into a buffer, then cutting at
/// the first terminator and decoding, yields the original name.
pub proof fn lemma_name_round_trip(name: Seq<char>, junk: Seq<u8>)
    requires
        !has_nul(encode_utf8(name)),
    ensures
        is_nul_prefix(encode_utf8(name) + seq![0u8] + junk, encode_utf8(name)),
        valid_utf8(encode_utf8(name)),
        decode_utf8(encode_utf8(name)) == name,
        forall|p: Seq<u8>|
            is_nul_prefix(encode_utf8(name) + seq![0u8] + junk, p) ==> p == encode_utf8(name),
{
    let e = encode_utf8(name);
    let buf = e + seq![0u8] + junk;
    assert(e =~= buf.take(e.len() as int));
    assert(buf[e.len() as int] == 0);
    vstd::utf8::encode_utf8_valid_utf8(name);
    vstd::utf8::encode_utf8_decode_utf8(name);
    assert forall|p: Seq<u8>| is_nul_prefix(buf, p) implies p == e by {
        lemma_nul_prefix_unique(buf, p, e);
    }
}

} // verus!
