//! Framing of a diagnostic text as the nul-terminated bytes that a foreign
//! caller reads.

use vstd::prelude::*;
use vstd::string::StringSliceAdditionalSpecFns;
use vstd::utf8::encode_utf8;

verus! {

/// `bytes` is a foreign string: it ends in a NUL and holds no other.
pub open spec fn is_c_string(bytes: Seq<u8>) -> bool {
    &&& bytes.len() > 0
    &&& bytes.last() == 0
    &&& forall|i: int| 0 <= i < bytes.len() - 1 ==> bytes[i] != 0
}

/// The position of the first NUL in `bytes`, or their number where they hold
/// none.
pub open spec fn first_nul(bytes: Seq<u8>) -> nat
    decreases bytes.len(),
{
    if bytes.len() == 0 || bytes[0] == 0 {
        0
    } else {
        1 + first_nul(bytes.drop_first())
    }
}

/// The foreign string that carries `bytes`. A foreign string cannot hold a
/// NUL, so it carries what stands before the first one.
pub open spec fn c_string_of(bytes: Seq<u8>) -> Seq<u8> {
    bytes.take(first_nul(bytes) as int).push(0)
}

/// `n` is where the text of `bytes` ends: no NUL stands before it, and it is
/// the end of `bytes` or the place of a NUL.
pub open spec fn ends_text_at(bytes: Seq<u8>, n: int) -> bool {
    &&& 0 <= n <= bytes.len()
    &&& forall|i: int| 0 <= i < n ==> bytes[i] != 0
    &&& n < bytes.len() ==> bytes[n] == 0
}

/// The text of `bytes` ends at `first_nul(bytes)`.
pub proof fn lemma_first_nul_ends_text(bytes: Seq<u8>)
    ensures
        ends_text_at(bytes, first_nul(bytes) as int),
    decreases bytes.len(),
{
    if bytes.len() == 0 || bytes[0] == 0 {
    } else {
        let rest = bytes.drop_first();
        lemma_first_nul_ends_text(rest);
        let n = first_nul(rest) as int;
        assert forall|i: int| 0 <= i < n + 1 implies bytes[i] != 0 by {
            if i > 0 {
                assert(bytes[i] == rest[i - 1]);
            }
        }
        if n + 1 < bytes.len() {
            assert(bytes[n + 1] == rest[n]);
        }
    }
}

/// The text of `bytes` ends in one place only.
pub proof fn lemma_ends_text_unique(bytes: Seq<u8>, n: int)
    requires
        ends_text_at(bytes, n),
    ensures
        n == first_nul(bytes),
{
    lemma_first_nul_ends_text(bytes);
    let m = first_nul(bytes) as int;
    if n < m {
        assert(bytes[n] != 0);
    } else if m < n {
        assert(bytes[m] != 0);
    }
}

/// Every text has a foreign string, and a text without a NUL is carried
/// whole: its foreign string is the text and one NUL after it.
pub proof fn lemma_c_string_of(bytes: Seq<u8>)
    ensures
        is_c_string(c_string_of(bytes)),
        (forall|i: int| 0 <= i < bytes.len() ==> bytes[i] != 0) ==> c_string_of(bytes)
            == bytes.push(0),
{
    lemma_first_nul_ends_text(bytes);
    if forall|i: int| 0 <= i < bytes.len() ==> bytes[i] != 0 {
        lemma_ends_text_unique(bytes, bytes.len() as int);
        assert(bytes.take(bytes.len() as int) =~= bytes);
    }
}

/// Frames `message` as a foreign string: its UTF-8 bytes up to the first
/// NUL, if it holds one, and a NUL that ends them.
pub fn nul_terminated(message: &str) -> (framed: Vec<u8>)
    ensures
        framed@ == c_string_of(encode_utf8(message@)),
        is_c_string(framed@),
{
    let bytes = message.as_bytes();
    let mut framed: Vec<u8> = Vec::new();
    let mut i: usize = 0;
    while i < bytes.len() && bytes[i] != 0
        invariant
            i <= bytes.len(),
            framed@ == bytes@.take(i as int),
            forall|j: int| 0 <= j < i ==> bytes@[j] != 0,
        decreases bytes.len() - i,
    {
        framed.push(bytes[i]);
        i += 1;
        assert(framed@ =~= bytes@.take(i as int));
    }
    proof {
        lemma_ends_text_unique(bytes@, i as int);
        lemma_c_string_of(bytes@);
    }
    framed.push(0);
    framed
}

} // verus!
