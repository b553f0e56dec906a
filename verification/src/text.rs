//! Text operations that the core needs.
//!
//! Comparing two texts and finding a prefix are proved here, on the UTF-8
//! bytes of the texts. Putting a text in upper case rests on the case tables
//! of Unicode: `str_to_uppercase` calls the standard library and is not
//! proved, and what it returns has a name.

use vstd::prelude::*;
use vstd::string::StringSliceAdditionalSpecFns;
use vstd::utf8::decode_utf8_split;
use vstd::utf8::encode_utf8;
use vstd::utf8::encode_utf8_decode_utf8;
use vstd::utf8::encode_utf8_first_scalar;
use vstd::utf8::encode_utf8_valid_utf8;
use vstd::utf8::is_char_boundary;
use vstd::utf8::pop_first_scalar;

verus! {

/// What `str::to_uppercase` returns for the text.
pub uninterp spec fn uppercase_of(text: Seq<char>) -> Seq<char>;

/// `str::to_uppercase`.
#[verifier::external_body]
pub(crate) fn str_to_uppercase(text: &str) -> (upper: String)
    ensures
        upper@ == uppercase_of(text@),
{
    text.to_uppercase()
}

/// Whether two texts are the same, decided on their bytes: texts with the
/// same UTF-8 encoding are the same text.
pub(crate) fn same_text(a: &str, b: &str) -> (same: bool)
    ensures
        same == (a@ == b@),
{
    let left = a.as_bytes();
    let right = b.as_bytes();
    proof {
        encode_utf8_decode_utf8(a@);
        encode_utf8_decode_utf8(b@);
    }
    if left.len() != right.len() {
        return false;
    }
    let mut i: usize = 0;
    while i < left.len()
        invariant
            i <= left.len(),
            left@.len() == right@.len(),
            left@ == encode_utf8(a@),
            right@ == encode_utf8(b@),
            forall|k: int| 0 <= k < i ==> left@[k] == right@[k],
        decreases left.len() - i,
    {
        if left[i] != right[i] {
            return false;
        }
        i += 1;
    }
    assert(left@ =~= right@);
    true
}

/// The encoding of two texts joined is their encodings joined.
proof fn lemma_encode_concat(a: Seq<char>, b: Seq<char>)
    ensures
        encode_utf8(a + b) == encode_utf8(a) + encode_utf8(b),
    decreases a.len(),
{
    if a.len() == 0 {
        assert(a + b =~= b);
        assert(encode_utf8(a) + encode_utf8(b) =~= encode_utf8(b));
    } else {
        lemma_encode_concat(a.drop_first(), b);
        assert((a + b).drop_first() =~= a.drop_first() + b);
        assert((a + b)[0] == a[0]);
        assert(encode_utf8(a + b) =~= encode_utf8(a) + encode_utf8(b));
    }
}

/// In the encoding of two texts joined, a character begins where the
/// encoding of the first text ends.
proof fn lemma_boundary_after(a: Seq<char>, b: Seq<char>)
    ensures
        is_char_boundary(encode_utf8(a + b), encode_utf8(a).len() as int),
    decreases a.len(),
{
    let whole = encode_utf8(a + b);
    encode_utf8_valid_utf8(a + b);
    if a.len() > 0 {
        lemma_encode_concat(a, b);
        encode_utf8_first_scalar(a + b);
        encode_utf8_first_scalar(a);
        assert((a + b)[0] == a[0]);
        assert((a + b).drop_first() =~= a.drop_first() + b);
        assert(pop_first_scalar(whole) =~= encode_utf8(a.drop_first() + b));
        lemma_boundary_after(a.drop_first(), b);
    }
}

/// Whether the text begins with the prefix.
pub(crate) fn starts_with(text: &str, prefix: &str) -> (found: bool)
    ensures
        found == prefix@.is_prefix_of(text@),
{
    let n = prefix.as_bytes().len();
    proof {
        if prefix@.is_prefix_of(text@) {
            let rest = text@.subrange(prefix@.len() as int, text@.len() as int);
            assert(text@ =~= prefix@ + rest);
            lemma_encode_concat(prefix@, rest);
            lemma_boundary_after(prefix@, rest);
            assert(encode_utf8(text@).subrange(0, n as int) =~= encode_utf8(prefix@));
        }
    }
    if n > text.as_bytes().len() {
        return false;
    }
    if !text.is_char_boundary(n) {
        return false;
    }
    let (head, tail) = text.split_at(n);
    proof {
        encode_utf8_valid_utf8(text@);
        decode_utf8_split(encode_utf8(text@), n as int);
        encode_utf8_decode_utf8(text@);
        encode_utf8_decode_utf8(head@);
        encode_utf8_decode_utf8(tail@);
        encode_utf8_decode_utf8(prefix@);
        assert(text@ =~= head@ + tail@);
        if head@ == prefix@ {
            assert(text@.subrange(0, prefix@.len() as int) =~= prefix@);
        }
    }
    same_text(head, prefix)
}

} // verus!
