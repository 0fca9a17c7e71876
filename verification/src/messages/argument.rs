//! The parts of a request that have no fixed length: names and payloads.
use vstd::prelude::*;
use vstd::slice::{slice_subrange, slice_to_vec};
use vstd::utf8::{decode_utf8, valid_utf8};

verus! {

/// `i` is where the first NUL byte of `s` stands.
pub open spec fn is_nul_index(s: Seq<u8>, i: int) -> bool {
    &&& 0 <= i < s.len()
    &&& s[i] == 0
    &&& forall|j: int| 0 <= j < i ==> s[j] != 0
}

/// `s` holds a NUL byte.
pub open spec fn has_nul(s: Seq<u8>) -> bool {
    exists|i: int| is_nul_index(s, i)
}

/// Where the first NUL byte of `s` stands, where it holds one.
pub open spec fn nul_index(s: Seq<u8>) -> int {
    choose|i: int| is_nul_index(s, i)
}

/// The bytes of the NUL terminated string that `s` starts with, without the
/// NUL.
pub open spec fn c_str(s: Seq<u8>) -> Seq<u8> {
    s.take(nul_index(s))
}

/// What follows the NUL terminated string that `s` starts with.
pub open spec fn after_c_str(s: Seq<u8>) -> Seq<u8> {
    s.skip(nul_index(s) + 1)
}

/// The text that `String::from_utf8_lossy` makes of `bytes`: the characters
/// that they encode in UTF-8, with U+FFFD in place of what is no valid
/// sequence.
pub uninterp spec fn utf8_lossy(bytes: Seq<u8>) -> Seq<char>;

/// The name that `s` starts with, as text: bytes that are no valid UTF-8 are
/// replaced, as the kernel hands over raw path bytes.
pub open spec fn name_of(s: Seq<u8>) -> Seq<char> {
    utf8_lossy(c_str(s))
}

/// There is one first NUL byte at most.
pub proof fn lemma_nul_index_unique(s: Seq<u8>, i: int)
    requires
        is_nul_index(s, i),
    ensures
        has_nul(s),
        nul_index(s) == i,
{
    let k = nul_index(s);
    assert(is_nul_index(s, k));
    if k < i {
        assert(s[k] != 0);
    }
    if i < k {
        assert(s[i] != 0);
    }
}

/// Where there is a NUL byte there is a first one, and none before it.
pub proof fn lemma_has_nul(s: Seq<u8>, k: int)
    requires
        0 <= k < s.len(),
        s[k] == 0,
    ensures
        has_nul(s),
        0 <= nul_index(s) <= k,
        is_nul_index(s, nul_index(s)),
    decreases k,
{
    if exists|j: int| 0 <= j < k && s[j] == 0 {
        let j = choose|j: int| 0 <= j < k && s[j] == 0;
        lemma_has_nul(s, j);
    } else {
        assert(is_nul_index(s, k));
        lemma_nul_index_unique(s, k);
    }
}

/// `memchr::memchr(needle, haystack)`: the index of the first byte of
/// `haystack` that equals `needle`, or `None` where no byte does.
#[verifier::external_body]
fn find_byte(needle: u8, haystack: &[u8]) -> (found: Option<usize>)
    ensures
        match found {
            Some(i) => {
                &&& i < haystack@.len()
                &&& haystack@[i as int] == needle
                &&& forall|j: int| 0 <= j < i ==> haystack@[j] != needle
            },
            None => forall|j: int| 0 <= j < haystack@.len() ==> haystack@[j] != needle,
        },
{
    memchr::memchr(needle, haystack)
}

/// `String::from_utf8_lossy(bytes).into_owned()`: the text named
/// [`utf8_lossy`], which for valid UTF-8 is the text that the bytes encode.
#[verifier::external_body]
fn string_from_utf8_lossy(bytes: &[u8]) -> (text: String)
    ensures
        text@ == utf8_lossy(bytes@),
        valid_utf8(bytes@) ==> text@ == decode_utf8(bytes@),
{
    String::from_utf8_lossy(bytes).into_owned()
}

/// Treats `buffer` as starting with a NUL terminated string, and converts
/// the string to UTF-8 with lossy decoding. Returns the string and what follows
/// its NUL, or `None` where `buffer` holds no NUL.
pub fn get_string(buffer: &[u8]) -> (r: Option<(String, &[u8])>)
    ensures
        r is Some <==> has_nul(buffer@),
        r matches Some((name, rest)) ==> {
            &&& name@ == name_of(buffer@)
            &&& valid_utf8(c_str(buffer@)) ==> name@ == decode_utf8(c_str(buffer@))
            &&& rest@ == after_c_str(buffer@)
        },
{
    match find_byte(0, buffer) {
        None => {
            assert(!has_nul(buffer@)) by {
                if has_nul(buffer@) {
                    assert(is_nul_index(buffer@, nul_index(buffer@)));
                }
            }
            None
        },
        Some(len) => {
            proof {
                lemma_nul_index_unique(buffer@, len as int);
            }
            let total = buffer.len();
            let out = slice_subrange(buffer, 0, len);
            let rest = slice_subrange(buffer, len + 1, total);
            let name = string_from_utf8_lossy(out);
            Some((name, rest))
        },
    }
}

/// The first `count` bytes of `buffer` as a vector, or `None` where `buffer`
/// is shorter.
pub fn get_vec(buffer: &[u8], count: usize) -> (r: Option<Vec<u8>>)
    ensures
        r is Some <==> count <= buffer@.len(),
        r matches Some(bytes) ==> bytes@ == buffer@.take(count as int),
{
    if count <= buffer.len() {
        Some(slice_to_vec(slice_subrange(buffer, 0, count)))
    } else {
        None
    }
}

} // verus!
