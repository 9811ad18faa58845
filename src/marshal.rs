use vstd::prelude::*;
use vstd::slice::slice_subrange;
use vstd::string::*;
use vstd::utf8::*;

use crate::error::{NDIError, NDIResult};

verus! {

broadcast use vstd::utf8::group_utf8_lib;

/// Whether the text holds a NUL character, which a C string cannot carry.
pub open spec fn has_nul(s: Seq<char>) -> bool {
    s.contains('\0')
}

/// The NUL-terminated UTF-8 bytes that stand for the text on the native side.
pub open spec fn c_bytes_of(s: Seq<char>) -> Seq<u8> {
    encode_utf8(s).push(0u8)
}

/// Index of the first NUL byte in `b`, or its length where there is none.
pub open spec fn nul_index(b: Seq<u8>) -> int
    decreases b.len(),
{
    if b.len() == 0 {
        0
    } else if b[0] == 0u8 {
        0
    } else {
        1 + nul_index(b.drop_first())
    }
}

/// The bytes of a C string: everything before its terminator.
pub open spec fn text_of_c_bytes(b: Seq<u8>) -> Seq<u8> {
    b.take(nul_index(b))
}

proof fn lemma_nul_index(b: Seq<u8>)
    ensures
        0 <= nul_index(b) <= b.len(),
        nul_index(b) < b.len() ==> b[nul_index(b)] == 0u8,
        forall|j: int| 0 <= j < nul_index(b) ==> b[j] != 0u8,
    decreases b.len(),
{
    if b.len() > 0 && b[0] != 0u8 {
        lemma_nul_index(b.drop_first());
        assert forall|j: int| 0 <= j < nul_index(b) implies b[j] != 0u8 by {
            if j > 0 {
                assert(b[j] == b.drop_first()[j - 1]);
            }
        }
    }
}

proof fn lemma_nul_index_unique(b: Seq<u8>, i: int)
    requires
        0 <= i <= b.len(),
        i < b.len() ==> b[i] == 0u8,
        forall|j: int| 0 <= j < i ==> b[j] != 0u8,
    ensures
        nul_index(b) == i,
    decreases b.len(),
{
    if b.len() > 0 && b[0] != 0u8 {
        assert forall|j: int| 0 <= j < i - 1 implies b.drop_first()[j] != 0u8 by {
            assert(b[j + 1] != 0u8);
        }
        lemma_nul_index_unique(b.drop_first(), i - 1);
    }
}

proof fn lemma_scalar_has_no_zero_byte(c: char)
    requires
        c != '\0',
    ensures
        !encode_scalar(c as u32).contains(0u8),
{
    let v = c as u32;
    assert(v != 0) by {
        char_u32_cast(c, v);
    }
    let e = encode_scalar(v);
    if has_width_1_encoding(v) {
        assert(v <= 0x7F);
        assert((v & 0x7F) as u8 != 0) by (bit_vector)
            requires v != 0u32, v <= 0x7Fu32;
    } else {
        assert(0xC0u8 | ((v >> 6u32) & 0x1Fu32) as u8 != 0) by (bit_vector);
        assert(0xE0u8 | ((v >> 12u32) & 0x0Fu32) as u8 != 0) by (bit_vector);
        assert(0xF0u8 | ((v >> 18u32) & 0x7u32) as u8 != 0) by (bit_vector);
        assert(0x80u8 | (v & 0x3Fu32) as u8 != 0) by (bit_vector);
        assert(0x80u8 | ((v >> 6u32) & 0x3Fu32) as u8 != 0) by (bit_vector);
        assert(0x80u8 | ((v >> 12u32) & 0x3Fu32) as u8 != 0) by (bit_vector);
    }
    assert forall|k: int| 0 <= k < e.len() implies e[k] != 0u8 by {}
}

/// The UTF-8 encoding of text without a NUL character holds no zero byte.
pub proof fn lemma_encoding_has_no_zero_byte(s: Seq<char>)
    requires
        !has_nul(s),
    ensures
        forall|k: int| 0 <= k < encode_utf8(s).len() ==> encode_utf8(s)[k] != 0u8,
    decreases s.len(),
{
    if s.len() > 0 {
        let rest = s.drop_first();
        assert(!has_nul(rest)) by {
            if rest.contains('\0') {
                let k = choose|k: int| 0 <= k < rest.len() && rest[k] == '\0';
                assert(s[k + 1] == '\0');
            }
        }
        assert(s[0] != '\0') by {
            assert(s.contains(s[0]));
        }
        lemma_scalar_has_no_zero_byte(s[0]);
        lemma_encoding_has_no_zero_byte(rest);
        let head = encode_scalar(s[0] as u32);
        assert(encode_utf8(s) == head + encode_utf8(rest));
        assert forall|k: int| 0 <= k < encode_utf8(s).len() implies encode_utf8(s)[k] != 0u8 by {
            if k < head.len() {
                assert(!head.contains(0u8));
                assert(head[k] != 0u8);
            } else {
                assert(encode_utf8(s)[k] == encode_utf8(rest)[k - head.len()]);
            }
        }
    }
}

/// Reading the C string that stands for NUL-free text gives back its UTF-8 bytes.
pub proof fn lemma_c_bytes_text(s: Seq<char>)
    requires
        !has_nul(s),
    ensures
        text_of_c_bytes(c_bytes_of(s)) == encode_utf8(s),
{
    let e = encode_utf8(s);
    let b = c_bytes_of(s);
    lemma_encoding_has_no_zero_byte(s);
    assert forall|j: int| 0 <= j < e.len() implies b[j] != 0u8 by {
        assert(b[j] == e[j]);
    }
    lemma_nul_index_unique(b, e.len() as int);
    assert(b.take(e.len() as int) =~= e);
}

/// Marshals text outbound: its UTF-8 bytes followed by a NUL terminator.
/// Fails with `InvalidCString` exactly when the text holds a NUL character.
pub fn to_c_bytes(s: &str) -> (r: NDIResult<Vec<u8>>)
    ensures
        r is Ok <==> !has_nul(s@),
        r is Ok ==> r->Ok_0@ == c_bytes_of(s@),
        r is Err ==> r->Err_0 is InvalidCString,
{
    let n = s.unicode_len();
    let mut i: usize = 0;
    while i < n
        invariant
            n == s@.len(),
            i <= n,
            forall|j: int| 0 <= j < i ==> s@[j] != '\0',
        decreases n - i,
    {
        if s.get_char(i) == '\0' {
            assert(s@.contains(s@[i as int]));
            return Err(NDIError::InvalidCString);
        }
        i = i + 1;
    }
    let mut out = s.as_bytes_vec();
    out.push(0u8);
    Ok(out)
}

/// Relies on `core::str::from_utf8`: it accepts exactly the valid UTF-8 byte
/// sequences and reads them as the characters they encode.
#[verifier::external_body]
fn str_from_utf8(b: &[u8]) -> (r: Result<&str, core::str::Utf8Error>)
    ensures
        r is Ok <==> valid_utf8(b@),
        r is Ok ==> r->Ok_0@ == decode_utf8(b@),
{
    core::str::from_utf8(b)
}

/// Marshals text inbound, strictly: the bytes before the first NUL (all of them
/// where there is none) must be valid UTF-8, and are read as the text they encode.
pub fn string_from_c_bytes(b: &[u8]) -> (r: NDIResult<String>)
    ensures
        r is Ok <==> valid_utf8(text_of_c_bytes(b@)),
        r is Ok ==> r->Ok_0@ == decode_utf8(text_of_c_bytes(b@)),
        r is Err ==> r->Err_0 is Utf8Error,
{
    let mut i: usize = 0;
    while i < b.len() && b[i] != 0u8
        invariant
            i <= b@.len(),
            forall|j: int| 0 <= j < i ==> b@[j] != 0u8,
        decreases b@.len() - i,
    {
        i = i + 1;
    }
    proof {
        lemma_nul_index_unique(b@, i as int);
    }
    let text = slice_subrange(b, 0, i);
    assert(text@ =~= text_of_c_bytes(b@));
    match str_from_utf8(text) {
        Ok(s) => Ok(String::from_str(s)),
        Err(e) => Err(NDIError::Utf8Error(e)),
    }
}

} // verus!
