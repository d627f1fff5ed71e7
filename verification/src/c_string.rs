//! Which strings the native compiler can take: a C string cannot hold a
//! NUL byte, so a name with one is refused before it reaches the compiler.
use vstd::prelude::*;
use vstd::string::StringSliceAdditionalSpecFns;

verus! {

/// The UTF-8 encoding of the text has no NUL byte, so it converts to a C string.
pub open spec fn is_c_compatible(text: Seq<char>) -> bool {
    !vstd::utf8::encode_utf8(text).contains(0u8)
}

/// Whether the string converts to a C string, that is, has no NUL byte.
pub fn c_compatible(s: &str) -> (r: bool)
    ensures
        r == is_c_compatible(s@),
{
    let bytes = s.as_bytes();
    let n = bytes.len();
    let mut i: usize = 0;
    while i < n
        invariant
            n == bytes@.len(),
            bytes@ == s.spec_bytes(),
            i <= n,
            forall|j: int| 0 <= j < i ==> bytes@[j] != 0u8,
        decreases n - i,
    {
        if bytes[i] == 0u8 {
            assert(s.spec_bytes()[i as int] == 0u8);
            return false;
        }
        i += 1;
    }
    true
}

/// A character's UTF-8 encoding has a NUL byte exactly when it is NUL.
pub proof fn lemma_scalar_nul_byte(c: char)
    ensures
        vstd::utf8::encode_scalar(c as u32).contains(0u8) <==> c == '\0',
{
    let v = c as u32;
    let e = vstd::utf8::encode_scalar(v);
    if vstd::utf8::has_width_1_encoding(v) {
        assert(e =~= seq![vstd::utf8::leading_byte_width_1(v)]);
        assert(vstd::utf8::leading_byte_width_1(v) == 0u8 <==> v == 0) by (bit_vector)
            requires
                v <= 0x7F,
        ;
        if e.contains(0u8) {
            assert(e[0] == 0u8);
        }
        if v == 0 {
            assert(e[0] == 0u8);
        }
    } else {
        assert(v != 0);
        assert(vstd::utf8::leading_byte_width_2(v) != 0u8) by (bit_vector);
        assert(vstd::utf8::leading_byte_width_3(v) != 0u8) by (bit_vector);
        assert(vstd::utf8::leading_byte_width_4(v) != 0u8) by (bit_vector);
        assert(vstd::utf8::last_continuation_byte(v) != 0u8) by (bit_vector);
        assert(vstd::utf8::second_last_continuation_byte(v) != 0u8) by (bit_vector);
        assert(vstd::utf8::third_last_continuation_byte(v) != 0u8) by (bit_vector);
        assert(!e.contains(0u8));
    }
}

/// A text converts to a C string exactly when it has no NUL character.
pub proof fn lemma_c_compatible_iff_no_nul(text: Seq<char>)
    ensures
        is_c_compatible(text) <==> !text.contains('\0'),
    decreases text.len(),
{
    let e = vstd::utf8::encode_utf8(text);
    if text.len() == 0 {
        assert(e =~= Seq::<u8>::empty());
        assert(!e.contains(0u8));
        assert(!text.contains('\0'));
    } else {
        let rest = text.drop_first();
        lemma_c_compatible_iff_no_nul(rest);
        lemma_scalar_nul_byte(text[0]);
        let a = vstd::utf8::encode_scalar(text[0] as u32);
        let b = vstd::utf8::encode_utf8(rest);
        assert(e == a + b);
        if e.contains(0u8) {
            let k = choose|k: int| 0 <= k < e.len() && e[k] == 0u8;
            if k < a.len() {
                assert(a[k] == 0u8);
                assert(text[0] == '\0');
            } else {
                assert(b[k - a.len()] == 0u8);
                let j = choose|j: int| 0 <= j < rest.len() && rest[j] == '\0';
                assert(text[j + 1] == '\0');
            }
        }
        if text.contains('\0') {
            let j = choose|j: int| 0 <= j < text.len() && text[j] == '\0';
            if j == 0 {
                let k = choose|k: int| 0 <= k < a.len() && a[k] == 0u8;
                assert(e[k] == 0u8);
            } else {
                assert(rest[j - 1] == '\0');
                let k = choose|k: int| 0 <= k < b.len() && b[k] == 0u8;
                assert(e[k + a.len()] == 0u8);
            }
        }
    }
}

} // verus!
