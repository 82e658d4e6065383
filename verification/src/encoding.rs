//! Facts about UTF-8 that relate a text to its bytes.

use vstd::prelude::*;
use vstd::utf8::*;

verus! {

/// The bytes of one character: an ASCII character is the single byte of its
/// number, and no byte of any other character is below `0x80`.
pub proof fn lemma_char_bytes(c: char)
    ensures
        encode_scalar(c as u32).len() >= 1,
        c as u32 <= 0x7f ==> encode_scalar(c as u32) == seq![c as u8],
        c as u32 > 0x7f ==> forall|i: int|
            0 <= i < encode_scalar(c as u32).len() ==> #[trigger] encode_scalar(c as u32)[i]
                >= 0x80,
{
    let v = c as u32;
    char_is_scalar(c);
    if v <= 0x7f {
        assert(leading_byte_width_1(v) == v as u8) by (bit_vector)
            requires
                v <= 0x7f,
        ;
        assert(encode_scalar(v) =~= seq![c as u8]);
    } else {
        assert(leading_byte_width_2(v) >= 0x80) by (bit_vector);
        assert(leading_byte_width_3(v) >= 0x80) by (bit_vector);
        assert(leading_byte_width_4(v) >= 0x80) by (bit_vector);
        assert(last_continuation_byte(v) >= 0x80) by (bit_vector);
        assert(second_last_continuation_byte(v) >= 0x80) by (bit_vector);
        assert(third_last_continuation_byte(v) >= 0x80) by (bit_vector);
    }
}

/// The bytes of a character begin with the byte of an ASCII character
/// exactly when it is that character.
pub proof fn lemma_first_byte_tells_ascii(c: char, a: char)
    requires
        a as u32 <= 0x7f,
    ensures
        encode_scalar(c as u32)[0] == a as u8 <==> c == a,
{
    lemma_char_bytes(c);
    lemma_char_bytes(a);
    char_u32_cast(c, c as u32);
    char_u32_cast(a, a as u32);
}

/// Encoding a text that starts with `c` puts the bytes of `c` in front of
/// the encoding of the rest.
pub proof fn lemma_encode_cons(c: char, rest: Seq<char>)
    ensures
        encode_utf8(seq![c] + rest) == encode_scalar(c as u32) + encode_utf8(rest),
{
    let s = seq![c] + rest;
    assert(s[0] == c);
    assert(s.drop_first() =~= rest);
}

/// Encoding distributes over concatenation.
pub proof fn lemma_encode_concat(a: Seq<char>, b: Seq<char>)
    ensures
        encode_utf8(a + b) == encode_utf8(a) + encode_utf8(b),
    decreases a.len(),
{
    if a.len() == 0 {
        assert(a + b =~= b);
        assert(encode_utf8(a) + encode_utf8(b) =~= encode_utf8(b));
    } else {
        let rest = a.skip(1);
        assert(a =~= seq![a[0]] + rest);
        assert(a + b =~= seq![a[0]] + (rest + b));
        lemma_encode_cons(a[0], rest);
        lemma_encode_cons(a[0], rest + b);
        lemma_encode_concat(rest, b);
        assert(encode_scalar(a[0] as u32) + (encode_utf8(rest) + encode_utf8(b)) =~= (
        encode_scalar(a[0] as u32) + encode_utf8(rest)) + encode_utf8(b));
    }
}

/// A text begins with another exactly when its bytes begin with the bytes of
/// the other.
pub proof fn lemma_encode_prefix(p: Seq<char>, s: Seq<char>)
    ensures
        encode_utf8(p).is_prefix_of(encode_utf8(s)) <==> p.is_prefix_of(s),
    decreases p.len(),
{
    if p.is_prefix_of(s) {
        let tail = s.skip(p.len() as int);
        assert(s =~= p + tail);
        lemma_encode_concat(p, tail);
    }
    if encode_utf8(p).is_prefix_of(encode_utf8(s)) && p.len() > 0 {
        let bp = encode_utf8(p);
        let bs = encode_utf8(s);
        let c = p[0];
        let p_rest = p.skip(1);
        assert(p =~= seq![c] + p_rest);
        lemma_encode_cons(c, p_rest);
        encode_utf8_first_scalar(p);
        let d = s[0];
        let s_rest = s.skip(1);
        assert(s =~= seq![d] + s_rest);
        lemma_encode_cons(d, s_rest);
        encode_utf8_first_scalar(s);
        assert forall|i: int| 0 <= i < bp.len() implies bp[i] == bs[i] by {
            assert(bp[i] == bs.subrange(0, bp.len() as int)[i]);
        }
        assert(c == d) by {
            assert(decode_first_scalar(bp) == decode_first_scalar(bs));
            char_u32_cast(c, c as u32);
            char_u32_cast(d, d as u32);
        }
        let head = encode_scalar(c as u32);
        assert(encode_utf8(p_rest) =~= bp.skip(head.len() as int));
        assert(encode_utf8(s_rest) =~= bs.skip(head.len() as int));
        lemma_encode_prefix(p_rest, s_rest);
        assert(p =~= s.subrange(0, p.len() as int)) by {
            assert(p_rest =~= s_rest.subrange(0, p_rest.len() as int));
        }
    }
}

} // verus!
