//! Quote unescaping for configuration payloads.
//!
//! The front end hands over configuration content in which every double
//! quote is preceded by a backslash. Before the content is forwarded as a
//! process argument each such pair collapses to the bare quote. The rule is
//! stated once, over sequences of any element type, and used at two levels:
//! over characters, which is what callers see, and over UTF-8 bytes, which is
//! what the executable code walks.

use vstd::prelude::*;
use vstd::utf8::*;
use crate::bytes::decode_text;
use crate::encoding::{lemma_char_bytes, lemma_encode_cons, lemma_first_byte_tells_ascii};

verus! {

/// The byte of a backslash.
pub const BACKSLASH: u8 = 0x5c;

/// The byte of a double quote.
pub const QUOTE: u8 = 0x22;

/// True when `s` holds `escape` at index `i` and `quote` right behind it.
pub open spec fn pair_at<T>(s: Seq<T>, i: int, escape: T, quote: T) -> bool {
    0 <= i && i + 1 < s.len() && s[i] == escape && s[i + 1] == quote
}

/// `s` read from left to right, with every `escape` that stands directly
/// before a `quote` left out.
pub open spec fn collapse_pairs<T>(s: Seq<T>, escape: T, quote: T) -> Seq<T>
    decreases s.len(),
{
    if s.len() == 0 {
        s
    } else if pair_at(s, 0, escape, quote) {
        seq![quote] + collapse_pairs(s.skip(2), escape, quote)
    } else {
        seq![s[0]] + collapse_pairs(s.skip(1), escape, quote)
    }
}

/// True when a backslash stands at index `i` of `s`, directly before a
/// double quote.
pub open spec fn escaped_quote_at(s: Seq<char>, i: int) -> bool {
    pair_at(s, i, '\\', '"')
}

/// True when `s` holds no backslash directly before a double quote.
pub open spec fn free_of_escaped_quotes(s: Seq<char>) -> bool {
    forall|i: int| !escaped_quote_at(s, i)
}

/// The content with every `\"` replaced by `"`.
pub open spec fn unescaped(s: Seq<char>) -> Seq<char> {
    collapse_pairs(s, '\\', '"')
}

/// The same replacement on UTF-8 bytes.
pub open spec fn unescaped_bytes(b: Seq<u8>) -> Seq<u8> {
    collapse_pairs(b, BACKSLASH, QUOTE)
}

/// Collapsing never lengthens a sequence, and shortens one that holds a pair.
proof fn lemma_collapse_len<T>(s: Seq<T>, escape: T, quote: T)
    ensures
        collapse_pairs(s, escape, quote).len() <= s.len(),
        (exists|i: int| pair_at(s, i, escape, quote)) ==> collapse_pairs(s, escape, quote).len()
            < s.len(),
    decreases s.len(),
{
    if s.len() == 0 {
    } else if pair_at(s, 0, escape, quote) {
        lemma_collapse_len(s.skip(2), escape, quote);
    } else {
        let rest = s.skip(1);
        lemma_collapse_len(rest, escape, quote);
        if exists|i: int| pair_at(s, i, escape, quote) {
            let i = choose|i: int| pair_at(s, i, escape, quote);
            assert(pair_at(rest, i - 1, escape, quote));
        }
    }
}

/// A sequence without any pair is left as it is.
proof fn lemma_collapse_without_pairs<T>(s: Seq<T>, escape: T, quote: T)
    requires
        forall|i: int| !pair_at(s, i, escape, quote),
    ensures
        collapse_pairs(s, escape, quote) == s,
    decreases s.len(),
{
    if s.len() > 0 {
        let rest = s.skip(1);
        assert(!pair_at(s, 0, escape, quote));
        assert forall|i: int| !pair_at(rest, i, escape, quote) by {
            assert(!pair_at(s, i + 1, escape, quote));
        }
        lemma_collapse_without_pairs(rest, escape, quote);
        assert(seq![s[0]] + rest =~= s);
    }
}

/// A pair collapses where it stands, whatever is around it.
proof fn lemma_collapse_around_pair<T>(before: Seq<T>, after: Seq<T>, escape: T, quote: T)
    requires
        escape != quote,
    ensures
        collapse_pairs(before + seq![escape, quote] + after, escape, quote) == collapse_pairs(
            before,
            escape,
            quote,
        ) + seq![quote] + collapse_pairs(after, escape, quote),
    decreases before.len(),
{
    let whole = before + seq![escape, quote] + after;
    let collapsed_after = collapse_pairs(after, escape, quote);
    if before.len() == 0 {
        assert(pair_at(whole, 0, escape, quote));
        assert(whole.skip(2) =~= after);
        assert(seq![quote] + collapsed_after =~= collapse_pairs(before, escape, quote)
            + seq![quote] + collapsed_after);
    } else if pair_at(before, 0, escape, quote) {
        let rest = before.skip(2);
        assert(pair_at(whole, 0, escape, quote));
        assert(whole.skip(2) =~= rest + seq![escape, quote] + after);
        lemma_collapse_around_pair(rest, after, escape, quote);
        assert(seq![quote] + (collapse_pairs(rest, escape, quote) + seq![quote] + collapsed_after)
            =~= (seq![quote] + collapse_pairs(rest, escape, quote)) + seq![quote]
            + collapsed_after);
    } else {
        let rest = before.skip(1);
        assert(whole[0] == before[0]);
        if before.len() == 1 {
            assert(whole[1] == escape);
        } else {
            assert(whole[1] == before[1]);
        }
        assert(!pair_at(whole, 0, escape, quote));
        assert(whole.skip(1) =~= rest + seq![escape, quote] + after);
        lemma_collapse_around_pair(rest, after, escape, quote);
        assert(seq![before[0]] + (collapse_pairs(rest, escape, quote) + seq![quote]
            + collapsed_after) =~= (seq![before[0]] + collapse_pairs(rest, escape, quote))
            + seq![quote] + collapsed_after);
    }
}

/// A leading block that holds no `escape` passes through unchanged.
proof fn lemma_collapse_after_block<T>(block: Seq<T>, tail: Seq<T>, escape: T, quote: T)
    requires
        forall|i: int| 0 <= i < block.len() ==> block[i] != escape,
    ensures
        collapse_pairs(block + tail, escape, quote) == block + collapse_pairs(tail, escape, quote),
    decreases block.len(),
{
    if block.len() == 0 {
        assert(block + tail =~= tail);
        assert(block + collapse_pairs(tail, escape, quote) =~= collapse_pairs(tail, escape, quote));
    } else {
        let whole = block + tail;
        let rest = block.skip(1);
        assert(whole[0] == block[0]);
        assert(whole.skip(1) =~= rest + tail);
        assert forall|i: int| 0 <= i < rest.len() implies rest[i] != escape by {
            assert(rest[i] == block[i + 1]);
        }
        lemma_collapse_after_block(rest, tail, escape, quote);
        assert(seq![block[0]] + (rest + collapse_pairs(tail, escape, quote)) =~= block
            + collapse_pairs(tail, escape, quote));
    }
}

/// Every `\"` becomes `"` where it stands: what is before it and what is
/// after it are unescaped on their own.
pub proof fn lemma_unescaped_replaces_each_pair(before: Seq<char>, after: Seq<char>)
    ensures
        unescaped(before + seq!['\\', '"'] + after) == unescaped(before) + seq!['"'] + unescaped(
            after,
        ),
{
    lemma_collapse_around_pair(before, after, '\\', '"');
}

/// Content is forwarded as it is exactly when it holds no `\"`; any other
/// content comes out shorter.
pub proof fn lemma_unescaped_is_identity_iff(s: Seq<char>)
    ensures
        unescaped(s) == s <==> free_of_escaped_quotes(s),
        unescaped(s).len() <= s.len(),
{
    lemma_collapse_len(s, '\\', '"');
    if free_of_escaped_quotes(s) {
        assert forall|i: int| !pair_at(s, i, '\\', '"') by {
            assert(!escaped_quote_at(s, i));
        }
        lemma_collapse_without_pairs(s, '\\', '"');
    } else {
        let i = choose|i: int| escaped_quote_at(s, i);
        assert(pair_at(s, i, '\\', '"'));
    }
}

/// Collapsing escaped quotes in the UTF-8 bytes of a text gives the UTF-8
/// bytes of the text with its escaped quotes collapsed.
proof fn lemma_unescape_commutes_with_encoding(s: Seq<char>)
    ensures
        unescaped_bytes(encode_utf8(s)) == encode_utf8(unescaped(s)),
    decreases s.len(),
{
    if s.len() > 0 {
        let c = s[0];
        let rest = s.skip(1);
        let head = encode_scalar(c as u32);
        let bytes = encode_utf8(s);
        assert(s =~= seq![c] + rest);
        lemma_encode_cons(c, rest);
        lemma_char_bytes(c);
        if escaped_quote_at(s, 0) {
            let after = s.skip(2);
            assert(rest =~= seq!['"'] + after);
            lemma_encode_cons('"', after);
            lemma_char_bytes('"');
            assert(bytes =~= seq![BACKSLASH, QUOTE] + encode_utf8(after));
            assert(bytes.skip(2) =~= encode_utf8(after));
            lemma_unescape_commutes_with_encoding(after);
            lemma_encode_cons('"', unescaped(after));
        } else {
            lemma_unescape_commutes_with_encoding(rest);
            lemma_encode_cons(c, unescaped(rest));
            if c == '\\' {
                if rest.len() > 0 {
                    let d = rest[0];
                    assert(rest =~= seq![d] + rest.skip(1));
                    lemma_encode_cons(d, rest.skip(1));
                    lemma_first_byte_tells_ascii(d, '"');
                    assert(bytes[1] == encode_scalar(d as u32)[0]);
                }
                assert(!pair_at(bytes, 0, BACKSLASH, QUOTE));
                assert(bytes.skip(1) =~= encode_utf8(rest));
            } else {
                lemma_first_byte_tells_ascii(c, '\\');
                assert forall|i: int| 0 <= i < head.len() implies head[i] != BACKSLASH by {
                    if c as u32 > 0x7f {
                        assert(encode_scalar(c as u32)[i] >= 0x80);
                    }
                }
                lemma_collapse_after_block(head, encode_utf8(rest), BACKSLASH, QUOTE);
            }
        }
    }
}

/// Replaces every `\"` of `content` by `"`.
pub fn unescape_quotes(content: &str) -> (r: String)
    ensures
        r@ == unescaped(content@),
{
    let bytes = content.as_bytes();
    let mut out: Vec<u8> = Vec::new();
    let mut i: usize = 0;
    assert(bytes@.skip(0) =~= bytes@);
    while i < bytes.len()
        invariant
            i <= bytes.len(),
            unescaped_bytes(bytes@) == out@ + unescaped_bytes(bytes@.skip(i as int)),
        decreases bytes.len() - i,
    {
        let ghost rest = bytes@.skip(i as int);
        if bytes[i] == BACKSLASH && i + 1 < bytes.len() && bytes[i + 1] == QUOTE {
            assert(pair_at(rest, 0, BACKSLASH, QUOTE));
            assert(rest.skip(2) =~= bytes@.skip(i + 2));
            out.push(QUOTE);
            i += 2;
        } else {
            assert(!pair_at(rest, 0, BACKSLASH, QUOTE));
            assert(rest.skip(1) =~= bytes@.skip(i + 1));
            out.push(bytes[i]);
            i += 1;
        }
    }
    proof {
        lemma_unescape_commutes_with_encoding(content@);
        encode_utf8_valid_utf8(unescaped(content@));
        encode_utf8_decode_utf8(unescaped(content@));
    }
    decode_text(out).unwrap()
}

} // verus!
