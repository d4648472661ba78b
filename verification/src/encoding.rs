//! What holds of the UTF-8 encoding of a text and of the byte that ends a line.

use crate::lines::LINE_FEED;
use vstd::prelude::*;
use vstd::utf8::{char_is_scalar, encode_scalar, encode_utf8};

verus! {

/// The encoding of one text after another is the encoding of the first, then
/// that of the second.
pub proof fn lemma_encode_concat(a: Seq<char>, b: Seq<char>)
    ensures
        encode_utf8(a + b) == encode_utf8(a) + encode_utf8(b),
    decreases a.len(),
{
    if a.len() == 0 {
        assert(a + b == b);
    } else {
        assert((a + b).drop_first() == a.drop_first() + b);
        lemma_encode_concat(a.drop_first(), b);
    }
}

/// Of the bytes that encode a character, only the one byte of the line feed
/// itself is the byte that ends a line.
proof fn lemma_feed_bits(s: u32)
    by (bit_vector)
    ensures
        s <= 0x7F ==> ((s & 0x7F) as u8 == 0x0Au8 <==> s == 0x0A),
        (0xC0u8 | ((s >> 6) & 0x1F) as u8) != 0x0Au8,
        (0xE0u8 | ((s >> 12) & 0x0F) as u8) != 0x0Au8,
        (0xF0u8 | ((s >> 18) & 0x7) as u8) != 0x0Au8,
        (0x80u8 | (s & 0x3F) as u8) != 0x0Au8,
        (0x80u8 | ((s >> 6) & 0x3F) as u8) != 0x0Au8,
        (0x80u8 | ((s >> 12) & 0x3F) as u8) != 0x0Au8,
{
}

/// The line feed is encoded as the byte that ends a line, and that byte stands
/// in the encoding of no other character.
pub proof fn lemma_encoded_feed(c: char)
    ensures
        encode_scalar(c as u32).len() > 0,
        c == '\n' ==> encode_scalar(c as u32) == seq![LINE_FEED],
        c != '\n' ==> forall|j: int|
            0 <= j < encode_scalar(c as u32).len() ==> (#[trigger] encode_scalar(c as u32)[j])
                != LINE_FEED,
{
    lemma_feed_bits(c as u32);
    char_is_scalar(c);
    if c == '\n' {
        assert(encode_scalar(c as u32) =~= seq![LINE_FEED]);
    }
}

/// The encoding of a text without a line feed holds no byte that ends a line.
pub proof fn lemma_encode_no_feed(text: Seq<char>)
    requires
        forall|j: int| 0 <= j < text.len() ==> text[j] != '\n',
    ensures
        forall|j: int| 0 <= j < encode_utf8(text).len() ==> encode_utf8(text)[j] != LINE_FEED,
        text.len() > 0 ==> encode_utf8(text).len() > 0,
    decreases text.len(),
{
    if text.len() > 0 {
        let rest = text.drop_first();
        assert forall|j: int| 0 <= j < rest.len() implies rest[j] != '\n' by {
            assert(rest[j] == text[j + 1]);
        }
        lemma_encode_no_feed(rest);
        lemma_encoded_feed(text[0]);
        let first = encode_scalar(text[0] as u32);
        assert forall|j: int| 0 <= j < encode_utf8(text).len() implies encode_utf8(text)[j]
            != LINE_FEED by {
            if j < first.len() {
                assert(encode_utf8(text)[j] == first[j]);
            } else {
                assert(encode_utf8(text)[j] == encode_utf8(rest)[j - first.len()]);
            }
        }
    }
}

/// The encoding of a line feed alone is the byte that ends a line.
pub proof fn lemma_encode_feed()
    ensures
        encode_utf8(seq!['\n']) == seq![LINE_FEED],
{
    let feed = seq!['\n'];
    lemma_encoded_feed('\n');
    assert(feed.drop_first() == Seq::<char>::empty());
    assert(encode_utf8(feed.drop_first()) == Seq::<u8>::empty());
    assert(encode_utf8(feed) == encode_scalar(feed[0] as u32) + encode_utf8(feed.drop_first()));
}

} // verus!
