//! Laws of text.

use vstd::prelude::*;
use vstd::string::*;
use vstd::utf8::*;

use crate::text::{
    decoded, decoded_all, is_white_space, joined, trimmed, trimmed_end, trimmed_start,
};

verus! {

/// The characters that are white space.
pub proof fn law_white_space(c: char)
    ensures
        is_white_space(c) <==> {
            let n = c as u32;
            9 <= n <= 13 || n == 0x20 || n == 0x85 || n == 0xa0 || n == 0x1680 || 0x2000 <= n
                <= 0x200a || n == 0x2028 || n == 0x2029 || n == 0x202f || n == 0x205f || n == 0x3000
        },
{
}

/// A text is read back from its UTF-8, and what is read is the text whose UTF-8 the bytes are.
pub proof fn law_utf8(text: Seq<char>, bytes: Seq<u8>)
    ensures
        decoded(encode_utf8(text)) == Some(text),
        decoded(bytes) is Some <==> valid_utf8(bytes),
        decoded(bytes) is Some ==> encode_utf8(decoded(bytes)->0) == bytes,
{
    encode_utf8_valid_utf8(text);
    encode_utf8_decode_utf8(text);
    if valid_utf8(bytes) {
        decode_utf8_encode_utf8(bytes);
    }
}

/// Of byte strings one behind the other the texts are read in their order, and what is no text
/// is left out.
pub proof fn law_texts_are_read_in_order(fields: Seq<Seq<u8>>, text: Seq<char>, other: Seq<u8>)
    requires
        !valid_utf8(other),
    ensures
        decoded_all(seq![]) == Seq::<Seq<char>>::empty(),
        decoded_all(fields.push(encode_utf8(text))) == decoded_all(fields).push(text),
        decoded_all(fields.push(other)) == decoded_all(fields),
{
    law_utf8(text, other);
    assert(fields.push(encode_utf8(text)).drop_last() =~= fields);
    assert(fields.push(other).drop_last() =~= fields);
}

/// Texts are joined in their order, with the separator between every two of them and nowhere
/// else.
pub proof fn law_texts_are_joined_in_order(
    texts: Seq<Seq<char>>,
    text: Seq<char>,
    separator: Seq<char>,
)
    ensures
        joined(seq![], separator) == Seq::<char>::empty(),
        joined(seq![text], separator) == text,
        texts.len() > 0 ==> joined(texts.push(text), separator) == joined(texts, separator)
            + separator + text,
{
    assert(texts.push(text).drop_last() =~= texts);
}

/// White space in front of a text goes away.
proof fn lemma_white_space_in_front(before: Seq<char>, text: Seq<char>)
    requires
        forall|i: int| 0 <= i < before.len() ==> is_white_space(#[trigger] before[i]),
    ensures
        trimmed_start(before + text) == trimmed_start(text),
    decreases before.len(),
{
    if before.len() == 0 {
        assert(before + text =~= text);
    } else {
        let rest = before.skip(1);
        assert(is_white_space(before[0]));
        assert forall|i: int| 0 <= i < rest.len() implies is_white_space(#[trigger] rest[i]) by {
            assert(rest[i] == before[i + 1]);
        }
        lemma_white_space_in_front(rest, text);
        assert((before + text).skip(1) =~= rest + text);
        assert((before + text).first() == before[0]);
    }
}

/// White space behind a text goes away.
proof fn lemma_white_space_behind(text: Seq<char>, after: Seq<char>)
    requires
        forall|i: int| 0 <= i < after.len() ==> is_white_space(#[trigger] after[i]),
    ensures
        trimmed_end(text + after) == trimmed_end(text),
    decreases after.len(),
{
    if after.len() == 0 {
        assert(text + after =~= text);
    } else {
        let rest = after.drop_last();
        assert(is_white_space(after[after.len() - 1]));
        assert forall|i: int| 0 <= i < rest.len() implies is_white_space(#[trigger] rest[i]) by {
            assert(rest[i] == after[i]);
        }
        lemma_white_space_behind(text, rest);
        assert((text + after).drop_last() =~= text + rest);
        assert((text + after).last() == after.last());
    }
}

/// A text is trimmed to what stands between the white space at its two ends.
pub proof fn law_trimming(before: Seq<char>, text: Seq<char>, after: Seq<char>)
    requires
        forall|i: int| 0 <= i < before.len() ==> is_white_space(#[trigger] before[i]),
        forall|i: int| 0 <= i < after.len() ==> is_white_space(#[trigger] after[i]),
        text.len() > 0 ==> !is_white_space(text.first()) && !is_white_space(text.last()),
    ensures
        trimmed(before + text + after) == text,
{
    assert(before + text + after =~= before + (text + after));
    lemma_white_space_in_front(before, text + after);
    if text.len() == 0 {
        assert(text + after =~= after + text);
        lemma_white_space_in_front(after, text);
        assert(trimmed_start(text) == text);
        assert(trimmed_end(text) == text);
    } else {
        assert((text + after).first() == text.first());
        lemma_white_space_behind(text, after);
    }
}

} // verus!
