//! Text: reading it out of bytes, joining and trimming it.

use vstd::prelude::*;
use vstd::string::*;
use vstd::utf8::*;

use crate::bytes::slice_views;

verus! {

/// Whether a character has the Unicode property `White_Space`.
pub open spec fn is_white_space(c: char) -> bool {
    ||| '\u{9}' <= c <= '\u{d}'
    ||| c == ' '
    ||| c == '\u{85}'
    ||| c == '\u{a0}'
    ||| c == '\u{1680}'
    ||| '\u{2000}' <= c <= '\u{200a}'
    ||| c == '\u{2028}'
    ||| c == '\u{2029}'
    ||| c == '\u{202f}'
    ||| c == '\u{205f}'
    ||| c == '\u{3000}'
}

/// A text without the white space at its beginning.
pub open spec fn trimmed_start(text: Seq<char>) -> Seq<char>
    decreases text.len(),
{
    if text.len() > 0 && is_white_space(text.first()) {
        trimmed_start(text.skip(1))
    } else {
        text
    }
}

/// A text without the white space at its end.
pub open spec fn trimmed_end(text: Seq<char>) -> Seq<char>
    decreases text.len(),
{
    if text.len() > 0 && is_white_space(text.last()) {
        trimmed_end(text.drop_last())
    } else {
        text
    }
}

/// A text without the white space at its beginning and at its end.
pub open spec fn trimmed(text: Seq<char>) -> Seq<char> {
    trimmed_end(trimmed_start(text))
}

/// The text that bytes hold in UTF-8, where they do.
pub open spec fn decoded(bytes: Seq<u8>) -> Option<Seq<char>> {
    if valid_utf8(bytes) {
        Some(decode_utf8(bytes))
    } else {
        None
    }
}

/// The texts that byte strings hold in UTF-8, without the byte strings that hold none.
pub open spec fn decoded_all(fields: Seq<Seq<u8>>) -> Seq<Seq<char>>
    decreases fields.len(),
{
    if fields.len() == 0 {
        seq![]
    } else {
        match decoded(fields.last()) {
            Some(text) => decoded_all(fields.drop_last()).push(text),
            None => decoded_all(fields.drop_last()),
        }
    }
}

/// Texts one behind the other, with a separator between every two of them.
pub open spec fn joined(texts: Seq<Seq<char>>, separator: Seq<char>) -> Seq<char>
    decreases texts.len(),
{
    if texts.len() == 0 {
        seq![]
    } else if texts.len() == 1 {
        texts[0]
    } else {
        joined(texts.drop_last(), separator) + separator + texts.last()
    }
}

/// `std::str::from_utf8` gives the text that bytes hold in UTF-8, and an error where they do
/// not hold UTF-8.
#[verifier::external_body]
pub(crate) fn utf8_text(bytes: &[u8]) -> (text: Option<&str>)
    ensures
        text is Some <==> decoded(bytes@) is Some,
        text matches Some(t) ==> decoded(bytes@) == Some(t@),
{
    std::str::from_utf8(bytes).ok()
}

/// `str::trim` takes away the characters with the property `White_Space` at both ends of a
/// text.
#[verifier::external_body]
fn trim(text: &str) -> (result: &str)
    ensures
        result@ == trimmed(text@),
{
    text.trim()
}

/// The texts of the byte strings from the number `start` on, joined and trimmed.
pub(crate) fn join_texts(fields: &[&[u8]], start: usize, separator: &str) -> (text: String)
    requires
        start <= fields@.len(),
    ensures
        text@ == trimmed(joined(decoded_all(slice_views(fields@).skip(start as int)), separator@)),
{
    let ghost all = slice_views(fields@).skip(start as int);
    let ghost mut texts: Seq<Seq<char>> = seq![];
    let mut text: String = String::new();
    let mut is_first: bool = true;
    let mut i: usize = start;
    assert(all.take(0) =~= seq![]);
    while i < fields.len()
        invariant
            start <= i <= fields@.len(),
            all == slice_views(fields@).skip(start as int),
            texts == decoded_all(all.take(i - start)),
            text@ == joined(texts, separator@),
            is_first == (texts.len() == 0),
        decreases fields@.len() - i,
    {
        assert(all.take(i + 1 - start).drop_last() =~= all.take(i - start));
        match utf8_text(fields[i]) {
            Some(part) => {
                if !is_first {
                    text.append(separator);
                }
                text.append(part);
                is_first = false;
                proof {
                    assert(texts.push(part@).drop_last() =~= texts);
                    assert(text@ =~= joined(texts.push(part@), separator@));
                    texts = texts.push(part@);
                }
            },
            None => {},
        }
        i += 1;
    }
    assert(all.take(i - start) =~= all);
    trim(text.as_str()).to_owned()
}

/// What is left of a text without the white space at its beginning is the end of the text, and
/// all of it where the text does not begin with white space.
proof fn lemma_trimmed_start(text: Seq<char>)
    ensures
        trimmed_start(text).is_suffix_of(text),
        trimmed_start(text).len() > 0 ==> !is_white_space(trimmed_start(text).first()),
        forall|i: int|
            0 <= i < text.len() - trimmed_start(text).len() ==> is_white_space(#[trigger] text[i]),
    decreases text.len(),
{
    if text.len() > 0 && is_white_space(text.first()) {
        lemma_trimmed_start(text.skip(1));
        assert(forall|i: int|
            1 <= i < text.len() ==> #[trigger] text[i] == text.skip(1)[i - 1]);
    }
}

/// What is left of a text without the white space at its end is the beginning of the text.
proof fn lemma_trimmed_end(text: Seq<char>)
    ensures
        trimmed_end(text).is_prefix_of(text),
        trimmed_end(text).len() > 0 ==> !is_white_space(trimmed_end(text).last()),
        forall|i: int|
            trimmed_end(text).len() <= i < text.len() ==> is_white_space(#[trigger] text[i]),
    decreases text.len(),
{
    if text.len() > 0 && is_white_space(text.last()) {
        lemma_trimmed_end(text.drop_last());
        assert(forall|i: int|
            0 <= i < text.len() - 1 ==> #[trigger] text[i] == text.drop_last()[i]);
    }
}

/// A trimmed text neither begins nor ends with white space, and nothing but white space was
/// taken away from it.
pub proof fn law_trimmed_text_has_no_outer_white_space(text: Seq<char>)
    ensures
        trimmed(text).len() > 0 ==> !is_white_space(trimmed(text).first()) && !is_white_space(
            trimmed(text).last(),
        ),
        exists|start: int|
            0 <= start <= text.len() - trimmed(text).len() && trimmed(text)
                == #[trigger] text.subrange(start, start + trimmed(text).len()) && (forall|i: int|
                0 <= i < start || start + trimmed(text).len() <= i < text.len()
                    ==> is_white_space(#[trigger] text[i])),
{
    let middle = trimmed_start(text);
    let result = trimmed(text);
    let start = text.len() - middle.len();
    lemma_trimmed_start(text);
    lemma_trimmed_end(middle);
    if result.len() > 0 {
        assert(result.first() == middle.first());
    }
    assert(forall|i: int| start <= i < text.len() ==> #[trigger] text[i] == middle[i - start]);
    assert(result =~= text.subrange(start, start + result.len()));
}

} // verus!
