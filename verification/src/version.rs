//! The version of EGL that a display reports.

use vstd::prelude::*;
use crate::text::{chars_of, parse_i32, split, split_words, Separator};
use crate::text::{i32_of, is_blank, is_free_of, is_white_space, pieces, signed_decimal, texts, words};
use crate::text::law_words_are_put_together;
use crate::text::{lemma_pieces_two, lemma_signed_decimal, lemma_words_after_blank, lemma_words_then_blank, lemma_words_two};

verus! {

/// The version that `s` states: of exactly two words the second one holds exactly one full stop,
/// with a 32-bit number on either side. The first word can be any.
pub open spec fn egl_version_of(s: Seq<char>) -> Option<(i32, i32)> {
    let parts = pieces(words(s)[1], Separator::Dot);
    if words(s).len() == 2 && parts.len() == 2 {
        match (i32_of(parts[0]), i32_of(parts[1])) {
            (Some(major), Some(minor)) => Some((major, minor)),
            _ => None,
        }
    } else {
        None
    }
}

/// Reads a version of the form `EGL {major}.{minor}`.
pub fn parse_egl_version(version_str: &str) -> (r: Option<(i32, i32)>)
    ensures
        r == egl_version_of(version_str@),
{
    let text = chars_of(version_str);
    let parts = split_words(&text);
    assert(texts(parts@).len() == parts.len());
    if parts.len() != 2 {
        return None;
    }
    let version_parts = split(&parts[1], Separator::Dot);
    assert(texts(version_parts@).len() == version_parts.len());
    if version_parts.len() != 2 {
        return None;
    }
    assert(texts(version_parts@)[0] == version_parts[0]@);
    assert(texts(version_parts@)[1] == version_parts[1]@);
    match (parse_i32(&version_parts[0]), parse_i32(&version_parts[1])) {
        (Some(major), Some(minor)) => Some((major, minor)),
        _ => None,
    }
}

/// White space around a version does not change what it states.
pub proof fn law_surrounding_white_space_is_ignored(before: Seq<char>, s: Seq<char>, after: Seq<char>)
    requires
        is_blank(before),
        is_blank(after),
    ensures
        egl_version_of(before + s + after) == egl_version_of(s),
{
    lemma_words_then_blank(before + s, after);
    lemma_words_after_blank(before, s);
}

/// A name, white space, and two texts around a full stop state the version that the two texts
/// write, whatever the name is.
pub proof fn law_version_form(name: Seq<char>, gap: Seq<char>, major: Seq<char>, minor: Seq<char>)
    requires
        name.len() > 0,
        is_free_of(name, Separator::WhiteSpace),
        gap.len() > 0,
        is_blank(gap),
        is_free_of(major, Separator::WhiteSpace),
        is_free_of(major, Separator::Dot),
        is_free_of(minor, Separator::WhiteSpace),
        is_free_of(minor, Separator::Dot),
    ensures
        egl_version_of(name + gap + (major + seq!['.'] + minor)) == (match (
            i32_of(major),
            i32_of(minor),
        ) {
            (Some(a), Some(b)) => Some((a, b)),
            _ => None,
        }),
{
    let number = major + seq!['.'] + minor;
    assert forall|i: int| 0 <= i < number.len() implies !is_white_space(#[trigger] number[i]) by {
        if i < major.len() {
            assert(number[i] == major[i]);
        } else if i > major.len() {
            assert(number[i] == minor[i - major.len() - 1]);
        }
    }
    lemma_words_two(name, gap, number);
    lemma_pieces_two(major, '.', minor, Separator::Dot);
}

/// The text `EGL {major}.{minor}`.
pub open spec fn version_text(major: int, minor: int) -> Seq<char> {
    seq!['E', 'G', 'L'] + seq![' '] + (signed_decimal(major) + seq!['.'] + signed_decimal(minor))
}

/// A version that is written as `EGL {major}.{minor}` is read back as it was.
pub proof fn law_version_round_trip(major: i32, minor: i32)
    ensures
        egl_version_of(version_text(major as int, minor as int)) == Some((major, minor)),
{
    lemma_signed_decimal(major);
    lemma_signed_decimal(minor);
    law_version_form(
        seq!['E', 'G', 'L'],
        seq![' '],
        signed_decimal(major as int),
        signed_decimal(minor as int),
    );
}

/// A text states a version exactly if it has two words of which the second has two pieces around
/// its full stops, and both pieces write numbers; these are the version.
pub proof fn law_version_parts(s: Seq<char>, major: i32, minor: i32)
    ensures
        egl_version_of(s) == Some((major, minor)) <==> {
            &&& words(s).len() == 2
            &&& pieces(words(s)[1], Separator::Dot).len() == 2
            &&& i32_of(pieces(words(s)[1], Separator::Dot)[0]) == Some(major)
            &&& i32_of(pieces(words(s)[1], Separator::Dot)[1]) == Some(minor)
        },
{
}

/// With a further word behind it, what states a version states none.
pub proof fn law_further_word_is_refused(s: Seq<char>, gap: Seq<char>, word: Seq<char>)
    requires
        egl_version_of(s) is Some,
        gap.len() > 0,
        forall|i: int| 0 <= i < gap.len() ==> is_white_space(#[trigger] gap[i]),
        word.len() > 0,
        forall|i: int| 0 <= i < word.len() ==> !is_white_space(#[trigger] word[i]),
    ensures
        egl_version_of(s + gap + word) is None,
{
    law_words_are_put_together(s, gap, word);
    law_words_are_put_together(word, gap, word);
}

} // verus!
