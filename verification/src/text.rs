//! Reading text character by character: white space, pieces between separators, decimal numbers.

use vstd::prelude::*;

verus! {

/// The characters with the Unicode property `White_Space`.
pub open spec fn is_white_space(c: char) -> bool {
    ||| '\u{9}' <= c <= '\u{d}'
    ||| c == '\u{20}'
    ||| c == '\u{85}'
    ||| c == '\u{a0}'
    ||| c == '\u{1680}'
    ||| '\u{2000}' <= c <= '\u{200a}'
    ||| c == '\u{2028}'
    ||| c == '\u{2029}'
    ||| c == '\u{202f}'
    ||| c == '\u{205f}'
    ||| c == '\u{3000}'
}

/// What ends a piece of text.
#[derive(Clone, Copy, Debug, PartialEq, Eq)]
pub enum Separator {
    /// Any white space character.
    WhiteSpace,
    /// The full stop.
    Dot,
}

impl Separator {
    /// Whether `c` is such a separator.
    pub open spec fn ends_at(self, c: char) -> bool {
        match self {
            Separator::WhiteSpace => is_white_space(c),
            Separator::Dot => c == '.',
        }
    }
}

/// The pieces of `s` between separators, in order. Neighbouring separators, and separators at
/// either end, have an empty piece beside them, so there is always one piece more than there are
/// separators.
pub open spec fn pieces(s: Seq<char>, separator: Separator) -> Seq<Seq<char>>
    decreases s.len(),
{
    if s.len() == 0 {
        seq![Seq::<char>::empty()]
    } else {
        let before = pieces(s.drop_last(), separator);
        if separator.ends_at(s.last()) {
            before.push(Seq::<char>::empty())
        } else {
            before.drop_last().push(before.last().push(s.last()))
        }
    }
}

/// The words of `s`: the pieces between white space that hold something.
pub open spec fn words(s: Seq<char>) -> Seq<Seq<char>> {
    pieces(s, Separator::WhiteSpace).filter(|piece: Seq<char>| piece.len() > 0)
}

/// Whether `c` is one of the ten ASCII digits.
pub open spec fn is_digit(c: char) -> bool {
    '0' <= c <= '9'
}

/// The number that the digits of `s` write in base ten.
pub open spec fn digits_value(s: Seq<char>) -> nat
    decreases s.len(),
{
    if s.len() == 0 {
        0
    } else {
        digits_value(s.drop_last()) * 10 + (s.last() as nat - '0' as nat) as nat
    }
}

/// The digits of a signed number: what follows its sign, or all of it.
pub open spec fn unsigned_part(s: Seq<char>) -> Seq<char> {
    if s.len() > 0 && (s[0] == '+' || s[0] == '-') {
        s.skip(1)
    } else {
        s
    }
}

/// The value of a signed number.
pub open spec fn signed_value(s: Seq<char>) -> int {
    let value = digits_value(unsigned_part(s)) as int;
    if s.len() > 0 && s[0] == '-' {
        -value
    } else {
        value
    }
}

/// Whether `s` writes a number in base ten: an optional sign, then one or more digits.
pub open spec fn is_number(s: Seq<char>) -> bool {
    &&& unsigned_part(s).len() > 0
    &&& forall|i: int| 0 <= i < unsigned_part(s).len() ==> is_digit(#[trigger] unsigned_part(s)[i])
}

/// The 32-bit number that `s` writes, if it writes one.
pub open spec fn i32_of(s: Seq<char>) -> Option<i32> {
    if is_number(s) && i32::MIN <= signed_value(s) <= i32::MAX {
        Some(signed_value(s) as i32)
    } else {
        None
    }
}

/// The texts that vectors of characters hold.
pub open spec fn texts(v: Seq<Vec<char>>) -> Seq<Seq<char>> {
    Seq::new(v.len(), |i: int| v[i]@)
}

/// Whether `c` is such a separator.
fn separates(separator: Separator, c: char) -> (r: bool)
    ensures
        r == separator.ends_at(c),
{
    match separator {
        Separator::WhiteSpace => {
            ('\u{9}' <= c && c <= '\u{d}') || c == '\u{20}' || c == '\u{85}' || c == '\u{a0}' || c
                == '\u{1680}' || ('\u{2000}' <= c && c <= '\u{200a}') || c == '\u{2028}' || c
                == '\u{2029}' || c == '\u{202f}' || c == '\u{205f}' || c == '\u{3000}'
        },
        Separator::Dot => c == '.',
    }
}

/// The characters of `s`.
pub fn chars_of(s: &str) -> (r: Vec<char>)
    ensures
        r@ == s@,
{
    let mut r: Vec<char> = Vec::new();
    for c in it: s.chars()
        invariant
            r@ == it.seq().take(it.index() as int),
            it.seq() == s@,
    {
        r.push(c);
        assert(it.seq().take(it.index() + 1).drop_last() =~= it.seq().take(it.index() as int));
    }
    assert(s@.take(s@.len() as int) =~= s@);
    r
}

/// The pieces of `text` between separators.
pub fn split(text: &Vec<char>, separator: Separator) -> (r: Vec<Vec<char>>)
    ensures
        texts(r@) == pieces(text@, separator),
{
    let mut done: Vec<Vec<char>> = Vec::new();
    let mut current: Vec<char> = Vec::new();
    let mut i: usize = 0;
    assert(text@.take(0) =~= Seq::<char>::empty());
    assert(texts(done@).push(current@) =~= pieces(text@.take(0), separator));
    while i < text.len()
        invariant
            i <= text.len(),
            texts(done@).push(current@) == pieces(text@.take(i as int), separator),
        decreases text.len() - i,
    {
        let c = text[i];
        let ghost before = texts(done@).push(current@);
        assert(text@.take(i + 1).drop_last() =~= text@.take(i as int));
        if separates(separator, c) {
            done.push(current);
            current = Vec::new();
            assert(texts(done@) =~= before);
        } else {
            current.push(c);
            assert(texts(done@) =~= before.drop_last());
        }
        i += 1;
    }
    assert(text@.take(text@.len() as int) =~= text@);
    done.push(current);
    assert(texts(done@) =~= pieces(text@, separator));
    done
}

/// The words of `text`.
pub fn split_words(text: &Vec<char>) -> (r: Vec<Vec<char>>)
    ensures
        texts(r@) == words(text@),
{
    let all = split(text, Separator::WhiteSpace);
    let ghost holds = |piece: Seq<char>| piece.len() > 0;
    let mut r: Vec<Vec<char>> = Vec::new();
    let mut i: usize = 0;
    assert(texts(r@) =~= texts(all@).take(0).filter(holds)) by {
        reveal(Seq::filter);
    }
    while i < all.len()
        invariant
            i <= all.len(),
            holds == (|piece: Seq<char>| piece.len() > 0),
            texts(r@) == texts(all@).take(i as int).filter(holds),
        decreases all.len() - i,
    {
        let piece = &all[i];
        let ghost before = texts(r@);
        assert(texts(all@).take(i + 1).drop_last() =~= texts(all@).take(i as int));
        if piece.len() > 0 {
            let copy = piece.clone();
            assert(copy@ =~= piece@);
            r.push(copy);
            assert(texts(r@) =~= before.push(piece@));
        }
        assert(texts(r@) == texts(all@).take(i + 1).filter(holds)) by {
            reveal(Seq::filter);
        }
        i += 1;
    }
    assert(texts(all@).take(all@.len() as int) =~= texts(all@));
    r
}

/// More digits never make the number smaller.
proof fn lemma_digits_value_grows(s: Seq<char>, n: int)
    requires
        0 <= n <= s.len(),
    ensures
        digits_value(s.take(n)) <= digits_value(s),
    decreases s.len() - n,
{
    if n == s.len() {
        assert(s.take(n) =~= s);
    } else {
        lemma_digits_value_grows(s, n + 1);
        assert(s.take(n + 1).drop_last() =~= s.take(n));
    }
}

/// The 32-bit number that `text` writes, if it writes one.
pub fn parse_i32(text: &Vec<char>) -> (r: Option<i32>)
    ensures
        r == i32_of(text@),
{
    let signed = text.len() > 0 && (text[0] == '+' || text[0] == '-');
    let negative = text.len() > 0 && text[0] == '-';
    let start: usize = if signed {
        1
    } else {
        0
    };
    let ghost digits = unsigned_part(text@);
    assert(digits =~= text@.skip(start as int));
    if start == text.len() {
        return None;
    }
    let mut value: i64 = 0;
    let mut i: usize = start;
    assert(digits.take(0) =~= Seq::<char>::empty());
    while i < text.len()
        invariant
            start <= i <= text.len(),
            digits == unsigned_part(text@),
            digits == text@.skip(start as int),
            digits.len() > 0,
            0 <= value <= 0x8000_0000,
            value == digits_value(digits.take(i - start)),
            forall|k: int| 0 <= k < i - start ==> is_digit(#[trigger] digits[k]),
        decreases text.len() - i,
    {
        let c = text[i];
        assert(digits[i - start] == c);
        if c < '0' || '9' < c {
            return None;
        }
        value = value * 10 + (c as u32 - '0' as u32) as i64;
        assert(digits.take(i - start + 1).drop_last() =~= digits.take(i - start));
        if value > 0x8000_0000 {
            proof {
                lemma_digits_value_grows(digits, i - start + 1);
            }
            return None;
        }
        i += 1;
    }
    assert(digits.take(digits.len() as int) =~= digits);
    if negative {
        Some((-value) as i32)
    } else if value < 0x8000_0000 {
        Some(value as i32)
    } else {
        None
    }
}

/// Whether no character of `s` is a separator.
pub open spec fn is_free_of(s: Seq<char>, separator: Separator) -> bool {
    forall|i: int| 0 <= i < s.len() ==> !separator.ends_at(#[trigger] s[i])
}

/// Whether every character of `s` is white space.
pub open spec fn is_blank(s: Seq<char>) -> bool {
    forall|i: int| 0 <= i < s.len() ==> is_white_space(#[trigger] s[i])
}

/// There is always at least one piece.
pub proof fn lemma_pieces_nonempty(s: Seq<char>, separator: Separator)
    ensures
        pieces(s, separator).len() > 0,
    decreases s.len(),
{
    if s.len() > 0 {
        lemma_pieces_nonempty(s.drop_last(), separator);
    }
}

/// Where `a` and `b` meet, the last piece of `a` and the first piece of `b` become one.
pub proof fn lemma_pieces_concat(a: Seq<char>, b: Seq<char>, separator: Separator)
    ensures
        pieces(a + b, separator) == pieces(a, separator).drop_last().push(
            pieces(a, separator).last() + pieces(b, separator)[0],
        ) + pieces(b, separator).skip(1),
    decreases b.len(),
{
    lemma_pieces_nonempty(a, separator);
    lemma_pieces_nonempty(b, separator);
    let left = pieces(a, separator);
    if b.len() == 0 {
        assert(a + b =~= a);
        assert(left.last() + Seq::<char>::empty() =~= left.last());
        assert(left.drop_last().push(left.last()) =~= left);
        assert(pieces(b, separator) =~= seq![Seq::<char>::empty()]);
        assert(left + pieces(b, separator).skip(1) =~= left);
    } else {
        let b0 = b.drop_last();
        lemma_pieces_concat(a, b0, separator);
        lemma_pieces_nonempty(b0, separator);
        assert((a + b).drop_last() =~= a + b0);
        let inner = pieces(b0, separator);
        let joined = left.drop_last().push(left.last() + inner[0]) + inner.skip(1);
        assert(pieces(a + b0, separator) == joined);
        let target = left.drop_last().push(left.last() + pieces(b, separator)[0]) + pieces(
            b,
            separator,
        ).skip(1);
        if separator.ends_at(b.last()) {
            assert(joined.push(Seq::<char>::empty()) =~= target);
        } else if inner.len() == 1 {
            assert(left.last() + inner[0].push(b.last()) =~= (left.last() + inner[0]).push(
                b.last(),
            ));
            assert(joined.drop_last().push(joined.last().push(b.last())) =~= target);
        } else {
            assert(joined.drop_last().push(joined.last().push(b.last())) =~= target);
        }
    }
}

/// Text without separators is one piece.
pub proof fn lemma_pieces_free(s: Seq<char>, separator: Separator)
    requires
        is_free_of(s, separator),
    ensures
        pieces(s, separator) == seq![s],
    decreases s.len(),
{
    if s.len() == 0 {
        assert(s =~= Seq::<char>::empty());
    } else {
        assert forall|i: int| 0 <= i < s.drop_last().len() implies !separator.ends_at(
            #[trigger] s.drop_last()[i],
        ) by {
            assert(s.drop_last()[i] == s[i]);
        }
        lemma_pieces_free(s.drop_last(), separator);
        assert(s.drop_last().push(s.last()) =~= s);
        assert(pieces(s, separator) =~= seq![s]);
    }
}

/// Two texts without separators, with one separator between them, are two pieces.
pub proof fn lemma_pieces_two(a: Seq<char>, c: char, b: Seq<char>, separator: Separator)
    requires
        is_free_of(a, separator),
        is_free_of(b, separator),
        separator.ends_at(c),
    ensures
        pieces(a + seq![c] + b, separator) == seq![a, b],
{
    lemma_pieces_free(a, separator);
    lemma_pieces_free(b, separator);
    lemma_pieces_concat(a + seq![c], b, separator);
    assert((a + seq![c]).drop_last() =~= a);
    assert(pieces(a + seq![c], separator) =~= seq![a, Seq::<char>::empty()]);
    assert(Seq::<char>::empty() + b =~= b);
    assert(pieces(a + seq![c] + b, separator) =~= seq![a, b]);
}

/// White space after the words changes none of them, and ends the last one.
pub proof fn lemma_words_then_blank(s: Seq<char>, blank: Seq<char>)
    requires
        is_blank(blank),
    ensures
        words(s + blank) == words(s),
        blank.len() > 0 ==> pieces(s + blank, Separator::WhiteSpace).last().len() == 0,
    decreases blank.len(),
{
    if blank.len() == 0 {
        assert(s + blank =~= s);
    } else {
        let rest = blank.drop_last();
        assert(is_white_space(blank[blank.len() - 1]));
        assert forall|i: int| 0 <= i < rest.len() implies is_white_space(#[trigger] rest[i]) by {
            assert(rest[i] == blank[i]);
        }
        lemma_words_then_blank(s, rest);
        assert((s + blank).drop_last() =~= s + rest);
        let before = pieces(s + rest, Separator::WhiteSpace);
        let after = pieces(s + blank, Separator::WhiteSpace);
        assert(after == before.push(Seq::<char>::empty()));
        assert(after.drop_last() =~= before);
        reveal(Seq::filter);
    }
}

/// White space before the words changes none of them.
pub proof fn lemma_words_after_blank(blank: Seq<char>, s: Seq<char>)
    requires
        is_blank(blank),
    ensures
        words(blank + s) == words(s),
{
    let holds = |piece: Seq<char>| piece.len() > 0;
    let empty = Seq::<char>::empty();
    lemma_pieces_nonempty(s, Separator::WhiteSpace);
    lemma_pieces_nonempty(blank, Separator::WhiteSpace);
    lemma_pieces_concat(blank, s, Separator::WhiteSpace);
    lemma_words_then_blank(empty, blank);
    assert(empty + blank =~= blank);
    let left = pieces(blank, Separator::WhiteSpace);
    let right = pieces(s, Separator::WhiteSpace);
    reveal(Seq::filter);
    assert(pieces(empty, Separator::WhiteSpace).drop_last() =~= Seq::<Seq<char>>::empty());
    assert(Seq::<Seq<char>>::empty().filter(holds) =~= Seq::<Seq<char>>::empty());
    assert(words(empty) =~= Seq::<Seq<char>>::empty());
    assert(left.last().len() == 0);
    assert(left.last() + right[0] =~= right[0]);
    assert(left.drop_last().filter(holds) =~= Seq::<Seq<char>>::empty());
    assert(right =~= seq![right[0]] + right.skip(1));
    assert(left.drop_last().push(right[0]) + right.skip(1) =~= left.drop_last() + right);
    Seq::filter_distributes_over_add(left.drop_last(), right, holds);
    assert(words(blank + s) =~= words(s));
}

/// Two texts without white space, with white space between them, are two words.
pub proof fn lemma_words_two(a: Seq<char>, gap: Seq<char>, b: Seq<char>)
    requires
        is_free_of(a, Separator::WhiteSpace),
        is_free_of(b, Separator::WhiteSpace),
        a.len() > 0,
        b.len() > 0,
        gap.len() > 0,
        is_blank(gap),
    ensures
        words(a + gap + b) == seq![a, b],
{
    let holds = |piece: Seq<char>| piece.len() > 0;
    lemma_pieces_free(a, Separator::WhiteSpace);
    lemma_pieces_free(b, Separator::WhiteSpace);
    lemma_words_then_blank(a, gap);
    lemma_pieces_concat(a + gap, b, Separator::WhiteSpace);
    lemma_pieces_nonempty(a + gap, Separator::WhiteSpace);
    let left = pieces(a + gap, Separator::WhiteSpace);
    let all = pieces(a + gap + b, Separator::WhiteSpace);
    reveal(Seq::filter);
    assert(seq![a].drop_last() =~= Seq::<Seq<char>>::empty());
    assert(words(a) =~= seq![a]);
    assert(left.drop_last().filter(holds) =~= seq![a]);
    assert(left.last() + b =~= b);
    assert(all =~= left.drop_last().push(b));
    assert(all.drop_last() =~= left.drop_last());
    assert(words(a + gap + b) =~= seq![a, b]);
}

/// The ten digits.
pub open spec fn digit(n: nat) -> char {
    ('0' as nat + n) as char
}

/// `n` in base ten, without leading zeros.
pub open spec fn decimal(n: nat) -> Seq<char>
    decreases n,
{
    if n < 10 {
        seq![digit(n)]
    } else {
        decimal(n / 10).push(digit(n % 10))
    }
}

/// `n` in base ten, with a minus sign where it is negative.
pub open spec fn signed_decimal(n: int) -> Seq<char> {
    if n < 0 {
        seq!['-'] + decimal((-n) as nat)
    } else {
        decimal(n as nat)
    }
}

/// `decimal` writes digits alone, and they write the number back.
pub proof fn lemma_decimal(n: nat)
    ensures
        decimal(n).len() > 0,
        digits_value(decimal(n)) == n,
        forall|i: int| 0 <= i < decimal(n).len() ==> is_digit(#[trigger] decimal(n)[i]),
    decreases n,
{
    if n < 10 {
        assert(decimal(n).drop_last() =~= Seq::<char>::empty());
        assert(digits_value(Seq::<char>::empty()) == 0);
    } else {
        lemma_decimal(n / 10);
        assert(decimal(n).drop_last() =~= decimal(n / 10));
    }
}

/// Reading a number in base ten gives back the number that was written.
pub proof fn lemma_signed_decimal(n: i32)
    ensures
        i32_of(signed_decimal(n as int)) == Some(n),
        is_free_of(signed_decimal(n as int), Separator::WhiteSpace),
        is_free_of(signed_decimal(n as int), Separator::Dot),
        signed_decimal(n as int).len() > 0,
{
    let s = signed_decimal(n as int);
    let size: nat = if n < 0 {
        (-n) as nat
    } else {
        n as nat
    };
    lemma_decimal(size);
    assert(unsigned_part(s) =~= decimal(size)) by {
        if n >= 0 {
            assert(is_digit(decimal(size)[0]));
        }
    }
    if n >= 0 {
        assert(is_digit(decimal(size)[0]));
    }
    assert forall|i: int| 0 <= i < s.len() implies !is_white_space(#[trigger] s[i]) && s[i] != '.' by {
        if n < 0 {
            if i > 0 {
                assert(s[i] == decimal(size)[i - 1]);
            }
        } else {
            assert(s[i] == decimal(size)[i]);
        }
    }
}

/// White space is exactly the characters with these code points.
pub proof fn law_white_space_code_points(c: char)
    ensures
        is_white_space(c) <==> (0x9 <= c as int <= 0xd || c as int == 0x20 || c as int == 0x85
            || c as int == 0xa0 || c as int == 0x1680 || 0x2000 <= c as int <= 0x200a || c as int
            == 0x2028 || c as int == 0x2029 || c as int == 0x202f || c as int == 0x205f || c as int
            == 0x3000),
        Separator::WhiteSpace.ends_at(c) <==> is_white_space(c),
        Separator::Dot.ends_at(c) <==> c == '.',
{
}

/// With white space between two texts, the words of both are those of the one followed by those of
/// the other. White space has no words, and text without white space is one.
pub proof fn law_words_are_put_together(a: Seq<char>, gap: Seq<char>, b: Seq<char>)
    requires
        gap.len() > 0,
        forall|i: int| 0 <= i < gap.len() ==> is_white_space(#[trigger] gap[i]),
    ensures
        words(a + gap + b) == words(a) + words(b),
        words(gap).len() == 0,
        words(Seq::<char>::empty()).len() == 0,
        a.len() > 0 && (forall|i: int| 0 <= i < a.len() ==> !is_white_space(#[trigger] a[i]))
            ==> words(a) == seq![a],
{
    let holds = |piece: Seq<char>| piece.len() > 0;
    let empty = Seq::<char>::empty();
    lemma_pieces_nonempty(a + gap, Separator::WhiteSpace);
    lemma_pieces_nonempty(b, Separator::WhiteSpace);
    lemma_words_then_blank(a, gap);
    lemma_pieces_concat(a + gap, b, Separator::WhiteSpace);
    let left = pieces(a + gap, Separator::WhiteSpace);
    let right = pieces(b, Separator::WhiteSpace);
    let all = pieces(a + gap + b, Separator::WhiteSpace);
    assert(left.last() + right[0] =~= right[0]);
    assert(all =~= left.drop_last() + right);
    reveal(Seq::filter);
    assert(left.drop_last().filter(holds) == left.filter(holds));
    Seq::filter_distributes_over_add(left.drop_last(), right, holds);
    assert(words(a + gap + b) =~= words(a) + words(b));
    lemma_words_then_blank(empty, gap);
    assert(empty + gap =~= gap);
    assert(Seq::<Seq<char>>::empty().filter(holds) =~= Seq::<Seq<char>>::empty());
    assert(pieces(empty, Separator::WhiteSpace).drop_last() =~= Seq::<Seq<char>>::empty());
    if a.len() > 0 && (forall|i: int| 0 <= i < a.len() ==> !is_white_space(#[trigger] a[i])) {
        lemma_pieces_free(a, Separator::WhiteSpace);
        assert(seq![a].drop_last() =~= Seq::<Seq<char>>::empty());
        assert(words(a) =~= seq![a]);
    }
}

/// Text without separators is one piece. With a separator behind such a text, the text is the
/// first piece, and the others are those of what follows the separator.
pub proof fn law_pieces_end_at_separators(
    a: Seq<char>,
    c: char,
    b: Seq<char>,
    separator: Separator,
)
    requires
        forall|i: int| 0 <= i < a.len() ==> !separator.ends_at(#[trigger] a[i]),
        separator.ends_at(c),
    ensures
        pieces(a, separator) == seq![a],
        pieces(a + seq![c] + b, separator) == seq![a] + pieces(b, separator),
{
    lemma_pieces_free(a, separator);
    lemma_pieces_nonempty(b, separator);
    lemma_pieces_concat(a + seq![c], b, separator);
    assert((a + seq![c]).drop_last() =~= a);
    assert(pieces(a + seq![c], separator) =~= seq![a, Seq::<char>::empty()]);
    assert(Seq::<char>::empty() + pieces(b, separator)[0] =~= pieces(b, separator)[0]);
    assert(pieces(a + seq![c] + b, separator) =~= seq![a] + pieces(b, separator));
}

/// The texts of vectors are what each of them holds.
pub proof fn law_texts_are_held(v: Seq<Vec<char>>)
    ensures
        texts(v).len() == v.len(),
        forall|i: int| 0 <= i < v.len() ==> #[trigger] texts(v)[i] == v[i]@,
{
}

/// What writes a number ends in a digit and has nothing but digits behind an optional sign.
pub proof fn law_numbers_are_digits(s: Seq<char>)
    requires
        i32_of(s) is Some,
    ensures
        s.len() > 0,
        '0' <= s.last() <= '9',
        forall|i: int| 0 < i < s.len() ==> '0' <= #[trigger] s[i] <= '9',
        s[0] == '+' || s[0] == '-' || '0' <= s[0] <= '9',
{
    let digits = unsigned_part(s);
    let skipped = s.len() - digits.len();
    assert forall|i: int| skipped <= i < s.len() implies '0' <= #[trigger] s[i] <= '9' by {
        assert(is_digit(digits[i - skipped]));
    }
}

/// A single digit, with or without a sign, writes its value. Neither nothing at all nor a sign
/// alone writes a number.
pub proof fn law_one_digit(c: char)
    requires
        '0' <= c <= '9',
    ensures
        i32_of(Seq::<char>::empty()) is None,
        i32_of(seq!['+']) is None,
        i32_of(seq!['-']) is None,
        i32_of(seq![c]) == Some((c as int - '0' as int) as i32),
        i32_of(seq!['+', c]) == Some((c as int - '0' as int) as i32),
        i32_of(seq!['-', c]) == Some(('0' as int - c as int) as i32),
{
    assert(unsigned_part(seq![c]) =~= seq![c]);
    assert(unsigned_part(seq!['+', c]) =~= seq![c]);
    assert(unsigned_part(seq!['-', c]) =~= seq![c]);
    assert(seq![c].drop_last() =~= Seq::<char>::empty());
    assert(digits_value(Seq::<char>::empty()) == 0);
    assert(is_digit(seq![c][0]));
}

/// A further digit makes a number ten times as large and adds its value, away from zero. What does
/// not fit into 32 bits is no number.
pub proof fn law_further_digit(s: Seq<char>, c: char)
    requires
        i32_of(s) is Some,
        '0' <= c <= '9',
    ensures
        ({
            let digit = c as int - '0' as int;
            let value = if s[0] == '-' {
                i32_of(s)->0 * 10 - digit
            } else {
                i32_of(s)->0 * 10 + digit
            };
            i32_of(s.push(c)) == (if i32::MIN <= value <= i32::MAX {
                Some(value as i32)
            } else {
                None
            })
        }),
{
    let digits = unsigned_part(s);
    assert(unsigned_part(s.push(c)) =~= digits.push(c));
    assert(digits.push(c).drop_last() =~= digits);
    assert forall|i: int| 0 <= i < digits.push(c).len() implies is_digit(
        #[trigger] digits.push(c)[i],
    ) by {
        if i < digits.len() {
            assert(is_digit(digits[i]));
        }
    }
}

/// What is no number does not become one by further characters, unless it was nothing but a sign
/// or nothing at all.
pub proof fn law_no_number_stays_none(s: Seq<char>, c: char)
    requires
        i32_of(s) is None,
        s.len() > 1 || (s.len() == 1 && s[0] != '+' && s[0] != '-'),
    ensures
        i32_of(s.push(c)) is None,
{
    let digits = unsigned_part(s);
    assert(unsigned_part(s.push(c)) =~= digits.push(c));
    assert(digits.push(c).drop_last() =~= digits);
    if is_number(s.push(c)) {
        assert forall|i: int| 0 <= i < digits.len() implies is_digit(#[trigger] digits[i]) by {
            assert(is_digit(unsigned_part(s.push(c))[i]));
        }
        assert(is_digit(unsigned_part(s.push(c))[digits.len() as int]));
    }
}

} // verus!
