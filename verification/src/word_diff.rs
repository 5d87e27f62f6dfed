//! Word-level diff highlighting: which words of an added line are unchanged
//! (part of a longest common subsequence with the paired deleted line) and
//! which are new, plus the helpers that pair diff lines and tint colours.

use vstd::prelude::*;
use crate::lcs::{compute_lcs, lcs_seq, embeds, is_subsequence, strs_view, law_lcs_is_longest_common_subsequence};
use crate::text::{split_whitespace, str_eq, words_spec, strings_view};

verus! {

/// A word of the new line, marked as unchanged or changed.
#[derive(Debug, Clone, PartialEq, Eq)]
pub enum DiffToken {
    Same(String),
    Changed(String),
}

/// The mathematical value of a [`DiffToken`].
pub enum WordToken {
    Same(Seq<char>),
    Changed(Seq<char>),
}

impl View for DiffToken {
    type V = WordToken;

    open spec fn view(&self) -> WordToken {
        match self {
            DiffToken::Same(w) => WordToken::Same(w@),
            DiffToken::Changed(w) => WordToken::Changed(w@),
        }
    }
}

/// The views of a sequence of tokens.
pub open spec fn tokens_view(v: Seq<DiffToken>) -> Seq<WordToken> {
    v.map_values(|t: DiffToken| t@)
}

/// The word a token carries.
pub open spec fn token_word(t: WordToken) -> Seq<char> {
    match t {
        WordToken::Same(w) => w,
        WordToken::Changed(w) => w,
    }
}

/// The words of the tokens, in order.
pub open spec fn token_words(ts: Seq<WordToken>) -> Seq<Seq<char>> {
    ts.map_values(|t: WordToken| token_word(t))
}

/// The words of the `Same` tokens, in order.
pub open spec fn same_words(ts: Seq<WordToken>) -> Seq<Seq<char>>
    decreases ts.len(),
{
    if ts.len() == 0 {
        seq![]
    } else {
        let rest = same_words(ts.drop_first());
        match ts[0] {
            WordToken::Same(w) => seq![w] + rest,
            WordToken::Changed(_) => rest,
        }
    }
}

/// Marks the words of `new`, front to back: a word equal to the next
/// not-yet-matched word of `common` is unchanged (and matches it), any other
/// word is changed.
pub open spec fn tokens_spec(new: Seq<Seq<char>>, common: Seq<Seq<char>>) -> Seq<WordToken>
    decreases new.len(),
{
    if new.len() == 0 {
        seq![]
    } else if common.len() > 0 && new[0] == common[0] {
        seq![WordToken::Same(new[0])] + tokens_spec(new.drop_first(), common.drop_first())
    } else {
        seq![WordToken::Changed(new[0])] + tokens_spec(new.drop_first(), common)
    }
}

/// The tokens for the new line of a pair: when either line has no words the
/// whole new line is one changed token; otherwise each word of the new line,
/// marked against a longest common subsequence of the two lines' words.
pub open spec fn word_diff_spec(old_line: Seq<char>, new_line: Seq<char>) -> Seq<WordToken> {
    let old_words = words_spec(old_line);
    let new_words = words_spec(new_line);
    if old_words.len() == 0 || new_words.len() == 0 {
        seq![WordToken::Changed(new_line)]
    } else {
        tokens_spec(new_words, lcs_seq(old_words, new_words))
    }
}

fn as_strs<'a>(v: &'a Vec<String>) -> (r: Vec<&'a str>)
    ensures
        strs_view(r@) == strings_view(v@),
{
    let mut r: Vec<&'a str> = Vec::new();
    let mut i: usize = 0;
    while i < v.len()
        invariant
            i <= v.len(),
            strs_view(r@) == strings_view(v@.take(i as int)),
        decreases v.len() - i,
    {
        let ghost before = strs_view(r@);
        r.push(v[i].as_str());
        assert(strs_view(r@) =~= before.push(v@[i as int]@));
        i = i + 1;
        assert(strings_view(v@.take(i as int)) =~= strings_view(v@.take(i - 1)).push(
            v@[i - 1]@,
        ));
    }
    assert(v@.take(v.len() as int) =~= v@);
    r
}

/// Word-level diff of a pair of lines; the tokens describe the new line.
pub fn compute_word_diff(old_line: &str, new_line: &str) -> (r: Vec<DiffToken>)
    ensures
        tokens_view(r@) == word_diff_spec(old_line@, new_line@),
{
    let old_strings = split_whitespace(old_line);
    let new_strings = split_whitespace(new_line);
    if old_strings.len() == 0 || new_strings.len() == 0 {
        let r = vec![DiffToken::Changed(new_line.to_owned())];
        assert(tokens_view(r@) =~= seq![WordToken::Changed(new_line@)]);
        return r;
    }
    let old_words = as_strs(&old_strings);
    let new_words = as_strs(&new_strings);
    let lcs = compute_lcs(old_words.as_slice(), new_words.as_slice());
    let ghost nw = strs_view(new_words@);
    let ghost lw = strs_view(lcs@);
    let mut result: Vec<DiffToken> = Vec::new();
    let mut new_idx: usize = 0;
    let mut lcs_idx: usize = 0;
    assert(nw.skip(0) =~= nw);
    assert(lw.skip(0) =~= lw);
    assert(tokens_view(result@) + tokens_spec(nw, lw) =~= tokens_spec(nw, lw));
    while new_idx < new_words.len()
        invariant
            nw == strs_view(new_words@),
            lw == strs_view(lcs@),
            new_idx <= new_words@.len(),
            lcs_idx <= lcs@.len(),
            tokens_spec(nw, lw) == tokens_view(result@) + tokens_spec(
                nw.skip(new_idx as int),
                lw.skip(lcs_idx as int),
            ),
        decreases new_words.len() - new_idx,
    {
        let ghost rest_new = nw.skip(new_idx as int);
        let ghost rest_lcs = lw.skip(lcs_idx as int);
        assert(rest_new.drop_first() =~= nw.skip(new_idx + 1));
        assert(rest_new[0] == new_words@[new_idx as int]@);
        let ghost before = tokens_view(result@);
        if lcs_idx < lcs.len() && str_eq(new_words[new_idx], lcs[lcs_idx]) {
            assert(rest_lcs.drop_first() =~= lw.skip(lcs_idx + 1));
            assert(rest_lcs[0] == lcs@[lcs_idx as int]@);
            let t = DiffToken::Same(new_words[new_idx].to_owned());
            result.push(t);
            assert(tokens_view(result@) =~= before.push(t@));
            assert(before + tokens_spec(rest_new, rest_lcs) =~= before.push(t@) + tokens_spec(
                nw.skip(new_idx + 1),
                lw.skip(lcs_idx + 1),
            ));
            new_idx = new_idx + 1;
            lcs_idx = lcs_idx + 1;
        } else {
            let t = DiffToken::Changed(new_words[new_idx].to_owned());
            result.push(t);
            assert(tokens_view(result@) =~= before.push(t@));
            assert(before + tokens_spec(rest_new, rest_lcs) =~= before.push(t@) + tokens_spec(
                nw.skip(new_idx + 1),
                rest_lcs,
            ));
            new_idx = new_idx + 1;
        }
    }
    assert(nw.skip(new_idx as int) =~= seq![]);
    assert(tokens_view(result@) + seq![] =~= tokens_view(result@));
    result
}

/// The tokens' words are exactly the words of `new`, in order.
pub proof fn lemma_tokens_cover_words(new: Seq<Seq<char>>, common: Seq<Seq<char>>)
    ensures
        token_words(tokens_spec(new, common)) == new,
    decreases new.len(),
{
    if new.len() == 0 {
        assert(token_words(tokens_spec(new, common)) =~= new);
    } else if common.len() > 0 && new[0] == common[0] {
        lemma_tokens_cover_words(new.drop_first(), common.drop_first());
        let rest = tokens_spec(new.drop_first(), common.drop_first());
        assert(token_words(seq![WordToken::Same(new[0])] + rest) =~= seq![new[0]] + token_words(
            rest,
        ));
        assert(seq![new[0]] + new.drop_first() =~= new);
    } else {
        lemma_tokens_cover_words(new.drop_first(), common);
        let rest = tokens_spec(new.drop_first(), common);
        assert(token_words(seq![WordToken::Changed(new[0])] + rest) =~= seq![new[0]]
            + token_words(rest));
        assert(seq![new[0]] + new.drop_first() =~= new);
    }
}

/// When `common` is a subsequence of `new`, the unchanged tokens spell out `common`.
pub proof fn lemma_same_words_are_common(
    new: Seq<Seq<char>>,
    common: Seq<Seq<char>>,
    idx: Seq<int>,
)
    requires
        embeds(idx, common, new),
    ensures
        same_words(tokens_spec(new, common)) == common,
    decreases new.len(),
{
    if new.len() == 0 {
        if common.len() > 0 {
            assert(0 <= idx[0] < new.len());
        }
        assert(common =~= seq![]);
    } else if common.len() > 0 && new[0] == common[0] {
        let idx1 = Seq::new((idx.len() - 1) as nat, |k: int| idx[k + 1] - 1);
        assert(embeds(idx1, common.drop_first(), new.drop_first())) by {
            assert forall|k: int| 0 <= k < idx1.len() implies 0 <= #[trigger] idx1[k] < new.len()
                - 1 && new.drop_first()[idx1[k]] == common.drop_first()[k] by {
                assert(idx[0] < idx[k + 1]);
                assert(0 <= idx[0]);
            }
            assert forall|k: int, l: int| 0 <= k < l < idx1.len() implies #[trigger] idx1[k]
                < #[trigger] idx1[l] by {
                assert(idx[k + 1] < idx[l + 1]);
            }
        }
        lemma_same_words_are_common(new.drop_first(), common.drop_first(), idx1);
        let ts = tokens_spec(new, common);
        let rest = tokens_spec(new.drop_first(), common.drop_first());
        assert(ts.drop_first() =~= rest);
        assert(seq![common[0]] + common.drop_first() =~= common);
    } else {
        let idx1 = Seq::new(idx.len(), |k: int| idx[k] - 1);
        if common.len() > 0 {
            assert(idx[0] != 0) by {
                if idx[0] == 0 {
                    assert(new[idx[0]] == common[0]);
                }
            }
        }
        assert(embeds(idx1, common, new.drop_first())) by {
            assert forall|k: int| 0 <= k < idx1.len() implies 0 <= #[trigger] idx1[k] < new.len()
                - 1 && new.drop_first()[idx1[k]] == common[k] by {
                if k > 0 {
                    assert(idx[0] < idx[k]);
                }
                assert(0 <= idx[0]);
            }
            assert forall|k: int, l: int| 0 <= k < l < idx1.len() implies #[trigger] idx1[k]
                < #[trigger] idx1[l] by {
                assert(idx[k] < idx[l]);
            }
        }
        lemma_same_words_are_common(new.drop_first(), common, idx1);
        let ts = tokens_spec(new, common);
        assert(ts.drop_first() =~= tokens_spec(new.drop_first(), common));
    }
}

/// When both lines have words, the tokens of `compute_word_diff` are the words
/// of the new line in order, and the unchanged ones are a longest common
/// subsequence of the two lines' words.
pub proof fn law_word_diff_marks_longest_common_words(old_line: Seq<char>, new_line: Seq<char>)
    requires
        words_spec(old_line).len() > 0,
        words_spec(new_line).len() > 0,
    ensures
        token_words(word_diff_spec(old_line, new_line)) == words_spec(new_line),
        same_words(word_diff_spec(old_line, new_line)) == lcs_seq(
            words_spec(old_line),
            words_spec(new_line),
        ),
        is_subsequence(same_words(word_diff_spec(old_line, new_line)), words_spec(old_line)),
        forall|c: Seq<Seq<char>>|
            is_subsequence(c, words_spec(old_line)) && is_subsequence(c, words_spec(new_line))
                ==> c.len() <= same_words(word_diff_spec(old_line, new_line)).len(),
{
    let ow = words_spec(old_line);
    let nw = words_spec(new_line);
    let common = lcs_seq(ow, nw);
    lemma_tokens_cover_words(nw, common);
    law_lcs_is_longest_common_subsequence(ow, nw);
    let idx = choose|idx: Seq<int>| embeds(idx, common, nw);
    lemma_same_words_are_common(nw, common, idx);
}

/// Kind of a line in a file diff.
#[derive(Debug, Clone, Copy, PartialEq, Eq, Structural)]
pub enum LineType {
    Unspecified,
    Context,
    Addition,
    Deletion,
    Header,
}

/// Looking back from line `k` (exclusive): the nearest deletion, skipping
/// additions and stopping at any other line.
pub open spec fn paired_deletion_spec(types: Seq<LineType>, k: int) -> Option<int>
    decreases k,
{
    if k <= 0 {
        None
    } else {
        match types[k - 1] {
            LineType::Deletion => Some(k - 1),
            LineType::Addition => paired_deletion_spec(types, k - 1),
            _ => None,
        }
    }
}

/// Looking forward from line `k` (inclusive): the nearest addition, skipping
/// deletions and stopping at any other line.
pub open spec fn paired_addition_spec(types: Seq<LineType>, k: int) -> Option<int>
    decreases types.len() - k,
{
    if k < 0 || k >= types.len() {
        None
    } else {
        match types[k] {
            LineType::Addition => Some(k),
            LineType::Deletion => paired_addition_spec(types, k + 1),
            _ => None,
        }
    }
}

/// The deletion line that an addition line at `addition_idx` pairs with.
pub fn find_paired_deletion(types: &[LineType], addition_idx: usize) -> (r: Option<usize>)
    requires
        addition_idx <= types@.len(),
    ensures
        r matches Some(i) ==> paired_deletion_spec(types@, addition_idx as int) == Some(i as int),
        r is None ==> paired_deletion_spec(types@, addition_idx as int) is None,
{
    let mut i: usize = addition_idx;
    while i > 0
        invariant
            i <= addition_idx <= types@.len(),
            paired_deletion_spec(types@, addition_idx as int) == paired_deletion_spec(
                types@,
                i as int,
            ),
        decreases i,
    {
        match types[i - 1] {
            LineType::Deletion => return Some(i - 1),
            LineType::Addition => {},
            _ => return None,
        }
        i = i - 1;
    }
    None
}

/// The addition line that a deletion line at `deletion_idx` pairs with.
pub fn find_paired_addition(types: &[LineType], deletion_idx: usize) -> (r: Option<usize>)
    ensures
        r matches Some(i) ==> paired_addition_spec(types@, deletion_idx + 1) == Some(i as int),
        r is None ==> paired_addition_spec(types@, deletion_idx + 1) is None,
{
    if deletion_idx >= types.len() {
        return None;
    }
    let mut i: usize = deletion_idx + 1;
    while i < types.len()
        invariant
            deletion_idx < i <= types@.len(),
            paired_addition_spec(types@, deletion_idx + 1) == paired_addition_spec(
                types@,
                i as int,
            ),
        decreases types@.len() - i,
    {
        match types[i] {
            LineType::Addition => return Some(i),
            LineType::Deletion => {},
            _ => return None,
        }
        i = i + 1;
    }
    None
}

/// A terminal colour.
#[derive(Debug, Clone, Copy, PartialEq, Eq, Structural)]
pub enum Color {
    Reset,
    Black,
    Red,
    Green,
    Yellow,
    Blue,
    Magenta,
    Cyan,
    Gray,
    DarkGray,
    LightRed,
    LightGreen,
    LightYellow,
    LightBlue,
    LightMagenta,
    LightCyan,
    White,
    Rgb(u8, u8, u8),
    Indexed(u8),
}

/// `x - d`, or 0 when that would be negative.
pub open spec fn sat_sub(x: u8, d: u8) -> u8 {
    if x >= d {
        (x - d) as u8
    } else {
        0
    }
}

/// `x + 30`, or 255 when that would exceed 255.
pub open spec fn brighten(x: u8) -> u8 {
    if x as int + 30 <= 255 {
        (x + 30) as u8
    } else {
        255
    }
}

/// The green or red tint of a colour for diff highlighting.
pub open spec fn tint_spec(color: Color, is_addition: bool) -> Color {
    match color {
        Color::Rgb(r, g, b) => if is_addition {
            Color::Rgb(sat_sub(r, 20), brighten(g), sat_sub(b, 20))
        } else {
            Color::Rgb(brighten(r), sat_sub(g, 20), sat_sub(b, 20))
        },
        _ => if is_addition {
            Color::Green
        } else {
            Color::Red
        },
    }
}

/// Apply a green (addition) or red (deletion) tint to a colour: RGB colours are
/// shifted by 20/30 with saturation, other colours become plain green or red.
pub fn tint_color(color: Color, is_addition: bool) -> (r: Color)
    ensures
        r == tint_spec(color, is_addition),
{
    match color {
        Color::Rgb(r, g, b) => {
            if is_addition {
                Color::Rgb(r.saturating_sub(20), (g as u16 + 30).min(255) as u8, b.saturating_sub(20))
            } else {
                Color::Rgb((r as u16 + 30).min(255) as u8, g.saturating_sub(20), b.saturating_sub(20))
            }
        },
        _ => {
            if is_addition {
                Color::Green
            } else {
                Color::Red
            }
        },
    }
}

/// Sum of the byte lengths of the spans.
pub open spec fn spans_len<S>(spans: Seq<(S, usize)>) -> nat
    decreases spans.len(),
{
    if spans.len() == 0 {
        0
    } else {
        spans_len(spans.drop_last()) + (spans.last().1 as nat)
    }
}

/// The style of the span that covers byte `start`, the spans lying one after
/// another from byte 0.
pub open spec fn style_at<S>(spans: Seq<(S, usize)>, start: int) -> Option<S>
    decreases spans.len(),
{
    if spans.len() == 0 {
        None
    } else if 0 <= start < spans[0].1 {
        Some(spans[0].0)
    } else {
        style_at(spans.drop_first(), start - spans[0].1)
    }
}

proof fn lemma_spans_len_prefix<S>(spans: Seq<(S, usize)>, i: int)
    requires
        0 <= i < spans.len(),
    ensures
        spans_len(spans.take(i)) + spans[i].1 == spans_len(spans.take(i + 1)),
{
    assert(spans.take(i + 1).drop_last() =~= spans.take(i));
}

proof fn lemma_spans_len_mono<S>(spans: Seq<(S, usize)>, i: int)
    requires
        0 <= i <= spans.len(),
    ensures
        spans_len(spans.take(i)) <= spans_len(spans),
    decreases spans.len() - i,
{
    if i < spans.len() {
        lemma_spans_len_prefix(spans, i);
        lemma_spans_len_mono(spans, i + 1);
    } else {
        assert(spans.take(i) =~= spans);
    }
}

/// Find the style of the span (given with its byte length) that covers byte `start`.
pub fn find_syntax_style_for_range<S: Copy>(spans: &[(S, usize)], start: usize, _end: usize) -> (r:
    Option<S>)
    requires
        spans_len(spans@) <= usize::MAX,
    ensures
        r == style_at(spans@, start as int),
{
    let mut pos: usize = 0;
    let mut i: usize = 0;
    assert(spans@.skip(0) =~= spans@);
    assert(spans@.take(0) =~= seq![]);
    while i < spans.len()
        invariant
            i <= spans@.len(),
            pos == spans_len(spans@.take(i as int)),
            spans_len(spans@) <= usize::MAX,
            style_at(spans@, start as int) == style_at(spans@.skip(i as int), start - pos),
            start >= pos,
        decreases spans.len() - i,
    {
        proof {
            lemma_spans_len_prefix(spans@, i as int);
            lemma_spans_len_mono(spans@, i + 1);
            assert(spans@.skip(i as int).drop_first() =~= spans@.skip(i + 1));
            assert(spans@.skip(i as int)[0] == spans@[i as int]);
        }
        let (style, len) = spans[i];
        let span_end = pos + len;
        if start >= pos && start < span_end {
            return Some(style);
        }
        pos = span_end;
        i = i + 1;
    }
    assert(spans@.skip(i as int) =~= seq![]);
    None
}

proof fn lemma_paired_addition_at(types: Seq<LineType>, k: int, i: int)
    requires
        0 <= k,
    ensures
        (paired_addition_spec(types, k) == Some(i)) <==> (k <= i < types.len() && types[i]
            == LineType::Addition && forall|j: int| k <= j < i ==> types[j] == LineType::Deletion),
    decreases types.len() - k,
{
    if k < types.len() {
        match types[k] {
            LineType::Deletion => {
                lemma_paired_addition_at(types, k + 1, i);
                if k + 1 <= i < types.len() && types[i] == LineType::Addition && forall|j: int|
                    k + 1 <= j < i ==> types[j] == LineType::Deletion {
                    assert forall|j: int| k <= j < i implies types[j] == LineType::Deletion by {
                        if j > k {
                            assert(k + 1 <= j < i);
                        }
                    }
                }
            },
            _ => {},
        }
    }
}

/// A deletion at `d` pairs with the addition at `i` exactly when `i` comes
/// after `d`, is an addition, and only deletions lie between them: any other
/// line in between ends the search, and with no such addition there is no
/// pair.
pub proof fn law_paired_addition(types: Seq<LineType>, d: int, i: int)
    requires
        0 <= d,
    ensures
        (paired_addition_spec(types, d + 1) == Some(i)) <==> (d < i < types.len() && types[i]
            == LineType::Addition && forall|j: int| d < j < i ==> types[j] == LineType::Deletion),
{
    lemma_paired_addition_at(types, d + 1, i);
}

/// An addition at `a` pairs with the deletion at `i` exactly when `i` comes
/// before `a`, is a deletion, and only additions lie between them: any other
/// line in between ends the search, and with no such deletion there is no
/// pair.
pub proof fn law_paired_deletion(types: Seq<LineType>, a: int, i: int)
    requires
        a <= types.len(),
    ensures
        (paired_deletion_spec(types, a) == Some(i)) <==> (0 <= i < a && types[i] == LineType::Deletion
            && forall|j: int| i < j < a ==> types[j] == LineType::Addition),
    decreases a,
{
    if a > 0 {
        match types[a - 1] {
            LineType::Addition => {
                law_paired_deletion(types, a - 1, i);
                if 0 <= i < a - 1 && types[i] == LineType::Deletion && forall|j: int|
                    i < j < a - 1 ==> types[j] == LineType::Addition {
                    assert forall|j: int| i < j < a implies types[j] == LineType::Addition by {
                        if j < a - 1 {
                            assert(i < j < a - 1);
                        }
                    }
                }
            },
            LineType::Deletion => {
                if 0 <= i < a - 1 && types[i] == LineType::Deletion && forall|j: int|
                    i < j < a ==> types[j] == LineType::Addition {
                    assert(types[a - 1] == LineType::Addition);
                }
            },
            _ => {
                if 0 <= i < a - 1 && forall|j: int| i < j < a ==> types[j] == LineType::Addition {
                    assert(types[a - 1] == LineType::Addition);
                }
            },
        }
    }
}

} // verus!
