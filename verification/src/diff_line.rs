//! How one added or deleted line of a diff is split into styled pieces: the
//! words of a line paired with its counterpart are marked same or changed,
//! the rest keeps the syntax colours tinted green or red.

use vstd::prelude::*;
use crate::text::{all_white, chars_of, is_white_space, is_word, laid_out, layout_from, lemma_words_layout, string_from_chars, words_spec};
use crate::lcs::lcs_seq;
use crate::word_diff::{
    compute_word_diff, find_syntax_style_for_range, lemma_tokens_cover_words, spans_len, style_at,
    tint_color, tint_spec, token_word, token_words, tokens_view, word_diff_spec, Color, DiffToken,
    WordToken,
};

verus! {

/// The look of a piece of a diff line.
#[derive(Debug, Clone, Copy, PartialEq, Eq, Structural)]
pub struct PieceStyle {
    pub fg: Color,
    pub bold: bool,
    pub underlined: bool,
    pub reversed: bool,
}

/// A piece of a rendered diff line.
#[derive(Debug)]
pub struct StyledPiece {
    pub text: String,
    pub style: PieceStyle,
}

/// A piece of the line as the syntax highlighter coloured it.
#[derive(Debug)]
pub struct SyntaxSpan {
    /// Foreground colour, when the highlighter chose one
    pub fg: Option<Color>,
    pub text: String,
}

/// The pieces as text and style.
pub open spec fn pieces_view(p: Seq<StyledPiece>) -> Seq<(Seq<char>, PieceStyle)> {
    p.map_values(|x: StyledPiece| (x.text@, x.style))
}

/// The syntax spans as colour and length in characters.
pub open spec fn span_lengths(spans: Seq<SyntaxSpan>) -> Seq<(Option<Color>, usize)> {
    spans.map_values(|s: SyntaxSpan| (s.fg, s.text@.len() as usize))
}

/// The first position at or after `i` where `needle` occurs in `hay`.
pub open spec fn find_from(hay: Seq<char>, needle: Seq<char>, i: int) -> Option<int>
    decreases hay.len() + 1 - i,
{
    if i < 0 || i + needle.len() > hay.len() {
        None
    } else if hay.subrange(i, i + needle.len()) == needle {
        Some(i)
    } else {
        find_from(hay, needle, i + 1)
    }
}

/// Green for an added line, red for a deleted one.
pub open spec fn base_color(is_addition: bool) -> Color {
    if is_addition {
        Color::Green
    } else {
        Color::Red
    }
}

/// The brighter colour that marks changed words.
pub open spec fn highlight_color(is_addition: bool) -> Color {
    if is_addition {
        Color::LightGreen
    } else {
        Color::LightRed
    }
}

/// A colour with no emphasis, reversed on the selected line.
pub open spec fn plain_style(fg: Color, reversed: bool) -> PieceStyle {
    PieceStyle { fg, bold: false, underlined: false, reversed }
}

/// A changed word: bold in the highlight colour, reversed on the selected line
/// and underlined elsewhere.
pub open spec fn changed_style(is_addition: bool, selected: bool) -> PieceStyle {
    PieceStyle {
        fg: highlight_color(is_addition),
        bold: true,
        underlined: !selected,
        reversed: selected,
    }
}

/// The syntax colour at position `start`, tinted; the line's colour when the
/// highlighter gave none.
pub open spec fn tinted_syntax_color(
    spans: Seq<SyntaxSpan>,
    start: int,
    is_addition: bool,
) -> Color {
    tint_spec(
        match style_at(span_lengths(spans), start) {
            Some(Some(c)) => c,
            _ => base_color(is_addition),
        },
        is_addition,
    )
}

/// The pieces for the tokens, each word looked for from `pos` on: the text
/// skipped to reach it in the line's colour, then the word; a word not found
/// is left out. What follows the last word found ends the line.
pub open spec fn word_pieces(
    content: Seq<char>,
    tokens: Seq<WordToken>,
    pos: int,
    is_addition: bool,
    selected: bool,
    spans: Seq<SyntaxSpan>,
) -> Seq<(Seq<char>, PieceStyle)>
    decreases tokens.len(),
{
    if tokens.len() == 0 {
        if pos < content.len() {
            seq![(content.subrange(pos, content.len() as int), plain_style(base_color(is_addition), selected))]
        } else {
            seq![]
        }
    } else {
        let w = token_word(tokens[0]);
        match find_from(content, w, pos) {
            None => word_pieces(content, tokens.drop_first(), pos, is_addition, selected, spans),
            Some(s) => {
                let gap = if s > pos {
                    seq![(content.subrange(pos, s), plain_style(base_color(is_addition), selected))]
                } else {
                    seq![]
                };
                let style = match tokens[0] {
                    WordToken::Changed(_) => changed_style(is_addition, selected),
                    WordToken::Same(_) => plain_style(tinted_syntax_color(spans, s, is_addition), selected),
                };
                gap + seq![(w, style)] + word_pieces(
                    content,
                    tokens.drop_first(),
                    s + w.len(),
                    is_addition,
                    selected,
                    spans,
                )
            },
        }
    }
}

/// The syntax spans in their own colours (the line's colour where they have
/// none), tinted.
pub open spec fn tinted_spans(spans: Seq<SyntaxSpan>, is_addition: bool, selected: bool) -> Seq<
    (Seq<char>, PieceStyle),
> {
    spans.map_values(
        |s: SyntaxSpan|
            (
                s.text@,
                plain_style(
                    tint_spec(
                        match s.fg {
                            Some(c) => c,
                            None => base_color(is_addition),
                        },
                        is_addition,
                    ),
                    selected,
                ),
            ),
    )
}

/// The pieces of a diff line. With its counterpart (`paired`) the words are
/// compared: an added line's words against the deleted one, and for a
/// deleted line the added line's words are looked for in it. Without one the
/// syntax spans are kept, tinted.
pub open spec fn render_word_diff_spec(
    content: Seq<char>,
    paired: Option<Seq<char>>,
    is_addition: bool,
    is_selected: bool,
    is_focused: bool,
    spans: Seq<SyntaxSpan>,
) -> Seq<(Seq<char>, PieceStyle)> {
    let selected = is_selected && is_focused;
    match paired {
        Some(p) => {
            let tokens = if is_addition {
                word_diff_spec(p, content)
            } else {
                word_diff_spec(content, p)
            };
            let pieces = word_pieces(content, tokens, 0, is_addition, selected, spans);
            if pieces.len() == 0 {
                seq![(content, plain_style(base_color(is_addition), false))]
            } else {
                pieces
            }
        },
        None => {
            if spans.len() == 0 {
                seq![(content, plain_style(base_color(is_addition), selected))]
            } else {
                tinted_spans(spans, is_addition, selected)
            }
        },
    }
}

/// Whether `needle` occurs in `hay` at position `i`.
fn occurs_at(hay: &Vec<char>, needle: &Vec<char>, i: usize) -> (r: bool)
    requires
        i + needle@.len() <= hay@.len(),
    ensures
        r == (hay@.subrange(i as int, i + needle@.len()) == needle@),
{
    let n = hay.len();
    let mut k: usize = 0;
    while k < needle.len()
        invariant
            n == hay@.len(),
            i + needle@.len() <= hay@.len(),
            k <= needle@.len(),
            forall|m: int| 0 <= m < k ==> hay@[i + m] == needle@[m],
        decreases needle.len() - k,
    {
        if hay[i + k] != needle[k] {
            assert(hay@.subrange(i as int, i + needle@.len())[k as int] != needle@[k as int]);
            return false;
        }
        k = k + 1;
    }
    assert(hay@.subrange(i as int, i + needle@.len()) =~= needle@);
    true
}

/// The first position at or after `from` where `needle` occurs in `hay`.
fn find_from_exec(hay: &Vec<char>, needle: &Vec<char>, from: usize) -> (r: Option<usize>)
    ensures
        match r {
            Some(s) => find_from(hay@, needle@, from as int) == Some(s as int),
            None => find_from(hay@, needle@, from as int) is None,
        },
{
    let n = hay.len();
    let m = needle.len();
    if from > n || m > n - from {
        return None;
    }
    let mut i = from;
    loop
        invariant
            from <= i <= n - m,
            n == hay@.len(),
            m == needle@.len(),
            m <= n,
            find_from(hay@, needle@, from as int) == find_from(hay@, needle@, i as int),
        decreases n - m - i,
    {
        if occurs_at(hay, needle, i) {
            return Some(i);
        }
        if i == n - m {
            assert(find_from(hay@, needle@, i + 1) is None);
            return None;
        }
        i = i + 1;
    }
}

/// The syntax spans as colour and character count.
fn span_lengths_exec(spans: &[SyntaxSpan]) -> (r: Vec<(Option<Color>, usize)>)
    ensures
        r@ == span_lengths(spans@),
{
    let mut r: Vec<(Option<Color>, usize)> = Vec::new();
    let mut i: usize = 0;
    while i < spans.len()
        invariant
            i <= spans@.len(),
            r@ == span_lengths(spans@).take(i as int),
        decreases spans.len() - i,
    {
        let len = spans[i].text.as_str().unicode_len();
        r.push((spans[i].fg, len));
        i = i + 1;
        assert(r@ =~= span_lengths(spans@).take(i as int));
    }
    assert(span_lengths(spans@).take(i as int) =~= span_lengths(spans@));
    r
}

/// The style of a diff line's piece with no emphasis.
fn plain(fg: Color, reversed: bool) -> (r: PieceStyle)
    ensures
        r == plain_style(fg, reversed),
{
    PieceStyle { fg, bold: false, underlined: false, reversed }
}

fn base(is_addition: bool) -> (r: Color)
    ensures
        r == base_color(is_addition),
{
    if is_addition {
        Color::Green
    } else {
        Color::Red
    }
}

/// The pieces of one added or deleted diff line: `content` is the line,
/// `paired` the line it replaced or was replaced by, `syntax` the line as the
/// highlighter coloured it.
pub fn render_word_diff_line(
    content: &str,
    paired_content: Option<&str>,
    is_addition: bool,
    is_selected: bool,
    is_focused: bool,
    syntax: &[SyntaxSpan],
) -> (r: Vec<StyledPiece>)
    requires
        spans_len(span_lengths(syntax@)) <= usize::MAX,
    ensures
        pieces_view(r@) == render_word_diff_spec(
            content@,
            match paired_content {
                Some(p) => Some(p@),
                None => None,
            },
            is_addition,
            is_selected,
            is_focused,
            syntax@,
        ),
{
    let selected = is_selected && is_focused;
    let base_fg = base(is_addition);
    match paired_content {
        Some(paired) => {
            let tokens = if is_addition {
                compute_word_diff(paired, content)
            } else {
                compute_word_diff(content, paired)
            };
            let ghost tv = tokens_view(tokens@);
            assert(tv == if is_addition {
                word_diff_spec(paired@, content@)
            } else {
                word_diff_spec(content@, paired@)
            });
            let chars = chars_of(content);
            let nchars = chars.len();
            let lens = span_lengths_exec(syntax);
            let mut pieces: Vec<StyledPiece> = Vec::new();
            let mut pos: usize = 0;
            let mut i: usize = 0;
            assert(tv.skip(0) =~= tv);
            while i < tokens.len()
                invariant
                    i <= tokens@.len(),
                    tv == tokens_view(tokens@),
                    tv.len() == tokens@.len(),
                    chars@ == content@,
                    nchars == chars@.len(),
                    lens@ == span_lengths(syntax@),
                    spans_len(lens@) <= usize::MAX,
                    pos <= chars@.len(),
                    base_fg == base_color(is_addition),
                    selected == (is_selected && is_focused),
                    word_pieces(content@, tv, 0, is_addition, selected, syntax@) == pieces_view(pieces@)
                        + word_pieces(content@, tv.skip(i as int), pos as int, is_addition, selected, syntax@),
                decreases tokens.len() - i,
            {
                let ghost rest = tv.skip(i as int);
                assert(rest[0] == tokens@[i as int]@);
                assert(rest.drop_first() =~= tv.skip(i + 1));
                let ghost before = pieces_view(pieces@);
                let (word, changed) = match &tokens[i] {
                    DiffToken::Same(w) => (w.as_str(), false),
                    DiffToken::Changed(w) => (w.as_str(), true),
                };
                let w = chars_of(word);
                let ghost pos0 = pos as int;
                proof {
                    assert(token_word(rest[0]) == w@);
                }
                match find_from_exec(&chars, &w, pos) {
                    None => {
                        assert(word_pieces(content@, rest, pos0, is_addition, selected, syntax@)
                            == word_pieces(content@, tv.skip(i + 1), pos0, is_addition, selected, syntax@));
                    },
                    Some(s) => {
                        proof {
                            lemma_find_from_bounds(chars@, w@, pos as int);
                        }
                        let ghost gap_seq: Seq<(Seq<char>, PieceStyle)> = if s > pos {
                            seq![(content@.subrange(pos0, s as int), plain_style(base_color(is_addition), selected))]
                        } else {
                            seq![]
                        };
                        if s > pos {
                            let gap = string_from_chars(vstd::slice::slice_subrange(chars.as_slice(), pos, s));
                            pieces.push(StyledPiece { text: gap, style: plain(base_fg, selected) });
                        }
                        assert(pieces_view(pieces@) =~= before + gap_seq);
                        let style = if changed {
                            PieceStyle {
                                fg: if is_addition {
                                    Color::LightGreen
                                } else {
                                    Color::LightRed
                                },
                                bold: true,
                                underlined: !selected,
                                reversed: selected,
                            }
                        } else {
                            let fg = match find_syntax_style_for_range(lens.as_slice(), s, s + w.len()) {
                                Some(Some(c)) => c,
                                _ => base_fg,
                            };
                            plain(tint_color(fg, is_addition), selected)
                        };
                        let ghost want_style = match rest[0] {
                            WordToken::Changed(_) => changed_style(is_addition, selected),
                            WordToken::Same(_) => plain_style(
                                tinted_syntax_color(syntax@, s as int, is_addition),
                                selected,
                            ),
                        };
                        assert(style == want_style);
                        let ghost mid = pieces_view(pieces@);
                        pieces.push(StyledPiece { text: string_from_chars(w.as_slice()), style });
                        assert(pieces_view(pieces@) =~= mid.push((w@, style)));
                        pos = s + w.len();
                        assert(word_pieces(content@, rest, pos0, is_addition, selected, syntax@) == gap_seq
                            + seq![(w@, want_style)] + word_pieces(
                            content@,
                            tv.skip(i + 1),
                            pos as int,
                            is_addition,
                            selected,
                            syntax@,
                        ));
                        assert(before + (gap_seq + seq![(w@, want_style)] + word_pieces(
                            content@,
                            tv.skip(i + 1),
                            pos as int,
                            is_addition,
                            selected,
                            syntax@,
                        )) =~= pieces_view(pieces@) + word_pieces(
                            content@,
                            tv.skip(i + 1),
                            pos as int,
                            is_addition,
                            selected,
                            syntax@,
                        ));
                    },
                }
                i = i + 1;
            }
            assert(tv.skip(i as int) =~= Seq::<WordToken>::empty());
            let ghost body = pieces_view(pieces@);
            if pos < chars.len() {
                let suffix = string_from_chars(vstd::slice::slice_subrange(chars.as_slice(), pos, nchars));
                pieces.push(StyledPiece { text: suffix, style: plain(base_fg, selected) });
                assert(pieces_view(pieces@) =~= body + seq![(content@.subrange(pos as int, content@.len() as int), plain_style(base_color(is_addition), selected))]);
            } else {
                assert(body + seq![] =~= body);
            }
            assert(pieces_view(pieces@) == word_pieces(content@, tv, 0, is_addition, selected, syntax@));
            assert(pieces_view(pieces@).len() == pieces@.len());
            if pieces.len() == 0 {
                pieces.push(StyledPiece { text: content.to_owned(), style: plain(base_fg, false) });
                assert(pieces_view(pieces@) =~= seq![(content@, plain_style(base_color(is_addition), false))]);
            }
            assert(pieces_view(pieces@) == render_word_diff_spec(
                content@,
                Some(paired@),
                is_addition,
                is_selected,
                is_focused,
                syntax@,
            ));
            pieces
        },
        None => {
            let mut pieces: Vec<StyledPiece> = Vec::new();
            let mut i: usize = 0;
            while i < syntax.len()
                invariant
                    i <= syntax@.len(),
                    base_fg == base_color(is_addition),
                    selected == (is_selected && is_focused),
                    pieces_view(pieces@) == tinted_spans(syntax@, is_addition, selected).take(i as int),
                decreases syntax.len() - i,
            {
                let fg = match syntax[i].fg {
                    Some(c) => c,
                    None => base_fg,
                };
                let ghost before = pieces_view(pieces@);
                let piece = StyledPiece {
                    text: syntax[i].text.as_str().to_owned(),
                    style: plain(tint_color(fg, is_addition), selected),
                };
                assert((piece.text@, piece.style) == tinted_spans(syntax@, is_addition, selected)[i as int]);
                pieces.push(piece);
                assert(pieces_view(pieces@) =~= before.push((piece.text@, piece.style)));
                i = i + 1;
                assert(pieces_view(pieces@) =~= tinted_spans(syntax@, is_addition, selected).take(i as int));
            }
            assert(tinted_spans(syntax@, is_addition, selected).take(i as int) =~= tinted_spans(syntax@, is_addition, selected));
            if pieces.len() == 0 {
                pieces.push(StyledPiece { text: content.to_owned(), style: plain(base_fg, selected) });
                assert(pieces_view(pieces@) =~= seq![(content@, plain_style(base_color(is_addition), selected))]);
            }
            pieces
        },
    }
}

proof fn lemma_find_from_bounds(hay: Seq<char>, needle: Seq<char>, i: int)
    requires
        find_from(hay, needle, i) is Some,
    ensures
        i <= find_from(hay, needle, i)->Some_0,
        find_from(hay, needle, i)->Some_0 + needle.len() <= hay.len(),
    decreases hay.len() + 1 - i,
{
    if !(i < 0 || i + needle.len() > hay.len()) && hay.subrange(i, i + needle.len()) != needle {
        lemma_find_from_bounds(hay, needle, i + 1);
    }
}

/// The text of the pieces, in order.
pub open spec fn pieces_text(ps: Seq<(Seq<char>, PieceStyle)>) -> Seq<char>
    decreases ps.len(),
{
    if ps.len() == 0 {
        seq![]
    } else {
        ps[0].0 + pieces_text(ps.drop_first())
    }
}

proof fn lemma_pieces_text_concat(a: Seq<(Seq<char>, PieceStyle)>, b: Seq<(Seq<char>, PieceStyle)>)
    ensures
        pieces_text(a + b) == pieces_text(a) + pieces_text(b),
    decreases a.len(),
{
    if a.len() == 0 {
        assert(a + b =~= b);
    } else {
        lemma_pieces_text_concat(a.drop_first(), b);
        assert((a + b).drop_first() =~= a.drop_first() + b);
        assert((a + b)[0] == a[0]);
        assert(a[0].0 + (pieces_text(a.drop_first()) + pieces_text(b)) =~= (a[0].0 + pieces_text(
            a.drop_first(),
        )) + pieces_text(b));
    }
}

/// After a white-space gap, a word is first found where it stands.
proof fn lemma_find_after_gap(content: Seq<char>, g: Seq<char>, w: Seq<char>, pos: int)
    requires
        0 <= pos,
        pos + g.len() + w.len() <= content.len(),
        content.subrange(pos, pos + g.len()) == g,
        all_white(g),
        is_word(w),
        content.subrange(pos + g.len(), pos + g.len() + w.len()) == w,
    ensures
        find_from(content, w, pos) == Some(pos + g.len()),
    decreases g.len(),
{
    if g.len() > 0 {
        assert(content[pos] == g[0]);
        assert(content.subrange(pos, pos + w.len())[0] == content[pos]);
        assert(is_white_space(g[0]));
        assert(!is_white_space(w[0]));
        assert(content.subrange(pos, pos + w.len()) != w);
        let g1 = g.drop_first();
        assert(content.subrange(pos + 1, pos + 1 + g1.len()) =~= g1);
        assert(all_white(g1)) by {
            assert forall|i: int| 0 <= i < g1.len() implies is_white_space(#[trigger] g1[i]) by {
                assert(g1[i] == g[i + 1]);
            }
        }
        lemma_find_after_gap(content, g1, w, pos + 1);
    }
}

/// The pieces for the words from `k` on spell out the text from `pos` on,
/// when the text from `pos` on is the layout from word `k` on.
proof fn lemma_pieces_spell(
    content: Seq<char>,
    gaps: Seq<Seq<char>>,
    words: Seq<Seq<char>>,
    tokens: Seq<WordToken>,
    k: int,
    pos: int,
    is_addition: bool,
    selected: bool,
    spans: Seq<SyntaxSpan>,
)
    requires
        laid_out(content, gaps, words),
        token_words(tokens) == words,
        0 <= k <= words.len(),
        0 <= pos <= content.len(),
        content.subrange(pos, content.len() as int) == layout_from(gaps, words, k),
    ensures
        pieces_text(word_pieces(content, tokens.skip(k), pos, is_addition, selected, spans))
            == content.subrange(pos, content.len() as int),
    decreases words.len() - k,
{
    let n = words.len() as int;
    let len = content.len() as int;
    assert(tokens.len() == n);
    let t = tokens.skip(k);
    if k == n {
        assert(t.len() == 0);
        if pos < len {
            let ps = seq![(content.subrange(pos, len), plain_style(base_color(is_addition), selected))];
            assert(pieces_text(ps) =~= content.subrange(pos, len) + pieces_text(ps.drop_first()));
        } else {
            assert(content.subrange(pos, len) =~= Seq::<char>::empty());
        }
    } else {
        let g = gaps[k];
        let w = words[k];
        assert(t[0] == tokens[k]);
        assert(token_word(tokens[k]) == w) by {
            assert(token_words(tokens)[k] == token_word(tokens[k]));
        }
        let rest = layout_from(gaps, words, k + 1);
        assert(layout_from(gaps, words, k) == g + w + rest);
        let sub = content.subrange(pos, len);
        assert(sub.len() == g.len() + w.len() + rest.len());
        assert(content.subrange(pos, pos + g.len()) =~= g) by {
            assert forall|i: int| 0 <= i < g.len() implies content.subrange(pos, pos + g.len())[i] == g[i] by {
                assert(sub[i] == (g + w + rest)[i]);
            }
        }
        let s = pos + g.len();
        assert(content.subrange(s, s + w.len()) =~= w) by {
            assert forall|i: int| 0 <= i < w.len() implies content.subrange(s, s + w.len())[i] == w[i] by {
                assert(sub[g.len() + i] == (g + w + rest)[g.len() + i]);
            }
        }
        assert(all_white(g));
        assert(is_word(w));
        lemma_find_after_gap(content, g, w, pos);
        let next = s + w.len();
        assert(content.subrange(next, len) =~= rest) by {
            assert forall|i: int| 0 <= i < rest.len() implies content.subrange(next, len)[i] == rest[i] by {
                assert(sub[g.len() + w.len() + i] == (g + w + rest)[g.len() + w.len() + i]);
            }
        }
        assert(t.drop_first() =~= tokens.skip(k + 1));
        lemma_pieces_spell(content, gaps, words, tokens, k + 1, next, is_addition, selected, spans);
        let gap = if s > pos {
            seq![(content.subrange(pos, s), plain_style(base_color(is_addition), selected))]
        } else {
            seq![]
        };
        let style = match t[0] {
            WordToken::Changed(_) => changed_style(is_addition, selected),
            WordToken::Same(_) => plain_style(tinted_syntax_color(spans, s, is_addition), selected),
        };
        let tail = word_pieces(content, tokens.skip(k + 1), next, is_addition, selected, spans);
        assert(word_pieces(content, t, pos, is_addition, selected, spans) == gap + seq![(w, style)] + tail);
        lemma_pieces_text_concat(gap + seq![(w, style)], tail);
        lemma_pieces_text_concat(gap, seq![(w, style)]);
        assert(pieces_text(seq![(w, style)]) =~= w + pieces_text(seq![(w, style)].drop_first()));
        assert(pieces_text(gap) =~= content.subrange(pos, s)) by {
            if s > pos {
                assert(pieces_text(gap) =~= content.subrange(pos, s) + pieces_text(gap.drop_first()));
            } else {
                assert(content.subrange(pos, s) =~= Seq::<char>::empty());
            }
        }
        assert(content.subrange(pos, s) + w + content.subrange(next, len) =~= sub);
    }
}

/// An added line shown against the line it replaced loses no text: its
/// pieces, in order, spell out the line.
pub proof fn law_added_line_spelled_out(
    content: Seq<char>,
    paired: Seq<char>,
    is_selected: bool,
    is_focused: bool,
    spans: Seq<SyntaxSpan>,
)
    ensures
        pieces_text(render_word_diff_spec(content, Some(paired), true, is_selected, is_focused, spans))
            == content,
{
    let selected = is_selected && is_focused;
    let tokens = word_diff_spec(paired, content);
    let old_words = words_spec(paired);
    let new_words = words_spec(content);
    let len = content.len() as int;
    if old_words.len() == 0 || new_words.len() == 0 {
        assert(tokens == seq![WordToken::Changed(content)]);
        assert(content.subrange(0, len) =~= content);
        assert(find_from(content, content, 0) == Some(0int));
        assert(tokens.drop_first() =~= Seq::<WordToken>::empty());
        let tail = word_pieces(content, tokens.drop_first(), len, true, selected, spans);
        assert(tail =~= Seq::<(Seq<char>, PieceStyle)>::empty());
        let piece = (content, changed_style(true, selected));
        assert(word_pieces(content, tokens, 0, true, selected, spans) =~= seq![piece]);
        assert(pieces_text(seq![piece]) =~= content + pieces_text(seq![piece].drop_first()));
    } else {
        let gaps = lemma_words_layout(content);
        lemma_tokens_cover_words(new_words, lcs_seq(old_words, new_words));
        assert(tokens.skip(0) =~= tokens);
        assert(content.subrange(0, len) =~= content);
        lemma_pieces_spell(content, gaps, new_words, tokens, 0, 0, true, selected, spans);
        let pieces = word_pieces(content, tokens, 0, true, selected, spans);
        if pieces.len() == 0 {
            let fallback = seq![(content, plain_style(base_color(true), false))];
            assert(pieces_text(fallback) =~= content + pieces_text(fallback.drop_first()));
        }
    }
}

/// Where a word is found, the text there is the word.
proof fn lemma_find_from_found(hay: Seq<char>, needle: Seq<char>, i: int)
    requires
        find_from(hay, needle, i) is Some,
    ensures
        hay.subrange(
            find_from(hay, needle, i)->Some_0,
            find_from(hay, needle, i)->Some_0 + needle.len(),
        ) == needle,
    decreases hay.len() + 1 - i,
{
    if !(i < 0 || i + needle.len() > hay.len()) && hay.subrange(i, i + needle.len()) != needle {
        lemma_find_from_found(hay, needle, i + 1);
    }
}

/// Whatever the tokens, their pieces spell out the text from `pos` on: a
/// word found is the text where it stands, the text skipped to reach it is
/// kept, and the rest ends the line.
proof fn lemma_word_pieces_text(
    content: Seq<char>,
    tokens: Seq<WordToken>,
    pos: int,
    is_addition: bool,
    selected: bool,
    spans: Seq<SyntaxSpan>,
)
    requires
        0 <= pos <= content.len(),
    ensures
        pieces_text(word_pieces(content, tokens, pos, is_addition, selected, spans)) == content.subrange(
            pos,
            content.len() as int,
        ),
    decreases tokens.len(),
{
    let len = content.len() as int;
    if tokens.len() == 0 {
        let ps = word_pieces(content, tokens, pos, is_addition, selected, spans);
        if pos < len {
            assert(pieces_text(ps) =~= content.subrange(pos, len) + pieces_text(ps.drop_first()));
        } else {
            assert(content.subrange(pos, len) =~= Seq::<char>::empty());
        }
    } else {
        let w = token_word(tokens[0]);
        match find_from(content, w, pos) {
            None => {
                lemma_word_pieces_text(content, tokens.drop_first(), pos, is_addition, selected, spans);
            },
            Some(at) => {
                lemma_find_from_bounds(content, w, pos);
                lemma_find_from_found(content, w, pos);
                lemma_word_pieces_text(content, tokens.drop_first(), at + w.len(), is_addition, selected, spans);
                let gap: Seq<(Seq<char>, PieceStyle)> = if at > pos {
                    seq![(content.subrange(pos, at), plain_style(base_color(is_addition), selected))]
                } else {
                    seq![]
                };
                let style = match tokens[0] {
                    WordToken::Changed(_) => changed_style(is_addition, selected),
                    WordToken::Same(_) => plain_style(tinted_syntax_color(spans, at, is_addition), selected),
                };
                let word = seq![(w, style)];
                let rest = word_pieces(content, tokens.drop_first(), at + w.len(), is_addition, selected, spans);
                assert(word_pieces(content, tokens, pos, is_addition, selected, spans) == gap + word + rest);
                lemma_pieces_text_concat(gap + word, rest);
                lemma_pieces_text_concat(gap, word);
                assert(pieces_text(gap) =~= content.subrange(pos, at)) by {
                    if at > pos {
                        assert(pieces_text(gap) =~= content.subrange(pos, at) + pieces_text(gap.drop_first()));
                    }
                }
                assert(pieces_text(word) =~= w + pieces_text(word.drop_first()));
                assert(content.subrange(pos, len) =~= content.subrange(pos, at) + w + content.subrange(
                    at + w.len(),
                    len,
                ));
            },
        }
    }
}

/// A deleted line shown against the line that replaced it loses no text:
/// its pieces, in order, spell out the line.
pub proof fn law_deleted_line_spelled_out(
    content: Seq<char>,
    paired: Seq<char>,
    is_selected: bool,
    is_focused: bool,
    spans: Seq<SyntaxSpan>,
)
    ensures
        pieces_text(render_word_diff_spec(content, Some(paired), false, is_selected, is_focused, spans))
            == content,
{
    let selected = is_selected && is_focused;
    let tokens = word_diff_spec(content, paired);
    lemma_word_pieces_text(content, tokens, 0, false, selected, spans);
    assert(content.subrange(0, content.len() as int) =~= content);
    let pieces = word_pieces(content, tokens, 0, false, selected, spans);
    if pieces.len() == 0 {
        let fallback = seq![(content, plain_style(base_color(false), false))];
        assert(pieces_text(fallback) =~= content + pieces_text(fallback.drop_first()));
    }
}

} // verus!
