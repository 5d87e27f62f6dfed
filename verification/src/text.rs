//! Character- and string-level helpers shared by the parsers: Unicode white
//! space, trimming, splitting on white space and joining.

use vstd::prelude::*;
use vstd::string::*;

verus! {

/// The Unicode `White_Space` property (PropList.txt), which is what
/// `char::is_whitespace` tests.
pub open spec fn is_white_space(c: char) -> bool {
    let v = c as u32;
    ||| 0x09 <= v <= 0x0D
    ||| v == 0x20
    ||| v == 0x85
    ||| v == 0xA0
    ||| v == 0x1680
    ||| 0x2000 <= v <= 0x200A
    ||| v == 0x2028
    ||| v == 0x2029
    ||| v == 0x202F
    ||| v == 0x205F
    ||| v == 0x3000
}

/// Whether `c` has the Unicode `White_Space` property.
pub fn is_whitespace(c: char) -> (r: bool)
    ensures
        r == is_white_space(c),
{
    let v = c as u32;
    (0x09 <= v && v <= 0x0D) || v == 0x20 || v == 0x85 || v == 0xA0 || v == 0x1680 || (0x2000
        <= v && v <= 0x200A) || v == 0x2028 || v == 0x2029 || v == 0x202F || v == 0x205F || v
        == 0x3000
}

/// `s` with its leading white space removed.
pub open spec fn trim_start_spec(s: Seq<char>) -> Seq<char>
    decreases s.len(),
{
    if s.len() > 0 && is_white_space(s[0]) {
        trim_start_spec(s.drop_first())
    } else {
        s
    }
}

/// `s` with its trailing white space removed.
pub open spec fn trim_end_spec(s: Seq<char>) -> Seq<char>
    decreases s.len(),
{
    if s.len() > 0 && is_white_space(s.last()) {
        trim_end_spec(s.drop_last())
    } else {
        s
    }
}

/// `s` with leading and trailing white space removed (what `str::trim` returns).
pub open spec fn trim_spec(s: Seq<char>) -> Seq<char> {
    trim_end_spec(trim_start_spec(s))
}

/// The white-space separated words of `s`, in order (what `str::split_whitespace` yields).
/// Each character either is white space, extends the word that the previous
/// character belongs to, or starts a new word.
pub open spec fn words_spec(s: Seq<char>) -> Seq<Seq<char>>
    decreases s.len(),
{
    if s.len() == 0 {
        seq![]
    } else {
        let prev = words_spec(s.drop_last());
        let c = s.last();
        if is_white_space(c) {
            prev
        } else if s.len() >= 2 && !is_white_space(s[s.len() - 2]) {
            prev.update(prev.len() - 1, prev.last().push(c))
        } else {
            prev.push(seq![c])
        }
    }
}

/// The words joined with `sep` between consecutive words.
pub open spec fn join_spec(words: Seq<Seq<char>>, sep: Seq<char>) -> Seq<char>
    decreases words.len(),
{
    if words.len() == 0 {
        seq![]
    } else if words.len() == 1 {
        words[0]
    } else {
        join_spec(words.drop_last(), sep) + sep + words.last()
    }
}

/// The views of a sequence of strings.
pub open spec fn strings_view(v: Seq<String>) -> Seq<Seq<char>> {
    v.map_values(|w: String| w@)
}

/// Appends one character to a string (`String::push`).
#[verifier::external_body]
pub(crate) fn push_char(s: &mut String, c: char)
    ensures
        final(s)@ == old(s)@.push(c),
{
    s.push(c);
}

/// Whether two strings hold the same characters.
pub fn str_eq(a: &str, b: &str) -> (r: bool)
    ensures
        r == (a@ == b@),
{
    let x = a.to_owned();
    let y = b.to_owned();
    x == y
}

/// The characters of `s`.
pub fn chars_of(s: &str) -> (r: Vec<char>)
    ensures
        r@ == s@,
{
    let n = s.unicode_len();
    let mut r: Vec<char> = Vec::new();
    let mut i: usize = 0;
    while i < n
        invariant
            n == s@.len(),
            i <= n,
            r@ == s@.take(i as int),
        decreases n - i,
    {
        r.push(s.get_char(i));
        i = i + 1;
        assert(r@ =~= s@.take(i as int));
    }
    assert(r@ =~= s@);
    r
}

/// A string holding the given characters.
pub fn string_from_chars(v: &[char]) -> (r: String)
    ensures
        r@ == v@,
{
    let mut r = String::new();
    let mut i: usize = 0;
    while i < v.len()
        invariant
            i <= v.len(),
            r@ == v@.take(i as int),
        decreases v.len() - i,
    {
        push_char(&mut r, v[i]);
        i = i + 1;
        assert(r@ =~= v@.take(i as int));
    }
    assert(r@ =~= v@);
    r
}

proof fn lemma_trim_start_skip(s: Seq<char>, i: int)
    requires
        0 <= i < s.len(),
        is_white_space(s[i]),
    ensures
        trim_start_spec(s.subrange(i, s.len() as int)) == trim_start_spec(
            s.subrange(i + 1, s.len() as int),
        ),
{
    assert(s.subrange(i, s.len() as int).drop_first() =~= s.subrange(i + 1, s.len() as int));
}

proof fn lemma_trim_end_skip(s: Seq<char>, i: int, j: int)
    requires
        0 <= i < j <= s.len(),
        is_white_space(s[j - 1]),
    ensures
        trim_end_spec(s.subrange(i, j)) == trim_end_spec(s.subrange(i, j - 1)),
{
    assert(s.subrange(i, j).drop_last() =~= s.subrange(i, j - 1));
}

/// `s` without leading and trailing white space (`str::trim`).
pub fn trim(s: &str) -> (r: &str)
    ensures
        r@ == trim_spec(s@),
{
    let n = s.unicode_len();
    let mut i: usize = 0;
    assert(s@.subrange(0, n as int) =~= s@);
    while i < n && is_whitespace(s.get_char(i))
        invariant
            n == s@.len(),
            i <= n,
            trim_start_spec(s@) == trim_start_spec(s@.subrange(i as int, n as int)),
        decreases n - i,
    {
        proof {
            lemma_trim_start_skip(s@, i as int);
        }
        i = i + 1;
    }
    let ghost rest = s@.subrange(i as int, n as int);
    assert(trim_start_spec(rest) == rest) by {
        if rest.len() > 0 {
            assert(rest[0] == s@[i as int]);
        }
    }
    let mut j: usize = n;
    assert(rest =~= s@.subrange(i as int, j as int));
    while j > i && is_whitespace(s.get_char(j - 1))
        invariant
            n == s@.len(),
            i <= j <= n,
            trim_end_spec(rest) == trim_end_spec(s@.subrange(i as int, j as int)),
        decreases j,
    {
        proof {
            lemma_trim_end_skip(s@, i as int, j as int);
        }
        j = j - 1;
    }
    let ghost kept = s@.subrange(i as int, j as int);
    assert(trim_end_spec(kept) == kept) by {
        if kept.len() > 0 {
            assert(kept.last() == s@[j - 1]);
        }
    }
    s.substring_char(i, j)
}

/// The white-space separated words of `s` (`str::split_whitespace`).
pub fn split_whitespace(s: &str) -> (r: Vec<String>)
    ensures
        strings_view(r@) == words_spec(s@),
{
    let chars = chars_of(s);
    let n = chars.len();
    let mut done: Vec<String> = Vec::new();
    let mut cur: Vec<char> = Vec::new();
    let mut i: usize = 0;
    while i < n
        invariant
            n == chars@.len(),
            chars@ == s@,
            i <= n,
            cur@.len() > 0 <==> (i > 0 && !is_white_space(chars@[i - 1])),
            words_spec(chars@.take(i as int)) == (if cur@.len() == 0 {
                strings_view(done@)
            } else {
                strings_view(done@).push(cur@)
            }),
        decreases n - i,
    {
        let c = chars[i];
        let ghost prefix = chars@.take(i as int + 1);
        assert(prefix.drop_last() =~= chars@.take(i as int));
        assert(prefix.last() == c);
        if is_whitespace(c) {
            if cur.len() > 0 {
                let w = string_from_chars(cur.as_slice());
                let ghost before = strings_view(done@);
                done.push(w);
                cur = Vec::new();
                assert(strings_view(done@) =~= before.push(w@));
            }
        } else {
            if cur.len() > 0 {
                assert(prefix[prefix.len() - 2] == chars@[i - 1]);
                let ghost before = strings_view(done@).push(cur@);
                cur.push(c);
                assert(before.update(before.len() - 1, before.last().push(c)) =~= strings_view(
                    done@,
                ).push(cur@));
            } else {
                cur.push(c);
                assert(cur@ =~= seq![c]);
            }
        }
        i = i + 1;
    }
    assert(chars@.take(n as int) =~= chars@);
    if cur.len() > 0 {
        let w = string_from_chars(cur.as_slice());
        let ghost before = strings_view(done@);
        done.push(w);
        assert(strings_view(done@) =~= before.push(w@));
    }
    done
}

/// The strings joined with `sep` between consecutive ones (`[String]::join`).
pub fn join(parts: &[String], sep: &str) -> (r: String)
    ensures
        r@ == join_spec(strings_view(parts@), sep@),
{
    let mut r = String::new();
    let mut i: usize = 0;
    while i < parts.len()
        invariant
            i <= parts.len(),
            r@ == join_spec(strings_view(parts@.take(i as int)), sep@),
        decreases parts.len() - i,
    {
        let ghost before = strings_view(parts@.take(i as int));
        let ghost after = strings_view(parts@.take(i as int + 1));
        assert(after.drop_last() =~= before);
        assert(after.last() == parts@[i as int]@);
        if i > 0 {
            r.append(sep);
        }
        r.append(parts[i].as_str());
        proof {
            if i == 0 {
                assert(after.len() == 1);
                assert(r@ =~= after[0]);
            }
        }
        i = i + 1;
    }
    assert(parts@.take(parts.len() as int) =~= parts@);
    r
}

/// The concatenation of two strings.
pub fn concat(a: &str, b: &str) -> (r: String)
    ensures
        r@ == a@ + b@,
{
    let mut chars = chars_of(a);
    let mut tail = chars_of(b);
    chars.append(&mut tail);
    string_from_chars(chars.as_slice())
}

/// The character of a decimal digit.
pub open spec fn digit_spec(d: int) -> char {
    (d + 48) as char
}

/// The character of a decimal digit.
pub fn digit_char(d: u8) -> (r: char)
    requires
        d < 10,
    ensures
        r == digit_spec(d as int),
{
    (d + 48) as char
}

/// The decimal digits of `n`, most significant first.
pub open spec fn digits_spec(n: nat) -> Seq<char>
    decreases n,
{
    if n < 10 {
        seq![digit_spec(n as int)]
    } else {
        digits_spec(n / 10).push(digit_spec((n % 10) as int))
    }
}

/// `n` written in decimal, with a minus sign when negative.
pub open spec fn decimal_spec(n: int) -> Seq<char> {
    if n < 0 {
        seq!['-'] + digits_spec((-n) as nat)
    } else {
        digits_spec(n as nat)
    }
}

/// `n` written in decimal (what `to_string` gives for an integer).
pub fn int_to_string(n: i32) -> (r: String)
    ensures
        r@ == decimal_spec(n as int),
{
    let wide: i64 = n as i64;
    let mut m: u64 = if wide < 0 {
        (-wide) as u64
    } else {
        wide as u64
    };
    let ghost total: nat = m as nat;
    let mut acc: Vec<char> = Vec::new();
    while m >= 10
        invariant
            digits_spec(total) == digits_spec(m as nat) + acc@,
        decreases m,
    {
        let d = (m % 10) as u8;
        let ghost before = acc@;
        acc.insert(0, digit_char(d));
        assert(digits_spec(m as nat) == digits_spec((m / 10) as nat).push(digit_spec(d as int)));
        assert(digits_spec((m / 10) as nat).push(digit_spec(d as int)) + before =~= digits_spec(
            (m / 10) as nat,
        ) + acc@);
        m = m / 10;
    }
    acc.insert(0, digit_char(m as u8));
    assert(digits_spec(total) =~= acc@);
    let mut out: Vec<char> = Vec::new();
    if n < 0 {
        out.push('-');
    }
    out.append(&mut acc);
    let r = string_from_chars(out.as_slice());
    assert(r@ =~= decimal_spec(n as int));
    r
}

/// Every character is white space.
pub open spec fn all_white(g: Seq<char>) -> bool {
    forall|i: int| 0 <= i < g.len() ==> is_white_space(#[trigger] g[i])
}

/// A word: at least one character, none of them white space.
pub open spec fn is_word(w: Seq<char>) -> bool {
    w.len() > 0 && forall|i: int| 0 <= i < w.len() ==> !is_white_space(#[trigger] w[i])
}

/// The text from gap `k` on: gap `k`, word `k`, gap `k + 1`, ..., the last gap.
pub open spec fn layout_from(gaps: Seq<Seq<char>>, words: Seq<Seq<char>>, k: int) -> Seq<char>
    decreases words.len() - k,
{
    if k < 0 || k >= words.len() {
        gaps[words.len() as int]
    } else {
        gaps[k] + words[k] + layout_from(gaps, words, k + 1)
    }
}

/// `s` is its words separated by white-space gaps: one gap more than words,
/// the gaps between two words not empty.
pub open spec fn laid_out(s: Seq<char>, gaps: Seq<Seq<char>>, words: Seq<Seq<char>>) -> bool {
    &&& gaps.len() == words.len() + 1
    &&& forall|k: int| 0 <= k < gaps.len() ==> all_white(#[trigger] gaps[k])
    &&& forall|k: int| 1 <= k < words.len() ==> (#[trigger] gaps[k]).len() > 0
    &&& forall|k: int| 0 <= k < words.len() ==> is_word(#[trigger] words[k])
    &&& s == layout_from(gaps, words, 0)
}

proof fn lemma_layout_last_gap(gaps: Seq<Seq<char>>, words: Seq<Seq<char>>, x: Seq<char>, k: int)
    requires
        gaps.len() == words.len() + 1,
        0 <= k <= words.len(),
    ensures
        layout_from(gaps.update(words.len() as int, gaps[words.len() as int] + x), words, k)
            == layout_from(gaps, words, k) + x,
    decreases words.len() - k,
{
    let g2 = gaps.update(words.len() as int, gaps[words.len() as int] + x);
    if k < words.len() {
        lemma_layout_last_gap(gaps, words, x, k + 1);
        assert(g2[k] == gaps[k]);
        assert(g2[k] + words[k] + (layout_from(gaps, words, k + 1) + x) =~= (gaps[k] + words[k]
            + layout_from(gaps, words, k + 1)) + x);
    }
}

proof fn lemma_layout_last_word(gaps: Seq<Seq<char>>, words: Seq<Seq<char>>, x: Seq<char>, k: int)
    requires
        gaps.len() == words.len() + 1,
        words.len() >= 1,
        gaps[words.len() as int].len() == 0,
        0 <= k <= words.len() - 1,
    ensures
        layout_from(gaps, words.update(words.len() - 1, words[words.len() - 1] + x), k) == layout_from(
            gaps,
            words,
            k,
        ) + x,
    decreases words.len() - k,
{
    let n = words.len() as int;
    let w2 = words.update(n - 1, words[n - 1] + x);
    if k < n - 1 {
        lemma_layout_last_word(gaps, words, x, k + 1);
        assert(gaps[k] + w2[k] + (layout_from(gaps, words, k + 1) + x) =~= (gaps[k] + words[k]
            + layout_from(gaps, words, k + 1)) + x);
    } else {
        assert(layout_from(gaps, w2, k + 1) == gaps[n]);
        assert(layout_from(gaps, words, k + 1) == gaps[n]);
        assert(gaps[k] + w2[k] + gaps[n] =~= (gaps[k] + words[k] + gaps[n]) + x);
    }
}

proof fn lemma_layout_new_word(gaps: Seq<Seq<char>>, words: Seq<Seq<char>>, w: Seq<char>, k: int)
    requires
        gaps.len() == words.len() + 1,
        0 <= k <= words.len(),
    ensures
        layout_from(gaps.push(seq![]), words.push(w), k) == layout_from(gaps, words, k) + w,
    decreases words.len() - k,
{
    let n = words.len() as int;
    let g2 = gaps.push(seq![]);
    let w2 = words.push(w);
    if k < n {
        lemma_layout_new_word(gaps, words, w, k + 1);
        assert(g2[k] + w2[k] + (layout_from(gaps, words, k + 1) + w) =~= (gaps[k] + words[k]
            + layout_from(gaps, words, k + 1)) + w);
    } else {
        assert(layout_from(g2, w2, k + 1) == g2[n + 1]);
        assert(g2[k] + w2[k] + g2[n + 1] =~= gaps[n] + w);
    }
}

/// The text ends with the last gap, after the last word.
proof fn lemma_layout_end(gaps: Seq<Seq<char>>, words: Seq<Seq<char>>, k: int)
    requires
        gaps.len() == words.len() + 1,
        words.len() >= 1,
        0 <= k <= words.len() - 1,
    ensures
        layout_from(gaps, words, k) == layout_from(gaps.drop_last(), words.drop_last(), k)
            + words.last() + gaps.last(),
    decreases words.len() - k,
{
    let n = words.len() as int;
    let g1 = gaps.drop_last();
    let w1 = words.drop_last();
    if k < n - 1 {
        lemma_layout_end(gaps, words, k + 1);
        assert(g1[k] == gaps[k] && w1[k] == words[k]);
        assert(g1[k] + w1[k] + (layout_from(g1, w1, k + 1) + words.last() + gaps.last()) =~= gaps[k]
            + words[k] + layout_from(g1, w1, k + 1) + words.last() + gaps.last());
    } else {
        assert(layout_from(g1, w1, k) == g1[n - 1]);
        assert(layout_from(gaps, words, k + 1) == gaps[n]);
    }
}

/// Every text is its words laid out between white-space gaps.
pub proof fn lemma_words_layout(s: Seq<char>) -> (gaps: Seq<Seq<char>>)
    ensures
        laid_out(s, gaps, words_spec(s)),
    decreases s.len(),
{
    if s.len() == 0 {
        let gaps = seq![Seq::<char>::empty()];
        assert(words_spec(s) == Seq::<Seq<char>>::empty());
        assert(layout_from(gaps, words_spec(s), 0) == gaps[0]);
        assert(s =~= gaps[0]);
        gaps
    } else {
        let p = s.drop_last();
        let c = s.last();
        let g = lemma_words_layout(p);
        let w = words_spec(p);
        let n = w.len() as int;
        assert(s =~= p.push(c));
        assert(p.push(c) =~= p + seq![c]);
        // What `p` ends with.
        if n >= 1 {
            lemma_layout_end(g, w, 0);
        }
        if is_white_space(c) {
            let g2 = g.update(n, g[n] + seq![c]);
            lemma_layout_last_gap(g, w, seq![c], 0);
            assert(all_white(g[n] + seq![c])) by {
                assert forall|i: int| 0 <= i < (g[n] + seq![c]).len() implies is_white_space(
                    #[trigger] (g[n] + seq![c])[i],
                ) by {
                    if i < g[n].len() {
                        assert(all_white(g[n]));
                    }
                }
            }
            assert(forall|k: int| 0 <= k < g2.len() ==> all_white(#[trigger] g2[k]));
            assert(forall|k: int| 1 <= k < w.len() ==> (#[trigger] g2[k]).len() > 0);
            g2
        } else if s.len() >= 2 && !is_white_space(s[s.len() - 2]) {
            assert(p.last() == s[s.len() - 2]);
            // `p` ends with a word, so its last gap is empty and there is a word.
            if n == 0 {
                assert(p == g[0]);
                assert(all_white(g[0]));
                assert(is_white_space(p[p.len() - 1]));
            }
            if g[n].len() > 0 {
                let tail = layout_from(g.drop_last(), w.drop_last(), 0) + w.last();
                assert(p == tail + g[n]);
                assert(p.last() == g[n].last());
                assert(all_white(g[n]));
                assert(is_white_space(g[n][g[n].len() - 1]));
            }
            let w2 = w.update(n - 1, w[n - 1] + seq![c]);
            lemma_layout_last_word(g, w, seq![c], 0);
            assert(w.last().push(c) =~= w[n - 1] + seq![c]);
            assert(words_spec(s) == w2);
            assert(is_word(w[n - 1] + seq![c])) by {
                assert(is_word(w[n - 1]));
                assert forall|i: int| 0 <= i < (w[n - 1] + seq![c]).len() implies !is_white_space(
                    #[trigger] (w[n - 1] + seq![c])[i],
                ) by {
                    if i < w[n - 1].len() {
                        assert((w[n - 1] + seq![c])[i] == w[n - 1][i]);
                    }
                }
            }
            assert(forall|k: int| 0 <= k < w2.len() ==> is_word(#[trigger] w2[k]));
            g
        } else {
            let g2 = g.push(Seq::<char>::empty());
            let w2 = w.push(seq![c]);
            lemma_layout_new_word(g, w, seq![c], 0);
            assert(words_spec(s) == w2);
            if n >= 1 {
                // `p` ends with white space, so the gap before the new word is not empty.
                if g[n].len() == 0 {
                    let tail = layout_from(g.drop_last(), w.drop_last(), 0) + w.last();
                    assert(p =~= tail);
                    assert(is_word(w[n - 1]));
                    assert(p.last() == w[n - 1][w[n - 1].len() - 1]);
                }
            }
            assert(is_word(seq![c]));
            assert(all_white(Seq::<char>::empty()));
            assert(forall|k: int| 0 <= k < g2.len() ==> all_white(#[trigger] g2[k]));
            assert(forall|k: int| 1 <= k < w2.len() ==> (#[trigger] g2[k]).len() > 0);
            assert(forall|k: int| 0 <= k < w2.len() ==> is_word(#[trigger] w2[k]));
            g2
        }
    }
}

} // verus!
