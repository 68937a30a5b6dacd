//! Text primitives: trimming, words, lines, substring search, and numbers.

use vstd::prelude::*;

verus! {

/// The characters with the Unicode property `White_Space`.
pub open spec fn white_space(c: char) -> bool {
    ||| 0x9 <= c as u32 <= 0xd
    ||| c as u32 == 0x20
    ||| c as u32 == 0x85
    ||| c as u32 == 0xa0
    ||| c as u32 == 0x1680
    ||| 0x2000 <= c as u32 <= 0x200a
    ||| c as u32 == 0x2028
    ||| c as u32 == 0x2029
    ||| c as u32 == 0x202f
    ||| c as u32 == 0x205f
    ||| c as u32 == 0x3000
}

/// Whether `c` is white space.
pub fn is_white_space(c: char) -> (b: bool)
    ensures
        b == white_space(c),
{
    let n: u32 = c as u32;
    (0x9 <= n && n <= 0xd) || n == 0x20 || n == 0x85 || n == 0xa0 || n == 0x1680 || (0x2000 <= n && n
        <= 0x200a) || n == 0x2028 || n == 0x2029 || n == 0x202f || n == 0x205f || n == 0x3000
}

/// `s` without the white space in front.
pub open spec fn trimmed_start(s: Seq<char>) -> Seq<char>
    decreases s.len(),
{
    if s.len() > 0 && white_space(s[0]) {
        trimmed_start(s.skip(1))
    } else {
        s
    }
}

/// `s` without the white space at the end.
pub open spec fn trimmed_end(s: Seq<char>) -> Seq<char>
    decreases s.len(),
{
    if s.len() > 0 && white_space(s.last()) {
        trimmed_end(s.drop_last())
    } else {
        s
    }
}

/// `s` without the white space at either end.
pub open spec fn trimmed(s: Seq<char>) -> Seq<char> {
    trimmed_end(trimmed_start(s))
}

/// `s` without the run of `c` at the end.
pub open spec fn without_trailing(s: Seq<char>, c: char) -> Seq<char>
    decreases s.len(),
{
    if s.len() > 0 && s.last() == c {
        without_trailing(s.drop_last(), c)
    } else {
        s
    }
}

/// The characters of `s`, in order.
pub fn chars_of(s: &str) -> (v: Vec<char>)
    ensures
        v@ == s@,
{
    let mut v: Vec<char> = Vec::new();
    for c in it: s.chars()
        invariant
            v@ == it.seq().take(it.index() as int),
            it.seq() == s@,
    {
        v.push(c);
    }
    v
}

/// `s` without the white space at either end.
pub fn trim(s: &str) -> (t: &str)
    ensures
        t@ == trimmed(s@),
{
    let v: Vec<char> = chars_of(s);
    let mut i: usize = 0;
    assert(s@.skip(0) == s@);
    while i < v.len() && is_white_space(v[i])
        invariant
            i <= v.len(),
            v@ == s@,
            trimmed_start(s@) == trimmed_start(s@.skip(i as int)),
        decreases v.len() - i,
    {
        assert(s@.skip(i as int).skip(1) == s@.skip(i + 1));
        i += 1;
    }
    let mut j: usize = v.len();
    while i < j && is_white_space(v[j - 1])
        invariant
            i <= j <= v.len(),
            v@ == s@,
            trimmed_end(s@.skip(i as int)) == trimmed_end(s@.subrange(i as int, j as int)),
        decreases j,
    {
        assert(s@.subrange(i as int, j as int).drop_last() == s@.subrange(i as int, j - 1));
        j -= 1;
    }
    s.substring_char(i, j)
}

/// `s` without the run of `c` at the end.
pub fn trim_trailing(s: &str, c: char) -> (t: &str)
    ensures
        t@ == without_trailing(s@, c),
{
    let v: Vec<char> = chars_of(s);
    let mut j: usize = v.len();
    assert(s@.take(j as int) == s@);
    while 0 < j && v[j - 1] == c
        invariant
            j <= v.len(),
            v@ == s@,
            without_trailing(s@, c) == without_trailing(s@.take(j as int), c),
        decreases j,
    {
        assert(s@.take(j as int).drop_last() == s@.take(j - 1));
        j -= 1;
    }
    s.substring_char(0, j)
}

/// The number of characters in front of the first white space of `s`.
pub open spec fn word_length(s: Seq<char>) -> nat
    decreases s.len(),
{
    if s.len() > 0 && !white_space(s[0]) {
        1 + word_length(s.skip(1))
    } else {
        0
    }
}

pub proof fn lemma_word_length_bound(s: Seq<char>)
    ensures
        word_length(s) <= s.len(),
    decreases s.len(),
{
    if s.len() > 0 && !white_space(s[0]) {
        lemma_word_length_bound(s.skip(1));
    }
}

pub proof fn lemma_trimmed_start_length(s: Seq<char>)
    ensures
        trimmed_start(s).len() <= s.len(),
        trimmed_start(s).len() > 0 ==> !white_space(trimmed_start(s)[0]),
    decreases s.len(),
{
    if s.len() > 0 && white_space(s[0]) {
        lemma_trimmed_start_length(s.skip(1));
    }
}

/// The maximal runs of characters of `s` that are not white space, in order.
pub open spec fn words(s: Seq<char>) -> Seq<Seq<char>>
    decreases s.len(),
{
    let t = trimmed_start(s);
    if t.len() == 0 {
        Seq::empty()
    } else {
        let n = word_length(t);
        proof {
            lemma_trimmed_start_length(s);
            lemma_word_length_bound(t);
        }
        seq![t.take(n as int)] + words(t.skip(n as int))
    }
}

/// The texts of a list of strings.
pub open spec fn texts(v: Seq<String>) -> Seq<Seq<char>> {
    v.map_values(|s: String| s@)
}

/// The words of `s`: its maximal runs of characters that are not white space.
pub fn split_words(s: &str) -> (v: Vec<String>)
    ensures
        texts(v@) == words(s@),
{
    let c: Vec<char> = chars_of(s);
    let mut out: Vec<String> = Vec::new();
    let mut i: usize = 0;
    assert(s@.skip(0) == s@);
    while i < c.len()
        invariant
            i <= c.len(),
            c@ == s@,
            words(s@) == texts(out@) + words(s@.skip(i as int)),
        decreases c.len() - i,
    {
        if is_white_space(c[i]) {
            assert(s@.skip(i as int).skip(1) == s@.skip(i + 1));
            i += 1;
        } else {
            let start: usize = i;
            let ghost t = s@.skip(start as int);
            assert(t.skip(0) == t);
            while i < c.len() && !is_white_space(c[i])
                invariant
                    start <= i <= c.len(),
                    c@ == s@,
                    t == s@.skip(start as int),
                    word_length(t) == (i - start) + word_length(t.skip(i - start)),
                decreases c.len() - i,
            {
                assert(t.skip(i - start).skip(1) == t.skip(i + 1 - start));
                i += 1;
            }
            assert(t.take(i - start) == s@.subrange(start as int, i as int));
            assert(t.skip(i - start) == s@.skip(i as int));
            let ghost before = out@;
            let word: &str = s.substring_char(start, i);
            out.push(word.to_owned());
            assert(texts(before) + (seq![word@] + words(s@.skip(i as int))) == texts(out@) + words(
                s@.skip(i as int),
            ));
        }
    }
    out
}

/// Whether `p` stands in `s` at position `i`.
pub open spec fn occurs_at(s: Seq<char>, p: Seq<char>, i: int) -> bool {
    0 <= i && i + p.len() <= s.len() && s.subrange(i, i + p.len()) == p
}

/// Whether `p` stands in `s` somewhere.
pub open spec fn occurs_in(p: Seq<char>, s: Seq<char>) -> bool {
    exists|i: int| occurs_at(s, p, i)
}

/// Whether `p` stands at position `i` of `s`.
fn matches_at(s: &Vec<char>, p: &Vec<char>, i: usize) -> (b: bool)
    ensures
        b == occurs_at(s@, p@, i as int),
{
    if i > s.len() || p.len() > s.len() - i {
        return false;
    }
    let mut k: usize = 0;
    while k < p.len()
        invariant
            k <= p.len(),
            i + p.len() <= s.len(),
            forall|m: int| 0 <= m < k ==> s@[i + m] == p@[m],
        decreases p.len() - k,
    {
        if s[i + k] != p[k] {
            return false;
        }
        k += 1;
    }
    assert(s@.subrange(i as int, i + p@.len()) == p@);
    true
}

/// Whether `p` occurs in `s`, both given as characters.
fn has_substring(s: &Vec<char>, p: &Vec<char>) -> (b: bool)
    ensures
        b == occurs_in(p@, s@),
{
    if p.len() > s.len() {
        return false;
    }
    let last: usize = s.len() - p.len();
    let mut i: usize = 0;
    while i < last
        invariant
            last == s.len() - p.len(),
            i <= last,
            forall|m: int| 0 <= m < i ==> !occurs_at(s@, p@, m),
        decreases last - i,
    {
        if matches_at(s, p, i) {
            return true;
        }
        i += 1;
    }
    matches_at(s, p, last)
}

/// Whether `p` occurs in `s`.
pub fn contains(s: &str, p: &str) -> (b: bool)
    ensures
        b == occurs_in(p@, s@),
{
    let a: Vec<char> = chars_of(s);
    let q: Vec<char> = chars_of(p);
    has_substring(&a, &q)
}

/// Whether `s` begins with `p`.
pub fn starts_with(s: &str, p: &str) -> (b: bool)
    ensures
        b == occurs_at(s@, p@, 0),
{
    let a: Vec<char> = chars_of(s);
    let q: Vec<char> = chars_of(p);
    matches_at(&a, &q, 0)
}

/// The number of characters in front of the first line feed of `s`.
pub open spec fn line_length(s: Seq<char>) -> nat
    decreases s.len(),
{
    if s.len() > 0 && s[0] != '\n' {
        1 + line_length(s.skip(1))
    } else {
        0
    }
}

pub proof fn lemma_line_length(s: Seq<char>)
    ensures
        line_length(s) <= s.len(),
        forall|i: int| 0 <= i < line_length(s) ==> s[i] != '\n',
        line_length(s) < s.len() ==> s[line_length(s) as int] == '\n',
    decreases s.len(),
{
    if s.len() > 0 && s[0] != '\n' {
        lemma_line_length(s.skip(1));
        assert forall|i: int| 0 <= i < line_length(s) implies s[i] != '\n' by {
            if i > 0 {
                assert(s.skip(1)[i - 1] == s[i]);
            }
        }
    }
}

/// `s` without a carriage return at its end.
pub open spec fn without_carriage_return(s: Seq<char>) -> Seq<char> {
    if s.len() > 0 && s.last() == '\r' {
        s.drop_last()
    } else {
        s
    }
}

/// The lines of `s`: what stands between its line ends, which are a line feed, or a carriage
/// return and a line feed. A last line without a line end counts if it is not empty.
pub open spec fn lines(s: Seq<char>) -> Seq<Seq<char>>
    decreases s.len(),
{
    let n = line_length(s);
    if s.len() == 0 {
        Seq::empty()
    } else if n < s.len() {
        seq![without_carriage_return(s.take(n as int))] + lines(s.skip(n as int + 1))
    } else {
        seq![s]
    }
}

/// The lines of `s`.
pub fn split_lines(s: &str) -> (v: Vec<String>)
    ensures
        texts(v@) == lines(s@),
{
    let c: Vec<char> = chars_of(s);
    let mut out: Vec<String> = Vec::new();
    let mut i: usize = 0;
    assert(s@.skip(0) == s@);
    while i < c.len()
        invariant
            i <= c.len(),
            c@ == s@,
            lines(s@) == texts(out@) + lines(s@.skip(i as int)),
        decreases c.len() - i,
    {
        let start: usize = i;
        let ghost t = s@.skip(start as int);
        assert(t.skip(0) == t);
        while i < c.len() && c[i] != '\n'
            invariant
                start <= i <= c.len(),
                c@ == s@,
                t == s@.skip(start as int),
                line_length(t) == (i - start) + line_length(t.skip(i - start)),
            decreases c.len() - i,
        {
            assert(t.skip(i - start).skip(1) == t.skip(i + 1 - start));
            i += 1;
        }
        let ghost before = out@;
        let end: usize = if i < c.len() && start < i && c[i - 1] == '\r' {
            i - 1
        } else {
            i
        };
        let line: &str = s.substring_char(start, end);
        out.push(line.to_owned());
        if i < c.len() {
            assert(line@ == without_carriage_return(t.take(i - start)));
            i += 1;
            assert(t.skip(i - start) == s@.skip(i as int));
        }
        assert(texts(before) + (seq![line@] + lines(s@.skip(i as int))) == texts(out@) + lines(
            s@.skip(i as int),
        ));
    }
    out
}

/// Whether `p` stands within one of the lines of `s`.
pub open spec fn some_line_has(s: Seq<char>, p: Seq<char>) -> bool {
    exists|k: int| 0 <= k < lines(s).len() && occurs_in(p, #[trigger] lines(s)[k])
}

/// Searching line by line finds exactly what searching the whole text finds, for a pattern
/// that is not empty and holds no character of a line end.
pub proof fn law_line_search_is_substring_search(s: Seq<char>, p: Seq<char>)
    requires
        p.len() > 0,
        !p.contains('\n'),
        !p.contains('\r'),
    ensures
        some_line_has(s, p) <==> occurs_in(p, s),
    decreases s.len(),
{
    lemma_line_length(s);
    let n = line_length(s) as int;
    if n < s.len() {
        let first = without_carriage_return(s.take(n));
        let rest = s.skip(n + 1);
        law_line_search_is_substring_search(rest, p);
        if occurs_in(p, s) {
            let i = choose|i: int| occurs_at(s, p, i);
            assert forall|q: int| i <= q < i + p.len() implies s[q] != '\n' && s[q] != '\r' by {
                assert(p.contains(p[q - i]));
            }
            if i > n {
                assert(rest.subrange(i - n - 1, i - n - 1 + p.len()) =~= p);
                assert(occurs_at(rest, p, i - n - 1));
                let k = choose|k: int|
                    0 <= k < lines(rest).len() && occurs_in(p, #[trigger] lines(rest)[k]);
                assert(lines(s)[k + 1] == lines(rest)[k]);
            } else {
                assert(first.subrange(i, i + p.len()) =~= p);
                assert(occurs_at(first, p, i));
                assert(lines(s)[0] == first);
            }
        }
        if some_line_has(s, p) {
            let k = choose|k: int| 0 <= k < lines(s).len() && occurs_in(p, #[trigger] lines(s)[k]);
            if k == 0 {
                let i = choose|i: int| occurs_at(first, p, i);
                assert(s.subrange(i, i + p.len()) =~= first.subrange(i, i + p.len()));
                assert(occurs_at(s, p, i));
            } else {
                let i = choose|i: int| occurs_at(rest, p, i);
                assert(s.subrange(i + n + 1, i + n + 1 + p.len()) =~= rest.subrange(i, i + p.len()));
                assert(occurs_at(s, p, i + n + 1));
            }
        }
    } else if s.len() > 0 {
        assert(lines(s)[0] == s);
    }
}

/// Whether `p` stands within one of the lines of `s`.
pub fn some_line_contains(s: &str, p: &str) -> (b: bool)
    ensures
        b == some_line_has(s@, p@),
{
    let v: Vec<String> = split_lines(s);
    let mut i: usize = 0;
    while i < v.len()
        invariant
            i <= v.len(),
            texts(v@) == lines(s@),
            forall|k: int| 0 <= k < i ==> !occurs_in(p@, #[trigger] lines(s@)[k]),
        decreases v.len() - i,
    {
        assert(lines(s@)[i as int] == v@[i as int]@);
        if contains(v[i].as_str(), p) {
            return true;
        }
        i += 1;
    }
    false
}

/// The digit of value `d`, in base sixteen with capital letters.
pub open spec fn digit_char(d: int) -> char {
    if d <= 0 { '0' } else if d == 1 { '1' } else if d == 2 { '2' } else if d == 3 { '3' }
    else if d == 4 { '4' } else if d == 5 { '5' } else if d == 6 { '6' } else if d == 7 { '7' }
    else if d == 8 { '8' } else if d == 9 { '9' } else if d == 10 { 'A' } else if d == 11 { 'B' }
    else if d == 12 { 'C' } else if d == 13 { 'D' } else if d == 14 { 'E' } else { 'F' }
}

/// The digit of value `d`.
fn digit(d: u8) -> (c: &'static str)
    requires
        d < 10,
    ensures
        c@ == seq![digit_char(d as int)],
{
    let c: &'static str = match d {
        0 => "0",
        1 => "1",
        2 => "2",
        3 => "3",
        4 => "4",
        5 => "5",
        6 => "6",
        7 => "7",
        8 => "8",
        _ => "9",
    };
    proof {
        reveal_strlit("0");
        reveal_strlit("1");
        reveal_strlit("2");
        reveal_strlit("3");
        reveal_strlit("4");
        reveal_strlit("5");
        reveal_strlit("6");
        reveal_strlit("7");
        reveal_strlit("8");
        reveal_strlit("9");
    }
    c
}

/// `n` in decimal notation, without leading zeros.
pub open spec fn decimal(n: nat) -> Seq<char>
    decreases n,
{
    if n < 10 {
        seq![digit_char(n as int)]
    } else {
        decimal(n / 10).push(digit_char((n % 10) as int))
    }
}

/// `n` in decimal notation, without leading zeros.
pub fn decimal_text(n: u64) -> (s: String)
    ensures
        s@ == decimal(n as nat),
    decreases n,
{
    if n < 10 {
        digit(n as u8).to_owned()
    } else {
        let mut s: String = decimal_text(n / 10);
        s.append(digit((n % 10) as u8));
        s
    }
}

/// `s`, with spaces in front up to `width` characters.
pub open spec fn right_aligned(s: Seq<char>, width: nat) -> Seq<char> {
    if s.len() < width {
        Seq::new((width - s.len()) as nat, |i: int| ' ') + s
    } else {
        s
    }
}

/// `s`, with spaces in front up to `width` characters.
pub fn align_right(s: &str, width: usize) -> (r: String)
    ensures
        r@ == right_aligned(s@, width as nat),
{
    let n: usize = s.unicode_len();
    let mut r: String = String::new();
    let mut i: usize = n;
    while i < width
        invariant
            n <= i,
            r@ == Seq::new((i - n) as nat, |k: int| ' '),
            i <= width || r@.len() == 0,
            width <= n ==> i == n,
            n == s@.len(),
        decreases width - i,
    {
        proof {
            reveal_strlit(" ");
        }
        r.append(" ");
        i += 1;
    }
    r.append(s);
    r
}

/// Whether all of `s` is white space.
pub open spec fn blank(s: Seq<char>) -> bool {
    forall|i: int| 0 <= i < s.len() ==> white_space(#[trigger] s[i])
}

/// Whether none of `s` is white space.
pub open spec fn solid(s: Seq<char>) -> bool {
    forall|i: int| 0 <= i < s.len() ==> !white_space(#[trigger] s[i])
}

proof fn lemma_trimmed_start_skips(a: Seq<char>, s: Seq<char>)
    requires
        blank(a),
    ensures
        trimmed_start(a + s) == trimmed_start(s),
    decreases a.len(),
{
    if a.len() > 0 {
        assert((a + s)[0] == a[0]);
        assert((a + s).skip(1) == a.skip(1) + s);
        lemma_trimmed_start_skips(a.skip(1), s);
    } else {
        assert(a + s == s);
    }
}

proof fn lemma_trimmed_end_skips(s: Seq<char>, b: Seq<char>)
    requires
        blank(b),
    ensures
        trimmed_end(s + b) == trimmed_end(s),
    decreases b.len(),
{
    if b.len() > 0 {
        assert((s + b).last() == b[b.len() - 1]);
        assert((s + b).drop_last() == s + b.drop_last());
        lemma_trimmed_end_skips(s, b.drop_last());
    } else {
        assert(s + b == s);
    }
}

/// White space at either end is cut off, and nothing else: what is between the white space in
/// front and the white space at the end is left as it is.
pub proof fn law_trimming_cuts_the_ends(front: Seq<char>, s: Seq<char>, back: Seq<char>)
    requires
        blank(front),
        blank(back),
        s.len() > 0 ==> !white_space(s[0]) && !white_space(s.last()),
    ensures
        trimmed(front + s + back) == s,
{
    assert(front + s + back == front + (s + back));
    lemma_trimmed_start_skips(front, s + back);
    if s.len() > 0 {
        assert((s + back)[0] == s[0]);
        lemma_trimmed_end_skips(s, back);
    } else {
        assert(s + back == back + Seq::<char>::empty());
        lemma_trimmed_start_skips(back, Seq::<char>::empty());
        assert(s == Seq::<char>::empty());
    }
}

/// A run of `c` at the end is cut off, and nothing else.
pub proof fn law_trailing_run_is_cut_off(s: Seq<char>, c: char, n: nat)
    requires
        s.len() > 0 ==> s.last() != c,
    ensures
        without_trailing(s + Seq::new(n, |i: int| c), c) == s,
    decreases n,
{
    let run = Seq::new(n, |i: int| c);
    if n > 0 {
        let less = (n - 1) as nat;
        law_trailing_run_is_cut_off(s, c, less);
        assert((s + run).last() == c);
        assert((s + run).drop_last() == s + Seq::new(less, |i: int| c));
    } else {
        assert(s + run == s);
    }
}

proof fn lemma_word_length(w: Seq<char>, rest: Seq<char>)
    requires
        solid(w),
        rest.len() > 0 ==> white_space(rest[0]),
    ensures
        word_length(w + rest) == w.len(),
    decreases w.len(),
{
    if w.len() > 0 {
        assert((w + rest)[0] == w[0]);
        assert((w + rest).skip(1) == w.skip(1) + rest);
        lemma_word_length(w.skip(1), rest);
    } else {
        assert(w + rest == rest);
    }
}

/// A text of white space has no words, and white space in front changes no word.
pub proof fn law_white_space_is_no_word(gap: Seq<char>, s: Seq<char>)
    requires
        blank(gap),
    ensures
        words(gap).len() == 0,
        words(gap + s) == words(s),
{
    lemma_trimmed_start_skips(gap, s);
    lemma_trimmed_start_skips(gap, Seq::<char>::empty());
    assert(gap + Seq::<char>::empty() == gap);
}

/// A run of characters that are not white space, up to white space or the end, is one word, and
/// the words behind it follow.
pub proof fn law_first_word_comes_first(word: Seq<char>, rest: Seq<char>)
    requires
        word.len() > 0,
        solid(word),
        rest.len() > 0 ==> white_space(rest[0]),
    ensures
        words(word + rest) == seq![word] + words(rest),
{
    let s = word + rest;
    assert(s[0] == word[0]);
    assert(trimmed_start(s) == s);
    lemma_word_length(word, rest);
    assert(s.take(word.len() as int) == word);
    assert(s.skip(word.len() as int) == rest);
}

/// A line ends at its line feed, whether or not a carriage return stands in front of that.
pub proof fn law_line_ends_at_a_line_feed(line: Seq<char>, rest: Seq<char>)
    requires
        !line.contains('\n'),
        line.len() > 0 ==> line.last() != '\r',
    ensures
        lines(line.push('\n') + rest) == seq![line] + lines(rest),
        lines(line.push('\r').push('\n') + rest) == seq![line] + lines(rest),
        lines(line) == if line.len() > 0 {
            seq![line]
        } else {
            Seq::empty()
        },
{
    let plain = line.push('\n') + rest;
    assert(plain.take(line.len() as int) == line);
    assert(plain.skip(line.len() as int + 1) == rest);
    lemma_line_length_is(line, plain);
    let with_return = line.push('\r');
    let s = with_return.push('\n') + rest;
    assert(s.take(line.len() as int + 1) == with_return);
    assert(s.skip(line.len() as int + 2) == rest);
    lemma_line_length_is(with_return, s);
    assert(with_return.drop_last() == line);
    lemma_line_length(line);
    if line_length(line) < line.len() {
        assert(line.contains(line[line_length(line) as int]));
    }
}

proof fn lemma_line_length_is(line: Seq<char>, s: Seq<char>)
    requires
        line.len() < s.len(),
        s.take(line.len() as int) == line,
        s[line.len() as int] == '\n',
        !line.contains('\n'),
    ensures
        line_length(s) == line.len(),
{
    lemma_line_length(s);
    let n = line_length(s) as int;
    if n < line.len() {
        assert(line[n] == s[n]);
        assert(line.contains(line[n]));
    }
}

/// The value of a decimal digit, and -1 for every other character.
pub open spec fn digit_value(c: char) -> int {
    if '0' <= c && c <= '9' {
        c as u32 - '0' as u32
    } else {
        -1
    }
}

/// The number that a text of decimal digits stands for.
pub open spec fn value(s: Seq<char>) -> int
    decreases s.len(),
{
    if s.len() == 0 {
        0
    } else {
        10 * value(s.drop_last()) + digit_value(s.last())
    }
}

/// Whether `s` is the usual way to write `n`: decimal digits of that value, without a zero in
/// front that could be left out.
pub open spec fn numeral(s: Seq<char>, n: nat) -> bool {
    &&& s.len() > 0
    &&& forall|i: int| 0 <= i < s.len() ==> 0 <= digit_value(#[trigger] s[i]) <= 9
    &&& s.len() > 1 ==> s[0] != '0'
    &&& value(s) == n
}

/// A number is written in digits that stand for it, without zeros in front.
pub proof fn law_decimal_stands_for_its_number(n: nat)
    ensures
        numeral(decimal(n), n),
    decreases n,
{
    let d = (n % 10) as int;
    assert(digit_value(digit_char(d)) == d);
    if n < 10 {
        reveal_with_fuel(value, 2);
    } else {
        law_decimal_stands_for_its_number(n / 10);
        let front = decimal(n / 10);
        let s = front.push(digit_char(d));
        assert(s.drop_last() == front);
        assert(s.last() == digit_char(d));
        assert forall|i: int| 0 <= i < s.len() implies 0 <= digit_value(#[trigger] s[i]) <= 9 by {
            if i < front.len() {
                assert(s[i] == front[i]);
            }
        }
        assert(s[0] == front[0]);
        if front.len() == 1 {
            reveal_with_fuel(value, 2);
            assert(front.drop_last().len() == 0);
            assert(value(front) == digit_value(front[0]));
        }
    }
}

/// Text is moved to the right by spaces, up to the width; wider text is left as it is.
pub proof fn law_alignment_adds_spaces_in_front(s: Seq<char>, width: nat)
    ensures
        ({
            let r = right_aligned(s, width);
            let pad = r.len() - s.len();
            &&& r.len() == if s.len() < width {
                width
            } else {
                s.len()
            }
            &&& r.skip(pad) == s
            &&& forall|i: int| 0 <= i < pad ==> #[trigger] r[i] == ' '
        }),
{
    let r = right_aligned(s, width);
    assert(r.skip(r.len() - s.len()) == s);
}

/// What stands in a text is found there, whatever stands around it.
pub proof fn law_a_part_is_found(front: Seq<char>, p: Seq<char>, back: Seq<char>)
    ensures
        occurs_at(front + p + back, p, front.len() as int),
        occurs_in(p, front + p + back),
{
    let n = front.len() as int;
    assert((front + p + back).subrange(n, n + p.len()) == p);
}

/// What is found in a text stands there.
pub proof fn law_what_is_found_is_a_part(s: Seq<char>, p: Seq<char>, i: int)
    requires
        occurs_at(s, p, i),
    ensures
        0 <= i <= s.len(),
        s == s.take(i) + p + s.skip(i + p.len() as int),
{
    assert(s == s.take(i) + s.subrange(i, i + p.len()) + s.skip(i + p.len() as int));
}

/// Nothing is left of a text exactly if all of it is white space.
pub proof fn law_nothing_is_left_of_white_space(s: Seq<char>)
    ensures
        trimmed(s).len() == 0 <==> blank(s),
{
    if blank(s) {
        law_trimming_cuts_the_ends(s, Seq::empty(), Seq::empty());
        assert(s + Seq::empty() + Seq::empty() == s);
    } else {
        lemma_trimmed_start_keeps(s);
        lemma_trimmed_end_keeps(trimmed_start(s));
    }
}

proof fn lemma_trimmed_start_keeps(s: Seq<char>)
    requires
        !blank(s),
    ensures
        !blank(trimmed_start(s)),
    decreases s.len(),
{
    if s.len() > 0 && white_space(s[0]) {
        let i = choose|i: int| 0 <= i < s.len() && !white_space(#[trigger] s[i]);
        assert(s.skip(1)[i - 1] == s[i]);
        lemma_trimmed_start_keeps(s.skip(1));
    }
}

proof fn lemma_trimmed_end_keeps(s: Seq<char>)
    requires
        !blank(s),
    ensures
        trimmed_end(s).len() > 0,
    decreases s.len(),
{
    if s.len() > 0 && white_space(s.last()) {
        let i = choose|i: int| 0 <= i < s.len() && !white_space(#[trigger] s[i]);
        assert(s.drop_last()[i] == s[i]);
        lemma_trimmed_end_keeps(s.drop_last());
    }
}

} // verus!
