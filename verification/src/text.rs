//! Character-level text operations.
//!
//! Text is modelled as `Seq<char>`. Every executable function here states its
//! result as a spec function over that model, so callers can reason about
//! trimming, word splitting and number rendering without looking at loops.

use vstd::prelude::*;

verus! {

/// `String::push` appends exactly one character to the end of the string and
/// leaves the characters before it unchanged.
pub assume_specification[ String::push ](s: &mut String, c: char)
    ensures
        final(s)@ == old(s)@.push(c),
;

/// The lower-case form of a text, as `str::to_lowercase` computes it.
pub uninterp spec fn lowercase_of(s: Seq<char>) -> Seq<char>;

/// `str::to_lowercase` is a function of the characters alone; its result is
/// named `lowercase_of`.
pub assume_specification[ str::to_lowercase ](s: &str) -> (r: String)
    ensures
        r@ == lowercase_of(s@),
;

/// The characters with the Unicode `White_Space` property.
pub open spec fn is_whitespace(c: char) -> bool {
    let n = c as u32;
    (0x09 <= n && n <= 0x0D) || n == 0x20 || n == 0x85 || n == 0xA0 || n == 0x1680 || (0x2000 <= n
        && n <= 0x200A) || n == 0x2028 || n == 0x2029 || n == 0x202F || n == 0x205F || n == 0x3000
}

/// The text without its leading whitespace.
pub open spec fn trimmed_start(s: Seq<char>) -> Seq<char>
    decreases s.len(),
{
    if s.len() > 0 && is_whitespace(s[0]) {
        trimmed_start(s.drop_first())
    } else {
        s
    }
}

/// The text without its trailing whitespace.
pub open spec fn trimmed_end(s: Seq<char>) -> Seq<char>
    decreases s.len(),
{
    if s.len() > 0 && is_whitespace(s.last()) {
        trimmed_end(s.drop_last())
    } else {
        s
    }
}

/// The text without leading and trailing whitespace.
pub open spec fn trimmed(s: Seq<char>) -> Seq<char> {
    trimmed_end(trimmed_start(s))
}

/// Whether the text holds nothing but whitespace.
pub open spec fn is_blank(s: Seq<char>) -> bool {
    trimmed(s).len() == 0
}

/// Length of the run of non-whitespace characters at the start of the text.
pub open spec fn word_len(s: Seq<char>) -> nat
    decreases s.len(),
{
    if s.len() > 0 && !is_whitespace(s[0]) {
        1 + word_len(s.drop_first())
    } else {
        0
    }
}

/// The maximal runs of non-whitespace characters, in order.
pub open spec fn words_of(s: Seq<char>) -> Seq<Seq<char>>
    decreases s.len(),
{
    let t = trimmed_start(s);
    if t.len() == 0 || t.len() > s.len() {
        Seq::empty()
    } else {
        let n = word_len(t);
        if n == 0 || n > t.len() {
            Seq::empty()
        } else {
            seq![t.take(n as int)] + words_of(t.skip(n as int))
        }
    }
}

/// The texts that a sequence of character vectors holds.
pub open spec fn texts_of(parts: Seq<Vec<char>>) -> Seq<Seq<char>> {
    Seq::new(parts.len(), |i: int| parts[i]@)
}

/// The parts with one separator between each two neighbours.
pub open spec fn joined(parts: Seq<Seq<char>>, sep: Seq<char>) -> Seq<char>
    decreases parts.len(),
{
    if parts.len() == 0 {
        Seq::empty()
    } else if parts.len() == 1 {
        parts[0]
    } else {
        joined(parts.drop_last(), sep) + sep + parts.last()
    }
}

/// The words of the text separated by single spaces.
pub open spec fn collapsed(s: Seq<char>) -> Seq<char> {
    joined(words_of(s), seq![' '])
}

/// The trimmed text cut to at most `limit` characters; a cut text ends in an
/// ellipsis that counts towards the limit.
pub open spec fn truncated(s: Seq<char>, limit: nat) -> Seq<char> {
    let t = trimmed(s);
    if t.len() <= limit {
        t
    } else if limit <= 1 {
        seq!['…']
    } else {
        t.take(limit - 1).push('…')
    }
}

/// Whether `needle` occurs in `hay` starting at position `at`.
pub open spec fn occurs_at(hay: Seq<char>, needle: Seq<char>, at: int) -> bool {
    0 <= at && at + needle.len() <= hay.len() && hay.subrange(at, at + needle.len()) == needle
}

/// Whether `needle` occurs somewhere in `hay`.
pub open spec fn contains_text(hay: Seq<char>, needle: Seq<char>) -> bool {
    exists|at: int| occurs_at(hay, needle, at)
}

/// Whether `s` begins with `prefix`.
pub open spec fn starts_with(s: Seq<char>, prefix: Seq<char>) -> bool {
    prefix.len() <= s.len() && s.take(prefix.len() as int) == prefix
}

/// Whether `s` ends with `suffix`.
pub open spec fn ends_with(s: Seq<char>, suffix: Seq<char>) -> bool {
    suffix.len() <= s.len() && s.skip(s.len() - suffix.len()) == suffix
}

/// Position of the first occurrence of `c`, or the length where there is none.
pub open spec fn first_index_of(s: Seq<char>, c: char) -> nat
    decreases s.len(),
{
    if s.len() == 0 || s[0] == c {
        0
    } else {
        1 + first_index_of(s.drop_first(), c)
    }
}

/// The part of the text before the first occurrence of `c`.
pub open spec fn before_first(s: Seq<char>, c: char) -> Seq<char> {
    s.take(first_index_of(s, c) as int)
}

/// The character for a decimal digit.
pub open spec fn digit_char(d: nat) -> char
    recommends
        d < 10,
{
    if d == 0 {
        '0'
    } else if d == 1 {
        '1'
    } else if d == 2 {
        '2'
    } else if d == 3 {
        '3'
    } else if d == 4 {
        '4'
    } else if d == 5 {
        '5'
    } else if d == 6 {
        '6'
    } else if d == 7 {
        '7'
    } else if d == 8 {
        '8'
    } else {
        '9'
    }
}

/// The decimal rendering of a number, without leading zeros.
pub open spec fn decimal_of(n: nat) -> Seq<char>
    decreases n,
{
    if n < 10 {
        seq![digit_char(n)]
    } else {
        decimal_of(n / 10).push(digit_char(n % 10))
    }
}

/// The decimal rendering padded with one leading zero below ten.
pub open spec fn decimal2_of(n: nat) -> Seq<char> {
    if n < 10 {
        seq!['0'] + decimal_of(n)
    } else {
        decimal_of(n)
    }
}

/// Whether the character is one of `0` to `9`.
pub open spec fn is_ascii_digit(c: char) -> bool {
    '0' <= c && c <= '9'
}

/// The value of an ASCII digit.
pub open spec fn digit_value(c: char) -> nat
    recommends
        is_ascii_digit(c),
{
    (c as u32 - '0' as u32) as nat
}

/// Whether every character is an ASCII digit.
pub open spec fn all_digits(s: Seq<char>) -> bool {
    forall|i: int| 0 <= i < s.len() ==> is_ascii_digit(#[trigger] s[i])
}

/// The number that a run of ASCII digits denotes.
pub open spec fn digits_value(s: Seq<char>) -> nat
    decreases s.len(),
{
    if s.len() == 0 {
        0
    } else {
        digits_value(s.drop_last()) * 10 + digit_value(s.last())
    }
}

/// The unsigned number a text denotes: an optional `+`, then one or more
/// ASCII digits whose value fits in 64 bits. Anything else denotes nothing.
pub open spec fn parsed_u64(s: Seq<char>) -> Option<u64> {
    let digits = if s.len() > 0 && s[0] == '+' {
        s.drop_first()
    } else {
        s
    };
    if digits.len() > 0 && all_digits(digits) && digits_value(digits) <= u64::MAX {
        Some(digits_value(digits) as u64)
    } else {
        None
    }
}

/// The ASCII lower-case form of one character.
pub open spec fn ascii_lower(c: char) -> char {
    if 'A' <= c && c <= 'Z' {
        ((c as u32 + 32) as u8) as char
    } else {
        c
    }
}

/// Whether two texts are equal when ASCII letters are compared without case.
pub open spec fn eq_ignoring_ascii_case(a: Seq<char>, b: Seq<char>) -> bool {
    a.len() == b.len() && forall|i: int|
        0 <= i < a.len() ==> ascii_lower(#[trigger] a[i]) == ascii_lower(b[i])
}

/// The text without trailing occurrences of `c`.
pub open spec fn without_trailing(s: Seq<char>, c: char) -> Seq<char>
    decreases s.len(),
{
    if s.len() > 0 && s.last() == c {
        without_trailing(s.drop_last(), c)
    } else {
        s
    }
}

/// The text without leading occurrences of `c`.
pub open spec fn without_leading(s: Seq<char>, c: char) -> Seq<char>
    decreases s.len(),
{
    if s.len() > 0 && s[0] == c {
        without_leading(s.drop_first(), c)
    } else {
        s
    }
}

pub proof fn lemma_trimmed_start_skip(s: Seq<char>, k: int)
    requires
        0 <= k <= s.len(),
        forall|i: int| 0 <= i < k ==> is_whitespace(#[trigger] s[i]),
    ensures
        trimmed_start(s) == trimmed_start(s.skip(k)),
    decreases k,
{
    if k == 0 {
        assert(s.skip(0) =~= s);
    } else {
        lemma_trimmed_start_skip(s, k - 1);
        let t = s.skip(k - 1);
        assert(t[0] == s[k - 1]);
        assert(t.drop_first() =~= s.skip(k));
    }
}

pub proof fn lemma_trimmed_end_take(s: Seq<char>, k: int)
    requires
        0 <= k <= s.len(),
        forall|i: int| k <= i < s.len() ==> is_whitespace(#[trigger] s[i]),
    ensures
        trimmed_end(s) == trimmed_end(s.take(k)),
    decreases s.len() - k,
{
    if k == s.len() {
        assert(s.take(k) =~= s);
    } else {
        lemma_trimmed_end_take(s, k + 1);
        let t = s.take(k + 1);
        assert(t.last() == s[k]);
        assert(t.drop_last() =~= s.take(k));
    }
}

/// Trimming yields a part of the text, so it never grows.
pub proof fn lemma_trimmed_start_len(s: Seq<char>)
    ensures
        trimmed_start(s).len() <= s.len(),
        trimmed_start(s).len() > 0 ==> !is_whitespace(trimmed_start(s)[0]),
        trimmed_start(s) == s.skip(s.len() - trimmed_start(s).len()),
    decreases s.len(),
{
    if s.len() > 0 && is_whitespace(s[0]) {
        lemma_trimmed_start_len(s.drop_first());
        let t = s.drop_first();
        assert(t.skip(t.len() - trimmed_start(t).len()) =~= s.skip(
            s.len() - trimmed_start(t).len(),
        ));
    } else {
        assert(s.skip(0) =~= s);
    }
}

pub proof fn lemma_trimmed_end_len(s: Seq<char>)
    ensures
        trimmed_end(s).len() <= s.len(),
        trimmed_end(s).len() > 0 ==> !is_whitespace(trimmed_end(s).last()),
        trimmed_end(s) == s.take(trimmed_end(s).len() as int),
    decreases s.len(),
{
    if s.len() > 0 && is_whitespace(s.last()) {
        lemma_trimmed_end_len(s.drop_last());
        let t = s.drop_last();
        assert(t.take(trimmed_end(t).len() as int) =~= s.take(trimmed_end(t).len() as int));
    } else {
        assert(s.take(s.len() as int) =~= s);
    }
}

pub proof fn lemma_word_len_run(s: Seq<char>, k: int)
    requires
        0 <= k <= s.len(),
        forall|i: int| 0 <= i < k ==> !is_whitespace(#[trigger] s[i]),
        k == s.len() || is_whitespace(s[k]),
    ensures
        word_len(s) == k,
    decreases k,
{
    if k > 0 {
        let t = s.drop_first();
        assert forall|i: int| 0 <= i < k - 1 implies !is_whitespace(#[trigger] t[i]) by {
            assert(t[i] == s[i + 1]);
        }
        if k < s.len() {
            assert(t[k - 1] == s[k]);
        }
        lemma_word_len_run(t, k - 1);
    }
}

pub proof fn lemma_joined_push(parts: Seq<Seq<char>>, sep: Seq<char>, part: Seq<char>)
    ensures
        joined(parts.push(part), sep) == if parts.len() == 0 {
            part
        } else {
            joined(parts, sep) + sep + part
        },
{
    let p = parts.push(part);
    assert(p.last() == part);
    assert(p.drop_last() =~= parts);
    if parts.len() == 0 {
        assert(p[0] == part);
    }
}

/// Tells whether a character is whitespace.
pub fn char_is_whitespace(c: char) -> (b: bool)
    ensures
        b == is_whitespace(c),
{
    let n: u32 = c as u32;
    (0x09 <= n && n <= 0x0D) || n == 0x20 || n == 0x85 || n == 0xA0 || n == 0x1680 || (0x2000 <= n
        && n <= 0x200A) || n == 0x2028 || n == 0x2029 || n == 0x202F || n == 0x205F || n == 0x3000
}

/// The characters of a string slice.
pub fn chars_of(s: &str) -> (v: Vec<char>)
    ensures
        v@ == s@,
{
    let mut v: Vec<char> = Vec::new();
    for c in it: s.chars()
        invariant
            v@ == it.seq().take(it.index()),
            it.seq() == s@,
    {
        v.push(c);
    }
    v
}

/// A string holding the given characters.
pub fn string_of(chars: &Vec<char>) -> (s: String)
    ensures
        s@ == chars@,
{
    let mut s = String::new();
    let mut i: usize = 0;
    while i < chars.len()
        invariant
            i <= chars.len(),
            s@ == chars@.take(i as int),
        decreases chars.len() - i,
    {
        s.push(chars[i]);
        i += 1;
        assert(chars@.take(i as int) =~= chars@.take(i - 1).push(chars@[i - 1]));
    }
    assert(chars@.take(chars.len() as int) =~= chars@);
    s
}

/// A copy of the characters from `from` up to, not including, `to`.
pub fn slice_chars(chars: &Vec<char>, from: usize, to: usize) -> (out: Vec<char>)
    requires
        from <= to <= chars.len(),
    ensures
        out@ == chars@.subrange(from as int, to as int),
{
    let mut out: Vec<char> = Vec::new();
    let mut i: usize = from;
    while i < to
        invariant
            from <= i <= to <= chars.len(),
            out@ == chars@.subrange(from as int, i as int),
        decreases to - i,
    {
        out.push(chars[i]);
        i += 1;
        assert(chars@.subrange(from as int, i as int) =~= chars@.subrange(
            from as int,
            i - 1,
        ).push(chars@[i - 1]));
    }
    out
}

/// Appends `src` to `out`.
pub fn append_chars(out: &mut Vec<char>, src: &Vec<char>)
    ensures
        final(out)@ == old(out)@ + src@,
{
    let mut i: usize = 0;
    while i < src.len()
        invariant
            i <= src.len(),
            out@ == old(out)@ + src@.take(i as int),
        decreases src.len() - i,
    {
        out.push(src[i]);
        i += 1;
        assert(old(out)@ + src@.take(i as int) =~= (old(out)@ + src@.take(i - 1)).push(
            src@[i - 1],
        ));
    }
    assert(src@.take(src.len() as int) =~= src@);
}

/// Appends the characters of a string slice to `out`.
pub fn append_str(out: &mut Vec<char>, src: &str)
    ensures
        final(out)@ == old(out)@ + src@,
{
    let chars = chars_of(src);
    append_chars(out, &chars);
}

/// Tells whether two character vectors hold the same text.
pub fn chars_eq(a: &Vec<char>, b: &Vec<char>) -> (same: bool)
    ensures
        same == (a@ == b@),
{
    if a.len() != b.len() {
        return false;
    }
    let mut i: usize = 0;
    while i < a.len()
        invariant
            i <= a.len(),
            a.len() == b.len(),
            a@.take(i as int) == b@.take(i as int),
        decreases a.len() - i,
    {
        if a[i] != b[i] {
            return false;
        }
        i += 1;
        assert(a@.take(i as int) =~= a@.take(i - 1).push(a@[i - 1]));
        assert(b@.take(i as int) =~= b@.take(i - 1).push(b@[i - 1]));
    }
    assert(a@.take(a.len() as int) =~= a@);
    assert(b@.take(b.len() as int) =~= b@);
    true
}

/// Tells whether a string slice holds exactly the given characters.
pub fn str_eq(a: &str, b: &str) -> (same: bool)
    ensures
        same == (a@ == b@),
{
    let x = chars_of(a);
    let y = chars_of(b);
    chars_eq(&x, &y)
}

/// Index of the first character that is not whitespace, or the length.
fn skip_whitespace(chars: &Vec<char>, from: usize) -> (at: usize)
    requires
        from <= chars.len(),
    ensures
        from <= at <= chars.len(),
        forall|i: int| from <= i < at ==> is_whitespace(#[trigger] chars@[i]),
        at == chars.len() || !is_whitespace(chars@[at as int]),
{
    let mut at: usize = from;
    while at < chars.len() && char_is_whitespace(chars[at])
        invariant
            from <= at <= chars.len(),
            forall|i: int| from <= i < at ==> is_whitespace(#[trigger] chars@[i]),
        decreases chars.len() - at,
    {
        at += 1;
    }
    at
}

/// Index just past the run of non-whitespace characters that starts at `from`.
fn skip_word(chars: &Vec<char>, from: usize) -> (at: usize)
    requires
        from <= chars.len(),
    ensures
        from <= at <= chars.len(),
        forall|i: int| from <= i < at ==> !is_whitespace(#[trigger] chars@[i]),
        at == chars.len() || is_whitespace(chars@[at as int]),
{
    let mut at: usize = from;
    while at < chars.len() && !char_is_whitespace(chars[at])
        invariant
            from <= at <= chars.len(),
            forall|i: int| from <= i < at ==> !is_whitespace(#[trigger] chars@[i]),
        decreases chars.len() - at,
    {
        at += 1;
    }
    at
}

/// The text without leading and trailing whitespace.
pub fn trim_chars(chars: &Vec<char>) -> (out: Vec<char>)
    ensures
        out@ == trimmed(chars@),
{
    let start = skip_whitespace(chars, 0);
    let mut end: usize = chars.len();
    while end > start && char_is_whitespace(chars[end - 1])
        invariant
            start <= end <= chars.len(),
            forall|i: int| end <= i < chars.len() ==> is_whitespace(#[trigger] chars@[i]),
        decreases end,
    {
        end -= 1;
    }
    let out = slice_chars(chars, start, end);
    proof {
        let s = chars@;
        lemma_trimmed_start_skip(s, start as int);
        let t = s.skip(start as int);
        if t.len() > 0 {
            assert(t[0] == s[start as int]);
        }
        assert(trimmed_start(s) == t);
        let k = end - start;
        assert forall|i: int| k <= i < t.len() implies is_whitespace(#[trigger] t[i]) by {
            assert(t[i] == s[i + start]);
        }
        lemma_trimmed_end_take(t, k);
        let u = t.take(k);
        if u.len() > 0 {
            assert(u.last() == s[end - 1]);
        }
        assert(trimmed_end(u) == u);
        assert(u =~= s.subrange(start as int, end as int));
    }
    out
}

/// The trimmed text of a string slice.
pub fn trim_str(s: &str) -> (out: String)
    ensures
        out@ == trimmed(s@),
{
    let chars = chars_of(s);
    let t = trim_chars(&chars);
    string_of(&t)
}

/// Tells whether a string slice holds nothing but whitespace.
pub fn str_is_blank(s: &str) -> (blank: bool)
    ensures
        blank == is_blank(s@),
{
    let chars = chars_of(s);
    let t = trim_chars(&chars);
    t.len() == 0
}

/// The maximal runs of non-whitespace characters, in order.
pub fn split_words(chars: &Vec<char>) -> (words: Vec<Vec<char>>)
    ensures
        texts_of(words@) == words_of(chars@),
{
    let mut words: Vec<Vec<char>> = Vec::new();
    let mut i: usize = 0;
    assert(chars@.skip(0) =~= chars@);
    assert(texts_of(words@) =~= Seq::<Seq<char>>::empty());
    assert(Seq::<Seq<char>>::empty() + words_of(chars@) =~= words_of(chars@));
    loop
        invariant
            i <= chars.len(),
            words_of(chars@) == texts_of(words@) + words_of(chars@.skip(i as int)),
        decreases chars.len() - i,
    {
        let start = skip_whitespace(chars, i);
        let end = skip_word(chars, start);
        proof {
            let s = chars@.skip(i as int);
            assert forall|k: int| 0 <= k < start - i implies is_whitespace(#[trigger] s[k]) by {
                assert(s[k] == chars@[k + i]);
            }
            lemma_trimmed_start_skip(s, start - i);
            assert(s.skip(start - i) =~= chars@.skip(start as int));
            let t = chars@.skip(start as int);
            if t.len() > 0 {
                assert(t[0] == chars@[start as int]);
            }
            assert(trimmed_start(s) == t);
            assert forall|k: int| 0 <= k < end - start implies !is_whitespace(#[trigger] t[k]) by {
                assert(t[k] == chars@[k + start]);
            }
            if end < chars.len() {
                assert(t[end - start] == chars@[end as int]);
            }
            lemma_word_len_run(t, end - start);
            lemma_trimmed_start_len(s);
            assert(t.take(end - start) =~= chars@.subrange(start as int, end as int));
            assert(t.skip(end - start) =~= chars@.skip(end as int));
        }
        if start == end {
            proof {
                assert(words_of(chars@.skip(i as int)) =~= Seq::<Seq<char>>::empty());
                assert(texts_of(words@) + Seq::<Seq<char>>::empty() =~= texts_of(words@));
            }
            return words;
        }
        let word = slice_chars(chars, start, end);
        let ghost before = texts_of(words@);
        words.push(word);
        proof {
            assert(texts_of(words@) =~= before.push(chars@.subrange(start as int, end as int)));
            assert(before + (seq![chars@.subrange(start as int, end as int)] + words_of(
                chars@.skip(end as int),
            )) =~= before.push(chars@.subrange(start as int, end as int)) + words_of(
                chars@.skip(end as int),
            ));
        }
        i = end;
    }
}

/// The parts with one separator between each two neighbours.
pub fn join_chars(parts: &Vec<Vec<char>>, sep: &Vec<char>) -> (out: Vec<char>)
    ensures
        out@ == joined(texts_of(parts@), sep@),
{
    let mut out: Vec<char> = Vec::new();
    let mut i: usize = 0;
    assert(texts_of(parts@).take(0) =~= Seq::<Seq<char>>::empty());
    while i < parts.len()
        invariant
            i <= parts.len(),
            out@ == joined(texts_of(parts@).take(i as int), sep@),
        decreases parts.len() - i,
    {
        if i > 0 {
            append_chars(&mut out, sep);
        }
        append_chars(&mut out, &parts[i]);
        proof {
            let done = texts_of(parts@).take(i as int);
            lemma_joined_push(done, sep@, parts[i as int]@);
            assert(texts_of(parts@).take(i + 1) =~= done.push(parts[i as int]@));
        }
        i += 1;
    }
    assert(texts_of(parts@).take(parts.len() as int) =~= texts_of(parts@));
    out
}

/// The words of the text separated by single spaces.
pub fn collapse_chars(chars: &Vec<char>) -> (out: Vec<char>)
    ensures
        out@ == collapsed(chars@),
{
    let words = split_words(chars);
    let mut sep: Vec<char> = Vec::new();
    sep.push(' ');
    assert(sep@ =~= seq![' ']);
    join_chars(&words, &sep)
}

/// The trimmed text cut to at most `limit` characters.
pub fn truncate_chars(chars: &Vec<char>, limit: usize) -> (out: Vec<char>)
    ensures
        out@ == truncated(chars@, limit as nat),
{
    let t = trim_chars(chars);
    if t.len() <= limit {
        return t;
    }
    if limit <= 1 {
        let mut out: Vec<char> = Vec::new();
        out.push('…');
        assert(out@ =~= seq!['…']);
        return out;
    }
    let mut out = slice_chars(&t, 0, limit - 1);
    out.push('…');
    assert(t@.subrange(0, limit - 1) =~= t@.take(limit - 1));
    out
}

/// Tells whether `needle` occurs in `hay` at position `at`.
fn occurs_at_index(hay: &Vec<char>, needle: &Vec<char>, at: usize) -> (found: bool)
    requires
        at + needle.len() <= hay.len(),
    ensures
        found == occurs_at(hay@, needle@, at as int),
{
    let mut j: usize = 0;
    while j < needle.len()
        invariant
            j <= needle.len(),
            at + needle.len() <= hay.len(),
            hay@.subrange(at as int, at + j) == needle@.take(j as int),
        decreases needle.len() - j,
    {
        if hay[at + j] != needle[j] {
            proof {
                let window = hay@.subrange(at as int, at + needle.len());
                assert(window[j as int] == hay@[at + j]);
            }
            return false;
        }
        j += 1;
        assert(hay@.subrange(at as int, at + j) =~= hay@.subrange(at as int, at + j - 1).push(
            hay@[at + j - 1],
        ));
        assert(needle@.take(j as int) =~= needle@.take(j - 1).push(needle@[j - 1]));
    }
    assert(needle@.take(needle.len() as int) =~= needle@);
    true
}

/// Tells whether `needle` occurs somewhere in `hay`.
pub fn contains_chars(hay: &Vec<char>, needle: &Vec<char>) -> (found: bool)
    ensures
        found == contains_text(hay@, needle@),
{
    if needle.len() > hay.len() {
        return false;
    }
    let last: usize = hay.len() - needle.len();
    let mut at: usize = 0;
    loop
        invariant
            at <= last,
            last == hay.len() - needle.len(),
            needle.len() <= hay.len(),
            forall|k: int| 0 <= k < at ==> !occurs_at(hay@, needle@, k),
        decreases last - at,
    {
        if occurs_at_index(hay, needle, at) {
            return true;
        }
        if at == last {
            return false;
        }
        at += 1;
    }
}

/// Tells whether the text begins with `prefix`.
pub fn starts_with_chars(chars: &Vec<char>, prefix: &Vec<char>) -> (found: bool)
    ensures
        found == starts_with(chars@, prefix@),
{
    if prefix.len() > chars.len() {
        return false;
    }
    let found = occurs_at_index(chars, prefix, 0);
    assert(chars@.subrange(0, prefix.len() as int) =~= chars@.take(prefix.len() as int));
    found
}

/// Tells whether the text ends with `suffix`.
pub fn ends_with_chars(chars: &Vec<char>, suffix: &Vec<char>) -> (found: bool)
    ensures
        found == ends_with(chars@, suffix@),
{
    if suffix.len() > chars.len() {
        return false;
    }
    let at: usize = chars.len() - suffix.len();
    let found = occurs_at_index(chars, suffix, at);
    assert(chars@.subrange(at as int, at + suffix.len()) =~= chars@.skip(at as int));
    found
}

/// The part of the text before the first occurrence of `c`.
pub fn before_first_chars(chars: &Vec<char>, c: char) -> (out: Vec<char>)
    ensures
        out@ == before_first(chars@, c),
{
    let mut i: usize = 0;
    assert(chars@.skip(0) =~= chars@);
    while i < chars.len() && chars[i] != c
        invariant
            i <= chars.len(),
            first_index_of(chars@, c) == i + first_index_of(chars@.skip(i as int), c),
        decreases chars.len() - i,
    {
        proof {
            let s = chars@.skip(i as int);
            assert(s[0] == chars@[i as int]);
            assert(s.drop_first() =~= chars@.skip(i + 1));
        }
        i += 1;
    }
    proof {
        let s = chars@.skip(i as int);
        if i < chars.len() {
            assert(s[0] == chars@[i as int]);
        }
        assert(chars@.subrange(0, i as int) =~= chars@.take(i as int));
    }
    slice_chars(chars, 0, i)
}

/// The text without trailing occurrences of `c`.
pub fn strip_trailing(chars: &Vec<char>, c: char) -> (out: Vec<char>)
    ensures
        out@ == without_trailing(chars@, c),
{
    let mut end: usize = chars.len();
    assert(chars@.take(end as int) =~= chars@);
    while end > 0 && chars[end - 1] == c
        invariant
            end <= chars.len(),
            without_trailing(chars@, c) == without_trailing(chars@.take(end as int), c),
        decreases end,
    {
        proof {
            let s = chars@.take(end as int);
            assert(s.last() == chars@[end - 1]);
            assert(s.drop_last() =~= chars@.take(end - 1));
        }
        end -= 1;
    }
    proof {
        let s = chars@.take(end as int);
        if end > 0 {
            assert(s.last() == chars@[end - 1]);
        }
        assert(chars@.subrange(0, end as int) =~= s);
    }
    slice_chars(chars, 0, end)
}

/// The text without leading occurrences of `c`.
pub fn strip_leading(chars: &Vec<char>, c: char) -> (out: Vec<char>)
    ensures
        out@ == without_leading(chars@, c),
{
    let mut start: usize = 0;
    assert(chars@.skip(0) =~= chars@);
    while start < chars.len() && chars[start] == c
        invariant
            start <= chars.len(),
            without_leading(chars@, c) == without_leading(chars@.skip(start as int), c),
        decreases chars.len() - start,
    {
        proof {
            let s = chars@.skip(start as int);
            assert(s[0] == chars@[start as int]);
            assert(s.drop_first() =~= chars@.skip(start + 1));
        }
        start += 1;
    }
    proof {
        let s = chars@.skip(start as int);
        if start < chars.len() {
            assert(s[0] == chars@[start as int]);
        }
        assert(chars@.subrange(start as int, chars.len() as int) =~= s);
    }
    slice_chars(chars, start, chars.len())
}

/// The character for a decimal digit.
fn digit_to_char(d: u64) -> (c: char)
    requires
        d < 10,
    ensures
        c == digit_char(d as nat),
{
    if d == 0 {
        '0'
    } else if d == 1 {
        '1'
    } else if d == 2 {
        '2'
    } else if d == 3 {
        '3'
    } else if d == 4 {
        '4'
    } else if d == 5 {
        '5'
    } else if d == 6 {
        '6'
    } else if d == 7 {
        '7'
    } else if d == 8 {
        '8'
    } else {
        '9'
    }
}

/// Appends the decimal rendering of `n` to `out`.
pub fn push_decimal(out: &mut Vec<char>, n: u64)
    ensures
        final(out)@ == old(out)@ + decimal_of(n as nat),
    decreases n,
{
    if n >= 10 {
        push_decimal(out, n / 10);
    }
    let ghost before = out@;
    out.push(digit_to_char(n % 10));
    proof {
        if n >= 10 {
            assert(before.push(digit_char((n % 10) as nat)) =~= old(out)@ + decimal_of(
                (n / 10) as nat,
            ).push(digit_char((n % 10) as nat)));
        } else {
            assert(before.push(digit_char(n as nat)) =~= old(out)@ + seq![digit_char(n as nat)]);
        }
    }
}

/// Appends the rendering of `n` with at least two digits to `out`.
pub fn push_decimal2(out: &mut Vec<char>, n: u64)
    ensures
        final(out)@ == old(out)@ + decimal2_of(n as nat),
{
    if n < 10 {
        out.push('0');
        assert(out@ =~= old(out)@ + seq!['0']);
    }
    push_decimal(out, n);
    proof {
        if n < 10 {
            assert((old(out)@ + seq!['0']) + decimal_of(n as nat) =~= old(out)@ + (seq!['0']
                + decimal_of(n as nat)));
        }
    }
}

/// The decimal rendering of a number.
pub fn decimal_string(n: u64) -> (s: String)
    ensures
        s@ == decimal_of(n as nat),
{
    let mut out: Vec<char> = Vec::new();
    push_decimal(&mut out, n);
    assert(Seq::<char>::empty() + decimal_of(n as nat) =~= decimal_of(n as nat));
    string_of(&out)
}

/// The unsigned number that the text denotes, if it denotes one.
pub fn parse_u64_chars(chars: &Vec<char>) -> (value: Option<u64>)
    ensures
        value == parsed_u64(chars@),
{
    let start: usize = if chars.len() > 0 && chars[0] == '+' {
        1
    } else {
        0
    };
    let ghost digits = chars@.skip(start as int);
    proof {
        if start == 1 {
            assert(digits =~= chars@.drop_first());
        } else {
            assert(digits =~= chars@);
        }
    }
    if start == chars.len() {
        return None;
    }
    let mut acc: u64 = 0;
    let mut i: usize = start;
    assert(digits.take(0) =~= Seq::<char>::empty());
    while i < chars.len()
        invariant
            start <= i <= chars.len(),
            digits == chars@.skip(start as int),
            digits == if chars@.len() > 0 && chars@[0] == '+' {
                chars@.drop_first()
            } else {
                chars@
            },
            all_digits(digits.take(i - start)),
            acc == digits_value(digits.take(i - start)),
        decreases chars.len() - i,
    {
        let c = chars[i];
        let ghost next = digits.take(i + 1 - start);
        proof {
            assert(digits[i - start] == c);
            assert(next.last() == c);
            assert(next.drop_last() =~= digits.take(i - start));
        }
        if !('0' <= c && c <= '9') {
            proof {
                assert(!is_ascii_digit(digits[i - start]));
            }
            return None;
        }
        let d: u64 = (c as u32 - '0' as u32) as u64;
        proof {
            assert forall|k: int| 0 <= k < next.len() implies is_ascii_digit(
                #[trigger] next[k],
            ) by {
                if k < i - start {
                    assert(next[k] == digits.take(i - start)[k]);
                }
            }
            lemma_digits_value_monotone(next, digits);
        }
        if acc > (u64::MAX - d) / 10 {
            return None;
        }
        acc = acc * 10 + d;
        i += 1;
    }
    assert(digits.take(chars.len() - start) =~= digits);
    Some(acc)
}

/// A prefix of a run of digits denotes no more than the whole run.
pub proof fn lemma_digits_value_monotone(prefix: Seq<char>, s: Seq<char>)
    requires
        prefix.len() <= s.len(),
        prefix == s.take(prefix.len() as int),
    ensures
        digits_value(prefix) <= digits_value(s),
    decreases s.len(),
{
    if prefix.len() < s.len() {
        let t = s.drop_last();
        assert(t.take(prefix.len() as int) =~= prefix);
        lemma_digits_value_monotone(prefix, t);
    } else {
        assert(s.take(s.len() as int) =~= s);
    }
}

/// The unsigned number that a string slice denotes, if it denotes one.
pub fn parse_u64_str(s: &str) -> (value: Option<u64>)
    ensures
        value == parsed_u64(s@),
{
    let chars = chars_of(s);
    parse_u64_chars(&chars)
}

/// The ASCII lower-case form of one character.
fn char_ascii_lower(c: char) -> (r: char)
    ensures
        r == ascii_lower(c),
{
    if 'A' <= c && c <= 'Z' {
        ((c as u32 + 32) as u8) as char
    } else {
        c
    }
}

/// Tells whether two texts are equal when ASCII letters are compared without
/// case.
pub fn chars_eq_ignore_ascii_case(a: &Vec<char>, b: &Vec<char>) -> (same: bool)
    ensures
        same == eq_ignoring_ascii_case(a@, b@),
{
    if a.len() != b.len() {
        return false;
    }
    let mut i: usize = 0;
    while i < a.len()
        invariant
            i <= a.len(),
            a.len() == b.len(),
            forall|k: int| 0 <= k < i ==> ascii_lower(#[trigger] a@[k]) == ascii_lower(b@[k]),
        decreases a.len() - i,
    {
        if char_ascii_lower(a[i]) != char_ascii_lower(b[i]) {
            return false;
        }
        i += 1;
    }
    true
}


/// The text that an optional string holds.
pub open spec fn opt_text(value: Option<String>) -> Option<Seq<char>> {
    match value {
        Some(text) => Some(text@),
        None => None,
    }
}

/// A copy of an optional string.
pub fn clone_text_option(value: &Option<String>) -> (copy: Option<String>)
    ensures
        copy == *value,
{
    match value {
        Some(text) => Some(text.clone()),
        None => None,
    }
}


/// The items in reverse order.
pub fn reversed<T>(items: Vec<T>) -> (out: Vec<T>)
    ensures
        out@ == items@.reverse(),
{
    let ghost given = items@;
    let mut rest = items;
    let mut out: Vec<T> = Vec::new();
    while rest.len() > 0
        invariant
            rest.len() + out.len() == given.len(),
            rest@ == given.take(rest.len() as int),
            forall|k: int| 0 <= k < out.len() ==> #[trigger] out[k] == given[given.len() - 1 - k],
        decreases rest.len(),
    {
        let item = rest.pop().unwrap();
        assert(rest@ =~= given.take(rest.len() as int));
        out.push(item);
    }
    assert(out@ =~= given.reverse());
    out
}

} // verus!
