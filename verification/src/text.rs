//! Character classes and small string algorithms, each with the sequence of
//! characters it computes stated as a spec function.

use vstd::prelude::*;

verus! {

/// Trusted: `String::push` of the standard library. The contract claims that
/// the string afterwards holds the characters it held before, followed by `c`.
pub assume_specification[ String::push ](s: &mut String, c: char)
    ensures
        final(s)@ == old(s)@.push(c),
;

/// The character sequences held by a sequence of strings.
pub open spec fn views(v: Seq<String>) -> Seq<Seq<char>> {
    Seq::new(v.len(), |i: int| v[i]@)
}

/// The characters of an optional string.
pub open spec fn opt_view(o: Option<String>) -> Option<Seq<char>> {
    match o {
        Some(s) => Some(s@),
        None => None,
    }
}

/// The characters of an optional string slice.
pub open spec fn opt_str_view(o: Option<&str>) -> Option<Seq<char>> {
    match o {
        Some(s) => Some(s@),
        None => None,
    }
}

/// Unicode `White_Space`.
pub open spec fn is_whitespace(c: char) -> bool {
    let n = c as u32;
    ||| 0x09 <= n <= 0x0D
    ||| n == 0x20
    ||| n == 0x85
    ||| n == 0xA0
    ||| n == 0x1680
    ||| 0x2000 <= n <= 0x200A
    ||| n == 0x2028
    ||| n == 0x2029
    ||| n == 0x202F
    ||| n == 0x205F
    ||| n == 0x3000
}

/// The decimal digits `0` to `9`.
pub open spec fn is_digit(c: char) -> bool {
    '0' <= c <= '9'
}

/// Every character of `s` is a decimal digit.
pub open spec fn all_digits(s: Seq<char>) -> bool {
    forall|i: int| 0 <= i < s.len() ==> is_digit(#[trigger] s[i])
}

/// `a` to `z` become `A` to `Z`; every other character stays.
pub open spec fn upper_char(c: char) -> char {
    if 'a' <= c <= 'z' {
        ((c as u8) - 32) as char
    } else {
        c
    }
}

/// `A` to `Z` become `a` to `z`; every other character stays.
pub open spec fn lower_char(c: char) -> char {
    if 'A' <= c <= 'Z' {
        ((c as u8) + 32) as char
    } else {
        c
    }
}

/// `s` with each character upper-cased.
pub open spec fn upper(s: Seq<char>) -> Seq<char> {
    Seq::new(s.len(), |i: int| upper_char(s[i]))
}

/// `s` with each character lower-cased.
pub open spec fn lower(s: Seq<char>) -> Seq<char> {
    Seq::new(s.len(), |i: int| lower_char(s[i]))
}

/// Length of the longest prefix of `s` whose characters all satisfy `keep`.
pub open spec fn prefix_len(s: Seq<char>, keep: spec_fn(char) -> bool) -> nat
    decreases s.len(),
{
    if s.len() > 0 && keep(s[0]) {
        1 + prefix_len(s.drop_first(), keep)
    } else {
        0
    }
}

/// Length of the word that `s` starts with: its leading characters up to the
/// first whitespace.
pub open spec fn word_len(s: Seq<char>) -> nat {
    prefix_len(s, |c: char| !is_whitespace(c))
}

/// The words of `s`: its maximal runs of characters that are not whitespace,
/// from left to right.
pub open spec fn tokens(s: Seq<char>) -> Seq<Seq<char>>
    decreases s.len(),
    via tokens_decreases
{
    if s.len() == 0 {
        Seq::empty()
    } else if is_whitespace(s[0]) {
        tokens(s.drop_first())
    } else {
        seq![s.take(word_len(s) as int)] + tokens(s.skip(word_len(s) as int))
    }
}

#[via_fn]
proof fn tokens_decreases(s: Seq<char>) {
    if s.len() > 0 && !is_whitespace(s[0]) {
        lemma_prefix_len_bound(s, |c: char| !is_whitespace(c));
    }
}

/// `parts` written one after the other with `sep` between neighbours.
pub open spec fn join(parts: Seq<Seq<char>>, sep: Seq<char>) -> Seq<char>
    decreases parts.len(),
{
    if parts.len() == 0 {
        Seq::empty()
    } else if parts.len() == 1 {
        parts[0]
    } else {
        join(parts.drop_last(), sep) + sep + parts.last()
    }
}

/// The first line of `s`: what stands before the first line feed, without
/// the carriage return that may precede that line feed.
pub open spec fn first_line(s: Seq<char>) -> Seq<char> {
    let n = prefix_len(s, |c: char| c != '\n') as int;
    if 0 < n < s.len() && s[n - 1] == '\r' {
        s.take(n - 1)
    } else {
        s.take(n)
    }
}

/// The characters other than `c`.
pub open spec fn other_than(c: char) -> spec_fn(char) -> bool {
    |x: char| x != c
}

/// `s` without the occurrences of `c`.
pub open spec fn without(s: Seq<char>, c: char) -> Seq<char> {
    s.filter(other_than(c))
}

/// The longest prefix is no longer than the sequence, and holds the first
/// character if that one is kept.
pub proof fn lemma_prefix_len_bound(s: Seq<char>, keep: spec_fn(char) -> bool)
    ensures
        prefix_len(s, keep) <= s.len(),
        s.len() > 0 && keep(s[0]) ==> prefix_len(s, keep) >= 1,
    decreases s.len(),
{
    if s.len() > 0 && keep(s[0]) {
        lemma_prefix_len_bound(s.drop_first(), keep);
    }
}

/// A prefix of `n` kept characters that ends the sequence, or is followed by
/// a character that is not kept, is the longest one.
pub proof fn lemma_prefix_len_is(s: Seq<char>, keep: spec_fn(char) -> bool, n: int)
    requires
        0 <= n <= s.len(),
        forall|k: int| 0 <= k < n ==> keep(#[trigger] s[k]),
        n == s.len() || !keep(s[n]),
    ensures
        prefix_len(s, keep) == n,
    decreases n,
{
    if n > 0 {
        let t = s.drop_first();
        assert forall|k: int| 0 <= k < n - 1 implies keep(#[trigger] t[k]) by {
            assert(t[k] == s[k + 1]);
        }
        lemma_prefix_len_is(t, keep, n - 1);
    }
}

/// The longest prefix holds kept characters only, and what follows it, if
/// anything, is not kept.
pub proof fn lemma_prefix_kept(s: Seq<char>, keep: spec_fn(char) -> bool)
    ensures
        forall|k: int| 0 <= k < prefix_len(s, keep) ==> keep(#[trigger] s[k]),
        prefix_len(s, keep) < s.len() ==> !keep(s[prefix_len(s, keep) as int]),
    decreases s.len(),
{
    if s.len() > 0 && keep(s[0]) {
        let t = s.drop_first();
        lemma_prefix_kept(t, keep);
        lemma_prefix_len_bound(t, keep);
        assert forall|k: int| 0 <= k < prefix_len(s, keep) implies keep(#[trigger] s[k]) by {
            if k > 0 {
                assert(s[k] == t[k - 1]);
            }
        }
        if prefix_len(s, keep) < s.len() {
            assert(s[prefix_len(s, keep) as int] == t[prefix_len(t, keep) as int]);
        }
    }
}

/// A word: one character or more, none of them whitespace.
pub open spec fn is_word(w: Seq<char>) -> bool {
    w.len() > 0 && forall|i: int| 0 <= i < w.len() ==> !is_whitespace(#[trigger] w[i])
}

/// Every token is a word.
pub proof fn lemma_tokens_are_words(s: Seq<char>)
    ensures
        forall|i: int| 0 <= i < tokens(s).len() ==> is_word(#[trigger] tokens(s)[i]),
    decreases s.len(),
{
    if s.len() == 0 {
        assert(tokens(s).len() == 0);
    } else if is_whitespace(s[0]) {
        lemma_tokens_are_words(s.drop_first());
        assert(tokens(s) == tokens(s.drop_first()));
    } else {
        let keep = |c: char| !is_whitespace(c);
        lemma_prefix_len_bound(s, keep);
        lemma_prefix_kept(s, keep);
        let n = word_len(s) as int;
        let word = s.take(n);
        let rest = tokens(s.skip(n));
        lemma_tokens_are_words(s.skip(n));
        assert forall|k: int| 0 <= k < word.len() implies !is_whitespace(#[trigger] word[k]) by {
            assert(word[k] == s[k]);
            assert(keep(s[k]));
        }
        assert(is_word(word));
        assert(tokens(s) == seq![word] + rest);
        assert forall|i: int| 0 <= i < tokens(s).len() implies is_word(#[trigger] tokens(s)[i]) by {
            if i > 0 {
                assert(tokens(s)[i] == rest[i - 1]);
            } else {
                assert(tokens(s)[0] == word);
            }
        }
    }
}

/// A word is its own and only token.
pub proof fn lemma_word_is_token(w: Seq<char>)
    requires
        is_word(w),
    ensures
        tokens(w) == seq![w],
{
    let keep = |c: char| !is_whitespace(c);
    lemma_prefix_len_is(w, keep, w.len() as int);
    assert(w.take(w.len() as int) == w);
    assert(tokens(w.skip(w.len() as int)) == Seq::<Seq<char>>::empty());
}

/// Whitespace separates: the tokens of two sequences with a whitespace
/// character between them are the tokens of the first, then those of the
/// second.
pub proof fn lemma_tokens_split(a: Seq<char>, c: char, b: Seq<char>)
    requires
        is_whitespace(c),
    ensures
        tokens(a + seq![c] + b) == tokens(a) + tokens(b),
    decreases a.len(),
{
    let s = a + seq![c] + b;
    if a.len() == 0 {
        assert(s.drop_first() == b);
    } else if is_whitespace(a[0]) {
        assert(s.drop_first() == a.drop_first() + seq![c] + b);
        lemma_tokens_split(a.drop_first(), c, b);
    } else {
        let keep = |x: char| !is_whitespace(x);
        lemma_prefix_len_bound(a, keep);
        lemma_prefix_kept(a, keep);
        let n = word_len(a) as int;
        assert forall|k: int| 0 <= k < n implies keep(#[trigger] s[k]) by {
            assert(s[k] == a[k]);
        }
        if n < a.len() {
            assert(s[n] == a[n]);
        } else {
            assert(s[n] == c);
        }
        lemma_prefix_len_is(s, keep, n);
        assert(s.take(n) == a.take(n));
        assert(s.skip(n) == a.skip(n) + seq![c] + b);
        lemma_tokens_split(a.skip(n), c, b);
        assert(tokens(s) == seq![a.take(n)] + (tokens(a.skip(n)) + tokens(b)));
        assert(tokens(a) == seq![a.take(n)] + tokens(a.skip(n)));
    }
}

/// The characters of `s`, in order.
pub fn chars_of(s: &str) -> (v: Vec<char>)
    ensures
        v@ == s@,
{
    let mut v: Vec<char> = Vec::new();
    for c in it: s.chars()
        invariant
            it.seq() == s@,
            v@ == s@.take(it.index() as int),
    {
        v.push(c);
    }
    v
}

/// Whether `c` is whitespace.
pub fn char_is_whitespace(c: char) -> (b: bool)
    ensures
        b == is_whitespace(c),
{
    let n: u32 = c as u32;
    (0x09 <= n && n <= 0x0D) || n == 0x20 || n == 0x85 || n == 0xA0 || n == 0x1680 || (0x2000 <= n
        && n <= 0x200A) || n == 0x2028 || n == 0x2029 || n == 0x202F || n == 0x205F || n == 0x3000
}

/// Whether `c` is a decimal digit.
pub fn char_is_digit(c: char) -> (b: bool)
    ensures
        b == is_digit(c),
{
    '0' <= c && c <= '9'
}

/// `c` in upper case, if it is one of `a` to `z`.
pub fn char_to_upper(c: char) -> (r: char)
    ensures
        r == upper_char(c),
{
    if 'a' <= c && c <= 'z' {
        ((c as u8) - 32) as char
    } else {
        c
    }
}

/// `c` in lower case, if it is one of `A` to `Z`.
pub fn char_to_lower(c: char) -> (r: char)
    ensures
        r == lower_char(c),
{
    if 'A' <= c && c <= 'Z' {
        ((c as u8) + 32) as char
    } else {
        c
    }
}

/// The string slice of an optional string.
pub fn opt_str(o: &Option<String>) -> (r: Option<&str>)
    ensures
        opt_str_view(r) == opt_view(*o),
{
    match o {
        Some(s) => Some(s.as_str()),
        None => None,
    }
}

/// A copy of the strings of `v`, in their order.
pub fn copy_all(v: &Vec<String>) -> (r: Vec<String>)
    ensures
        views(r@) == views(v@),
{
    let mut r: Vec<String> = Vec::new();
    let mut i: usize = 0;
    while i < v.len()
        invariant
            i <= v.len(),
            views(r@) == views(v@).take(i as int),
        decreases v.len() - i,
    {
        let s = v[i].clone();
        assert(views(r@.push(s)) == views(r@).push(s@));
        r.push(s);
        i += 1;
    }
    assert(views(v@).take(i as int) == views(v@));
    r
}

/// Upper-cases the letters `a` to `z` of `s`.
pub fn to_upper(s: &str) -> (r: String)
    ensures
        r@ == upper(s@),
{
    let chars = chars_of(s);
    let mut r = String::new();
    let mut i: usize = 0;
    while i < chars.len()
        invariant
            i <= chars.len(),
            chars@ == s@,
            r@ == upper(s@).take(i as int),
        decreases chars.len() - i,
    {
        r.push(char_to_upper(chars[i]));
        i += 1;
    }
    r
}

/// Lower-cases the letters `A` to `Z` of `s`.
pub fn to_lower(s: &str) -> (r: String)
    ensures
        r@ == lower(s@),
{
    let chars = chars_of(s);
    let mut r = String::new();
    let mut i: usize = 0;
    while i < chars.len()
        invariant
            i <= chars.len(),
            chars@ == s@,
            r@ == lower(s@).take(i as int),
        decreases chars.len() - i,
    {
        r.push(char_to_lower(chars[i]));
        i += 1;
    }
    r
}

/// Splits `s` at whitespace into its words.
pub fn split_whitespace(s: &str) -> (out: Vec<String>)
    ensures
        views(out@) == tokens(s@),
{
    let chars = chars_of(s);
    let n = chars.len();
    let mut out: Vec<String> = Vec::new();
    let mut i: usize = 0;
    assert(s@.skip(0) == s@);
    assert(views(out@) + tokens(s@) == tokens(s@));
    while i < n
        invariant
            i <= n,
            n == chars.len(),
            chars@ == s@,
            tokens(s@) == views(out@) + tokens(s@.skip(i as int)),
        decreases n - i,
    {
        let ghost rest = s@.skip(i as int);
        if char_is_whitespace(chars[i]) {
            assert(rest.drop_first() == s@.skip(i + 1));
            i += 1;
        } else {
            let start = i;
            let mut word = String::new();
            while i < n && !char_is_whitespace(chars[i])
                invariant
                    start <= i <= n,
                    n == chars.len(),
                    chars@ == s@,
                    word@ == s@.subrange(start as int, i as int),
                    forall|k: int| start <= k < i ==> !is_whitespace(#[trigger] s@[k]),
                decreases n - i,
            {
                word.push(chars[i]);
                i += 1;
            }
            proof {
                let keep = |c: char| !is_whitespace(c);
                let len = i - start;
                assert forall|k: int| 0 <= k < len implies keep(#[trigger] rest[k]) by {
                    assert(rest[k] == s@[start + k]);
                }
                lemma_prefix_len_is(rest, keep, len);
                assert(rest.take(len) == word@);
                assert(rest.skip(len) == s@.skip(i as int));
                assert(views(out@.push(word)) == views(out@) + seq![word@]);
            }
            out.push(word);
        }
    }
    out
}

/// Writes `parts` one after the other with `sep` between neighbours.
pub fn join_all(parts: &Vec<String>, sep: &str) -> (r: String)
    ensures
        r@ == join(views(parts@), sep@),
{
    let mut r = String::new();
    let mut i: usize = 0;
    while i < parts.len()
        invariant
            i <= parts.len(),
            r@ == join(views(parts@).take(i as int), sep@),
        decreases parts.len() - i,
    {
        let ghost before = views(parts@).take(i as int);
        let ghost after = views(parts@).take(i + 1);
        assert(after.drop_last() == before);
        assert(after.last() == parts@[i as int]@);
        if i > 0 {
            r.append(sep);
        } else {
            assert(before.len() == 0);
            assert(Seq::<char>::empty() + parts@[0]@ == parts@[0]@);
        }
        r.append(parts[i].as_str());
        i += 1;
    }
    assert(views(parts@).take(parts.len() as int) == views(parts@));
    r
}

/// The first line of `s`.
pub fn first_line_of(s: &str) -> (r: String)
    ensures
        r@ == first_line(s@),
{
    let chars = chars_of(s);
    let n = chars.len();
    let mut end: usize = 0;
    while end < n && chars[end] != '\n'
        invariant
            end <= n,
            n == chars.len(),
            chars@ == s@,
            forall|k: int| 0 <= k < end ==> #[trigger] s@[k] != '\n',
        decreases n - end,
    {
        end += 1;
    }
    proof {
        lemma_prefix_len_is(s@, |c: char| c != '\n', end as int);
    }
    let stop = if 0 < end && end < n && chars[end - 1] == '\r' {
        end - 1
    } else {
        end
    };
    let mut r = String::new();
    let mut i: usize = 0;
    while i < stop
        invariant
            i <= stop <= n,
            n == chars.len(),
            chars@ == s@,
            r@ == s@.take(i as int),
        decreases stop - i,
    {
        r.push(chars[i]);
        i += 1;
    }
    r
}

/// Removes every occurrence of `c` from `s`.
pub fn remove_char(s: &str, c: char) -> (r: String)
    ensures
        r@ == without(s@, c),
{
    let chars = chars_of(s);
    let mut r = String::new();
    let mut i: usize = 0;
    proof {
        reveal(Seq::filter);
    }
    while i < chars.len()
        invariant
            i <= chars.len(),
            chars@ == s@,
            r@ == s@.take(i as int).filter(other_than(c)),
        decreases chars.len() - i,
    {
        proof {
            reveal(Seq::filter);
            assert(s@.take(i + 1).drop_last() == s@.take(i as int));
        }
        if chars[i] != c {
            r.push(chars[i]);
        }
        i += 1;
    }
    assert(s@.take(chars.len() as int) == s@);
    r
}

/// Whether `s` is made of decimal digits only.
pub fn is_all_digits(s: &str) -> (b: bool)
    ensures
        b == all_digits(s@),
{
    let chars = chars_of(s);
    let mut i: usize = 0;
    while i < chars.len()
        invariant
            i <= chars.len(),
            chars@ == s@,
            forall|k: int| 0 <= k < i ==> is_digit(#[trigger] s@[k]),
        decreases chars.len() - i,
    {
        if !char_is_digit(chars[i]) {
            return false;
        }
        i += 1;
    }
    true
}

} // verus!
