//! Text handling shared by the rest of the library.
//!
//! Every contract in this crate speaks of text as a `Seq<char>`. The
//! executable functions here work on a `Vec<char>` copy of a string, so that
//! a position in the text and an index into the vector are the same thing.

use vstd::prelude::*;

verus! {

broadcast use vstd::string::group_string_axioms;

/// `String::push` of the standard library appends the given character.
pub assume_specification[ std::string::String::push ](s: &mut std::string::String, c: char)
    ensures
        final(s)@ == old(s)@.push(c),
;

/// The characters of `s`, in order.
pub fn chars_of(s: &str) -> (chars: Vec<char>)
    ensures
        chars@ == s@,
{
    let mut chars: Vec<char> = Vec::new();
    for c in it: s.chars()
        invariant
            it.seq() == s@,
            chars@ == s@.take(it.index() as int),
    {
        chars.push(c);
    }
    chars
}

/// The text made of `chars[from..to]`.
pub(crate) fn text_of(chars: &Vec<char>, from: usize, to: usize) -> (text: String)
    requires
        from <= to <= chars.len(),
    ensures
        text@ == chars@.subrange(from as int, to as int),
{
    let mut text = String::new();
    let mut i: usize = from;
    while i < to
        invariant
            from <= i <= to <= chars.len(),
            text@ == chars@.subrange(from as int, i as int),
        decreases to - i,
    {
        text.push(chars[i]);
        i = i + 1;
    }
    text
}

/// The position of the first `c` in `s` at or after `from`, or `s.len()`
/// where there is none.
pub open spec fn next_index(s: Seq<char>, from: int, c: char) -> int {
    match s.skip(from).index_of_first(c) {
        Some(i) => from + i,
        None => s.len() as int,
    }
}

/// What `next_index` is, stated without reference to its definition.
pub(crate) proof fn lemma_next_index(s: Seq<char>, from: int, c: char, i: int)
    requires
        0 <= from <= i <= s.len(),
        forall|j: int| from <= j < i ==> s[j] != c,
        i < s.len() ==> s[i] == c,
    ensures
        next_index(s, from, c) == i,
        i < s.len() ==> s.skip(from).index_of_first(c) == Some(i - from),
        i == s.len() ==> s.skip(from).index_of_first(c) is None,
{
    let rest = s.skip(from);
    rest.index_of_first_ensures(c);
    match rest.index_of_first(c) {
        Some(k) => {
            assert(rest[k] == s[from + k]);
            if from + k < i {
                assert(s[from + k] != c);
            } else if i < from + k {
                assert(rest[i - from] == s[i]);
            }
        },
        None => {
            if i < s.len() {
                assert(rest[i - from] == s[i]);
                assert(rest.contains(c));
            }
        },
    }
}

/// Scans `chars` from `from` for the first `c`.
pub(crate) fn find_from(chars: &Vec<char>, from: usize, c: char) -> (at: usize)
    requires
        from <= chars.len(),
    ensures
        at == next_index(chars@, from as int, c),
        from <= at <= chars.len(),
        at < chars.len() ==> chars@[at as int] == c,
        forall|j: int| from <= j < at ==> chars@[j] != c,
{
    let mut i: usize = from;
    while i < chars.len() && chars[i] != c
        invariant
            from <= i <= chars.len(),
            forall|j: int| from <= j < i ==> chars@[j] != c,
        decreases chars.len() - i,
    {
        i = i + 1;
    }
    proof {
        lemma_next_index(chars@, from as int, c, i as int);
    }
    i
}

/// `s` without the given beginning; `None` where `s` does not begin with it.
pub open spec fn without_prefix(s: Seq<char>, prefix: Seq<char>) -> Option<Seq<char>> {
    if prefix.is_prefix_of(s) {
        Some(s.skip(prefix.len() as int))
    } else {
        None
    }
}

/// `s` without the given ending; `None` where `s` does not end with it.
pub open spec fn without_suffix(s: Seq<char>, suffix: Seq<char>) -> Option<Seq<char>> {
    if suffix.is_suffix_of(s) {
        Some(s.take(s.len() - suffix.len()))
    } else {
        None
    }
}

/// An item that can be tested for being the same as another: a character or
/// a byte.
pub(crate) trait Item: Copy {
    fn is(self, other: Self) -> (same: bool)
        ensures
            same == (self == other),
    ;
}

impl Item for char {
    fn is(self, other: char) -> (same: bool) {
        self == other
    }
}

impl Item for u8 {
    fn is(self, other: u8) -> (same: bool) {
        self == other
    }
}

/// Whether `whole[from..to]` is `part`.
pub(crate) fn range_is<T: Item>(whole: &[T], from: usize, to: usize, part: &[T]) -> (holds: bool)
    requires
        from <= to <= whole.len(),
    ensures
        holds == (whole@.subrange(from as int, to as int) == part@),
{
    if to - from != part.len() {
        return false;
    }
    let mut i: usize = 0;
    while i < part.len()
        invariant
            i <= part.len(),
            from + part.len() == to <= whole.len(),
            whole@.subrange(from as int, from + i) == part@.take(i as int),
        decreases part.len() - i,
    {
        if !whole[from + i].is(part[i]) {
            assert(whole@.subrange(from as int, to as int)[i as int] != part@[i as int]);
            return false;
        }
        assert(whole@.subrange(from as int, from + i + 1) == whole@.subrange(
            from as int,
            from + i,
        ).push(whole@[from + i]));
        assert(part@.take(i + 1) == part@.take(i as int).push(part@[i as int]));
        i = i + 1;
    }
    assert(part@.take(part.len() as int) == part@);
    true
}

/// Takes `prefix` off the beginning of `s`.
pub fn strip_prefix(s: &str, prefix: &str) -> (rest: Option<String>)
    ensures
        match rest {
            Some(rest) => without_prefix(s@, prefix@) == Some(rest@),
            None => without_prefix(s@, prefix@) is None,
        },
{
    let whole = chars_of(s);
    let part = chars_of(prefix);
    if part.len() <= whole.len() && range_is(
        whole.as_slice(),
        0,
        part.len(),
        part.as_slice(),
    ) {
        assert(whole@.subrange(0, part.len() as int) == whole@.take(part.len() as int));
        Some(text_of(&whole, part.len(), whole.len()))
    } else {
        None
    }
}

/// Takes `suffix` off the end of `s`.
pub fn strip_suffix(s: &str, suffix: &str) -> (rest: Option<String>)
    ensures
        match rest {
            Some(rest) => without_suffix(s@, suffix@) == Some(rest@),
            None => without_suffix(s@, suffix@) is None,
        },
{
    let whole = chars_of(s);
    let part = chars_of(suffix);
    if part.len() <= whole.len() && range_is(
        whole.as_slice(),
        whole.len() - part.len(),
        whole.len(),
        part.as_slice(),
    ) {
        Some(text_of(&whole, 0, whole.len() - part.len()))
    } else {
        None
    }
}

/// The pieces of `s` between occurrences of `sep`. A text without `sep` is
/// one piece; `n` separators make `n + 1` pieces, some of them possibly empty.
pub open spec fn split(s: Seq<char>, sep: char) -> Seq<Seq<char>>
    decreases s.len(),
{
    let at = next_index(s, 0, sep);
    if 0 <= at < s.len() {
        seq![s.take(at)] + split(s.skip(at + 1), sep)
    } else {
        seq![s]
    }
}

/// The views of a vector of strings.
pub open spec fn texts(v: Seq<String>) -> Seq<Seq<char>> {
    v.map_values(|s: String| s@)
}

/// Cuts `s` at every `sep`.
pub fn split_text(s: &str, sep: char) -> (pieces: Vec<String>)
    ensures
        texts(pieces@) == split(s@, sep),
{
    let chars = chars_of(s);
    let mut pieces: Vec<String> = Vec::new();
    let mut start: usize = 0;
    proof {
        assert(s@.skip(0) == s@);
        assert(texts(pieces@) + split(s@, sep) == split(s@, sep));
    }
    loop
        invariant_except_break
            split(s@, sep) == texts(pieces@) + split(s@.skip(start as int), sep),
        invariant
            chars@ == s@,
            start <= chars.len(),
        ensures
            texts(pieces@) == split(s@, sep),
        decreases chars.len() - start,
    {
        let at = find_from(&chars, start, sep);
        let piece = text_of(&chars, start, at);
        let ghost before = pieces@;
        let ghost rest = s@.skip(start as int);
        proof {
            lemma_next_index(rest, 0, sep, at - start);
            assert(rest.skip(0) == rest);
            assert(rest.take(at - start) == chars@.subrange(start as int, at as int));
        }
        pieces.push(piece);
        assert(texts(pieces@) == texts(before).push(piece@));
        if at < chars.len() {
            proof {
                assert(rest.skip(at - start + 1) == s@.skip(at + 1));
                assert(texts(before) + (seq![piece@] + split(s@.skip(at + 1), sep)) == texts(
                    before,
                ).push(piece@) + split(s@.skip(at + 1), sep));
            }
            start = at + 1;
        } else {
            proof {
                assert(piece@ == rest);
                assert(texts(before) + seq![piece@] == texts(before).push(piece@));
            }
            break ;
        }
    }
    pieces
}

/// The decimal digit for `d`, which is below ten.
pub open spec fn digit(d: int) -> char {
    if d == 0 {
        '0'
    } else if d == 1 {
        '1'
    } else if d == 2 {
        '2'
    } else if d == 3 {
        '3'
    } else if d == 4 {
        '4'
    } else if d == 5 {
        '5'
    } else if d == 6 {
        '6'
    } else if d == 7 {
        '7'
    } else if d == 8 {
        '8'
    } else {
        '9'
    }
}

/// The decimal digits of `n`, most significant first, without leading zeros.
pub open spec fn decimal_digits(n: nat) -> Seq<char>
    decreases n,
{
    if n < 10 {
        seq![digit(n as int)]
    } else {
        decimal_digits(n / 10).push(digit((n % 10) as int))
    }
}

/// The decimal notation of `n`, with a minus sign where it is negative.
pub open spec fn decimal(n: int) -> Seq<char> {
    if n < 0 {
        seq!['-'] + decimal_digits((-n) as nat)
    } else {
        decimal_digits(n as nat)
    }
}

fn digit_char(d: u64) -> (c: char)
    requires
        d < 10,
    ensures
        c == digit(d as int),
{
    if d == 0 {
        '0'
    } else if d == 1 {
        '1'
    } else if d == 2 {
        '2'
    } else if d == 3 {
        '3'
    } else if d == 4 {
        '4'
    } else if d == 5 {
        '5'
    } else if d == 6 {
        '6'
    } else if d == 7 {
        '7'
    } else if d == 8 {
        '8'
    } else {
        '9'
    }
}

/// Appends the decimal digits of `n` to `out`.
pub fn push_digits(out: &mut String, n: u64)
    ensures
        final(out)@ == old(out)@ + decimal_digits(n as nat),
    decreases n,
{
    if n >= 10 {
        push_digits(out, n / 10);
    }
    out.push(digit_char(n % 10));
}

/// Appends the decimal notation of `n` to `out`.
pub fn push_decimal(out: &mut String, n: i64)
    ensures
        final(out)@ == old(out)@ + decimal(n as int),
{
    if n < 0 {
        out.push('-');
        let magnitude: u64 = if n == i64::MIN {
            9223372036854775808u64
        } else {
            (-n) as u64
        };
        push_digits(out, magnitude);
        assert(final(out)@ == old(out)@ + (seq!['-'] + decimal_digits((-n) as nat)));
    } else {
        push_digits(out, n as u64);
    }
}

} // verus!
