//! Text as sequences of characters: whitespace, words, lines, prefixes,
//! and the decimal and hexadecimal forms that messages are built from.

use vstd::prelude::*;
use vstd::string::*;

verus! {

/// Appends one character. `String::push` is taken at its documented word:
/// the text grows by exactly that character at its end.
pub assume_specification[ String::push ](s: &mut String, c: char)
    ensures
        final(s)@ == old(s)@.push(c),
;

#[verifier::external_type_specification]
#[verifier::external_body]
pub struct ExUtf8Error(std::str::Utf8Error);

/// Reads bytes as text. `std::str::from_utf8` is taken at its documented word:
/// it succeeds exactly on valid UTF-8 and then gives the encoded characters.
pub assume_specification<'a>[ std::str::from_utf8 ](v: &'a [u8]) -> (r: Result<
    &'a str,
    std::str::Utf8Error,
>)
    ensures
        r is Ok <==> vstd::utf8::valid_utf8(v@),
        r matches Ok(s) ==> s@ == vstd::utf8::decode_utf8(v@),
;

/// The characters with the Unicode `White_Space` property.
pub open spec fn is_white(c: char) -> bool {
    let u = c as u32;
    ||| 0x09 <= u <= 0x0d
    ||| u == 0x20
    ||| u == 0x85
    ||| u == 0xa0
    ||| u == 0x1680
    ||| 0x2000 <= u <= 0x200a
    ||| u == 0x2028
    ||| u == 0x2029
    ||| u == 0x202f
    ||| u == 0x205f
    ||| u == 0x3000
}

pub fn is_white_char(c: char) -> (r: bool)
    ensures
        r == is_white(c),
{
    let u: u32 = c as u32;
    (0x09 <= u && u <= 0x0d) || u == 0x20 || u == 0x85 || u == 0xa0 || u == 0x1680 || (0x2000 <= u
        && u <= 0x200a) || u == 0x2028 || u == 0x2029 || u == 0x202f || u == 0x205f || u == 0x3000
}

/// The characters of `s`, in order.
pub fn chars_of(s: &str) -> (out: Vec<char>)
    ensures
        out@ == s@,
{
    let mut out: Vec<char> = Vec::new();
    for c in it: s.chars()
        invariant
            it.seq() == s@,
            out@ == s@.take(it.index()),
    {
        assert(s@.take(it.index() + 1) =~= s@.take(it.index()).push(c));
        out.push(c);
    }
    assert(s@.take(s@.len() as int) =~= s@);
    out
}

/// The text made of `chars`.
pub fn text_of(chars: &[char]) -> (out: String)
    ensures
        out@ == chars@,
{
    let mut out = String::new();
    let mut i: usize = 0;
    while i < chars.len()
        invariant
            i <= chars@.len(),
            out@ == chars@.take(i as int),
        decreases chars@.len() - i,
    {
        out.push(chars[i]);
        assert(chars@.take(i + 1) =~= chars@.take(i as int).push(chars@[i as int]));
        i += 1;
    }
    assert(chars@.take(i as int) =~= chars@);
    out
}

/// `s` without its leading whitespace.
pub open spec fn trim_start(s: Seq<char>) -> Seq<char>
    decreases s.len(),
{
    if s.len() > 0 && is_white(s[0]) {
        trim_start(s.skip(1))
    } else {
        s
    }
}

/// `s` without its trailing whitespace.
pub open spec fn trim_end(s: Seq<char>) -> Seq<char>
    decreases s.len(),
{
    if s.len() > 0 && is_white(s.last()) {
        trim_end(s.drop_last())
    } else {
        s
    }
}

/// `s` without leading and trailing whitespace.
pub open spec fn trim(s: Seq<char>) -> Seq<char> {
    trim_end(trim_start(s))
}

pub fn trim_start_chars<'a>(s: &'a [char]) -> (r: &'a [char])
    ensures
        r@ == trim_start(s@),
{
    let mut i: usize = 0;
    assert(s@.skip(0) =~= s@);
    while i < s.len() && is_white_char(s[i])
        invariant
            i <= s@.len(),
            trim_start(s@) == trim_start(s@.skip(i as int)),
        decreases s@.len() - i,
    {
        assert(s@.skip(i as int).skip(1) =~= s@.skip(i + 1));
        i += 1;
    }
    assert(s@.skip(i as int) =~= s@.subrange(i as int, s@.len() as int));
    vstd::slice::slice_subrange(s, i, s.len())
}

pub fn trim_chars<'a>(s: &'a [char]) -> (r: &'a [char])
    ensures
        r@ == trim(s@),
{
    let t = trim_start_chars(s);
    let mut n: usize = t.len();
    assert(t@.take(n as int) =~= t@);
    while n > 0 && is_white_char(t[n - 1])
        invariant
            n <= t@.len(),
            trim_end(t@) == trim_end(t@.take(n as int)),
        decreases n,
    {
        assert(t@.take(n as int).drop_last() =~= t@.take(n - 1));
        n -= 1;
    }
    assert(t@.take(n as int) =~= t@.subrange(0, n as int));
    vstd::slice::slice_subrange(t, 0, n)
}

/// How many characters at the front of `s` are not whitespace.
pub open spec fn word_len(s: Seq<char>) -> nat
    decreases s.len(),
{
    if s.len() > 0 && !is_white(s[0]) {
        1 + word_len(s.skip(1))
    } else {
        0
    }
}

/// The first whitespace-separated word of `s`, if there is one.
pub open spec fn first_word(s: Seq<char>) -> Option<Seq<char>> {
    let t = trim_start(s);
    if t.len() == 0 {
        None
    } else {
        Some(t.take(word_len(t) as int))
    }
}

/// What follows the first word of `s`.
pub open spec fn after_first_word(s: Seq<char>) -> Seq<char> {
    let t = trim_start(s);
    t.skip(word_len(t) as int)
}

/// Splits off the first word: the word and what follows it.
pub fn next_word<'a>(s: &'a [char]) -> (r: Option<(&'a [char], &'a [char])>)
    ensures
        match r {
            Some((word, rest)) => first_word(s@) == Some(word@) && rest@ == after_first_word(s@),
            None => first_word(s@) is None,
        },
{
    let t = trim_start_chars(s);
    if t.len() == 0 {
        return None;
    }
    let mut n: usize = 0;
    assert(t@.skip(0) =~= t@);
    while n < t.len() && !is_white_char(t[n])
        invariant
            n <= t@.len(),
            word_len(t@) == n + word_len(t@.skip(n as int)),
        decreases t@.len() - n,
    {
        assert(t@.skip(n as int).skip(1) =~= t@.skip(n + 1));
        n += 1;
    }
    assert(word_len(t@.skip(n as int)) == 0);
    assert(t@.take(n as int) =~= t@.subrange(0, n as int));
    assert(t@.skip(n as int) =~= t@.subrange(n as int, t@.len() as int));
    Some((vstd::slice::slice_subrange(t, 0, n), vstd::slice::slice_subrange(t, n, t.len())))
}

/// How many characters stand before the first line feed of `s`.
pub open spec fn line_len(s: Seq<char>) -> nat
    decreases s.len(),
{
    if s.len() == 0 || s[0] == '\n' {
        0
    } else {
        1 + line_len(s.skip(1))
    }
}

/// `s` split at its line feeds.
pub open spec fn lines(s: Seq<char>) -> Seq<Seq<char>>
    decreases s.len(),
{
    if line_len(s) < s.len() {
        seq![s.take(line_len(s) as int)] + lines(s.skip((line_len(s) + 1) as int))
    } else {
        seq![s]
    }
}

/// The length of the first line of `s`.
pub fn first_line_len(s: &[char]) -> (n: usize)
    ensures
        n == line_len(s@),
        n <= s@.len(),
{
    let mut n: usize = 0;
    assert(s@.skip(0) =~= s@);
    while n < s.len() && s[n] != '\n'
        invariant
            n <= s@.len(),
            line_len(s@) == n + line_len(s@.skip(n as int)),
        decreases s@.len() - n,
    {
        assert(s@.skip(n as int).skip(1) =~= s@.skip(n + 1));
        n += 1;
    }
    n
}

/// Whether `s` begins with `p`.
pub open spec fn begins_with(s: Seq<char>, p: Seq<char>) -> bool {
    p.len() <= s.len() && s.take(p.len() as int) == p
}

/// Whether `p` occurs somewhere in `s`.
pub open spec fn occurs_in(p: Seq<char>, s: Seq<char>) -> bool {
    exists|i: int| 0 <= i <= s.len() - p.len() && begins_with(#[trigger] s.skip(i), p)
}

pub fn chars_begin_with(s: &[char], p: &[char]) -> (r: bool)
    ensures
        r == begins_with(s@, p@),
{
    if p.len() > s.len() {
        return false;
    }
    let mut i: usize = 0;
    while i < p.len()
        invariant
            i <= p@.len() <= s@.len(),
            forall|j: int| 0 <= j < i ==> s@[j] == p@[j],
        decreases p@.len() - i,
    {
        if s[i] != p[i] {
            assert(s@.take(p@.len() as int)[i as int] != p@[i as int]);
            return false;
        }
        i += 1;
    }
    assert(s@.take(p@.len() as int) =~= p@);
    true
}

/// Whether `s` begins with the text `p`.
pub fn starts_with(s: &[char], p: &str) -> (r: bool)
    ensures
        r == begins_with(s@, p@),
{
    let p = chars_of(p);
    chars_begin_with(s, p.as_slice())
}

/// What follows the prefix `p` in `s`, when `s` begins with it.
pub fn strip_prefix<'a>(s: &'a [char], p: &str) -> (r: Option<&'a [char]>)
    ensures
        match r {
            Some(rest) => begins_with(s@, p@) && rest@ == s@.skip(p@.len() as int),
            None => !begins_with(s@, p@),
        },
{
    let p = chars_of(p);
    if chars_begin_with(s, p.as_slice()) {
        assert(s@.skip(p@.len() as int) =~= s@.subrange(p@.len() as int, s@.len() as int));
        Some(vstd::slice::slice_subrange(s, p.len(), s.len()))
    } else {
        None
    }
}

/// Whether `s` is exactly the text `t`.
pub fn equals(s: &[char], t: &str) -> (r: bool)
    ensures
        r == (s@ == t@),
{
    let t = chars_of(t);
    if s.len() != t.len() {
        return false;
    }
    let r = chars_begin_with(s, t.as_slice());
    assert(s@.take(t@.len() as int) =~= s@);
    r
}

/// Whether the text `p` occurs in `s`.
pub fn contains(s: &[char], p: &str) -> (r: bool)
    ensures
        r == occurs_in(p@, s@),
{
    let pattern = chars_of(p);
    if pattern.len() > s.len() {
        return false;
    }
    let last: usize = s.len() - pattern.len();
    let mut i: usize = 0;
    while i < last
        invariant
            pattern@ == p@,
            last == s@.len() - p@.len(),
            i <= last,
            forall|j: int| 0 <= j < i ==> !begins_with(#[trigger] s@.skip(j), p@),
        decreases last - i,
    {
        let rest = vstd::slice::slice_subrange(s, i, s.len());
        assert(rest@ =~= s@.skip(i as int));
        if chars_begin_with(rest, pattern.as_slice()) {
            return true;
        }
        i += 1;
    }
    let rest = vstd::slice::slice_subrange(s, last, s.len());
    assert(rest@ =~= s@.skip(last as int));
    chars_begin_with(rest, pattern.as_slice())
}

/// ASCII upper case mapped to lower case, everything else unchanged.
pub open spec fn lower_char(c: char) -> char {
    if 'A' <= c <= 'Z' {
        ((c as u8) + 32) as char
    } else {
        c
    }
}

pub open spec fn lower(s: Seq<char>) -> Seq<char> {
    s.map_values(|c: char| lower_char(c))
}

pub fn lower_chars(s: &[char]) -> (out: Vec<char>)
    ensures
        out@ == lower(s@),
{
    let mut out: Vec<char> = Vec::new();
    let mut i: usize = 0;
    while i < s.len()
        invariant
            i <= s@.len(),
            out@ == lower(s@.take(i as int)),
        decreases s@.len() - i,
    {
        let c = s[i];
        let l: char = if 'A' <= c && c <= 'Z' {
            ((c as u8) + 32) as char
        } else {
            c
        };
        out.push(l);
        assert(lower(s@.take(i + 1)) =~= lower(s@.take(i as int)).push(lower_char(c)));
        i += 1;
    }
    assert(s@.take(i as int) =~= s@);
    out
}

/// The character of one decimal digit.
pub open spec fn digit_char(d: nat) -> char {
    (48 + d) as u8 as char
}

/// `n` in decimal, without leading zeros.
pub open spec fn decimal(n: nat) -> Seq<char>
    decreases n,
{
    if n < 10 {
        seq![digit_char(n)]
    } else {
        decimal(n / 10).push(digit_char(n % 10))
    }
}

/// Appends `n` in decimal.
pub fn push_decimal(out: &mut String, n: u128)
    ensures
        final(out)@ == old(out)@ + decimal(n as nat),
    decreases n,
{
    if n >= 10 {
        push_decimal(out, n / 10);
    }
    out.push((48 + (n % 10) as u8) as char);
    assert(out@ =~= old(out)@ + decimal(n as nat));
}

/// The character of one hexadecimal digit, `upper` choosing the letter case.
pub open spec fn hex_char(d: nat, upper: bool) -> char {
    if d < 10 {
        (48 + d) as u8 as char
    } else if upper {
        (55 + d) as u8 as char
    } else {
        (87 + d) as u8 as char
    }
}

/// The low `width` hexadecimal digits of `n`, most significant first.
pub open spec fn hex_fixed(n: nat, width: nat, upper: bool) -> Seq<char>
    decreases width,
{
    if width == 0 {
        Seq::empty()
    } else {
        hex_fixed(n / 16, (width - 1) as nat, upper).push(hex_char(n % 16, upper))
    }
}

/// How many hexadecimal digits `n` needs, at least one.
pub open spec fn hex_width(n: nat) -> nat
    decreases n,
{
    if n < 16 {
        1
    } else {
        1 + hex_width(n / 16)
    }
}

/// Appends the low `width` hexadecimal digits of `n`.
pub fn push_hex(out: &mut String, n: u64, width: u8, upper: bool)
    ensures
        final(out)@ == old(out)@ + hex_fixed(n as nat, width as nat, upper),
    decreases width,
{
    if width == 0 {
        assert(out@ =~= old(out)@ + hex_fixed(n as nat, width as nat, upper));
        return;
    }
    push_hex(out, n / 16, width - 1, upper);
    let d: u8 = (n % 16) as u8;
    let c: char = if d < 10 {
        (48 + d) as char
    } else if upper {
        (55 + d) as char
    } else {
        (87 + d) as char
    };
    out.push(c);
    assert(out@ =~= old(out)@ + hex_fixed(n as nat, width as nat, upper));
}

pub fn count_hex_digits(n: u32) -> (w: u8)
    ensures
        w == hex_width(n as nat),
        1 <= w <= 8,
{
    proof {
        reveal_with_fuel(hex_width, 9);
    }
    if n < 0x10 {
        1
    } else if n < 0x100 {
        2
    } else if n < 0x1000 {
        3
    } else if n < 0x1_0000 {
        4
    } else if n < 0x10_0000 {
        5
    } else if n < 0x100_0000 {
        6
    } else if n < 0x1000_0000 {
        7
    } else {
        8
    }
}

pub open spec fn is_digit(c: char) -> bool {
    '0' <= c <= '9'
}

pub open spec fn all_digits(s: Seq<char>) -> bool {
    forall|i: int| 0 <= i < s.len() ==> is_digit(#[trigger] s[i])
}

/// The number that a run of decimal digits denotes.
pub open spec fn digits_value(s: Seq<char>) -> nat
    decreases s.len(),
{
    if s.len() == 0 {
        0
    } else {
        (10 * digits_value(s.drop_last()) + (s.last() as u32 - 48)) as nat
    }
}

/// An unsigned machine number: an optional `+`, then at least one digit and
/// nothing else, within range.
pub open spec fn number(s: Seq<char>) -> Option<usize> {
    let d = if s.len() > 0 && s[0] == '+' {
        s.skip(1)
    } else {
        s
    };
    if d.len() > 0 && all_digits(d) && digits_value(d) <= usize::MAX {
        Some(digits_value(d) as usize)
    } else {
        None
    }
}

proof fn lemma_digits_value_grows(s: Seq<char>, k: int)
    requires
        all_digits(s),
        0 <= k <= s.len(),
    ensures
        digits_value(s.take(k)) <= digits_value(s),
    decreases s.len() - k,
{
    if k == s.len() {
        assert(s.take(k) =~= s);
    } else {
        assert(s.take(k + 1).drop_last() =~= s.take(k));
        assert(is_digit(s[k]));
        lemma_digits_value_grows(s, k + 1);
    }
}

pub fn parse_number(s: &[char]) -> (r: Option<usize>)
    ensures
        r == number(s@),
{
    let start: usize = if s.len() > 0 && s[0] == '+' {
        1
    } else {
        0
    };
    let d = vstd::slice::slice_subrange(s, start, s.len());
    let ghost body = if s@.len() > 0 && s@[0] == '+' {
        s@.skip(1)
    } else {
        s@
    };
    assert(d@ =~= body);
    if d.len() == 0 {
        return None;
    }
    let mut value: usize = 0;
    let mut i: usize = 0;
    while i < d.len()
        invariant
            i <= d@.len(),
            d@ == body,
            number(s@) is Some ==> all_digits(body) && digits_value(body) <= usize::MAX,
            all_digits(d@.take(i as int)),
            value == digits_value(d@.take(i as int)),
        decreases d@.len() - i,
    {
        let c = d[i];
        if !('0' <= c && c <= '9') {
            assert(!is_digit(d@[i as int]));
            return None;
        }
        let digit: usize = (c as u32 - 48) as usize;
        proof {
            assert(d@.take(i + 1).drop_last() =~= d@.take(i as int));
            assert(digits_value(d@.take(i + 1)) == 10 * value + digit);
        }
        if value > (usize::MAX - digit) / 10 {
            proof {
                if all_digits(d@) {
                    lemma_digits_value_grows(d@, i + 1);
                }
            }
            return None;
        }
        value = value * 10 + digit;
        i += 1;
    }
    assert(d@.take(i as int) =~= d@);
    Some(value)
}

/// The text that an optional string slice holds.
pub open spec fn opt_str(s: Option<&str>) -> Option<Seq<char>> {
    match s {
        Some(t) => Some(t@),
        None => None,
    }
}

/// The text that an optional string holds.
pub open spec fn opt_string(s: Option<String>) -> Option<Seq<char>> {
    match s {
        Some(t) => Some(t@),
        None => None,
    }
}

pub fn owned(s: Option<&str>) -> (r: Option<String>)
    ensures
        opt_string(r) == opt_str(s),
{
    match s {
        Some(t) => Some(t.to_string()),
        None => None,
    }
}

pub fn borrowed(s: &Option<String>) -> (r: Option<&str>)
    ensures
        opt_str(r) == opt_string(*s),
{
    match s {
        Some(t) => Some(t.as_str()),
        None => None,
    }
}

// ---------------------------------------------------------------------------
// laws
// ---------------------------------------------------------------------------

/// Whether the text is made of whitespace alone.
pub open spec fn is_blank(s: Seq<char>) -> bool {
    forall|i: int| 0 <= i < s.len() ==> is_white(#[trigger] s[i])
}

/// Whether the text is one word: some characters, none of them whitespace.
pub open spec fn is_word(s: Seq<char>) -> bool {
    s.len() > 0 && forall|i: int| 0 <= i < s.len() ==> !is_white(#[trigger] s[i])
}

/// The first word of a text is what stands between its leading whitespace and
/// the next whitespace, and what follows the word is the rest.
pub proof fn law_words_are_split_at_whitespace(
    blank: Seq<char>,
    word: Seq<char>,
    rest: Seq<char>,
)
    requires
        is_blank(blank),
        is_word(word),
        rest.len() == 0 || is_white(rest[0]),
    ensures
        first_word(blank + word + rest) == Some(word),
        after_first_word(blank + word + rest) == rest,
        is_blank(rest) ==> first_word(rest) is None,
{
    let tail = word + rest;
    assert(blank + word + rest =~= blank + tail);
    assert(!is_white(word[0]));
    lemma_blank_is_trimmed(blank, tail);
    lemma_word_len(word, rest);
    assert(tail.take(word.len() as int) =~= word);
    assert(tail.skip(word.len() as int) =~= rest);
    if is_blank(rest) {
        lemma_blank_is_trimmed(rest, Seq::empty());
        assert(rest + Seq::<char>::empty() =~= rest);
    }
}

proof fn lemma_blank_is_trimmed(blank: Seq<char>, s: Seq<char>)
    requires
        is_blank(blank),
        s.len() == 0 || !is_white(s[0]),
    ensures
        trim_start(blank + s) == s,
    decreases blank.len(),
{
    if blank.len() == 0 {
        assert(blank + s =~= s);
    } else {
        assert((blank + s).skip(1) =~= blank.skip(1) + s);
        assert(is_white(blank[0]));
        lemma_blank_is_trimmed(blank.skip(1), s);
    }
}

proof fn lemma_word_len(word: Seq<char>, rest: Seq<char>)
    requires
        forall|i: int| 0 <= i < word.len() ==> !is_white(#[trigger] word[i]),
        rest.len() == 0 || is_white(rest[0]),
    ensures
        word_len(word + rest) == word.len(),
    decreases word.len(),
{
    if word.len() == 0 {
        assert(word + rest =~= rest);
    } else {
        assert((word + rest).skip(1) =~= word.skip(1) + rest);
        assert(!is_white(word[0]));
        lemma_word_len(word.skip(1), rest);
    }
}

/// Trimming takes away the whitespace at both ends and nothing else.
pub proof fn law_trim_takes_the_ends(before: Seq<char>, s: Seq<char>, after: Seq<char>)
    requires
        is_blank(before),
        is_blank(after),
        s.len() > 0,
        !is_white(s[0]),
        !is_white(s.last()),
    ensures
        trim(before + s + after) == s,
{
    assert(before + s + after =~= before + (s + after));
    lemma_blank_is_trimmed(before, s + after);
    lemma_blank_end_is_trimmed(s, after);
}

/// Of whitespace alone, trimming leaves nothing.
pub proof fn law_blank_is_trimmed_away(s: Seq<char>)
    requires
        is_blank(s),
    ensures
        trim(s).len() == 0,
{
    assert(s + Seq::<char>::empty() =~= s);
    lemma_blank_is_trimmed(s, Seq::empty());
}

proof fn lemma_blank_end_is_trimmed(s: Seq<char>, after: Seq<char>)
    requires
        is_blank(after),
        s.len() > 0,
        !is_white(s.last()),
    ensures
        trim_end(s + after) == s,
    decreases after.len(),
{
    if after.len() == 0 {
        assert(s + after =~= s);
    } else {
        assert((s + after).drop_last() =~= s + after.drop_last());
        assert(is_white(after[after.len() - 1]));
        lemma_blank_end_is_trimmed(s, after.drop_last());
    }
}

/// A line feed ends a line: what stands before the first one is the first
/// line, and the other lines are those of what follows it.
pub proof fn law_lines_end_at_line_feeds(line: Seq<char>, rest: Seq<char>)
    requires
        forall|i: int| 0 <= i < line.len() ==> #[trigger] line[i] != '\n',
    ensures
        lines(line) == seq![line],
        lines(line + seq!['\n'] + rest) == seq![line] + lines(rest),
{
    let whole = line + seq!['\n'] + rest;
    lemma_line_len(line, Seq::empty());
    assert(line + Seq::<char>::empty() =~= line);
    assert(whole =~= line + (seq!['\n'] + rest));
    lemma_line_len(line, seq!['\n'] + rest);
    assert(whole.take(line.len() as int) =~= line);
    assert(whole.skip((line.len() + 1) as int) =~= rest);
}

proof fn lemma_line_len(line: Seq<char>, rest: Seq<char>)
    requires
        forall|i: int| 0 <= i < line.len() ==> #[trigger] line[i] != '\n',
        rest.len() == 0 || rest[0] == '\n',
    ensures
        line_len(line + rest) == line.len(),
    decreases line.len(),
{
    if line.len() == 0 {
        assert(line + rest =~= rest);
    } else {
        assert((line + rest).skip(1) =~= line.skip(1) + rest);
        assert(line[0] != '\n');
        lemma_line_len(line.skip(1), rest);
    }
}

/// A number written in decimal is a word of digits and reads back as itself,
/// with or without a plus sign before it.
pub proof fn law_decimal_reads_back(n: usize)
    ensures
        is_word(decimal(n as nat)),
        number(decimal(n as nat)) == Some(n),
        number(seq!['+'] + decimal(n as nat)) == Some(n),
{
    lemma_decimal(n as nat);
    let d = decimal(n as nat);
    assert(is_digit(d[0]));
    assert((seq!['+'] + d).skip(1) =~= d);
    assert forall|i: int| 0 <= i < d.len() implies !is_white(#[trigger] d[i]) by {
        assert(is_digit(d[i]));
    }
}

/// A number that no machine number holds is none.
pub proof fn law_large_numbers_are_refused(n: nat)
    requires
        n > usize::MAX,
    ensures
        number(decimal(n)) is None,
{
    lemma_decimal(n);
    assert(is_digit(decimal(n)[0]));
}

/// A text with anything but digits behind an optional plus sign is no number,
/// and neither is the sign alone or nothing.
pub proof fn law_other_texts_are_no_numbers(s: Seq<char>, i: int)
    requires
        s.len() == 0 || s == seq!['+'] || 0 <= i < s.len() && !('0' <= s[i] <= '9') && (i > 0
            || s[i] != '+'),
    ensures
        number(s) is None,
{
    if s.len() > 0 && s[0] == '+' && i > 0 && i < s.len() {
        assert(s.skip(1)[i - 1] == s[i]);
    }
    if 0 <= i < s.len() && !('0' <= s[i] <= '9') {
        assert(!is_digit(s[i]));
    }
}

proof fn lemma_decimal(n: nat)
    ensures
        decimal(n).len() > 0,
        all_digits(decimal(n)),
        digits_value(decimal(n)) == n,
    decreases n,
{
    let d = decimal(n);
    if n < 10 {
        assert(d.drop_last() =~= Seq::empty());
        assert(digits_value(d.drop_last()) == 0);
    } else {
        lemma_decimal(n / 10);
        assert(d.drop_last() =~= decimal(n / 10));
    }
}

/// Lower case changes the twenty-six capitals, each to its own small letter,
/// and keeps every other character and the length.
pub proof fn law_lower_case(s: Seq<char>, i: int)
    requires
        0 <= i < s.len(),
    ensures
        lower(s).len() == s.len(),
        65 <= (s[i] as u32) <= 90 ==> lower(s)[i] as u32 == s[i] as u32 + 32,
        !(65 <= (s[i] as u32) <= 90) ==> lower(s)[i] == s[i],
{
    let c = s[i];
    if 'A' <= c <= 'Z' {
        assert(c as u8 as u32 == c as u32);
    }
}

/// Lines put together, with a line feed between every two.
pub open spec fn joined(parts: Seq<Seq<char>>) -> Seq<char>
    decreases parts.len(),
{
    if parts.len() == 0 {
        Seq::empty()
    } else if parts.len() == 1 {
        parts[0]
    } else {
        parts[0] + seq!['\n'] + joined(parts.skip(1))
    }
}

/// Splitting undoes putting lines together.
pub proof fn law_lines_split_back(parts: Seq<Seq<char>>)
    requires
        parts.len() > 0,
        forall|k: int, i: int|
            0 <= k < parts.len() && 0 <= i < parts[k].len() ==> #[trigger] parts[k][i] != '\n',
    ensures
        lines(joined(parts)) == parts,
    decreases parts.len(),
{
    assert forall|i: int| 0 <= i < parts[0].len() implies #[trigger] parts[0][i] != '\n' by {}
    if parts.len() == 1 {
        law_lines_end_at_line_feeds(parts[0], Seq::empty());
        assert(seq![parts[0]] =~= parts);
    } else {
        let rest = parts.skip(1);
        assert forall|k: int, i: int|
            0 <= k < rest.len() && 0 <= i < rest[k].len() implies #[trigger] rest[k][i] != '\n' by {
            assert(rest[k] == parts[k + 1]);
            assert(parts[k + 1][i] != '\n');
        }
        law_lines_split_back(rest);
        law_lines_end_at_line_feeds(parts[0], joined(rest));
        assert(seq![parts[0]] + rest =~= parts);
    }
}

/// A text begins with its own beginning, and contains whatever stands in it.
pub proof fn law_parts_are_found(before: Seq<char>, part: Seq<char>, after: Seq<char>)
    ensures
        begins_with(part + after, part),
        occurs_in(part, before + part + after),
{
    let whole = before + part + after;
    assert((part + after).take(part.len() as int) =~= part);
    assert(whole.skip(before.len() as int) =~= part + after);
    assert(begins_with(whole.skip(before.len() as int), part));
}

/// What is found in a text stands somewhere in it.
pub proof fn law_what_is_found_is_there(part: Seq<char>, whole: Seq<char>) -> (i: int)
    requires
        occurs_in(part, whole),
    ensures
        0 <= i <= whole.len() - part.len(),
        whole.subrange(i, i + part.len()) == part,
{
    let i = choose|i: int|
        0 <= i <= whole.len() - part.len() && begins_with(#[trigger] whole.skip(i), part);
    assert(whole.skip(i).take(part.len() as int) =~= whole.subrange(i, i + part.len()));
    i
}

/// Whitespace is the space, the five control characters from tabulator to
/// carriage return, and the other characters that Unicode counts as such.
pub proof fn law_whitespace(c: char, r: bool)
    requires
        call_ensures(is_white_char, (c,), r),
    ensures
        r <==> c == '\t' || c == '\n' || c == '\u{b}' || c == '\u{c}' || c == '\r' || c == ' ' || c
            == '\u{85}' || c == '\u{a0}' || c == '\u{1680}' || '\u{2000}' <= c <= '\u{200a}' || c
            == '\u{2028}' || c == '\u{2029}' || c == '\u{202f}' || c == '\u{205f}' || c
            == '\u{3000}',
{
}

/// The number that a hexadecimal digit stands for, in either case.
pub open spec fn hex_value(c: char) -> int {
    if '0' <= c <= '9' {
        c as u32 - 48
    } else if 'a' <= c <= 'f' {
        c as u32 - 87
    } else {
        c as u32 - 55
    }
}

/// The number that hexadecimal digits spell.
pub open spec fn hex_spelled(s: Seq<char>) -> int
    decreases s.len(),
{
    if s.len() == 0 {
        0
    } else {
        16 * hex_spelled(s.drop_last()) + hex_value(s.last())
    }
}

/// A number that is written with as many hexadecimal digits as it needs, or
/// more, is spelled by them, in capitals where those are asked for and in small
/// letters otherwise.
pub proof fn law_hex_reads_back(n: nat, width: nat, upper: bool, i: int)
    requires
        width >= hex_width(n),
    ensures
        hex_fixed(n, width, upper).len() == width,
        hex_spelled(hex_fixed(n, width, upper)) == n,
        0 <= i < width ==> {
            let c = hex_fixed(n, width, upper)[i];
            '0' <= c <= '9' || upper && 'A' <= c <= 'F' || !upper && 'a' <= c <= 'f'
        },
    decreases width,
{
    let s = hex_fixed(n, width, upper);
    if width > 1 || n >= 16 {
        assert(hex_width(n / 16) >= 1);
        assert((width - 1) as nat >= hex_width(n / 16));
        law_hex_reads_back(n / 16, (width - 1) as nat, upper, i);
        assert(s.drop_last() =~= hex_fixed(n / 16, (width - 1) as nat, upper));
    } else {
        assert(hex_fixed(n / 16, 0, upper) =~= Seq::empty());
        assert(s.drop_last() =~= Seq::empty());
        assert(hex_spelled(s.drop_last()) == 0);
    }
}

/// As many hexadecimal digits as a number needs are the fewest that hold it.
pub proof fn law_hex_digits_are_counted(n: u32, w: u8)
    requires
        call_ensures(count_hex_digits, (n,), w),
    ensures
        1 <= w <= 8,
        n < 0x10 <==> w == 1,
        n >= 0x1000_0000 <==> w == 8,
        w == 2 ==> 0x10 <= n < 0x100,
        w == 3 ==> 0x100 <= n < 0x1000,
        w == 4 ==> 0x1000 <= n < 0x1_0000,
        w == 5 ==> 0x1_0000 <= n < 0x10_0000,
        w == 6 ==> 0x10_0000 <= n < 0x100_0000,
        w == 7 ==> 0x100_0000 <= n < 0x1000_0000,
{
    reveal_with_fuel(hex_width, 9);
}

} // verus!
