//! Text handling: comparison, trimming, line splitting and decimal numbers,
//! all stated over the sequence of characters that a string holds.

use vstd::prelude::*;

verus! {

/// Whether a character is white space: the characters that have the Unicode
/// property `White_Space`.
pub open spec fn is_whitespace(c: char) -> bool {
    let code = c as u32;
    ||| 0x09 <= code <= 0x0d
    ||| code == 0x20
    ||| code == 0x85
    ||| code == 0xa0
    ||| code == 0x1680
    ||| 0x2000 <= code <= 0x200a
    ||| code == 0x2028
    ||| code == 0x2029
    ||| code == 0x202f
    ||| code == 0x205f
    ||| code == 0x3000
}

/// `char::is_whitespace` tells whether a character has the Unicode property
/// `White_Space`.
pub assume_specification[ char::is_whitespace ](c: char) -> (r: bool)
    ensures
        r == is_whitespace(c),
;

/// `String::push` appends the character at the end of the string.
pub assume_specification[ String::push ](s: &mut String, c: char)
    ensures
        final(s)@ == old(s)@.push(c),
;

/// Whether two strings hold the same characters.
pub fn same(a: &str, b: &str) -> (r: bool)
    ensures
        r == (a@ == b@),
{
    let x = a.as_bytes();
    let y = b.as_bytes();
    proof {
        vstd::utf8::encode_utf8_decode_utf8(a@);
        vstd::utf8::encode_utf8_decode_utf8(b@);
    }
    if x.len() != y.len() {
        return false;
    }
    let mut i: usize = 0;
    while i < x.len()
        invariant
            i <= x.len(),
            x.len() == y.len(),
            x@ == vstd::utf8::encode_utf8(a@),
            y@ == vstd::utf8::encode_utf8(b@),
            forall|j: int| 0 <= j < i ==> x@[j] == y@[j],
        decreases x.len() - i,
    {
        if x[i] != y[i] {
            return false;
        }
        i = i + 1;
    }
    assert(x@ =~= y@);
    true
}

/// The characters of a string, in order.
pub(crate) fn chars_of(s: &str) -> (r: Vec<char>)
    ensures
        r@ == s@,
{
    let mut out: Vec<char> = Vec::new();
    for c in it: s.chars()
        invariant
            out@ == it.seq().take(it.index() as int),
            it.seq() == s@,
    {
        out.push(c);
    }
    out
}

/// Appends to `out` the characters of `chars` from `from` up to `to`.
fn push_range(out: &mut String, chars: &Vec<char>, from: usize, to: usize)
    requires
        from <= to <= chars.len(),
    ensures
        final(out)@ == old(out)@ + chars@.subrange(from as int, to as int),
{
    let ghost before = out@;
    let mut i: usize = from;
    while i < to
        invariant
            from <= i <= to <= chars.len(),
            out@ == before + chars@.subrange(from as int, i as int),
        decreases to - i,
    {
        out.push(chars[i]);
        i = i + 1;
        assert(chars@.subrange(from as int, i as int) =~= chars@.subrange(
            from as int,
            i - 1,
        ).push(chars@[i - 1]));
        assert(out@ =~= before + chars@.subrange(from as int, i as int));
    }
}

/// The string that holds the characters of `chars` from `from` up to `to`.
fn range_text(chars: &Vec<char>, from: usize, to: usize) -> (r: String)
    requires
        from <= to <= chars.len(),
    ensures
        r@ == chars@.subrange(from as int, to as int),
{
    let mut out = String::new();
    push_range(&mut out, chars, from, to);
    out
}

/// Whether `pattern` stands in `chars` at position `at`.
fn stands_at(chars: &Vec<char>, pattern: &Vec<char>, at: usize) -> (r: bool)
    requires
        at <= chars.len(),
    ensures
        r == pattern@.is_prefix_of(chars@.skip(at as int)),
{
    if pattern.len() > chars.len() - at {
        return false;
    }
    let mut i: usize = 0;
    while i < pattern.len()
        invariant
            i <= pattern.len() <= chars.len() - at,
            forall|j: int| 0 <= j < i ==> pattern@[j] == chars@[at + j],
        decreases pattern.len() - i,
    {
        if pattern[i] != chars[at + i] {
            assert(chars@.skip(at as int)[i as int] == chars@[at + i]);
            assert(chars@.skip(at as int).subrange(0, pattern.len() as int)[i as int]
                != pattern@[i as int]);
            return false;
        }
        i = i + 1;
    }
    assert(pattern@ =~= chars@.skip(at as int).subrange(0, pattern.len() as int));
    true
}

/// Whether `s` begins with `prefix`.
pub fn begins_with(s: &str, prefix: &str) -> (r: bool)
    ensures
        r == prefix@.is_prefix_of(s@),
{
    let chars = chars_of(s);
    let pattern = chars_of(prefix);
    assert(chars@.skip(0) =~= chars@);
    stands_at(&chars, &pattern, 0)
}

/// Whether `s` ends with `suffix`.
pub fn finishes_with(s: &str, suffix: &str) -> (r: bool)
    ensures
        r == suffix@.is_suffix_of(s@),
{
    let chars = chars_of(s);
    let pattern = chars_of(suffix);
    if pattern.len() > chars.len() {
        return false;
    }
    let at = chars.len() - pattern.len();
    let ghost tail = chars@.skip(at as int);
    assert(tail.subrange(0, pattern.len() as int) =~= tail);
    assert(tail =~= chars@.subrange(at as int, chars.len() as int));
    stands_at(&chars, &pattern, at)
}

/// `s` without the copies of `prefix` that it begins with, however many follow
/// each other. An empty prefix takes nothing off.
pub open spec fn without_prefixes(s: Seq<char>, prefix: Seq<char>) -> Seq<char>
    decreases s.len(),
{
    if prefix.len() > 0 && prefix.is_prefix_of(s) {
        without_prefixes(s.skip(prefix.len() as int), prefix)
    } else {
        s
    }
}

/// What is left without a prefix does not begin with it.
pub proof fn lemma_prefixes_are_gone(s: Seq<char>, prefix: Seq<char>)
    requires
        prefix.len() > 0,
    ensures
        !prefix.is_prefix_of(without_prefixes(s, prefix)),
    decreases s.len(),
{
    if prefix.is_prefix_of(s) {
        lemma_prefixes_are_gone(s.skip(prefix.len() as int), prefix);
    }
}

/// Takes every copy of `prefix` off the front of `s`.
pub fn strip_prefixes(s: &str, prefix: &str) -> (r: String)
    ensures
        r@ == without_prefixes(s@, prefix@),
{
    let chars = chars_of(s);
    let pattern = chars_of(prefix);
    let mut at: usize = 0;
    assert(chars@.skip(0) =~= chars@);
    while pattern.len() > 0 && stands_at(&chars, &pattern, at)
        invariant
            at <= chars.len(),
            chars@ == s@,
            pattern@ == prefix@,
            without_prefixes(s@, prefix@) == without_prefixes(chars@.skip(at as int), prefix@),
        decreases chars.len() - at,
    {
        assert(chars@.skip(at as int).skip(pattern.len() as int) =~= chars@.skip(
            at + pattern.len(),
        ));
        at = at + pattern.len();
    }
    assert(chars@.skip(at as int) =~= chars@.subrange(at as int, chars.len() as int));
    range_text(&chars, at, chars.len())
}

/// Whether every character of `s` is white space; the empty text is blank.
pub open spec fn blank(s: Seq<char>) -> bool {
    forall|i: int| 0 <= i < s.len() ==> is_whitespace(#[trigger] s[i])
}

/// Tells whether a string is blank.
pub fn is_blank(s: &str) -> (r: bool)
    ensures
        r == blank(s@),
{
    let chars = chars_of(s);
    let mut i: usize = 0;
    while i < chars.len()
        invariant
            i <= chars.len(),
            chars@ == s@,
            forall|j: int| 0 <= j < i ==> is_whitespace(#[trigger] s@[j]),
        decreases chars.len() - i,
    {
        if !chars[i].is_whitespace() {
            assert(!is_whitespace(s@[i as int]));
            return false;
        }
        i = i + 1;
    }
    true
}

/// `s` without the white space at its front.
pub open spec fn trim_front(s: Seq<char>) -> Seq<char>
    decreases s.len(),
{
    if s.len() > 0 && is_whitespace(s[0]) {
        trim_front(s.skip(1))
    } else {
        s
    }
}

/// `s` without the white space at its end.
pub open spec fn trim_back(s: Seq<char>) -> Seq<char>
    decreases s.len(),
{
    if s.len() > 0 && is_whitespace(s.last()) {
        trim_back(s.drop_last())
    } else {
        s
    }
}

/// `s` without the white space at both ends.
pub open spec fn trimmed(s: Seq<char>) -> Seq<char> {
    trim_back(trim_front(s))
}

/// Trimming leaves nothing of a text exactly where the text is blank.
pub proof fn law_blank_iff_trimmed_away(s: Seq<char>)
    ensures
        blank(s) <==> trimmed(s).len() == 0,
{
    lemma_trim_front(s);
    let rest = trim_front(s);
    if rest.len() > 0 {
        lemma_trim_back_keeps_first(rest);
    }
}

proof fn lemma_trim_front(s: Seq<char>)
    ensures
        blank(s) <==> trim_front(s).len() == 0,
        trim_front(s).len() > 0 ==> !is_whitespace(trim_front(s)[0]),
    decreases s.len(),
{
    if s.len() > 0 {
        if is_whitespace(s[0]) {
            let rest = s.skip(1);
            lemma_trim_front(rest);
            if blank(s) {
                assert forall|i: int| 0 <= i < rest.len() implies is_whitespace(
                    #[trigger] rest[i],
                ) by {
                    assert(rest[i] == s[i + 1]);
                }
            }
            if blank(rest) {
                assert forall|i: int| 0 <= i < s.len() implies is_whitespace(#[trigger] s[i]) by {
                    if i > 0 {
                        assert(s[i] == rest[i - 1]);
                    }
                }
            }
        } else {
            assert(!is_whitespace(s[0]));
        }
    }
}

proof fn lemma_trim_back_keeps_first(s: Seq<char>)
    requires
        s.len() > 0,
        !is_whitespace(s[0]),
    ensures
        trim_back(s).len() > 0,
    decreases s.len(),
{
    if is_whitespace(s.last()) {
        assert(s.drop_last()[0] == s[0]);
        lemma_trim_back_keeps_first(s.drop_last());
    }
}

/// Takes the white space off both ends of a string.
pub fn trim(s: &str) -> (r: String)
    ensures
        r@ == trimmed(s@),
{
    let chars = chars_of(s);
    let n = chars.len();
    let mut from: usize = 0;
    assert(chars@.subrange(0, n as int) =~= chars@);
    while from < n && chars[from].is_whitespace()
        invariant
            from <= n,
            n == chars.len(),
            chars@ == s@,
            trim_front(s@) == trim_front(chars@.subrange(from as int, n as int)),
        decreases n - from,
    {
        assert(chars@.subrange(from as int, n as int).skip(1) =~= chars@.subrange(
            from + 1,
            n as int,
        ));
        from = from + 1;
    }
    let mut to: usize = n;
    while from < to && chars[to - 1].is_whitespace()
        invariant
            from <= to <= n,
            n == chars.len(),
            trimmed(s@) == trim_back(chars@.subrange(from as int, to as int)),
        decreases to - from,
    {
        let ghost rest = chars@.subrange(from as int, to as int);
        assert(rest.last() == chars@[to - 1]);
        assert(rest.drop_last() =~= chars@.subrange(from as int, to - 1));
        to = to - 1;
    }
    proof {
        let rest = chars@.subrange(from as int, to as int);
        if from < to {
            assert(rest.last() == chars@[to - 1]);
        }
    }
    range_text(&chars, from, to)
}

/// A line without the carriage return at its end, if it has one.
pub open spec fn without_return(line: Seq<char>) -> Seq<char> {
    if line.len() > 0 && line.last() == '\r' {
        line.drop_last()
    } else {
        line
    }
}

/// The lines of a text. A line ends at a line feed, or at a carriage return
/// followed by a line feed; the text after the last line feed is a line only
/// if it is not empty, and keeps its carriage return.
pub open spec fn lines(s: Seq<char>) -> Seq<Seq<char>>
    decreases s.len(),
    via lines_decreases
{
    if s.len() == 0 {
        Seq::empty()
    } else if s.contains('\n') {
        seq![without_return(s.take(s.index_of_first('\n')->0))] + lines(
            s.skip(s.index_of_first('\n')->0 + 1),
        )
    } else {
        seq![s]
    }
}

#[via_fn]
proof fn lines_decreases(s: Seq<char>) {
    s.index_of_first_ensures('\n');
}

/// A line, a line feed and more text: the line comes first, without its
/// carriage return, and the lines of the rest follow.
pub proof fn lemma_first_line(line: Seq<char>, rest: Seq<char>)
    requires
        !line.contains('\n'),
    ensures
        lines(line.push('\n') + rest) == seq![without_return(line)] + lines(rest),
{
    let s = line.push('\n') + rest;
    let n = line.len() as int;
    assert(s[n] == '\n');
    assert(s.contains('\n'));
    s.index_of_first_ensures('\n');
    let at = s.index_of_first('\n')->0;
    assert(at == n) by {
        if at < n {
            assert(line[at] == s[at]);
        }
    }
    assert(s.take(n) =~= line);
    assert(s.skip(n + 1) =~= rest);
}

/// No line holds a line feed.
pub proof fn lemma_lines_hold_no_feed(s: Seq<char>, i: int)
    requires
        0 <= i < lines(s).len(),
    ensures
        !lines(s)[i].contains('\n'),
    decreases s.len(),
{
    if s.contains('\n') {
        s.index_of_first_ensures('\n');
        let at = s.index_of_first('\n')->0;
        let line = without_return(s.take(at));
        if i == 0 {
            assert(lines(s)[0] == line);
            if line.contains('\n') {
                let j = choose|j: int| 0 <= j < line.len() && line[j] == '\n';
                assert(s[j] == '\n');
            }
        } else {
            assert(lines(s)[i] == lines(s.skip(at + 1))[i - 1]);
            lemma_lines_hold_no_feed(s.skip(at + 1), i - 1);
        }
    }
}

/// The lines of a text as strings.
pub fn split_lines(s: &str) -> (r: Vec<String>)
    ensures
        r@.map_values(|line: String| line@) == lines(s@),
{
    let chars = chars_of(s);
    let n = chars.len();
    let mut out: Vec<String> = Vec::new();
    let mut from: usize = 0;
    let mut i: usize = 0;
    assert(chars@.skip(0) =~= chars@);
    assert(out@.map_values(|line: String| line@) + lines(s@) =~= lines(s@));
    while i < n
        invariant
            from <= i <= n,
            n == chars.len(),
            chars@ == s@,
            forall|j: int| from <= j < i ==> chars@[j] != '\n',
            lines(s@) == out@.map_values(|line: String| line@) + lines(chars@.skip(from as int)),
        decreases n - i,
    {
        if chars[i] == '\n' {
            let ghost rest = chars@.skip(from as int);
            let end = if i > from && chars[i - 1] == '\r' {
                i - 1
            } else {
                i
            };
            let line = range_text(&chars, from, end);
            proof {
                assert(rest[i - from] == '\n');
                assert(rest.contains('\n'));
                rest.index_of_first_ensures('\n');
                let at = rest.index_of_first('\n')->0;
                assert(at == i - from) by {
                    assert(rest[at] == chars@[from + at]);
                }
                assert(rest.take(at) =~= chars@.subrange(from as int, i as int));
                assert(without_return(rest.take(at)) =~= line@);
                assert(rest.skip(at + 1) =~= chars@.skip(i + 1));
            }
            let ghost before = out@.map_values(|line: String| line@);
            out.push(line);
            proof {
                assert(out@.map_values(|line: String| line@) =~= before.push(line@));
                assert(before + (seq![line@] + lines(chars@.skip(i + 1))) =~= before.push(line@)
                    + lines(chars@.skip(i + 1)));
            }
            from = i + 1;
        }
        i = i + 1;
    }
    let ghost rest = chars@.skip(from as int);
    if from < n {
        let line = range_text(&chars, from, n);
        proof {
            assert(!rest.contains('\n')) by {
                if rest.contains('\n') {
                    let j = choose|j: int| 0 <= j < rest.len() && rest[j] == '\n';
                    assert(rest[j] == chars@[from + j]);
                }
            }
            assert(line@ =~= rest);
        }
        let ghost before = out@.map_values(|line: String| line@);
        out.push(line);
        assert(out@.map_values(|line: String| line@) =~= before + seq![rest]);
    } else {
        assert(out@.map_values(|line: String| line@) + lines(rest) =~= out@.map_values(
            |line: String| line@,
        ));
    }
    out
}

/// The character of a decimal digit.
pub open spec fn digit_char(d: nat) -> char {
    if d == 0 { '0' }
    else if d == 1 { '1' }
    else if d == 2 { '2' }
    else if d == 3 { '3' }
    else if d == 4 { '4' }
    else if d == 5 { '5' }
    else if d == 6 { '6' }
    else if d == 7 { '7' }
    else if d == 8 { '8' }
    else { '9' }
}

/// The decimal form of a number, without leading zeros.
pub open spec fn decimal(n: nat) -> Seq<char>
    decreases n,
{
    if n < 10 {
        seq![digit_char(n)]
    } else {
        decimal(n / 10).push(digit_char(n % 10))
    }
}

/// Appends the decimal form of a number.
pub fn push_decimal(out: &mut String, n: usize)
    ensures
        final(out)@ == old(out)@ + decimal(n as nat),
    decreases n,
{
    if n >= 10 {
        push_decimal(out, n / 10);
    }
    let ghost before = out@;
    let d = n % 10;
    let c = if d == 0 { '0' }
        else if d == 1 { '1' }
        else if d == 2 { '2' }
        else if d == 3 { '3' }
        else if d == 4 { '4' }
        else if d == 5 { '5' }
        else if d == 6 { '6' }
        else if d == 7 { '7' }
        else if d == 8 { '8' }
        else { '9' };
    out.push(c);
    proof {
        assert(c == digit_char((n % 10) as nat));
        if n >= 10 {
            assert(out@ =~= old(out)@ + decimal((n / 10) as nat).push(c));
        } else {
            assert(out@ =~= old(out)@ + seq![c]);
        }
    }
}

/// The value of a character as a decimal digit.
pub open spec fn digit_value(c: char) -> Option<nat> {
    if '0' <= c <= '9' {
        Some((c as nat - '0' as nat) as nat)
    } else {
        None
    }
}

/// Whether a text consists of decimal digits alone.
pub open spec fn all_digits(s: Seq<char>) -> bool {
    forall|i: int| 0 <= i < s.len() ==> digit_value(#[trigger] s[i]) is Some
}

/// The number that decimal digits denote, the most significant first.
pub open spec fn digits_value(s: Seq<char>) -> nat
    decreases s.len(),
{
    if s.len() == 0 {
        0
    } else {
        digits_value(s.drop_last()) * 10 + digit_value(s.last())->0
    }
}

/// A text without one leading plus sign.
pub open spec fn without_plus(s: Seq<char>) -> Seq<char> {
    if s.len() > 0 && s[0] == '+' {
        s.skip(1)
    } else {
        s
    }
}

/// The port number that a text denotes: an optional plus sign, then decimal
/// digits, at least one, whose value fits in sixteen bits.
pub open spec fn port_number(s: Seq<char>) -> Option<u16> {
    let digits = without_plus(s);
    if digits.len() > 0 && all_digits(digits) && digits_value(digits) <= u16::MAX {
        Some(digits_value(digits) as u16)
    } else {
        None
    }
}

proof fn lemma_digits_value_grows(s: Seq<char>, n: int)
    requires
        0 <= n <= s.len(),
    ensures
        digits_value(s.take(n)) <= digits_value(s),
    decreases s.len() - n,
{
    if n < s.len() {
        lemma_digits_value_grows(s, n + 1);
        assert(s.take(n + 1).drop_last() =~= s.take(n));
    } else {
        assert(s.take(n) =~= s);
    }
}

/// Reads a port number.
pub fn parse_port(s: &str) -> (r: Option<u16>)
    ensures
        r == port_number(s@),
{
    let chars = chars_of(s);
    let n = chars.len();
    let from: usize = if n > 0 && chars[0] == '+' { 1 } else { 0 };
    let ghost digits = without_plus(s@);
    assert(digits =~= chars@.skip(from as int));
    if from == n {
        return None;
    }
    let mut value: u32 = 0;
    let mut i: usize = from;
    while i < n
        invariant
            from <= i <= n,
            n == chars.len(),
            digits == chars@.skip(from as int),
            digits == without_plus(s@),
            value <= u16::MAX,
            value == digits_value(digits.take(i - from)),
            forall|j: int| 0 <= j < i - from ==> digit_value(#[trigger] digits[j]) is Some,
        decreases n - i,
    {
        let c = chars[i];
        assert(digits[i - from] == c);
        if c < '0' || c > '9' {
            assert(!all_digits(digits));
            return None;
        }
        let d: u32 = c as u32 - '0' as u32;
        assert(digits.take(i - from + 1).drop_last() =~= digits.take(i - from));
        assert(digits.take(i - from + 1).last() == c);
        value = value * 10 + d;
        assert(value == digits_value(digits.take(i - from + 1)));
        if value > 65535 {
            proof {
                lemma_digits_value_grows(digits, i - from + 1);
            }
            return None;
        }
        i = i + 1;
    }
    assert(digits.take(n - from) =~= digits);
    Some(value as u16)
}

/// The decimal form of a port reads back as the port.
pub proof fn law_port_reads_back(port: u16)
    ensures
        port_number(decimal(port as nat)) == Some(port),
{
    lemma_decimal_reads_back(port as nat);
    let digits = decimal(port as nat);
    assert(digit_value(digits[0]) is Some);
    assert(without_plus(digits) == digits);
}

pub(crate) proof fn lemma_decimal_reads_back(n: nat)
    ensures
        decimal(n).len() > 0,
        all_digits(decimal(n)),
        digits_value(decimal(n)) == n,
    decreases n,
{
    lemma_digit_reads_back(n % 10);
    let last = digit_char(n % 10);
    if n < 10 {
        let digits = seq![last];
        assert(digits.last() == last);
        assert(digits.drop_last() =~= Seq::<char>::empty());
        assert(digits_value(digits.drop_last()) == 0);
    } else {
        lemma_decimal_reads_back(n / 10);
        let digits = decimal(n / 10).push(last);
        assert(digits.drop_last() =~= decimal(n / 10));
        assert(digits.last() == last);
    }
}

proof fn lemma_digit_reads_back(d: nat)
    requires
        d < 10,
    ensures
        digit_value(digit_char(d)) == Some(d),
{
}

/// The part of a text before the first `c` in it, or all of it.
pub open spec fn before(s: Seq<char>, c: char) -> Seq<char> {
    if s.contains(c) {
        s.take(s.index_of_first(c)->0)
    } else {
        s
    }
}

/// The part of a text after the first `c` in it, where there is one.
pub open spec fn after(s: Seq<char>, c: char) -> Option<Seq<char>> {
    if s.contains(c) {
        Some(s.skip(s.index_of_first(c)->0 + 1))
    } else {
        None
    }
}

/// Whether a text begins with a minus sign.
pub open spec fn negative(s: Seq<char>) -> bool {
    s.len() > 0 && s[0] == '-'
}

/// A text without one leading sign.
pub open spec fn without_sign(s: Seq<char>) -> Seq<char> {
    if s.len() > 0 && (s[0] == '-' || s[0] == '+') {
        s.skip(1)
    } else {
        s
    }
}

/// The power of ten that a number is scaled by: none without an exponent, else
/// an optional sign and up to three digits.
pub open spec fn exponent_value(exponent: Option<Seq<char>>) -> Option<int> {
    match exponent {
        None => Some(0),
        Some(e) => {
            let digits = without_sign(e);
            if 1 <= digits.len() <= 3 && all_digits(digits) {
                Some(
                    if negative(e) {
                        -(digits_value(digits) as int)
                    } else {
                        digits_value(digits) as int
                    },
                )
            } else {
                None
            }
        },
    }
}

/// A number of zeros.
pub open spec fn zeros(n: nat) -> Seq<char> {
    Seq::new(n, |i: int| '0')
}

/// Digits scaled by a power of ten. Scaled down they lose zeros at their end;
/// where another digit would be lost, the number is no integer.
pub open spec fn scaled(digits: Seq<char>, power: int) -> Option<Seq<char>>
    decreases digits.len(),
{
    if power >= 0 {
        Some(digits + zeros(power as nat))
    } else if digits.len() == 0 {
        Some(digits)
    } else if digits.last() == '0' {
        scaled(digits.drop_last(), power + 1)
    } else {
        None
    }
}

/// The integer that the text of a JSON number denotes, where it denotes one: an
/// optional sign, digits, an optional fraction and an optional exponent, such
/// that no fraction is left.
pub open spec fn whole_number(s: Seq<char>) -> Option<int> {
    let unsigned = without_sign(s);
    let mantissa = before(unsigned, 'e');
    let whole = before(mantissa, '.');
    let fraction = match after(mantissa, '.') {
        Some(digits) => digits,
        None => Seq::empty(),
    };
    let has_digits = whole.len() > 0 && all_digits(whole) && all_digits(fraction) && (after(
        mantissa,
        '.',
    ) is Some ==> fraction.len() > 0);
    match exponent_value(after(unsigned, 'e')) {
        Some(exponent) if has_digits => match scaled(whole + fraction, exponent - fraction.len()) {
            Some(digits) => Some(
                if negative(s) {
                    -(digits_value(digits) as int)
                } else {
                    digits_value(digits) as int
                },
            ),
            None => None,
        },
        _ => None,
    }
}

/// The nearest integer of the range of `i64`.
pub open spec fn clamped(n: int) -> i64 {
    if n < i64::MIN {
        i64::MIN
    } else if n > i64::MAX {
        i64::MAX
    } else {
        n as i64
    }
}

/// The characters of `chars` from `from` up to `to`.
fn part(chars: &Vec<char>, from: usize, to: usize) -> (r: Vec<char>)
    requires
        from <= to <= chars.len(),
    ensures
        r@ == chars@.subrange(from as int, to as int),
{
    let mut out: Vec<char> = Vec::new();
    let mut i: usize = from;
    while i < to
        invariant
            from <= i <= to <= chars.len(),
            out@ == chars@.subrange(from as int, i as int),
        decreases to - i,
    {
        out.push(chars[i]);
        i = i + 1;
        assert(out@ =~= chars@.subrange(from as int, i as int));
    }
    out
}

/// Splits characters at the first `c`.
fn split_once(chars: &Vec<char>, c: char) -> (r: (Vec<char>, Option<Vec<char>>))
    ensures
        r.0@ == before(chars@, c),
        after(chars@, c) == (match r.1 {
            Some(rest) => Some(rest@),
            None => None,
        }),
{
    let n = chars.len();
    let mut i: usize = 0;
    while i < n
        invariant
            i <= n,
            n == chars.len(),
            forall|j: int| 0 <= j < i ==> chars@[j] != c,
        decreases n - i,
    {
        if chars[i] == c {
            proof {
                assert(chars@.contains(c));
                chars@.index_of_first_ensures(c);
                assert(chars@.index_of_first(c) == Some(i as int));
            }
            let head = part(chars, 0, i);
            let rest = part(chars, i + 1, n);
            assert(head@ =~= before(chars@, c));
            assert(rest@ =~= chars@.skip(i + 1));
            return (head, Some(rest));
        }
        i = i + 1;
    }
    let all = part(chars, 0, n);
    assert(all@ =~= chars@);
    (all, None)
}

/// Takes a sign off the front of characters.
fn skip_sign(chars: &Vec<char>) -> (r: Vec<char>)
    ensures
        r@ == without_sign(chars@),
{
    let n = chars.len();
    let from: usize = if n > 0 && (chars[0] == '-' || chars[0] == '+') { 1 } else { 0 };
    let rest = part(chars, from, n);
    assert(rest@ =~= without_sign(chars@));
    rest
}

fn are_digits(chars: &Vec<char>) -> (r: bool)
    ensures
        r == all_digits(chars@),
{
    let mut i: usize = 0;
    while i < chars.len()
        invariant
            i <= chars.len(),
            forall|j: int| 0 <= j < i ==> digit_value(#[trigger] chars@[j]) is Some,
        decreases chars.len() - i,
    {
        let c = chars[i];
        if c < '0' || c > '9' {
            assert(digit_value(chars@[i as int]) is None);
            return false;
        }
        i = i + 1;
    }
    true
}

/// One more than the greatest `i64`: how far digits are counted.
const FULL_COUNT: u128 = 9223372036854775808;

/// The number that digits denote, or [`FULL_COUNT`] where it is greater.
fn count_digits(digits: &Vec<char>) -> (r: u128)
    requires
        all_digits(digits@),
    ensures
        r == if digits_value(digits@) < FULL_COUNT {
            digits_value(digits@)
        } else {
            FULL_COUNT as nat
        },
{
    let mut value: u128 = 0;
    let mut i: usize = 0;
    while i < digits.len()
        invariant
            i <= digits.len(),
            all_digits(digits@),
            value == if digits_value(digits@.take(i as int)) < FULL_COUNT {
                digits_value(digits@.take(i as int))
            } else {
                FULL_COUNT as nat
            },
        decreases digits.len() - i,
    {
        let c = digits[i];
        assert(digit_value(digits@[i as int]) is Some);
        assert(digits@.take(i + 1).drop_last() =~= digits@.take(i as int));
        assert(digits@.take(i + 1).last() == c);
        let d: u128 = (c as u32 - '0' as u32) as u128;
        let grown: u128 = value * 10 + d;
        value = if grown < FULL_COUNT { grown } else { FULL_COUNT };
        i = i + 1;
    }
    assert(digits@.take(i as int) =~= digits@);
    value
}

fn read_exponent(exponent: &Option<Vec<char>>) -> (r: Option<i128>)
    ensures
        exponent_value(
            match exponent {
                Some(e) => Some(e@),
                None => None,
            },
        ) == (match r {
            Some(power) => Some(power as int),
            None => None,
        }),
        r matches Some(power) ==> -1000 < power < 1000,
{
    match exponent {
        None => Some(0),
        Some(e) => {
            let digits = skip_sign(e);
            if digits.len() == 0 || digits.len() > 3 || !are_digits(&digits) {
                return None;
            }
            proof {
                lemma_three_digits(digits@);
            }
            let value: i128 = count_digits(&digits) as i128;
            if e.len() > 0 && e[0] == '-' {
                Some(-value)
            } else {
                Some(value)
            }
        },
    }
}

proof fn lemma_three_digits(digits: Seq<char>)
    requires
        digits.len() <= 3,
        all_digits(digits),
    ensures
        digits_value(digits) < 1000,
{
    reveal_with_fuel(digits_value, 4);
    if digits.len() > 0 {
        assert(digit_value(digits[digits.len() - 1]) is Some);
        let two = digits.drop_last();
        if two.len() > 0 {
            assert(two.last() == digits[two.len() - 1]);
            assert(digit_value(digits[two.len() - 1]) is Some);
            let one = two.drop_last();
            if one.len() > 0 {
                assert(one.last() == digits[0]);
                assert(digit_value(digits[0]) is Some);
            }
        }
    }
}

/// Scales digits by a power of ten.
fn scale(digits: Vec<char>, power: i128) -> (r: Option<Vec<char>>)
    requires
        all_digits(digits@),
        power < 1000,
    ensures
        scaled(digits@, power as int) == (match r {
            Some(all) => Some(all@),
            None => None,
        }),
        r matches Some(all) ==> all_digits(all@),
{
    let ghost whole = digits@;
    let mut rest = digits;
    let mut left: i128 = power;
    while left < 0 && rest.len() > 0
        invariant
            left < 1000,
            all_digits(rest@),
            whole == digits@,
            scaled(whole, power as int) == scaled(rest@, left as int),
        decreases rest.len(),
    {
        if rest[rest.len() - 1] != '0' {
            return None;
        }
        let ghost longer = rest@;
        rest.pop();
        assert(rest@ =~= longer.drop_last());
        assert forall|i: int| 0 <= i < rest@.len() implies digit_value(
            #[trigger] rest@[i],
        ) is Some by {
            assert(digit_value(longer[i]) is Some);
        }
        left = left + 1;
    }
    if left < 0 {
        return Some(rest);
    }
    let ghost start = rest@;
    let mut added: i128 = 0;
    assert(start + zeros(0) =~= start);
    while added < left
        invariant
            0 <= added <= left < 1000,
            all_digits(rest@),
            rest@ == start + zeros(added as nat),
        decreases left - added,
    {
        rest.push('0');
        added = added + 1;
        assert(rest@ =~= start + zeros(added as nat));
    }
    Some(rest)
}

/// Reads the integer that the text of a JSON number denotes. One out of range
/// counts as the nearest that is in it.
pub fn read_integer(s: &str) -> (r: Option<i64>)
    ensures
        r == (match whole_number(s@) {
            Some(n) => Some(clamped(n)),
            None => None,
        }),
{
    let chars = chars_of(s);
    let minus = chars.len() > 0 && chars[0] == '-';
    let unsigned = skip_sign(&chars);
    let (mantissa, exponent) = split_once(&unsigned, 'e');
    let (whole, point) = split_once(&mantissa, '.');
    let power = match read_exponent(&exponent) {
        Some(power) => power,
        None => return None,
    };
    let mut digits = whole;
    if digits.len() == 0 || !are_digits(&digits) {
        return None;
    }
    let ghost head = digits@;
    let mut places: i128 = 0;
    match point {
        Some(fraction) => {
            if fraction.len() == 0 || !are_digits(&fraction) {
                return None;
            }
            places = fraction.len() as i128;
            let ghost tail = fraction@;
            let mut more = fraction;
            digits.append(&mut more);
            assert(digits@ =~= head + tail);
            assert forall|i: int| 0 <= i < digits@.len() implies digit_value(
                #[trigger] digits@[i],
            ) is Some by {
                if i < head.len() {
                    assert(digit_value(head[i]) is Some);
                } else {
                    assert(digit_value(tail[i - head.len()]) is Some);
                }
            }
        },
        None => {
            assert(head + Seq::<char>::empty() =~= head);
        },
    }
    let all = match scale(digits, power - places) {
        Some(all) => all,
        None => return None,
    };
    let count = count_digits(&all);
    if minus {
        if count == FULL_COUNT {
            Some(i64::MIN)
        } else {
            Some(-(count as i64))
        }
    } else if count == FULL_COUNT {
        Some(i64::MAX)
    } else {
        Some(count as i64)
    }
}

/// A fraction of zeros makes no difference: the number is the integer before
/// it.
pub proof fn law_zero_fraction_is_no_fraction(n: nat, k: nat)
    requires
        k > 0,
    ensures
        whole_number(decimal(n) + seq!['.'] + zeros(k)) == Some(n as int),
        whole_number(decimal(n)) == Some(n as int),
{
    let digits = decimal(n);
    let s = digits + seq!['.'] + zeros(k);
    lemma_decimal_reads_back(n);
    assert(digit_value(digits[0]) is Some);
    assert(s[0] == digits[0]);
    assert(!s.contains('e')) by {
        if s.contains('e') {
            let i = choose|i: int| 0 <= i < s.len() && s[i] == 'e';
            if i < digits.len() {
                assert(digit_value(digits[i]) is Some);
            }
        }
    }
    assert(!digits.contains('e') && !digits.contains('.')) by {
        if digits.contains('e') {
            let i = choose|i: int| 0 <= i < digits.len() && digits[i] == 'e';
            assert(digit_value(digits[i]) is Some);
        }
        if digits.contains('.') {
            let i = choose|i: int| 0 <= i < digits.len() && digits[i] == '.';
            assert(digit_value(digits[i]) is Some);
        }
    }
    assert(s[digits.len() as int] == '.');
    assert(s.contains('.'));
    s.index_of_first_ensures('.');
    let at = s.index_of_first('.')->0;
    assert(at == digits.len()) by {
        if at < digits.len() {
            assert(digit_value(digits[at]) is Some);
        }
    }
    assert(s.take(at) =~= digits);
    assert(s.skip(at + 1) =~= zeros(k));
    assert(all_digits(zeros(k)));
    lemma_zeros_scale_away(digits, k);
    assert(digits + Seq::<char>::empty() =~= digits);
    assert(digits + zeros(0) =~= digits);
}

proof fn lemma_zeros_scale_away(digits: Seq<char>, k: nat)
    ensures
        scaled(digits + zeros(k), -(k as int)) == Some(digits),
    decreases k,
{
    let all = digits + zeros(k);
    if k == 0 {
        assert(all + zeros(0) =~= digits);
    } else {
        assert(all.last() == '0');
        assert(all.drop_last() =~= digits + zeros((k - 1) as nat));
        lemma_zeros_scale_away(digits, (k - 1) as nat);
    }
}

/// The port that a server listens on: the number that the variable holds, or
/// `default` where it is unset or holds no port number.
pub open spec fn port_or(setting: Option<Seq<char>>, default: u16) -> u16 {
    match setting {
        Some(s) => match port_number(s) {
            Some(port) => port,
            None => default,
        },
        None => default,
    }
}

/// Picks the port that a server listens on.
pub fn configured_port(setting: Option<&str>, default: u16) -> (r: u16)
    ensures
        r == port_or(
            match setting {
                Some(s) => Some(s@),
                None => None,
            },
            default,
        ),
{
    match setting {
        Some(s) => match parse_port(s) {
            Some(port) => port,
            None => default,
        },
        None => default,
    }
}

} // verus!
