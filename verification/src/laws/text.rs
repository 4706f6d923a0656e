//! Laws of text.

use vstd::prelude::*;
use crate::text;

verus! {

/// A copy of the prefix is taken off the front, and then the others; a text
/// that does not begin with the prefix stays as it is.
pub proof fn law_prefixes(s: Seq<char>, prefix: Seq<char>)
    ensures
        text::without_prefixes(prefix + s, prefix) == text::without_prefixes(s, prefix),
        !prefix.is_prefix_of(s) ==> text::without_prefixes(s, prefix) == s,
        prefix.len() == 0 ==> text::without_prefixes(s, prefix) == s,
{
    assert((prefix + s).subrange(0, prefix.len() as int) =~= prefix);
    assert((prefix + s).skip(prefix.len() as int) =~= s);
    if prefix.len() == 0 {
        assert(prefix + s =~= s);
    }
}

/// A text is blank exactly where all its parts are, and a character is blank
/// where it is white space.
pub proof fn law_blank(a: Seq<char>, b: Seq<char>, c: char)
    ensures
        text::blank(Seq::empty()),
        text::blank(seq![c]) == text::is_whitespace(c),
        text::blank(a + b) == (text::blank(a) && text::blank(b)),
{
    if text::is_whitespace(c) {
        assert(text::blank(seq![c]));
    } else {
        assert(!text::is_whitespace(seq![c][0]));
    }
    if text::blank(a + b) {
        assert forall|i: int| 0 <= i < a.len() implies text::is_whitespace(#[trigger] a[i]) by {
            assert(text::is_whitespace((a + b)[i]));
        }
        assert forall|i: int| 0 <= i < b.len() implies text::is_whitespace(#[trigger] b[i]) by {
            assert(text::is_whitespace((a + b)[a.len() + i]));
        }
    }
}

/// Trimming takes off the white space around a text, and nothing else.
pub proof fn law_trim(front: Seq<char>, text: Seq<char>, back: Seq<char>)
    requires
        text::blank(front),
        text::blank(back),
        text.len() > 0 ==> !text::is_whitespace(text[0]) && !text::is_whitespace(text.last()),
    ensures
        text::trimmed(front + text + back) == text,
{
    let rest = text + back;
    assert(front + text + back =~= front + rest);
    lemma_front(front, rest);
    if text.len() == 0 {
        assert(rest =~= back);
        lemma_front(back, Seq::empty());
        assert(back + Seq::<char>::empty() =~= back);
        assert(text::trimmed(front + text + back) =~= text);
    } else {
        assert(rest[0] == text[0]);
        lemma_back(text, back);
    }
}

proof fn lemma_front(front: Seq<char>, rest: Seq<char>)
    requires
        text::blank(front),
    ensures
        text::trim_front(front + rest) == text::trim_front(rest),
    decreases front.len(),
{
    if front.len() == 0 {
        assert(front + rest =~= rest);
    } else {
        let shorter = front.skip(1);
        assert forall|i: int| 0 <= i < shorter.len() implies text::is_whitespace(
            #[trigger] shorter[i],
        ) by {
            assert(text::is_whitespace(front[i + 1]));
        }
        assert(text::is_whitespace(front[0]));
        assert((front + rest)[0] == front[0]);
        assert((front + rest).skip(1) =~= shorter + rest);
        lemma_front(shorter, rest);
    }
}

proof fn lemma_back(text: Seq<char>, back: Seq<char>)
    requires
        text::blank(back),
        text.len() > 0,
        !text::is_whitespace(text.last()),
    ensures
        text::trim_back(text + back) == text,
    decreases back.len(),
{
    if back.len() == 0 {
        assert(text + back =~= text);
    } else {
        let shorter = back.drop_last();
        assert forall|i: int| 0 <= i < shorter.len() implies text::is_whitespace(
            #[trigger] shorter[i],
        ) by {
            assert(text::is_whitespace(back[i]));
        }
        assert(text::is_whitespace(back[back.len() - 1]));
        assert((text + back).last() == back[back.len() - 1]);
        assert((text + back).drop_last() =~= text + shorter);
        lemma_back(text, shorter);
    }
}

/// A text without line feeds is one line, or none where it is empty. Before a
/// line feed, or a carriage return and a line feed, stands a line, and the
/// lines of the rest follow.
pub proof fn law_lines(line: Seq<char>, rest: Seq<char>)
    requires
        !line.contains('\n'),
    ensures
        text::lines(Seq::empty()) == Seq::<Seq<char>>::empty(),
        line.len() > 0 ==> text::lines(line) == seq![line],
        text::lines(line + seq!['\r', '\n'] + rest) == seq![line] + text::lines(rest),
        line.len() == 0 || line.last() != '\r' ==> text::lines(line + seq!['\n'] + rest) == seq![line]
            + text::lines(rest),
{
    let returned = line.push('\r');
    assert(!returned.contains('\n')) by {
        if returned.contains('\n') {
            let i = choose|i: int| 0 <= i < returned.len() && returned[i] == '\n';
            assert(line[i] == '\n');
        }
    }
    text::lemma_first_line(returned, rest);
    assert(returned.push('\n') + rest =~= line + seq!['\r', '\n'] + rest);
    assert(returned.drop_last() =~= line);
    text::lemma_first_line(line, rest);
    assert(line.push('\n') + rest =~= line + seq!['\n'] + rest);
}

/// A number is written with its last digit last, behind the number without
/// that digit, if that is not zero.
pub proof fn law_decimal(n: nat)
    ensures
        text::decimal(n).len() > 0,
        text::decimal(n).last() as int == '0' as int + n % 10,
        text::decimal(n).drop_last() == if n < 10 {
            Seq::<char>::empty()
        } else {
            text::decimal(n / 10)
        },
{
    if n < 10 {
        assert(text::decimal(n).drop_last() =~= Seq::<char>::empty());
    } else {
        assert(text::decimal(n).drop_last() =~= text::decimal(n / 10));
    }
}

proof fn lemma_leading_zeros(k: nat, digits: Seq<char>)
    requires
        text::all_digits(digits),
    ensures
        text::all_digits(text::zeros(k) + digits),
        text::digits_value(text::zeros(k) + digits) == text::digits_value(digits),
    decreases digits.len() + k,
{
    let all = text::zeros(k) + digits;
    assert forall|i: int| 0 <= i < all.len() implies text::digit_value(
        #[trigger] all[i],
    ) is Some by {
        if i >= k {
            assert(text::digit_value(digits[i - k]) is Some);
        }
    }
    if digits.len() > 0 {
        let shorter = digits.drop_last();
        assert forall|i: int| 0 <= i < shorter.len() implies text::digit_value(
            #[trigger] shorter[i],
        ) is Some by {
            assert(text::digit_value(digits[i]) is Some);
        }
        lemma_leading_zeros(k, shorter);
        assert(all.drop_last() =~= text::zeros(k) + shorter);
        assert(all.last() == digits.last());
    } else if k > 0 {
        lemma_leading_zeros((k - 1) as nat, digits);
        assert(all.drop_last() =~= text::zeros((k - 1) as nat) + digits);
        assert(all.last() == '0');
    }
}

/// A port is read from its decimal form, with zeros and a plus sign before it
/// or without; a number that is too great is no port.
pub proof fn law_port_is_read(n: nat, k: nat)
    ensures
        text::port_number(text::zeros(k) + text::decimal(n)) == (if n <= 65535 {
            Some(n as u16)
        } else {
            None
        }),
        text::port_number(seq!['+'] + text::zeros(k) + text::decimal(n)) == (if n <= 65535 {
            Some(n as u16)
        } else {
            None
        }),
{
    text::lemma_decimal_reads_back(n);
    lemma_leading_zeros(k, text::decimal(n));
    let digits = text::zeros(k) + text::decimal(n);
    assert(text::digit_value(digits[0]) is Some);
    assert(text::without_plus(digits) =~= digits);
    let signed = seq!['+'] + text::zeros(k) + text::decimal(n);
    assert(signed.skip(1) =~= digits);
}

/// A text with anything else in it, or without digits, is no port.
pub proof fn law_port_is_digits(s: Seq<char>, i: int)
    requires
        0 <= i < s.len() ==> !('0' <= s[i] <= '9') && (i > 0 || s[0] != '+'),
        i < 0 || i >= s.len() ==> s.len() == 0 || s == seq!['+'],
    ensures
        text::port_number(s) is None,
{
    let digits = text::without_plus(s);
    if 0 <= i < s.len() {
        if s[0] == '+' {
            assert(digits[i - 1] == s[i]);
            assert(text::digit_value(digits[i - 1]) is None);
        } else {
            assert(text::digit_value(digits[i]) is None);
        }
    } else {
        assert(digits.len() == 0);
    }
}

/// The port of a server is the one that is set, where a port is set, and else
/// the default.
pub proof fn law_port_falls_back(setting: Option<Seq<char>>, default: u16)
    ensures
        setting is None ==> text::port_or(setting, default) == default,
        setting is Some && text::port_number(setting->0) is None ==> text::port_or(setting, default)
            == default,
        setting is Some && text::port_number(setting->0) is Some ==> Some(text::port_or(setting, default))
            == text::port_number(setting->0),
{
}

proof fn lemma_plain_digits(digits: Seq<char>)
    requires
        digits.len() > 0,
        text::all_digits(digits),
    ensures
        !digits.contains('e'),
        !digits.contains('.'),
        digits[0] != '-',
        digits[0] != '+',
{
    assert(text::digit_value(digits[0]) is Some);
    if digits.contains('e') {
        let i = choose|i: int| 0 <= i < digits.len() && digits[i] == 'e';
        assert(text::digit_value(digits[i]) is Some);
    }
    if digits.contains('.') {
        let i = choose|i: int| 0 <= i < digits.len() && digits[i] == '.';
        assert(text::digit_value(digits[i]) is Some);
    }
}

/// A minus sign makes a number negative, a plus sign does nothing.
pub proof fn law_signs(n: nat)
    ensures
        text::whole_number(text::decimal(n)) == Some(n as int),
        text::whole_number(seq!['-'] + text::decimal(n)) == Some(-(n as int)),
        text::whole_number(seq!['+'] + text::decimal(n)) == Some(n as int),
{
    text::law_zero_fraction_is_no_fraction(n, 1);
    let digits = text::decimal(n);
    text::lemma_decimal_reads_back(n);
    lemma_plain_digits(digits);
    let minus = seq!['-'] + digits;
    let plus = seq!['+'] + digits;
    assert(minus.skip(1) =~= digits);
    assert(plus.skip(1) =~= digits);
    assert(digits + Seq::<char>::empty() =~= digits);
    assert(digits + text::zeros(0) =~= digits);
    assert(text::without_sign(minus) == digits);
    assert(text::without_sign(plus) == digits);
}

proof fn lemma_trailing_zeros(digits: Seq<char>, k: nat)
    ensures
        text::digits_value(digits + text::zeros(k)) == text::digits_value(digits) * vstd::arithmetic::power::pow(10, k),
    decreases k,
{
    vstd::arithmetic::power::lemma_pow0(10);
    if k == 0 {
        assert(digits + text::zeros(0) =~= digits);
    } else {
        let shorter = (k - 1) as nat;
        lemma_trailing_zeros(digits, shorter);
        let all = digits + text::zeros(k);
        assert(all.drop_last() =~= digits + text::zeros(shorter));
        assert(all.last() == '0');
        reveal(vstd::arithmetic::power::pow);
        assert(vstd::arithmetic::power::pow(10, k) == 10 * vstd::arithmetic::power::pow(10, shorter));
        let value = text::digits_value(digits);
        let small = vstd::arithmetic::power::pow(10, shorter);
        assert(value * small * 10 == value * (10 * small)) by (nonlinear_arith);
    }
}

/// An exponent scales a number by that power of ten, with a plus sign before it
/// or without.
pub proof fn law_exponent(n: nat, k: nat)
    requires
        k < 1000,
    ensures
        text::whole_number(text::decimal(n) + seq!['e'] + text::decimal(k))
            == Some(n * vstd::arithmetic::power::pow(10, k)),
        text::whole_number(
            text::decimal(n) + seq!['e', '+'] + text::decimal(k),
        ) == Some(n * vstd::arithmetic::power::pow(10, k)),
{
    let digits = text::decimal(n);
    let power = text::decimal(k);
    text::lemma_decimal_reads_back(n);
    text::lemma_decimal_reads_back(k);
    lemma_plain_digits(digits);
    lemma_plain_digits(power);
    lemma_short_decimal(k);
    lemma_trailing_zeros(digits, k);
    assert(digits + Seq::<char>::empty() =~= digits);
    let signed = seq!['+'] + power;
    assert(signed.skip(1) =~= power);
    lemma_at_exponent(digits, power);
    lemma_at_exponent(digits, signed);
    assert(digits + seq!['e', '+'] + power =~= digits + seq!['e'] + signed);
}

proof fn lemma_short_decimal(k: nat)
    requires
        k < 1000,
    ensures
        text::decimal(k).len() <= 3,
{
    reveal_with_fuel(text::decimal, 4);
}

proof fn lemma_at_exponent(digits: Seq<char>, exponent: Seq<char>)
    requires
        digits.len() > 0,
        !digits.contains('e'),
        digits[0] != '-',
        digits[0] != '+',
    ensures
        ({
            let s = digits + seq!['e'] + exponent;
            &&& text::without_sign(s) == s
            &&& !text::negative(s)
            &&& text::before(s, 'e') == digits
            &&& text::after(s, 'e') == Some(exponent)
        }),
{
    let s = digits + seq!['e'] + exponent;
    assert(s[0] == digits[0]);
    assert(s[digits.len() as int] == 'e');
    assert(s.contains('e'));
    s.index_of_first_ensures('e');
    let at = s.index_of_first('e')->0;
    assert(at == digits.len()) by {
        if at < digits.len() {
            assert(digits[at] == 'e');
        }
    }
    assert(s.take(at) =~= digits);
    assert(s.skip(at + 1) =~= exponent);
}

/// A fraction that is not of zeros alone leaves no integer.
pub proof fn law_true_fraction_is_no_integer(n: nat, fraction: Seq<char>, i: int)
    requires
        text::all_digits(fraction),
        0 <= i < fraction.len(),
        fraction[i] != '0',
    ensures
        text::whole_number(text::decimal(n) + seq!['.'] + fraction) is None,
{
    let digits = text::decimal(n);
    let s = digits + seq!['.'] + fraction;
    text::lemma_decimal_reads_back(n);
    lemma_plain_digits(digits);
    lemma_plain_digits(fraction);
    assert(s[0] == digits[0]);
    assert(!s.contains('e')) by {
        if s.contains('e') {
            let j = choose|j: int| 0 <= j < s.len() && s[j] == 'e';
            if j < digits.len() {
                assert(digits[j] == 'e');
            } else if j > digits.len() {
                assert(fraction[j - digits.len() - 1] == 'e');
            }
        }
    }
    assert(s[digits.len() as int] == '.');
    assert(s.contains('.'));
    s.index_of_first_ensures('.');
    let at = s.index_of_first('.')->0;
    assert(at == digits.len()) by {
        if at < digits.len() {
            assert(digits[at] == '.');
        }
    }
    assert(s.take(at) =~= digits);
    assert(s.skip(at + 1) =~= fraction);
    lemma_not_scaled(digits + fraction, digits.len() + i, -(fraction.len() as int));
}

proof fn lemma_not_scaled(digits: Seq<char>, i: int, power: int)
    requires
        0 <= i < digits.len(),
        digits[i] != '0',
        power < 0,
        digits.len() + power <= i,
    ensures
        text::scaled(digits, power) is None,
    decreases digits.len(),
{
    if digits.last() == '0' {
        assert(digits.drop_last()[i] == digits[i]);
        lemma_not_scaled(digits.drop_last(), i, power + 1);
    }
}

/// An integer of the range stays; one beyond it becomes the nearest end.
pub proof fn law_clamped(n: int)
    ensures
        i64::MIN <= n <= i64::MAX ==> text::clamped(n) == n,
        n > i64::MAX ==> text::clamped(n) == i64::MAX,
        n < i64::MIN ==> text::clamped(n) == i64::MIN,
{
}

} // verus!
