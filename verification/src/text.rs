//! The texts that requests and answers are made of: joining, trimming, and decimal
//! numbers.

use vstd::prelude::*;

verus! {

/// `s` without the slashes at its end.
pub open spec fn without_end_slashes(s: Seq<char>) -> Seq<char>
    decreases s.len(),
{
    if s.len() > 0 && s.last() == '/' {
        without_end_slashes(s.drop_last())
    } else {
        s
    }
}

/// The parts in order, with `separator` between any two neighbours.
pub open spec fn joined(parts: Seq<Seq<char>>, separator: Seq<char>) -> Seq<char>
    decreases parts.len(),
{
    if parts.len() == 0 {
        Seq::empty()
    } else if parts.len() == 1 {
        parts[0]
    } else {
        joined(parts.drop_last(), separator) + separator + parts.last()
    }
}

/// Whether the character is a decimal digit.
pub open spec fn is_digit(c: char) -> bool {
    '0' <= c && c <= '9'
}

/// The number that a run of decimal digits stands for.
pub open spec fn digits_value(digits: Seq<char>) -> nat
    decreases digits.len(),
{
    if digits.len() == 0 {
        0
    } else {
        10 * digits_value(digits.drop_last()) + (digits.last() as nat - '0' as nat) as nat
    }
}

/// The decimal notation of `n`, without leading zeros.
pub open spec fn decimal_form(n: nat) -> Seq<char>
    decreases n,
{
    let last = ('0' as nat + n % 10) as char;
    if n < 10 {
        seq![last]
    } else {
        decimal_form(n / 10).push(last)
    }
}

/// Whether the text holds decimal digits only.
pub open spec fn all_digits(s: Seq<char>) -> bool {
    forall|i: int| 0 <= i < s.len() ==> is_digit(#[trigger] s[i])
}

/// `s` without the `+` that may stand at its front.
pub open spec fn after_plus(s: Seq<char>) -> Seq<char> {
    if s.len() > 0 && s[0] == '+' {
        s.skip(1)
    } else {
        s
    }
}

/// The unsigned 64-bit number that `s` writes: one or more decimal digits, which
/// a single `+` may precede, for a number that fits.
pub open spec fn unsigned_value(s: Seq<char>) -> Option<u64> {
    let digits = after_plus(s);
    if digits.len() > 0 && all_digits(digits) && digits_value(digits) <= u64::MAX {
        Some(digits_value(digits) as u64)
    } else {
        None
    }
}

/// Whether the two texts are the same.
pub fn same_text(a: &str, b: &str) -> (same: bool)
    ensures
        same == (a@ == b@),
{
    a.to_owned() == b.to_owned()
}

/// `a` followed by `b`.
pub fn appended(a: &str, b: &str) -> (r: String)
    ensures
        r@ == a@ + b@,
{
    let mut r = a.to_owned();
    r.append(b);
    r
}

/// Takes the slashes off the end of `s`.
pub fn trim_end_slashes(s: &str) -> (r: String)
    ensures
        r@ == without_end_slashes(s@),
{
    let mut n: usize = s.unicode_len();
    assert(s@.take(n as int) =~= s@);
    while n > 0 && s.get_char(n - 1) == '/'
        invariant
            n <= s@.len(),
            without_end_slashes(s@) == without_end_slashes(s@.take(n as int)),
        decreases n,
    {
        assert(s@.take(n as int).drop_last() =~= s@.take(n - 1));
        n = n - 1;
    }
    assert(n > 0 ==> s@.take(n as int).last() == s@[n - 1]);
    s.substring_char(0, n).to_owned()
}

/// Joins the parts with `separator`.
pub fn join(parts: &Vec<String>, separator: &str) -> (r: String)
    ensures
        r@ == joined(parts.deep_view(), separator@),
{
    let ghost all = parts.deep_view();
    let mut r = String::new();
    let mut i: usize = 0;
    assert(all.take(0) =~= Seq::empty());
    while i < parts.len()
        invariant
            i <= parts@.len(),
            all == parts.deep_view(),
            r@ == joined(all.take(i as int), separator@),
        decreases parts.len() - i,
    {
        assert(all.take(i + 1).drop_last() =~= all.take(i as int));
        assert(all.take(i + 1).last() == parts@[i as int]@);
        if i > 0 {
            r.append(separator);
        }
        r.append(parts[i].as_str());
        i = i + 1;
    }
    assert(all.take(i as int) =~= all);
    r
}

fn digit_text(digit: u64) -> (r: &'static str)
    requires
        digit < 10,
    ensures
        r@ == seq![('0' as nat + digit as nat) as char],
{
    proof {
        reveal_strlit("0");
        reveal_strlit("1");
        reveal_strlit("2");
        reveal_strlit("3");
        reveal_strlit("4");
        reveal_strlit("5");
        reveal_strlit("6");
        reveal_strlit("7");
        reveal_strlit("8");
        reveal_strlit("9");
    }
    match digit {
        0 => "0",
        1 => "1",
        2 => "2",
        3 => "3",
        4 => "4",
        5 => "5",
        6 => "6",
        7 => "7",
        8 => "8",
        _ => "9",
    }
}

/// Writes `n` in decimal.
pub fn decimal(n: u64) -> (r: String)
    ensures
        r@ == decimal_form(n as nat),
    decreases n,
{
    if n < 10 {
        digit_text(n).to_owned()
    } else {
        let mut r = decimal(n / 10);
        r.append(digit_text(n % 10));
        r
    }
}

/// Reads an unsigned 64-bit number; `None` where `s` writes none.
pub fn parse_unsigned(s: &str) -> (r: Option<u64>)
    ensures
        r == unsigned_value(s@),
{
    let n: usize = s.unicode_len();
    let start: usize = if n > 0 && s.get_char(0) == '+' {
        1
    } else {
        0
    };
    let ghost digits = s@.skip(start as int);
    assert(start == 0 ==> digits =~= s@);
    if start == n {
        return None;
    }
    let mut value: u64 = 0;
    let mut i: usize = start;
    assert(digits.take(0) =~= Seq::empty());
    while i < n
        invariant
            start <= i <= n,
            n == s@.len(),
            digits == s@.skip(start as int),
            digits == after_plus(s@),
            digits.len() > 0,
            forall|k: int| 0 <= k < i - start ==> is_digit(#[trigger] digits[k]),
            value == digits_value(digits.take(i - start)),
        decreases n - i,
    {
        let c = s.get_char(i);
        let ghost k = i - start;
        assert(digits[k] == c);
        if !('0' <= c && c <= '9') {
            assert(!is_digit(digits[k]));
            return None;
        }
        let digit: u64 = (c as u32 - 48) as u64;
        assert(digits.take(k + 1).drop_last() =~= digits.take(k));
        proof {
            lemma_digits_value_grows(digits, k + 1, digits.len() as int);
            assert(digits.take(digits.len() as int) =~= digits);
            assert(digits_value(digits.take(k + 1)) == 10 * value + digit);
        }
        if value > (u64::MAX - digit) / 10 {
            return None;
        }
        value = value * 10 + digit;
        i = i + 1;
    }
    assert(digits.take(n - start) =~= digits);
    Some(value)
}

proof fn lemma_digits_value_grows(digits: Seq<char>, i: int, j: int)
    requires
        0 <= i <= j <= digits.len(),
    ensures
        digits_value(digits.take(i)) <= digits_value(digits.take(j)),
    decreases j - i,
{
    if i < j {
        lemma_digits_value_grows(digits, i, j - 1);
        assert(digits.take(j).drop_last() =~= digits.take(j - 1));
    }
}

proof fn lemma_decimal_form_digits(n: nat)
    ensures
        decimal_form(n).len() > 0,
        all_digits(decimal_form(n)),
        digits_value(decimal_form(n)) == n,
    decreases n,
{
    let last = ('0' as nat + n % 10) as char;
    reveal_with_fuel(digits_value, 2);
    assert(last as nat == '0' as nat + n % 10);
    if n < 10 {
        assert(seq![last].drop_last() =~= Seq::empty());
    } else {
        lemma_decimal_form_digits(n / 10);
        assert(decimal_form(n / 10).push(last).drop_last() =~= decimal_form(n / 10));
    }
}

/// Reading the decimal notation of a number gives the number back.
pub proof fn decimal_reads_back(n: u64)
    ensures
        unsigned_value(decimal_form(n as nat)) == Some(n),
{
    lemma_decimal_form_digits(n as nat);
    assert(is_digit(decimal_form(n as nat)[0]));
}

/// Trimming leaves a prefix of the text that does not end in a slash and lacks
/// nothing but slashes; a slash more at the end of the text changes nothing.
pub proof fn trimming_removes_end_slashes(s: Seq<char>)
    ensures
        without_end_slashes(s).is_prefix_of(s),
        without_end_slashes(s).len() > 0 ==> without_end_slashes(s).last() != '/',
        forall|i: int| without_end_slashes(s).len() <= i < s.len() ==> #[trigger] s[i] == '/',
        without_end_slashes(s.push('/')) == without_end_slashes(s),
    decreases s.len(),
{
    assert(s.push('/').drop_last() =~= s);
    if s.len() > 0 && s.last() == '/' {
        trimming_removes_end_slashes(s.drop_last());
        assert forall|i: int| without_end_slashes(s).len() <= i < s.len() implies #[trigger] s[i]
            == '/' by {
            if i < s.len() - 1 {
                assert(s.drop_last()[i] == s[i]);
            }
        }
    }
}

/// Joining nothing gives nothing, joining one part gives it, and one part more at
/// the end adds a separator and the whole of that part, however many there are.
pub proof fn joining_loses_no_part(
    parts: Seq<Seq<char>>,
    last: Seq<char>,
    separator: Seq<char>,
)
    ensures
        joined(Seq::empty(), separator) == Seq::<char>::empty(),
        joined(seq![last], separator) == last,
        parts.len() > 0 ==> joined(parts.push(last), separator) == joined(parts, separator)
            + separator + last,
{
    assert(parts.push(last).drop_last() =~= parts);
}

/// Joining two lists and putting a separator between the results is joining the
/// two as one list.
pub proof fn joining_can_be_split(
    front: Seq<Seq<char>>,
    back: Seq<Seq<char>>,
    separator: Seq<char>,
)
    requires
        front.len() > 0,
        back.len() > 0,
    ensures
        joined(front + back, separator) == joined(front, separator) + separator + joined(
            back,
            separator,
        ),
    decreases back.len(),
{
    let earlier = back.drop_last();
    let last = back.last();
    assert(front + back =~= (front + earlier).push(last));
    joining_loses_no_part(front + earlier, last, separator);
    if back.len() == 1 {
        assert(front + earlier =~= front);
    } else {
        joining_can_be_split(front, earlier, separator);
        assert(back =~= earlier.push(last));
        joining_loses_no_part(earlier, last, separator);
        assert(joined(front + back, separator) =~= joined(front, separator) + separator + joined(
            back,
            separator,
        ));
    }
}

/// The length of the parts together.
pub open spec fn total_length(parts: Seq<Seq<char>>) -> nat
    decreases parts.len(),
{
    if parts.len() == 0 {
        0
    } else {
        total_length(parts.drop_last()) + parts.last().len()
    }
}

/// A joined text is as long as its parts together and the separators between them.
pub proof fn joining_adds_only_separators(parts: Seq<Seq<char>>, separator: Seq<char>)
    requires
        parts.len() > 0,
    ensures
        joined(parts, separator).len() == total_length(parts) + (parts.len() - 1)
            * separator.len(),
    decreases parts.len(),
{
    let earlier = parts.drop_last();
    assert(parts =~= earlier.push(parts.last()));
    joining_loses_no_part(earlier, parts.last(), separator);
    if parts.len() > 1 {
        joining_adds_only_separators(earlier, separator);
        assert((parts.len() - 1) * separator.len() == (earlier.len() - 1) * separator.len()
            + separator.len()) by (nonlinear_arith)
            requires
                earlier.len() == parts.len() - 1,
        ;
    } else {
        assert(parts =~= seq![parts.last()]);
        assert(total_length(earlier) == 0);
        assert((parts.len() - 1) * separator.len() == 0) by (nonlinear_arith)
            requires
                parts.len() == 1,
        ;
    }
}

/// Whether `line` stands in `text` from `start` on, between line breaks or the ends
/// of the text.
pub open spec fn line_at(text: Seq<char>, line: Seq<char>, start: int) -> bool {
    let end = start + line.len();
    &&& 0 <= start && end <= text.len()
    &&& text.subrange(start, end) == line
    &&& start > 0 ==> text[start - 1] == '\n'
    &&& end < text.len() ==> text[end] == '\n'
}

/// Whether `line` stands in `text` between line breaks or the ends of the text.
pub open spec fn is_line(text: Seq<char>, line: Seq<char>) -> bool {
    exists|start: int| line_at(text, line, start)
}

/// Of the parts that line breaks join, each is a line of the text.
pub proof fn every_part_is_a_line(parts: Seq<Seq<char>>, i: int)
    requires
        0 <= i < parts.len(),
    ensures
        is_line(joined(parts, "\n"@), parts[i]),
{
    reveal_strlit("\n");
    let nl = "\n"@;
    let text = joined(parts, nl);
    let front = parts.take(i);
    let back = parts.skip(i + 1);
    let upto = parts.take(i + 1);
    assert(upto =~= front.push(parts[i]));
    joining_loses_no_part(front, parts[i], nl);
    let start = if i > 0 {
        (joined(front, nl).len() + 1) as int
    } else {
        assert(upto =~= seq![parts[i]]);
        0int
    };
    let head = joined(upto, nl);
    assert(head.subrange(start, start + parts[i].len()) =~= parts[i]);
    assert(start > 0 ==> head[start - 1] == '\n');
    if back.len() > 0 {
        assert(parts =~= upto + back);
        joining_can_be_split(upto, back, nl);
        assert(text.subrange(start, start + parts[i].len()) =~= parts[i]);
    } else {
        assert(parts =~= upto);
    }
    assert(line_at(text, parts[i], start));
}

/// Digits count in tens: one digit more at the end makes ten times the number and
/// that digit.
pub proof fn digits_count_in_tens(digits: Seq<char>, digit: char)
    requires
        '0' <= digit && digit <= '9',
    ensures
        digits_value(Seq::empty()) == 0,
        digits_value(digits.push(digit)) == 10 * digits_value(digits) + (digit as int - 48),
{
    assert(digits.push(digit).drop_last() =~= digits);
}

/// A run of digits, with or without a `+` before it, is read as the number it
/// writes where that fits, and not read where it does not.
pub proof fn digits_are_read_as_their_number(digits: Seq<char>)
    requires
        digits.len() > 0,
        forall|i: int|
            0 <= i < digits.len() ==> '0' <= #[trigger] digits[i] && digits[i] <= '9',
    ensures
        digits_value(digits) <= 0xffff_ffff_ffff_ffff ==> {
            &&& unsigned_value(digits) == Some(digits_value(digits) as u64)
            &&& unsigned_value(seq!['+'] + digits) == Some(digits_value(digits) as u64)
        },
        digits_value(digits) > 0xffff_ffff_ffff_ffff ==> {
            &&& unsigned_value(digits) is None
            &&& unsigned_value(seq!['+'] + digits) is None
        },
{
    assert((seq!['+'] + digits).skip(1) =~= digits);
    assert(digits[0] != '+');
    assert(all_digits(digits));
}

/// A text that is read as a number ends in a digit and holds nothing but digits,
/// apart from a `+` that may stand at its front.
pub proof fn only_digits_are_read(s: Seq<char>)
    requires
        unsigned_value(s) is Some,
    ensures
        s.len() > 0,
        '0' <= s.last() && s.last() <= '9',
        s[0] == '+' || ('0' <= s[0] && s[0] <= '9'),
        forall|i: int| 0 < i < s.len() ==> '0' <= #[trigger] s[i] && s[i] <= '9',
{
    let digits = after_plus(s);
    assert(is_digit(digits.last()));
    assert(is_digit(digits[0]));
    assert forall|i: int| 0 < i < s.len() implies '0' <= #[trigger] s[i] && s[i] <= '9' by {
        if s[0] == '+' {
            assert(is_digit(digits[i - 1]));
        } else {
            assert(is_digit(digits[i]));
        }
    }
}

/// A number is written in digits that stand for it, the first of them no zero
/// unless it is the only one.
pub proof fn a_number_is_written_in_digits(n: nat)
    ensures
        decimal_form(n).len() > 0,
        forall|i: int|
            0 <= i < decimal_form(n).len() ==> '0' <= #[trigger] decimal_form(n)[i]
                && decimal_form(n)[i] <= '9',
        digits_value(decimal_form(n)) == n,
        decimal_form(n).len() > 1 ==> decimal_form(n)[0] != '0',
{
    lemma_decimal_form_digits(n);
    lemma_no_leading_zero(n);
    assert forall|i: int| 0 <= i < decimal_form(n).len() implies '0' <= #[trigger] decimal_form(
        n,
    )[i] && decimal_form(n)[i] <= '9' by {
        assert(is_digit(decimal_form(n)[i]));
    }
}

proof fn lemma_no_leading_zero(n: nat)
    ensures
        decimal_form(n).len() > 0,
        n > 0 ==> decimal_form(n)[0] != '0',
        n == 0 ==> decimal_form(n).len() == 1,
    decreases n,
{
    let last = ('0' as nat + n % 10) as char;
    assert(last as nat == '0' as nat + n % 10);
    if n >= 10 {
        lemma_no_leading_zero(n / 10);
    }
}

/// There is one way only to take the slashes off the end of a text: to keep the front
/// that does not end in a slash and lacks nothing but slashes.
pub proof fn trimming_is_unique(s: Seq<char>, base: Seq<char>)
    requires
        base.is_prefix_of(s),
        base.len() > 0 ==> base.last() != '/',
        forall|i: int| base.len() <= i < s.len() ==> #[trigger] s[i] == '/',
    ensures
        without_end_slashes(s) == base,
{
    let trimmed = without_end_slashes(s);
    trimming_removes_end_slashes(s);
    if trimmed.len() < base.len() {
        assert(s[base.len() - 1] == '/');
        assert(base[base.len() - 1] == s[base.len() - 1]);
    } else if base.len() < trimmed.len() {
        assert(s[trimmed.len() - 1] == '/');
        assert(trimmed[trimmed.len() - 1] == s[trimmed.len() - 1]);
    }
    assert(trimmed =~= base);
}

/// A number has one decimal notation only: without a `+`, and without a zero at its
/// front unless it is that digit alone.
pub proof fn decimal_form_is_the_only_one(n: u64, digits: Seq<char>)
    requires
        unsigned_value(digits) == Some(n),
        digits[0] != '+',
        digits.len() > 1 ==> digits[0] != '0',
    ensures
        decimal_form(n as nat) == digits,
{
    lemma_only_notation(digits);
}

proof fn lemma_only_notation(digits: Seq<char>)
    requires
        digits.len() > 0,
        all_digits(digits),
        digits.len() > 1 ==> digits[0] != '0',
    ensures
        decimal_form(digits_value(digits)) == digits,
        digits[0] != '0' ==> digits_value(digits) > 0,
    decreases digits.len(),
{
    let front = digits.drop_last();
    let last = digits.last();
    let n = digits_value(digits);
    let value = (last as nat - '0' as nat) as nat;
    assert(is_digit(digits[digits.len() - 1]));
    assert(n == 10 * digits_value(front) + value);
    assert(value < 10);
    assert(n % 10 == value);
    assert(n / 10 == digits_value(front));
    assert(('0' as nat + n % 10) as char == last);
    if digits.len() == 1 {
        assert(digits_value(front) == 0);
        assert(digits =~= seq![last]);
    } else {
        assert forall|i: int| 0 <= i < front.len() implies is_digit(#[trigger] front[i]) by {
            assert(is_digit(digits[i]));
        }
        lemma_only_notation(front);
        assert(digits =~= front.push(last));
    }
}

} // verus!
