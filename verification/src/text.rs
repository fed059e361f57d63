//! Text that is put together from parts.

use vstd::prelude::*;

verus! {

/// The character that stands for a digit.
pub open spec fn digit(value: nat) -> char {
    (48 + value) as char
}

/// A number in decimal, without leading zeros.
pub open spec fn digits(value: nat) -> Seq<char>
    decreases value,
{
    if value < 10 {
        seq![digit(value)]
    } else {
        digits(value / 10).push(digit(value % 10))
    }
}

fn digit_text(value: u8) -> (text: &'static str)
    requires
        value < 10,
    ensures
        text@ == seq![digit(value as nat)],
{
    proof {
        reveal_strlit("0");
        reveal_strlit("1");
        reveal_strlit("2");
        reveal_strlit("3");
        reveal_strlit("4");
        reveal_strlit("5");
        reveal_strlit("6");
        reveal_strlit("7");
        reveal_strlit("8");
        reveal_strlit("9");
    }
    let text = match value {
        0 => "0",
        1 => "1",
        2 => "2",
        3 => "3",
        4 => "4",
        5 => "5",
        6 => "6",
        7 => "7",
        8 => "8",
        _ => "9",
    };
    assert(text@ =~= seq![digit(value as nat)]);
    text
}

/// Writes a number in decimal.
pub fn decimal(value: u128) -> (text: String)
    ensures
        text@ == digits(value as nat),
    decreases value,
{
    let mut text = if value < 10 {
        String::new()
    } else {
        decimal(value / 10)
    };
    text.append(digit_text((value % 10) as u8));
    assert(text@ =~= digits(value as nat));
    text
}

/// Puts two texts one after the other.
pub fn join(first: &str, second: &str) -> (text: String)
    ensures
        text@ == first@ + second@,
{
    let mut text = first.to_owned();
    text.append(second);
    text
}

/// Calls the equality of `str`: the texts are equal when they hold the same
/// characters in the same order.
#[verifier::external_body]
pub(crate) fn same(first: &str, second: &str) -> (equal: bool)
    ensures
        equal == (first@ == second@),
{
    first == second
}

/// The lower case of an ASCII letter; any other character as it is.
pub open spec fn ascii_lower(c: char) -> char {
    if 'A' <= c && c <= 'Z' {
        ((c as u32) + 32) as char
    } else {
        c
    }
}

/// A text with its ASCII letters in lower case.
pub open spec fn lowered(text: Seq<char>) -> Seq<char> {
    text.map_values(|c: char| ascii_lower(c))
}

/// Calls [`str::eq_ignore_ascii_case`], which compares two texts as if their ASCII
/// letters were all in lower case.
#[verifier::external_body]
pub(crate) fn same_ignoring_case(first: &str, second: &str) -> (equal: bool)
    ensures
        equal == (lowered(first@) == lowered(second@)),
{
    first.eq_ignore_ascii_case(second)
}

/// A text without the run of `c` that it starts with.
pub open spec fn without_leading(text: Seq<char>, c: char) -> Seq<char>
    decreases text.len(),
{
    if text.len() > 0 && text[0] == c {
        without_leading(text.skip(1), c)
    } else {
        text
    }
}

/// A text without the run of `c` that it ends with.
pub open spec fn without_trailing(text: Seq<char>, c: char) -> Seq<char>
    decreases text.len(),
{
    if text.len() > 0 && text.last() == c {
        without_trailing(text.drop_last(), c)
    } else {
        text
    }
}

/// Cuts off the run of `c` that a text starts with.
pub fn trim_start(text: &str, c: char) -> (rest: &str)
    ensures
        rest@ == without_leading(text@, c),
{
    let len: usize = text.unicode_len();
    let mut start: usize = 0;
    assert(text@.skip(start as int) =~= text@);
    while start < len && text.get_char(start) == c
        invariant
            len == text@.len(),
            start <= len,
            without_leading(text@.skip(start as int), c) == without_leading(text@, c),
        ensures
            start <= len,
            without_leading(text@.skip(start as int), c) == without_leading(text@, c),
            start < len ==> text@[start as int] != c,
        decreases len - start,
    {
        assert(text@.skip(start as int).skip(1) =~= text@.skip(start + 1));
        start = start + 1;
    }
    assert(text@.subrange(start as int, len as int) =~= text@.skip(start as int));
    text.substring_char(start, len)
}

/// Cuts off the run of `c` that a text ends with.
pub fn trim_end(text: &str, c: char) -> (rest: &str)
    ensures
        rest@ == without_trailing(text@, c),
{
    let len: usize = text.unicode_len();
    let mut end: usize = len;
    assert(text@.take(end as int) =~= text@);
    while end > 0 && text.get_char(end - 1) == c
        invariant
            len == text@.len(),
            end <= len,
            without_trailing(text@.take(end as int), c) == without_trailing(text@, c),
        ensures
            end <= len,
            without_trailing(text@.take(end as int), c) == without_trailing(text@, c),
            end > 0 ==> text@[end - 1] != c,
        decreases end,
    {
        assert(text@.take(end as int).drop_last() =~= text@.take(end - 1));
        end = end - 1;
    }
    assert(text@.subrange(0, end as int) =~= text@.take(end as int));
    text.substring_char(0, end)
}

/// Whether a character is white space (the Unicode property `White_Space`).
pub open spec fn is_white(c: char) -> bool {
    ||| '\u{9}' <= c <= '\u{d}'
    ||| c == '\u{20}'
    ||| c == '\u{85}'
    ||| c == '\u{a0}'
    ||| c == '\u{1680}'
    ||| '\u{2000}' <= c <= '\u{200a}'
    ||| c == '\u{2028}'
    ||| c == '\u{2029}'
    ||| c == '\u{202f}'
    ||| c == '\u{205f}'
    ||| c == '\u{3000}'
}

fn white(c: char) -> (white: bool)
    ensures
        white == is_white(c),
{
    ('\u{9}' <= c && c <= '\u{d}') || c == '\u{20}' || c == '\u{85}' || c == '\u{a0}' || c
        == '\u{1680}' || ('\u{2000}' <= c && c <= '\u{200a}') || c == '\u{2028}' || c
        == '\u{2029}' || c == '\u{202f}' || c == '\u{205f}' || c == '\u{3000}'
}

/// Whether `inner` is what is left of a text without the white space around it.
pub open spec fn is_trimmed(text: Seq<char>, inner: Seq<char>) -> bool {
    exists|start: int, end: int| #[trigger]
        trimmed_at(text, start, end) && inner == text.subrange(start, end)
}

/// Whether all before `start` and from `end` on is white space, and nothing more
/// could be left out.
pub open spec fn trimmed_at(text: Seq<char>, start: int, end: int) -> bool {
    &&& 0 <= start <= end <= text.len()
    &&& forall|i: int| 0 <= i < start ==> is_white(#[trigger] text[i])
    &&& forall|i: int| end <= i < text.len() ==> is_white(#[trigger] text[i])
    &&& start < end ==> !is_white(text[start]) && !is_white(text[end - 1])
}

/// Cuts off the white space around a text.
pub fn trim(text: &str) -> (inner: &str)
    ensures
        is_trimmed(text@, inner@),
{
    let len: usize = text.unicode_len();
    let mut start: usize = 0;
    while start < len && white(text.get_char(start))
        invariant
            len == text@.len(),
            start <= len,
            forall|i: int| 0 <= i < start ==> is_white(#[trigger] text@[i]),
        ensures
            start <= len,
            start < len ==> !is_white(text@[start as int]),
            forall|i: int| 0 <= i < start ==> is_white(#[trigger] text@[i]),
        decreases len - start,
    {
        start = start + 1;
    }
    let mut end: usize = len;
    while start < end && white(text.get_char(end - 1))
        invariant
            len == text@.len(),
            start <= end <= len,
            forall|i: int| end <= i < len ==> is_white(#[trigger] text@[i]),
        ensures
            start <= end <= len,
            start < end ==> !is_white(text@[end - 1]),
            forall|i: int| end <= i < len ==> is_white(#[trigger] text@[i]),
        decreases end,
    {
        end = end - 1;
    }
    assert(trimmed_at(text@, start as int, end as int));
    text.substring_char(start, end)
}

/// There is only one way to cut off the white space around a text.
pub proof fn law_trimming_is_unique(text: Seq<char>, first: Seq<char>, second: Seq<char>)
    requires
        is_trimmed(text, first),
        is_trimmed(text, second),
    ensures
        first == second,
{
    let (a, b) = choose|a: int, b: int| #[trigger]
        trimmed_at(text, a, b) && first == text.subrange(a, b);
    let (c, d) = choose|c: int, d: int| #[trigger]
        trimmed_at(text, c, d) && second == text.subrange(c, d);
    if a < b {
        assert(!is_white(text[a]));
        assert(!is_white(text[b - 1]));
        assert(c <= a && b <= d);
        assert(c < d);
        assert(!is_white(text[c]));
        assert(!is_white(text[d - 1]));
        assert(a == c && b == d);
    } else if c < d {
        assert(!is_white(text[c]));
        assert(false);
    } else {
        assert(first =~= second);
    }
}

/// Whether a text is made of decimal digits alone.
pub open spec fn all_digits(text: Seq<char>) -> bool {
    forall|i: int| 0 <= i < text.len() ==> '0' <= #[trigger] text[i] <= '9'
}

/// The number that a run of digits stands for.
pub open spec fn value(text: Seq<char>) -> nat
    decreases text.len(),
{
    if text.len() == 0 {
        0
    } else {
        value(text.drop_last()) * 10 + (text.last() as nat - 48) as nat
    }
}

/// A text without the sign in front of it.
pub open spec fn unsigned(text: Seq<char>) -> Seq<char> {
    if text.len() > 0 && (text[0] == '-' || text[0] == '+') {
        text.skip(1)
    } else {
        text
    }
}

/// The whole number that a text stands for: digits, with a sign before them or
/// without.
pub open spec fn whole(text: Seq<char>) -> Option<int> {
    let run = unsigned(text);
    if run.len() == 0 || !all_digits(run) {
        None
    } else if text[0] == '-' {
        Some(-(value(run) as int))
    } else {
        Some(value(run) as int)
    }
}

proof fn value_of_start(text: Seq<char>, count: int)
    requires
        0 <= count <= text.len(),
    ensures
        value(text.take(count)) <= value(text),
    decreases text.len(),
{
    if count < text.len() {
        value_of_start(text.drop_last(), count);
        assert(text.drop_last().take(count) =~= text.take(count));
    } else {
        assert(text.take(count) =~= text);
    }
}

/// Reads a number of 32 bits.
pub fn parse_i32(text: &str) -> (number: Option<i32>)
    ensures
        number is Some == (whole(text@) is Some && i32::MIN <= whole(text@)->0 <= i32::MAX),
        number is Some ==> number->0 == whole(text@)->0,
{
    let len: usize = text.unicode_len();
    if len == 0 {
        return None;
    }
    let first: char = text.get_char(0);
    let negative: bool = first == '-';
    let start: usize = if negative || first == '+' { 1 } else { 0 };
    let ghost run = unsigned(text@);
    assert(run =~= text@.skip(start as int));
    if start == len {
        return None;
    }
    let mut index: usize = start;
    let mut total: i64 = 0;
    assert(run.take(0) =~= Seq::<char>::empty());
    while index < len
        invariant
            len == text@.len(),
            start <= index <= len,
            run == text@.skip(start as int),
            run == unsigned(text@),
            start < len,
            0 <= total <= 2147483648,
            all_digits(run.take(index - start)),
            total == value(run.take(index - start)),
            text@[0] == '-' ==> start == 1,
        decreases len - index,
    {
        let c: char = text.get_char(index);
        assert(c == run[index - start]);
        if c < '0' || c > '9' {
            assert(!all_digits(run));
            return None;
        }
        assert(run.take(index - start + 1).drop_last() =~= run.take(index - start));
        assert(run.take(index - start + 1).last() == c);
        total = total * 10 + (c as u32 - 48) as i64;
        if total > 2147483648 {
            proof {
                value_of_start(run, index - start + 1);
            }
            return None;
        }
        index = index + 1;
    }
    assert(run.take(index - start) =~= run);
    if negative {
        Some((0 - total) as i32)
    } else if total == 2147483648 {
        None
    } else {
        Some(total as i32)
    }
}

/// A number that was written in decimal is read back.
pub proof fn law_decimal_reads_back(number: nat)
    ensures
        digits(number).len() > 0,
        all_digits(digits(number)),
        value(digits(number)) == number,
        whole(digits(number)) == Some(number as int),
    decreases number,
{
    if number < 10 {
        let text = seq![digit(number)];
        assert(text.drop_last() =~= Seq::<char>::empty());
        assert(text.last() as nat == 48 + number);
        assert(value(text.drop_last()) == 0);
    } else {
        law_decimal_reads_back(number / 10);
        let text = digits(number);
        assert(text.drop_last() =~= digits(number / 10));
        assert(text.last() as nat == 48 + number % 10);
    }
    assert(unsigned(digits(number)) == digits(number));
}

/// A number in decimal has no white space to cut off.
pub proof fn law_trimming_leaves_digits(number: nat)
    ensures
        is_trimmed(digits(number), digits(number)),
{
    law_decimal_reads_back(number);
    let text = digits(number);
    assert(text.subrange(0, text.len() as int) =~= text);
    assert(trimmed_at(text, 0, text.len() as int));
}

/// Two texts that are joined stand one behind the other, in order.
pub proof fn law_joined_texts_stand_in_order(first: &str, second: &str, joined: String)
    requires
        call_ensures(join, (first, second), joined),
    ensures
        joined@.take(first@.len() as int) == first@,
        joined@.skip(first@.len() as int) == second@,
{
    assert(joined@.take(first@.len() as int) =~= first@);
    assert(joined@.skip(first@.len() as int) =~= second@);
}

/// Numbers are written apart, with digits alone and none that says nothing in front: the
/// last digit is what a division by ten leaves, and the digits before it are written for the
/// quotient.
pub proof fn law_numbers_are_written_by_digits(
    number: u128,
    tenth: u128,
    written: String,
    shorter: String,
    other: u128,
    third: String,
)
    requires
        call_ensures(decimal, (number,), written),
        tenth == number / 10,
        call_ensures(decimal, (tenth,), shorter),
        call_ensures(decimal, (other,), third),
    ensures
        written@.len() > 0,
        written@.last() as int == '0' as int + number % 10,
        number < 10 ==> written@.len() == 1,
        number >= 10 ==> written@.drop_last() == shorter@,
        number != other ==> written@ != third@,
{
    law_decimal_reads_back(number as nat);
    law_decimal_reads_back(other as nat);
    assert(number >= 10 ==> written@.drop_last() =~= shorter@);
}

/// A number that was written is read back, with a sign in front or without.
pub proof fn law_written_number_is_read(
    number: u128,
    written: String,
    plain: &str,
    plus: &str,
    minus: &str,
    read: Option<i32>,
    positive: Option<i32>,
    negative: Option<i32>,
)
    requires
        call_ensures(decimal, (number,), written),
        plain@ == written@,
        plus@ == seq!['+'] + written@,
        minus@ == seq!['-'] + written@,
        call_ensures(parse_i32, (plain,), read),
        call_ensures(parse_i32, (plus,), positive),
        call_ensures(parse_i32, (minus,), negative),
    ensures
        number <= 0x7fff_ffff ==> {
            &&& read is Some && read->0 == number
            &&& positive is Some && positive->0 == number
            &&& negative is Some && negative->0 == -number
        },
        number == 0x8000_0000 ==> read is None && positive is None && negative is Some
            && negative->0 == -number,
        number > 0x8000_0000 ==> read is None && positive is None && negative is None,
{
    law_decimal_reads_back(number as nat);
    assert(unsigned(plus@) =~= written@);
    assert(unsigned(minus@) =~= written@);
}

/// Each digit more multiplies what is read by ten: a text that is read as a number and has a
/// digit behind it is read as ten times the number and the digit, away from zero, as long as
/// there is room for it. Anything else behind it makes it no number.
pub proof fn law_digits_are_read_in_order(
    start: &str,
    last: char,
    longer: &str,
    number: Option<i32>,
    read: Option<i32>,
)
    requires
        longer@ == start@.push(last),
        call_ensures(parse_i32, (start,), number),
        call_ensures(parse_i32, (longer,), read),
        number is Some,
    ensures
        !('0' <= last <= '9') ==> read is None,
        '0' <= last <= '9' && start@[0] != '-' ==> {
            let all = number->0 * 10 + (last as int - '0' as int);
            &&& read is Some <==> all <= 0x7fff_ffff
            &&& read is Some ==> read->0 == all
        },
        '0' <= last <= '9' && start@[0] == '-' ==> {
            let all = number->0 * 10 - (last as int - '0' as int);
            &&& read is Some <==> all >= -0x8000_0000
            &&& read is Some ==> read->0 == all
        },
{
    let run = unsigned(start@);
    let longer_run = unsigned(longer@);
    assert(longer@[0] == start@[0]);
    assert(longer_run =~= run.push(last));
    assert(longer_run.drop_last() =~= run);
    assert(longer_run[run.len() as int] == last);
    if '0' <= last <= '9' {
        assert(all_digits(longer_run));
        assert(value(longer_run) == value(run) * 10 + (last as nat - 48) as nat);
    } else {
        assert(!all_digits(longer_run));
    }
}

/// Nothing, and a sign alone, is no number, and a single digit is the number that it stands
/// for.
pub proof fn law_reading_begins_with_a_digit(text: &str, read: Option<i32>)
    requires
        call_ensures(parse_i32, (text,), read),
    ensures
        text@.len() == 0 ==> read is None,
        text@.len() == 1 ==> (read is Some <==> '0' <= text@[0] <= '9'),
        text@.len() == 1 && read is Some ==> read->0 == text@[0] as int - '0' as int,
{
    if text@.len() == 1 {
        let run = unsigned(text@);
        if run.len() == 1 {
            assert(run.drop_last() =~= Seq::<char>::empty());
            assert(value(run.drop_last()) == 0);
            assert(all_digits(run) <==> '0' <= text@[0] <= '9') by {
                if all_digits(run) {
                    assert('0' <= run[0] <= '9');
                }
            }
        }
    }
}

/// What is cut off around a text is white space, and what is left neither begins nor ends
/// with it: a text that begins and ends with printed characters comes out of any white space
/// around it.
pub proof fn law_text_comes_out_of_the_white_space(
    before: Seq<char>,
    inner: Seq<char>,
    behind: Seq<char>,
    text: &str,
    left: &str,
)
    requires
        forall|i: int|
            0 <= i < before.len() ==> {
                ||| '\t' <= #[trigger] before[i] <= '\r'
                ||| before[i] == ' '
                ||| before[i] == '\u{85}'
                ||| before[i] == '\u{a0}'
                ||| before[i] == '\u{2028}'
                ||| before[i] == '\u{3000}'
            },
        forall|i: int|
            0 <= i < behind.len() ==> {
                ||| '\t' <= #[trigger] behind[i] <= '\r'
                ||| behind[i] == ' '
                ||| behind[i] == '\u{85}'
                ||| behind[i] == '\u{a0}'
                ||| behind[i] == '\u{2028}'
                ||| behind[i] == '\u{3000}'
            },
        inner.len() > 0 ==> '!' <= inner[0] <= '~' && '!' <= inner.last() <= '~',
        text@ == before + inner + behind,
        call_ensures(trim, (text,), left),
    ensures
        left@ == inner,
{
    let start = before.len() as int;
    let end = start + inner.len();
    assert forall|i: int| 0 <= i < start implies is_white(#[trigger] text@[i]) by {
        assert(text@[i] == before[i]);
    }
    assert forall|i: int| end <= i < text@.len() implies is_white(#[trigger] text@[i]) by {
        assert(text@[i] == behind[i - end]);
    }
    if inner.len() > 0 {
        assert(text@[start] == inner[0]);
        assert(text@[end - 1] == inner.last());
    }
    assert(text@.subrange(start, end) =~= inner);
    assert(trimmed_at(text@, start, end));
    law_trimming_is_unique(text@, inner, left@);
}

proof fn lemma_leading_run(run: Seq<char>, rest: Seq<char>, c: char)
    requires
        forall|i: int| 0 <= i < run.len() ==> run[i] == c,
        rest.len() > 0 ==> rest[0] != c,
    ensures
        without_leading(run + rest, c) == rest,
    decreases run.len(),
{
    if run.len() > 0 {
        lemma_leading_run(run.skip(1), rest, c);
        assert((run + rest).skip(1) =~= run.skip(1) + rest);
    } else {
        assert(run + rest =~= rest);
    }
}

proof fn lemma_trailing_run(run: Seq<char>, rest: Seq<char>, c: char)
    requires
        forall|i: int| 0 <= i < run.len() ==> run[i] == c,
        rest.len() > 0 ==> rest.last() != c,
    ensures
        without_trailing(rest + run, c) == rest,
    decreases run.len(),
{
    if run.len() > 0 {
        lemma_trailing_run(run.drop_last(), rest, c);
        assert((rest + run).drop_last() =~= rest + run.drop_last());
    } else {
        assert(rest + run =~= rest);
    }
}

/// The whole run of a character that a text starts or ends with is cut off, and nothing
/// else.
pub proof fn law_whole_run_is_cut_off(
    run: Seq<char>,
    c: char,
    rest: Seq<char>,
    leading: &str,
    behind: &str,
    trailing: &str,
    ahead: &str,
)
    requires
        forall|i: int| 0 <= i < run.len() ==> run[i] == c,
        leading@ == run + rest,
        rest.len() > 0 ==> rest[0] != c && rest.last() != c,
        trailing@ == rest + run,
        call_ensures(trim_start, (leading, c), behind),
        call_ensures(trim_end, (trailing, c), ahead),
    ensures
        behind@ == rest,
        ahead@ == rest,
{
    lemma_leading_run(run, rest, c);
    lemma_trailing_run(run, rest, c);
}

} // verus!
