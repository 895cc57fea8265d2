use vstd::prelude::*;

verus! {

/// Whether two texts are the same.
pub fn same_text(a: &str, b: &str) -> (same: bool)
    ensures
        same == (a@ == b@),
{
    String::from_str(a) == String::from_str(b)
}

/// Index of the first line feed at or after `from`, or the text's length
/// when there is none.
pub open spec fn next_line_feed(text: Seq<char>, from: int) -> int
    decreases text.len() - from,
{
    if from < 0 || from >= text.len() {
        text.len() as int
    } else if text[from] == '\n' {
        from
    } else {
        next_line_feed(text, from + 1)
    }
}

/// A line without the carriage return that ended it, if one did.
pub open spec fn without_carriage_return(line: Seq<char>) -> Seq<char> {
    if line.len() > 0 && line.last() == '\r' {
        line.drop_last()
    } else {
        line
    }
}

/// The lines of `text` from index `from` on, as `str::lines` gives them:
/// split at line feeds, each line that a line feed ends without a carriage
/// return before it, and no empty line after a final line feed.
pub open spec fn lines_from(text: Seq<char>, from: int) -> Seq<Seq<char>>
    decreases text.len() - from,
{
    if from < 0 || from >= text.len() {
        seq![]
    } else {
        let end = next_line_feed(text, from);
        proof {
            lemma_next_line_feed_bounds(text, from);
        }
        if end < text.len() {
            seq![without_carriage_return(text.subrange(from, end))] + lines_from(text, end + 1)
        } else {
            seq![text.subrange(from, text.len() as int)]
        }
    }
}

/// The lines of a text, as `str::lines` gives them.
pub open spec fn lines_of(text: Seq<char>) -> Seq<Seq<char>> {
    lines_from(text, 0)
}

pub proof fn lemma_next_line_feed_bounds(text: Seq<char>, from: int)
    requires
        0 <= from < text.len(),
    ensures
        from <= next_line_feed(text, from) <= text.len(),
    decreases text.len() - from,
{
    if text[from] != '\n' {
        if from + 1 < text.len() {
            lemma_next_line_feed_bounds(text, from + 1);
        } else {
            assert(next_line_feed(text, from + 1) == text.len());
        }
    }
}

proof fn lemma_next_line_feed(text: Seq<char>, from: int, at: int)
    requires
        0 <= from <= at <= text.len(),
        at == text.len() || text[at] == '\n',
        forall|j: int| from <= j < at ==> text[j] != '\n',
    ensures
        next_line_feed(text, from) == at,
    decreases at - from,
{
    if from < at {
        lemma_next_line_feed(text, from + 1, at);
    }
}

/// A text made of the characters `from..to` of `text`.
pub fn text_between(text: &str, from: usize, to: usize) -> (part: String)
    requires
        from <= to <= text@.len(),
    ensures
        part@ == text@.subrange(from as int, to as int),
{
    String::from_str(text.substring_char(from, to))
}

/// The lines of a text, as `str::lines` gives them.
pub fn lines(text: &str) -> (found: Vec<String>)
    ensures
        found@.map_values(|line: String| line@) == lines_of(text@),
{
    let length = text.unicode_len();
    let mut found: Vec<String> = Vec::new();
    let mut start: usize = 0;
    let mut index: usize = 0;
    while index < length
        invariant
            length == text@.len(),
            start <= index <= length,
            forall|j: int| start <= j < index ==> text@[j] != '\n',
            found@.map_values(|line: String| line@) + lines_from(text@, start as int) == lines_of(
                text@,
            ),
        decreases length - index,
    {
        if text.get_char(index) == '\n' {
            proof {
                lemma_next_line_feed(text@, start as int, index as int);
            }
            let mut end = index;
            if end > start && text.get_char(end - 1) == '\r' {
                end = end - 1;
            }
            let line = text_between(text, start, end);
            proof {
                assert(line@ == without_carriage_return(text@.subrange(start as int, index as int)));
            }
            let ghost before = found@.map_values(|line: String| line@);
            found.push(line);
            proof {
                assert(found@.map_values(|line: String| line@) == before.push(line@));
                assert(lines_from(text@, start as int) == seq![line@] + lines_from(
                    text@,
                    index + 1,
                ));
                assert(before.push(line@) + lines_from(text@, index + 1) == before + (seq![line@]
                    + lines_from(text@, index + 1)));
            }
            start = index + 1;
        }
        index = index + 1;
    }
    proof {
        lemma_next_line_feed(text@, start as int, length as int);
    }
    if start < length {
        let line = text_between(text, start, length);
        let ghost before = found@.map_values(|line: String| line@);
        found.push(line);
        proof {
            assert(found@.map_values(|line: String| line@) == before.push(line@));
            assert(lines_from(text@, start as int) == seq![line@]);
        }
    } else {
        proof {
            assert(lines_from(text@, start as int) == Seq::<Seq<char>>::empty());
            assert(found@.map_values(|line: String| line@) + Seq::<Seq<char>>::empty()
                == found@.map_values(|line: String| line@));
        }
    }
    found
}

/// Whether a character has the Unicode `White_Space` property, which is
/// what `char::is_whitespace` and `str::trim` go by.
pub open spec fn is_white_space(c: char) -> bool {
    let v = c as u32;
    (9 <= v <= 13) || v == 32 || v == 0x85 || v == 0xA0 || v == 0x1680 || (0x2000 <= v <= 0x200A)
        || v == 0x2028 || v == 0x2029 || v == 0x202F || v == 0x205F || v == 0x3000
}

/// Whether a character has the Unicode `White_Space` property.
pub fn white_space(c: char) -> (white: bool)
    ensures
        white == is_white_space(c),
{
    let v = c as u32;
    (9 <= v && v <= 13) || v == 32 || v == 0x85 || v == 0xA0 || v == 0x1680 || (0x2000 <= v && v
        <= 0x200A) || v == 0x2028 || v == 0x2029 || v == 0x202F || v == 0x205F || v == 0x3000
}

/// How many characters at the start of `text` satisfy `keep`.
pub open spec fn leading(text: Seq<char>, keep: spec_fn(char) -> bool) -> int
    decreases text.len(),
{
    if text.len() == 0 || !keep(text[0]) {
        0
    } else {
        1 + leading(text.drop_first(), keep)
    }
}

/// How many characters at the end of `text` satisfy `keep`.
pub open spec fn trailing(text: Seq<char>, keep: spec_fn(char) -> bool) -> int
    decreases text.len(),
{
    if text.len() == 0 || !keep(text.last()) {
        0
    } else {
        1 + trailing(text.drop_last(), keep)
    }
}

pub proof fn lemma_leading(text: Seq<char>, keep: spec_fn(char) -> bool, n: int)
    requires
        0 <= n <= text.len(),
        forall|j: int| 0 <= j < n ==> keep(#[trigger] text[j]),
        n == text.len() || !keep(text[n]),
    ensures
        leading(text, keep) == n,
    decreases n,
{
    if n > 0 {
        assert forall|j: int| 0 <= j < n - 1 implies keep(#[trigger] text.drop_first()[j]) by {
            assert(text.drop_first()[j] == text[j + 1]);
        }
        lemma_leading(text.drop_first(), keep, n - 1);
    }
}

pub proof fn lemma_trailing(text: Seq<char>, keep: spec_fn(char) -> bool, n: int)
    requires
        0 <= n <= text.len(),
        forall|j: int| text.len() - n <= j < text.len() ==> keep(#[trigger] text[j]),
        n == text.len() || !keep(text[text.len() - n - 1]),
    ensures
        trailing(text, keep) == n,
    decreases n,
{
    if n > 0 {
        assert forall|j: int|
            text.drop_last().len() - (n - 1) <= j < text.drop_last().len() implies keep(
            #[trigger] text.drop_last()[j],
        ) by {
            assert(text.drop_last()[j] == text[j]);
        }
        assert(keep(text[text.len() - 1]));
        lemma_trailing(text.drop_last(), keep, n - 1);
    }
}

/// `text` without the white space at its start and end, as `str::trim`
/// gives it.
pub open spec fn trimmed(text: Seq<char>) -> Seq<char> {
    let start = text.skip(leading(text, |c: char| is_white_space(c)));
    start.take(start.len() - trailing(start, |c: char| is_white_space(c)))
}

/// The test for one character.
pub open spec fn is_char(c: char) -> spec_fn(char) -> bool {
    |d: char| d == c
}

/// `text` without the copies of `c` at its start, as
/// `str::trim_start_matches` gives it for one character.
pub open spec fn without_leading(text: Seq<char>, c: char) -> Seq<char> {
    text.skip(leading(text, is_char(c)))
}

/// How many characters at the start of `text` are white space.
fn count_leading_white_space(text: &str) -> (count: usize)
    ensures
        count == leading(text@, |c: char| is_white_space(c)),
{
    let length = text.unicode_len();
    let mut index: usize = 0;
    while index < length && white_space(text.get_char(index))
        invariant
            length == text@.len(),
            index <= length,
            forall|j: int| 0 <= j < index ==> is_white_space(#[trigger] text@[j]),
        decreases length - index,
    {
        index = index + 1;
    }
    proof {
        lemma_leading(text@, |c: char| is_white_space(c), index as int);
    }
    index
}

/// How many characters at the end of `text` are white space.
fn count_trailing_white_space(text: &str) -> (count: usize)
    ensures
        count == trailing(text@, |c: char| is_white_space(c)),
{
    let length = text.unicode_len();
    let mut count: usize = 0;
    while count < length && white_space(text.get_char(length - count - 1))
        invariant
            length == text@.len(),
            count <= length,
            forall|j: int| length - count <= j < length ==> is_white_space(#[trigger] text@[j]),
        decreases length - count,
    {
        count = count + 1;
    }
    proof {
        lemma_trailing(text@, |c: char| is_white_space(c), count as int);
    }
    count
}

/// `text` without the white space at its start and end.
pub fn trim(text: &str) -> (trimmed_text: String)
    ensures
        trimmed_text@ == trimmed(text@),
{
    let length = text.unicode_len();
    let start = count_leading_white_space(text);
    proof {
        lemma_leading_bounds(text@, |c: char| is_white_space(c));
    }
    let rest = text.substring_char(start, length);
    let tail = count_trailing_white_space(rest);
    proof {
        lemma_trailing_bounds(rest@, |c: char| is_white_space(c));
    }
    let end = rest.unicode_len() - tail;
    String::from_str(rest.substring_char(0, end))
}

/// `text` without the copies of `c` at its start.
pub fn trim_start_matches(text: &str, c: char) -> (rest: String)
    ensures
        rest@ == without_leading(text@, c),
{
    let length = text.unicode_len();
    let mut index: usize = 0;
    while index < length && text.get_char(index) == c
        invariant
            length == text@.len(),
            index <= length,
            forall|j: int| 0 <= j < index ==> #[trigger] text@[j] == c,
        decreases length - index,
    {
        index = index + 1;
    }
    proof {
        lemma_leading(text@, is_char(c), index as int);
    }
    String::from_str(text.substring_char(index, length))
}

/// Whether every character of `text` is white space, which is when
/// `str::trim` leaves nothing of it.
pub fn is_blank(text: &str) -> (blank: bool)
    ensures
        blank == (forall|j: int| 0 <= j < text@.len() ==> is_white_space(#[trigger] text@[j])),
        blank == (trimmed(text@).len() == 0),
{
    let length = text.unicode_len();
    let count = count_leading_white_space(text);
    proof {
        lemma_leading_bounds(text@, |c: char| is_white_space(c));
        if count < length {
            lemma_leading_stops(text@, |c: char| is_white_space(c));
            lemma_trailing_bounds(
                text@.skip(count as int),
                |c: char| is_white_space(c),
            );
            lemma_trailing_stops_before_first(text@.skip(count as int), |c: char| is_white_space(c));
        } else {
            lemma_leading_all(text@, |c: char| is_white_space(c));
        }
    }
    count == length
}

pub proof fn lemma_leading_bounds(text: Seq<char>, keep: spec_fn(char) -> bool)
    ensures
        0 <= leading(text, keep) <= text.len(),
    decreases text.len(),
{
    if text.len() > 0 && keep(text[0]) {
        lemma_leading_bounds(text.drop_first(), keep);
    }
}

pub proof fn lemma_trailing_bounds(text: Seq<char>, keep: spec_fn(char) -> bool)
    ensures
        0 <= trailing(text, keep) <= text.len(),
    decreases text.len(),
{
    if text.len() > 0 && keep(text.last()) {
        lemma_trailing_bounds(text.drop_last(), keep);
    }
}

/// The characters that `leading` counts satisfy `keep`, and the one after
/// them does not.
pub proof fn lemma_leading_stops(text: Seq<char>, keep: spec_fn(char) -> bool)
    ensures
        forall|j: int| 0 <= j < leading(text, keep) ==> keep(#[trigger] text[j]),
        leading(text, keep) < text.len() ==> !keep(text[leading(text, keep)]),
    decreases text.len(),
{
    lemma_leading_bounds(text, keep);
    if text.len() > 0 && keep(text[0]) {
        lemma_leading_stops(text.drop_first(), keep);
        assert forall|j: int| 0 <= j < leading(text, keep) implies keep(#[trigger] text[j]) by {
            if j > 0 {
                assert(text[j] == text.drop_first()[j - 1]);
            }
        }
        let k = leading(text.drop_first(), keep);
        lemma_leading_bounds(text.drop_first(), keep);
        assert(leading(text, keep) == 1 + k);
        if 1 + k < text.len() {
            assert(text[1 + k] == text.drop_first()[k]);
        }
    }
}

/// When every character satisfies `keep`, `leading` counts them all.
pub proof fn lemma_leading_all(text: Seq<char>, keep: spec_fn(char) -> bool)
    requires
        leading(text, keep) >= text.len(),
    ensures
        forall|j: int| 0 <= j < text.len() ==> keep(#[trigger] text[j]),
{
    lemma_leading_stops(text, keep);
}

/// When the first character does not satisfy `keep`, `trailing` leaves it.
pub proof fn lemma_trailing_stops_before_first(text: Seq<char>, keep: spec_fn(char) -> bool)
    requires
        text.len() > 0,
        !keep(text[0]),
    ensures
        trailing(text, keep) < text.len(),
    decreases text.len(),
{
    if text.len() > 1 && keep(text.last()) {
        assert(text.drop_last()[0] == text[0]);
        lemma_trailing_stops_before_first(text.drop_last(), keep);
    }
}

/// Whether a character is an ASCII decimal digit.
pub open spec fn is_digit(c: char) -> bool {
    48 <= (c as u32) <= 57
}

/// The number that a run of decimal digits spells.
pub open spec fn digits_value(digits: Seq<char>) -> int
    decreases digits.len(),
{
    if digits.len() == 0 {
        0
    } else {
        digits_value(digits.drop_last()) * 10 + ((digits.last() as u32) - 48)
    }
}

/// The digits of an unsigned decimal number: the text after an optional
/// leading `+`.
pub open spec fn unsigned_digits(text: Seq<char>) -> Seq<char> {
    if text.len() > 0 && text[0] == '+' {
        text.drop_first()
    } else {
        text
    }
}

/// The number no larger than `limit` that a text spells, as `str::parse`
/// reads an unsigned integer type whose largest value is `limit`: an
/// optional `+`, then at least one decimal digit and nothing else.
pub open spec fn parsed_decimal(text: Seq<char>, limit: u64) -> Option<u64> {
    let digits = unsigned_digits(text);
    if digits.len() > 0 && (forall|j: int| 0 <= j < digits.len() ==> is_digit(#[trigger] digits[j]))
        && digits_value(digits) <= limit {
        Some(digits_value(digits) as u64)
    } else {
        None
    }
}

/// The `u32` that a text spells, as `str::parse::<u32>` reads it.
pub open spec fn parsed_u32(text: Seq<char>) -> Option<u32> {
    match parsed_decimal(text, u32::MAX as u64) {
        Some(value) => Some(value as u32),
        None => None,
    }
}

/// The `usize` that a text spells, as `str::parse::<usize>` reads it.
pub open spec fn parsed_usize(text: Seq<char>) -> Option<usize> {
    match parsed_decimal(text, usize::MAX as u64) {
        Some(value) => Some(value as usize),
        None => None,
    }
}

proof fn lemma_digits_value_grows(digits: Seq<char>, n: int)
    requires
        0 <= n <= digits.len(),
        forall|j: int| 0 <= j < digits.len() ==> is_digit(#[trigger] digits[j]),
    ensures
        0 <= digits_value(digits.subrange(0, n)) <= digits_value(digits),
    decreases digits.len() - n,
{
    if n < digits.len() {
        let longer = digits.subrange(0, n + 1);
        assert(longer.drop_last() == digits.subrange(0, n));
        lemma_digits_value_nonnegative(digits.subrange(0, n));
        lemma_digits_value_grows(digits, n + 1);
    } else {
        assert(digits.subrange(0, n) == digits);
        lemma_digits_value_nonnegative(digits);
    }
}

proof fn lemma_digits_value_nonnegative(digits: Seq<char>)
    requires
        forall|j: int| 0 <= j < digits.len() ==> is_digit(#[trigger] digits[j]),
    ensures
        digits_value(digits) >= 0,
    decreases digits.len(),
{
    if digits.len() > 0 {
        assert(is_digit(digits[digits.len() - 1]));
        lemma_digits_value_nonnegative(digits.drop_last());
    }
}

/// The number no larger than `limit` that a text spells.
pub fn parse_decimal(text: &str, limit: u64) -> (number: Option<u64>)
    ensures
        number == parsed_decimal(text@, limit),
{
    let length = text.unicode_len();
    let mut start: usize = 0;
    if length > 0 && text.get_char(0) == '+' {
        start = 1;
    }
    let digits = text.substring_char(start, length);
    assert(digits@ == unsigned_digits(text@));
    let count = digits.unicode_len();
    if count == 0 {
        return None;
    }
    let mut value: u64 = 0;
    let mut index: usize = 0;
    while index < count
        invariant
            count == digits@.len(),
            digits@ == unsigned_digits(text@),
            index <= count,
            forall|j: int| 0 <= j < index ==> is_digit(#[trigger] digits@[j]),
            value == digits_value(digits@.subrange(0, index as int)),
            value <= limit,
        decreases count - index,
    {
        let c = digits.get_char(index);
        let code = c as u32;
        if code < 48 || code > 57 {
            assert(!is_digit(digits@[index as int]));
            return None;
        }
        let digit = (code - 48) as u64;
        proof {
            let prefix = digits@.subrange(0, index as int + 1);
            assert(prefix.drop_last() == digits@.subrange(0, index as int));
            assert(prefix.last() == c);
            assert(digits_value(prefix) == value * 10 + digit);
        }
        if digit > limit || value > (limit - digit) / 10 {
            proof {
                if digit <= limit {
                    assert(value * 10 + digit > limit) by (nonlinear_arith)
                        requires
                            value > (limit - digit) / 10,
                            digit <= limit,
                    {
                    }
                }
                let all = digits@;
                if forall|j: int| 0 <= j < all.len() ==> is_digit(#[trigger] all[j]) {
                    lemma_digits_value_grows(all, index as int + 1);
                }
            }
            return None;
        }
        proof {
            assert(value * 10 + digit <= limit) by (nonlinear_arith)
                requires
                    value <= (limit - digit) / 10,
                    digit <= limit,
            {
            }
        }
        value = value * 10 + digit;
        index = index + 1;
    }
    proof {
        assert(digits@.subrange(0, count as int) == digits@);
    }
    Some(value)
}

/// The `u32` that a text spells, read as `str::parse::<u32>` reads it.
pub fn parse_u32(text: &str) -> (number: Option<u32>)
    ensures
        number == parsed_u32(text@),
{
    match parse_decimal(text, u32::MAX as u64) {
        Some(value) => Some(value as u32),
        None => None,
    }
}

/// The `usize` that a text spells, read as `str::parse::<usize>` reads it.
pub fn parse_usize(text: &str) -> (number: Option<usize>)
    ensures
        number == parsed_usize(text@),
{
    match parse_decimal(text, usize::MAX as u64) {
        Some(value) => Some(value as usize),
        None => None,
    }
}

} // verus!
