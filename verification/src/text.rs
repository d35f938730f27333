//! Text as sequences of characters: searching, prefixes and decimal numbers.

use vstd::prelude::*;

verus! {

/// Whether `needle` stands in `hay` from position `i` on.
pub open spec fn occurs_at(hay: Seq<char>, needle: Seq<char>, i: int) -> bool {
    &&& 0 <= i
    &&& i + needle.len() <= hay.len()
    &&& hay.subrange(i, i + needle.len()) == needle
}

/// Whether `needle` stands somewhere in `hay`. The empty text stands in every
/// text.
pub open spec fn is_substring(hay: Seq<char>, needle: Seq<char>) -> bool {
    exists|i: int| occurs_at(hay, needle, i)
}

/// Whether `i` is the first position at which `needle` stands in `hay`.
pub open spec fn first_occurrence(hay: Seq<char>, needle: Seq<char>, i: int) -> bool {
    &&& occurs_at(hay, needle, i)
    &&& forall|j: int| 0 <= j < i ==> !occurs_at(hay, needle, j)
}

/// Whether `c` is one of the ten decimal digits.
pub open spec fn is_digit(c: char) -> bool {
    '0' <= c <= '9'
}

/// The number that a decimal digit stands for.
pub open spec fn digit_value(c: char) -> nat {
    (c as nat - '0' as nat) as nat
}

/// Whether a text holds decimal digits only.
pub open spec fn all_digits(s: Seq<char>) -> bool {
    forall|i: int| 0 <= i < s.len() ==> is_digit(#[trigger] s[i])
}

/// The number that a text of decimal digits stands for.
pub open spec fn decimal_value(digits: Seq<char>) -> nat
    decreases digits.len(),
{
    if digits.len() == 0 {
        0
    } else {
        decimal_value(digits.drop_last()) * 10 + digit_value(digits.last())
    }
}

/// The digits of a number without sign: the text itself, or what follows one
/// leading `+`; `None` unless these are digits, and at least one.
pub open spec fn unsigned_digits(s: Seq<char>) -> Option<Seq<char>> {
    let body = if s.len() > 0 && s[0] == '+' {
        s.skip(1)
    } else {
        s
    };
    if body.len() > 0 && all_digits(body) {
        Some(body)
    } else {
        None
    }
}

/// The number without sign that a text stands for: its digits' value, where the
/// text is such a number and the value is at most `limit`.
pub open spec fn parsed_unsigned(s: Seq<char>, limit: nat) -> Option<nat> {
    match unsigned_digits(s) {
        Some(digits) => if decimal_value(digits) <= limit {
            Some(decimal_value(digits))
        } else {
            None
        },
        None => None,
    }
}

/// The number with sign that a text stands for: one leading `-` makes what
/// follows negative; the value lies between `-(limit + 1)` and `limit`.
pub open spec fn parsed_signed(s: Seq<char>, limit: nat) -> Option<int> {
    if s.len() > 0 && s[0] == '-' {
        let body = s.skip(1);
        if body.len() > 0 && all_digits(body) && decimal_value(body) <= limit + 1 {
            Some(-(decimal_value(body) as int))
        } else {
            None
        }
    } else {
        match parsed_unsigned(s, limit) {
            Some(value) => Some(value as int),
            None => None,
        }
    }
}

/// A longer text of digits stands for a number that is at least as large.
pub proof fn lemma_decimal_value_grows(digits: Seq<char>, n: int)
    requires
        0 <= n <= digits.len(),
    ensures
        decimal_value(digits.take(n)) <= decimal_value(digits),
    decreases digits.len() - n,
{
    if n < digits.len() {
        lemma_decimal_value_grows(digits, n + 1);
        assert(digits.take(n + 1).drop_last() =~= digits.take(n));
    } else {
        assert(digits.take(n) =~= digits);
    }
}

/// The characters of a text, one by one.
pub fn chars_of(s: &str) -> (chars: Vec<char>)
    ensures
        chars@ == s@,
{
    let n: usize = s.unicode_len();
    let mut chars: Vec<char> = Vec::new();
    let mut i: usize = 0;
    while i < n
        invariant
            n == s@.len(),
            0 <= i <= n,
            chars@ == s@.take(i as int),
        decreases n - i,
    {
        chars.push(s.get_char(i));
        assert(chars@ =~= s@.take(i + 1));
        i = i + 1;
    }
    assert(s@.take(n as int) =~= s@);
    chars
}

/// Whether `needle` stands in `hay` from position `i` on.
pub fn matches_at(hay: &Vec<char>, needle: &Vec<char>, i: usize) -> (found: bool)
    ensures
        found == occurs_at(hay@, needle@, i as int),
{
    if needle.len() > hay.len() || i > hay.len() - needle.len() {
        return false;
    }
    let mut k: usize = 0;
    while k < needle.len()
        invariant
            i + needle.len() <= hay.len(),
            0 <= k <= needle.len(),
            forall|j: int| 0 <= j < k ==> hay@[i + j] == needle@[j],
        decreases needle.len() - k,
    {
        if hay[i + k] != needle[k] {
            assert(hay@.subrange(i as int, i + needle@.len())[k as int] == hay@[i + k]);
            return false;
        }
        k = k + 1;
    }
    assert(hay@.subrange(i as int, i + needle@.len()) =~= needle@);
    true
}

/// The first position at which `needle` stands in `hay`, counted in characters,
/// or `None` where it stands nowhere.
pub fn find_chars(hay: &Vec<char>, needle: &Vec<char>) -> (at: Option<usize>)
    ensures
        match at {
            Some(i) => first_occurrence(hay@, needle@, i as int),
            None => !is_substring(hay@, needle@),
        },
{
    if needle.len() > hay.len() {
        return None;
    }
    let last: usize = hay.len() - needle.len();
    let mut i: usize = 0;
    loop
        invariant
            last == hay.len() - needle.len(),
            0 <= i <= last,
            forall|j: int| 0 <= j < i ==> !occurs_at(hay@, needle@, j),
        decreases last - i,
    {
        if matches_at(hay, needle, i) {
            return Some(i);
        }
        if i == last {
            return None;
        }
        i = i + 1;
    }
}

/// The first position at which `needle` stands in `hay`, counted in characters,
/// or `None` where it stands nowhere.
pub fn find(hay: &str, needle: &str) -> (at: Option<usize>)
    ensures
        match at {
            Some(i) => first_occurrence(hay@, needle@, i as int),
            None => !is_substring(hay@, needle@),
        },
{
    let hay_chars = chars_of(hay);
    let needle_chars = chars_of(needle);
    find_chars(&hay_chars, &needle_chars)
}

/// Whether `needle` stands somewhere in `hay`.
pub fn contains(hay: &str, needle: &str) -> (found: bool)
    ensures
        found == is_substring(hay@, needle@),
{
    find(hay, needle).is_some()
}

/// Whether `s` begins with `prefix`.
pub fn starts_with(s: &str, prefix: &str) -> (begins: bool)
    ensures
        begins == prefix@.is_prefix_of(s@),
{
    let chars = chars_of(s);
    let prefix_chars = chars_of(prefix);
    let begins = matches_at(&chars, &prefix_chars, 0);
    proof {
        if prefix@.len() <= s@.len() {
            assert(s@.subrange(0, prefix@.len() as int) == prefix@ <==> prefix@ =~= s@.subrange(
                0,
                prefix@.len() as int,
            ));
        }
    }
    begins
}

/// The value of the digits `chars[from..]`, where these are digits, at least one,
/// and their value is at most `limit`.
fn parse_digits(chars: &Vec<char>, from: usize, limit: u64) -> (value: Option<u64>)
    requires
        from <= chars.len(),
    ensures
        match value {
            Some(v) => {
                &&& chars@.skip(from as int).len() > 0
                &&& all_digits(chars@.skip(from as int))
                &&& v == decimal_value(chars@.skip(from as int))
                &&& v <= limit
            },
            None => !(chars@.skip(from as int).len() > 0 && all_digits(chars@.skip(from as int)) && decimal_value(
                chars@.skip(from as int),
            ) <= limit),
        },
{
    let ghost digits = chars@.skip(from as int);
    if from == chars.len() {
        return None;
    }
    let mut value: u64 = 0;
    let mut i: usize = from;
    while i < chars.len()
        invariant
            from <= i <= chars.len(),
            digits == chars@.skip(from as int),
            all_digits(digits.take(i - from)),
            value == decimal_value(digits.take(i - from)),
            value <= limit,
        decreases chars.len() - i,
    {
        let c: char = chars[i];
        proof {
            assert(digits[i - from] == c);
            assert(digits.take(i - from + 1).drop_last() =~= digits.take(i - from));
            assert(digits.take(i - from + 1).last() == c);
            lemma_decimal_value_grows(digits, i - from + 1);
        }
        if c < '0' || c > '9' {
            assert(!is_digit(digits[i - from]));
            return None;
        }
        let d: u64 = (c as u32 - '0' as u32) as u64;
        if d > limit || value > (limit - d) / 10 {
            assert(decimal_value(digits.take(i - from + 1)) > limit) by {
                assert(value * 10 + d > limit) by (nonlinear_arith)
                    requires
                        d > limit || value > (limit - d) / 10,
                        0 <= d <= 9,
                        0 <= value,
                ;
            }
            return None;
        }
        assert(value * 10 + d <= limit) by (nonlinear_arith)
            requires
                value <= (limit - d) / 10,
                d <= limit,
                0 <= d,
        ;
        value = value * 10 + d;
        assert forall|j: int| 0 <= j < digits.take(i - from + 1).len() implies is_digit(
            #[trigger] digits.take(i - from + 1)[j],
        ) by {
            if j < i - from {
                assert(digits.take(i - from)[j] == digits.take(i - from + 1)[j]);
            }
        }
        i = i + 1;
    }
    assert(digits.take(chars.len() - from) =~= digits);
    Some(value)
}

/// Reads a number without sign: digits, at least one, after at most one leading
/// `+`, with a value that fits. Anything else is no number.
pub fn parse_usize(s: &str) -> (value: Option<usize>)
    ensures
        match value {
            Some(v) => parsed_unsigned(s@, usize::MAX as nat) == Some(v as nat),
            None => parsed_unsigned(s@, usize::MAX as nat) is None,
        },
{
    let chars = chars_of(s);
    let from: usize = if chars.len() > 0 && chars[0] == '+' {
        1
    } else {
        0
    };
    proof {
        assert(chars@.skip(0) =~= chars@);
    }
    match parse_digits(&chars, from, usize::MAX as u64) {
        Some(v) => Some(v as usize),
        None => None,
    }
}

/// Reads a number with sign: digits, at least one, after at most one leading `+`
/// or `-`, with a value that fits. Anything else is no number.
pub fn parse_i32(s: &str) -> (value: Option<i32>)
    ensures
        match value {
            Some(v) => parsed_signed(s@, i32::MAX as nat) == Some(v as int),
            None => parsed_signed(s@, i32::MAX as nat) is None,
        },
{
    let chars = chars_of(s);
    proof {
        assert(chars@.skip(0) =~= chars@);
    }
    if chars.len() > 0 && chars[0] == '-' {
        match parse_digits(&chars, 1, 2147483648) {
            Some(v) => {
                let magnitude: i64 = v as i64;
                Some((0 - magnitude) as i32)
            },
            None => None,
        }
    } else {
        let from: usize = if chars.len() > 0 && chars[0] == '+' {
            1
        } else {
            0
        };
        match parse_digits(&chars, from, 2147483647) {
            Some(v) => Some(v as i32),
            None => None,
        }
    }
}


/// The character of a decimal digit.
pub open spec fn digit_char(d: nat) -> char {
    if d == 0 {
        '0'
    } else if d == 1 {
        '1'
    } else if d == 2 {
        '2'
    } else if d == 3 {
        '3'
    } else if d == 4 {
        '4'
    } else if d == 5 {
        '5'
    } else if d == 6 {
        '6'
    } else if d == 7 {
        '7'
    } else if d == 8 {
        '8'
    } else {
        '9'
    }
}

/// A number in decimal digits, without leading zeros.
pub open spec fn decimal_text(n: nat) -> Seq<char>
    decreases n,
{
    if n < 10 {
        seq![digit_char(n)]
    } else {
        decimal_text(n / 10).push(digit_char(n % 10))
    }
}

/// A number with sign in decimal digits: a negative one begins with `-`.
pub open spec fn signed_decimal_text(n: int) -> Seq<char> {
    if n < 0 {
        seq!['-'] + decimal_text((-n) as nat)
    } else {
        decimal_text(n as nat)
    }
}

/// One decimal digit as text.
fn digit_str(d: u128) -> (text: &'static str)
    requires
        d < 10,
    ensures
        text@ == seq![digit_char(d as nat)],
{
    proof {
        reveal_strlit("0");
        reveal_strlit("1");
        reveal_strlit("2");
        reveal_strlit("3");
        reveal_strlit("4");
        reveal_strlit("5");
        reveal_strlit("6");
        reveal_strlit("7");
        reveal_strlit("8");
        reveal_strlit("9");
    }
    let text = match d {
        0 => "0",
        1 => "1",
        2 => "2",
        3 => "3",
        4 => "4",
        5 => "5",
        6 => "6",
        7 => "7",
        8 => "8",
        _ => "9",
    };
    assert(text@ =~= seq![digit_char(d as nat)]);
    text
}

/// Writes a number in decimal digits.
pub fn decimal_string(n: u128) -> (text: String)
    ensures
        text@ == decimal_text(n as nat),
    decreases n,
{
    if n < 10 {
        String::from_str(digit_str(n))
    } else {
        let text = decimal_string(n / 10).concat(digit_str(n % 10));
        assert(text@ =~= decimal_text((n / 10) as nat).push(digit_char((n % 10) as nat)));
        text
    }
}

/// Writes a number with sign in decimal digits.
pub fn signed_decimal_string(n: i128) -> (text: String)
    ensures
        text@ == signed_decimal_text(n as int),
{
    if n < 0 {
        proof {
            reveal_strlit("-");
        }
        let magnitude: u128 = if n == i128::MIN {
            0x8000_0000_0000_0000_0000_0000_0000_0000
        } else {
            (0 - n) as u128
        };
        let digits = decimal_string(magnitude);
        let text = String::from_str("-").concat(digits.as_str());
        assert(text@ =~= seq!['-'] + decimal_text((-n) as nat));
        text
    } else {
        decimal_string(n as u128)
    }
}


/// What is written is read back.
///
/// A number written in decimal digits consists of digits only, at least one, and
/// reads as the number itself, under every limit that the number keeps to; with
/// a sign it reads as the number with its sign.
pub proof fn law_written_number_reads_back(n: nat, limit: nat)
    ensures
        decimal_text(n).len() > 0,
        all_digits(decimal_text(n)),
        decimal_value(decimal_text(n)) == n,
        n <= limit ==> parsed_unsigned(decimal_text(n), limit) == Some(n),
        n <= limit ==> parsed_signed(signed_decimal_text(n as int), limit) == Some(n as int),
        0 < n <= limit + 1 ==> parsed_signed(signed_decimal_text(-(n as int)), limit) == Some(-(n as int)),
    decreases n,
{
    let text = decimal_text(n);
    if n >= 10 {
        law_written_number_reads_back(n / 10, limit);
        assert(text.drop_last() =~= decimal_text(n / 10));
        assert(text.last() == digit_char(n % 10));
        assert forall|i: int| 0 <= i < text.len() implies is_digit(#[trigger] text[i]) by {
            if i < text.len() - 1 {
                assert(text[i] == decimal_text(n / 10)[i]);
            }
        }
    } else {
        assert(text.drop_last() =~= Seq::<char>::empty());
        assert(decimal_value(text.drop_last()) == 0);
    }
    assert(is_digit(text[0]));
    if 0 < n {
        let negative = signed_decimal_text(-(n as int));
        assert(negative[0] == '-');
        assert(negative.skip(1) =~= text);
    }
}

} // verus!
