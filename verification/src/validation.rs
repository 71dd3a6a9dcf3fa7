//! What counts as a name and as a payment day when a user types one.

use vstd::prelude::*;
use vstd::string::*;
use crate::text::{
    decimal, digit_char, is_alphabetic, is_alphabetic_char, is_whitespace, is_whitespace_char,
};

verus! {

/// Every character is white space (so also: the text is empty).
pub open spec fn is_blank(s: Seq<char>) -> bool {
    forall|i: int| 0 <= i < s.len() ==> is_whitespace_char(#[trigger] s[i])
}

/// Every character is a letter or white space.
pub open spec fn only_letters_and_spaces(s: Seq<char>) -> bool {
    forall|i: int|
        0 <= i < s.len() ==> is_alphabetic_char(#[trigger] s[i]) || is_whitespace_char(s[i])
}

/// A name holds letters and white space only, and at least one letter.
pub open spec fn is_valid_name(s: Seq<char>) -> bool {
    !is_blank(s) && only_letters_and_spaces(s)
}

/// What is wrong with a text that is no name, if anything.
pub open spec fn name_complaint(s: Seq<char>) -> Option<Seq<char>> {
    if is_blank(s) {
        Some("Name cannot be empty or just whitespace."@)
    } else if only_letters_and_spaces(s) {
        None
    } else {
        Some("Name can only contain letters and spaces."@)
    }
}

/// A payment day is a day of a month.
pub open spec fn is_valid_day(d: int) -> bool {
    1 <= d <= 31
}

/// Whether the text has no character but white space.
pub fn blank(s: &str) -> (r: bool)
    ensures
        r == is_blank(s@),
{
    let n: usize = s.unicode_len();
    let mut i: usize = 0;
    while i < n
        invariant
            n == s@.len(),
            i <= n,
            forall|k: int| 0 <= k < i ==> is_whitespace_char(#[trigger] s@[k]),
        decreases n - i,
    {
        if !is_whitespace(s.get_char(i)) {
            return false;
        }
        i += 1;
    }
    true
}

/// Whether the text has no character but letters and white space.
pub fn letters_and_spaces(s: &str) -> (r: bool)
    ensures
        r == only_letters_and_spaces(s@),
{
    let n: usize = s.unicode_len();
    let mut i: usize = 0;
    while i < n
        invariant
            n == s@.len(),
            i <= n,
            forall|k: int|
                0 <= k < i ==> is_alphabetic_char(#[trigger] s@[k]) || is_whitespace_char(s@[k]),
        decreases n - i,
    {
        let c: char = s.get_char(i);
        if !(is_alphabetic(c) || is_whitespace(c)) {
            return false;
        }
        i += 1;
    }
    true
}

/// Accepts a name, or says what is wrong with the text.
pub fn validate_name_core(s: &str) -> (r: Result<(), String>)
    ensures
        r is Ok <==> is_valid_name(s@),
        match r {
            Ok(_) => name_complaint(s@) is None,
            Err(msg) => name_complaint(s@) == Some(msg@),
        },
{
    if blank(s) {
        Err(String::from_str("Name cannot be empty or just whitespace."))
    } else if letters_and_spaces(s) {
        Ok(())
    } else {
        Err(String::from_str("Name can only contain letters and spaces."))
    }
}

/// Accepts a name given on the command line and hands it back unchanged, or
/// says what is wrong with it.
pub fn clap_validate_name(s: &str) -> (r: Result<String, String>)
    ensures
        r is Ok <==> is_valid_name(s@),
        match r {
            Ok(name) => name@ == s@,
            Err(msg) => name_complaint(s@) == Some(msg@),
        },
{
    match validate_name_core(s) {
        Ok(()) => Ok(String::from_str(s)),
        Err(err) => Err(err),
    }
}

/// Accepts a day of the month, 1 to 31.
pub fn validate_day_core(input: &u32) -> (r: Result<(), String>)
    ensures
        r is Ok <==> is_valid_day(*input as int),
        r is Err ==> r->Err_0@ == "The day must be between 1 and 31."@,
{
    if *input >= 1 && *input <= 31 {
        Ok(())
    } else {
        Err(String::from_str("The day must be between 1 and 31."))
    }
}

/// The value of a decimal digit, or `None` for any other character.
pub open spec fn digit_value(c: char) -> Option<nat> {
    if c == '0' {
        Some(0)
    } else if c == '1' {
        Some(1)
    } else if c == '2' {
        Some(2)
    } else if c == '3' {
        Some(3)
    } else if c == '4' {
        Some(4)
    } else if c == '5' {
        Some(5)
    } else if c == '6' {
        Some(6)
    } else if c == '7' {
        Some(7)
    } else if c == '8' {
        Some(8)
    } else if c == '9' {
        Some(9)
    } else {
        None
    }
}

/// Every character is a decimal digit.
pub open spec fn all_digits(s: Seq<char>) -> bool {
    forall|i: int| 0 <= i < s.len() ==> digit_value(#[trigger] s[i]) is Some
}

/// The number that a run of decimal digits writes (0 for the empty run).
pub open spec fn digits_value(s: Seq<char>) -> nat
    decreases s.len(),
{
    if s.len() == 0 {
        0
    } else {
        digits_value(s.drop_last()) * 10 + match digit_value(s.last()) {
            Some(d) => d,
            None => 0,
        }
    }
}

/// The number that a text writes in decimal: an optional plus sign, then one
/// or more digits, with a value that fits in 32 bits. Any other text is no
/// number.
pub open spec fn parsed_number(s: Seq<char>) -> Option<u32> {
    let digits = if s.len() > 0 && s[0] == '+' {
        s.skip(1)
    } else {
        s
    };
    if digits.len() > 0 && all_digits(digits) && digits_value(digits) <= u32::MAX {
        Some(digits_value(digits) as u32)
    } else {
        None
    }
}

/// A run of digits is worth at least as much as each run it starts with.
proof fn lemma_value_grows(s: Seq<char>, k: int)
    requires
        0 <= k <= s.len(),
    ensures
        digits_value(s.take(k)) <= digits_value(s),
    decreases s.len(),
{
    if k == s.len() {
        assert(s.take(k) =~= s);
    } else {
        lemma_value_grows(s.drop_last(), k);
        assert(s.drop_last().take(k) =~= s.take(k));
    }
}

/// A number written in decimal digits reads back as itself.
pub proof fn decimal_reads_back(n: nat)
    ensures
        all_digits(decimal(n)),
        decimal(n).len() > 0,
        decimal(n)[0] != '+',
        digits_value(decimal(n)) == n,
        n <= u32::MAX ==> parsed_number(decimal(n)) == Some(n as u32),
    decreases n,
{
    let d = digit_char((n % 10) as int);
    assert(digit_value(d) == Some(n % 10));
    if n < 10 {
        assert(decimal(n) =~= seq![d]);
        assert(decimal(n).drop_last() =~= Seq::<char>::empty());
        assert(digits_value(decimal(n).drop_last()) == 0);
    } else {
        decimal_reads_back(n / 10);
        let head = decimal(n / 10);
        assert(decimal(n) == head.push(d));
        assert(decimal(n).drop_last() =~= head);
        assert(decimal(n).last() == d);
        assert(decimal(n)[0] == head[0]);
        assert forall|i: int| 0 <= i < decimal(n).len() implies digit_value(
            #[trigger] decimal(n)[i],
        ) is Some by {
            if i < head.len() {
                assert(decimal(n)[i] == head[i]);
            }
        }
    }
}

fn digit_of_char(c: char) -> (r: Option<u64>)
    ensures
        match r {
            Some(d) => digit_value(c) == Some(d as nat) && d <= 9,
            None => digit_value(c) is None,
        },
{
    if c == '0' {
        Some(0)
    } else if c == '1' {
        Some(1)
    } else if c == '2' {
        Some(2)
    } else if c == '3' {
        Some(3)
    } else if c == '4' {
        Some(4)
    } else if c == '5' {
        Some(5)
    } else if c == '6' {
        Some(6)
    } else if c == '7' {
        Some(7)
    } else if c == '8' {
        Some(8)
    } else if c == '9' {
        Some(9)
    } else {
        None
    }
}

/// Reads a non-negative whole number written in decimal.
pub fn parse_number(s: &str) -> (r: Option<u32>)
    ensures
        r == parsed_number(s@),
{
    let n: usize = s.unicode_len();
    let start: usize = if n > 0 && s.get_char(0) == '+' {
        1
    } else {
        0
    };
    if start == n {
        return None;
    }
    let ghost digits = if s@.len() > 0 && s@[0] == '+' {
        s@.skip(1)
    } else {
        s@
    };
    assert(digits =~= s@.skip(start as int));
    let mut acc: u64 = 0;
    let mut i: usize = start;
    assert(digits.take(0) =~= Seq::<char>::empty());
    while i < n
        invariant
            n == s@.len(),
            start <= i <= n,
            start < n,
            digits == s@.skip(start as int),
            digits == (if s@.len() > 0 && s@[0] == '+' {
                s@.skip(1)
            } else {
                s@
            }),
            acc == digits_value(digits.take(i - start)),
            acc <= u32::MAX,
            all_digits(digits.take(i - start)),
        decreases n - i,
    {
        let c: char = s.get_char(i);
        let ghost upto = digits.take(i - start + 1);
        assert(upto.drop_last() =~= digits.take(i - start));
        assert(upto.last() == c);
        match digit_of_char(c) {
            None => {
                assert(digits[i - start] == c);
                return None;
            },
            Some(d) => {
                let next: u64 = acc * 10 + d;
                assert(next == digits_value(upto));
                if next > 0xFFFF_FFFF {
                    proof {
                        lemma_value_grows(digits, i - start + 1);
                    }
                    return None;
                }
                assert forall|k: int| 0 <= k < upto.len() implies digit_value(
                    #[trigger] upto[k],
                ) is Some by {
                    if k < upto.len() - 1 {
                        assert(upto[k] == digits.take(i - start)[k]);
                    }
                }
                acc = next;
            },
        }
        i += 1;
    }
    assert(digits.take(n - start) =~= digits);
    Some(acc as u32)
}

/// What is wrong with a text that should be a payment day, if anything: it
/// is no number, or the number is no day of a month.
pub open spec fn day_complaint(s: Seq<char>) -> Option<Seq<char>> {
    match parsed_number(s) {
        None => Some("Not a valid number"@),
        Some(d) => if is_valid_day(d as int) {
            None
        } else {
            Some("The day must be between 1 and 31."@)
        },
    }
}

/// Reads a payment day: a number written in decimal that is a day of a
/// month. Any other text is refused with the reason.
pub fn parse_day(input: &str) -> (r: Result<u32, String>)
    ensures
        match r {
            Ok(day) => day_complaint(input@) is None && parsed_number(input@) == Some(day),
            Err(msg) => day_complaint(input@) == Some(msg@),
        },
{
    match parse_number(input) {
        None => Err(String::from_str("Not a valid number")),
        Some(day) => match validate_day_core(&day) {
            Ok(()) => Ok(day),
            Err(err) => Err(err),
        },
    }
}

/// Accepts a payment day given on the command line and hands the text back
/// unchanged, or says what is wrong with it.
pub fn clap_validate_day(input: &str) -> (r: Result<String, String>)
    ensures
        match r {
            Ok(text) => day_complaint(input@) is None && text@ == input@,
            Err(msg) => day_complaint(input@) == Some(msg@),
        },
{
    match parse_day(input) {
        Ok(_) => Ok(String::from_str(input)),
        Err(err) => Err(err),
    }
}

} // verus!
