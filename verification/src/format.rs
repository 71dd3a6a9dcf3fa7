//! Values that exist only on the screen: capitalised names, ordinal days,
//! the net amount per call, and the rows of the listings.

use vstd::prelude::*;
use vstd::string::*;
use crate::dates::{date_cell, date_or_raw, format_date};
use crate::models::{
    CallWithMenteeName, Mentee, MenteeWithCounts, PaymentWithMenteeName, VideoWithMenteeName,
};
use crate::text::{
    decimal, decimal_text, is_whitespace, is_whitespace_char, push_char, push_decimal,
    signed_decimal, signed_decimal_text, to_uppercase, uppercase_of,
};

verus! {

/// The net amount that one call brings in: the monthly net divided by the
/// monthly calls, rounded down, or the whole net where no call is agreed.
pub open spec fn net_per_call(net: nat, calls: nat) -> nat {
    if calls == 0 {
        net
    } else {
        net / calls
    }
}

/// The net amount per call of a mentee with `net` a month for `calls` calls.
pub fn calc_net_per_call(net: &u32, calls: &u32) -> (r: u32)
    ensures
        r == net_per_call(*net as nat, *calls as nat),
{
    if *calls == 0 {
        *net
    } else {
        *net / *calls
    }
}

/// The English ordinal ending of a number: "th" for 11, 12 and 13 in every
/// hundred, else by the last digit.
pub open spec fn ordinal_suffix(n: nat) -> Seq<char> {
    if n % 100 == 11 || n % 100 == 12 || n % 100 == 13 {
        "th"@
    } else if n % 10 == 1 {
        "st"@
    } else if n % 10 == 2 {
        "nd"@
    } else if n % 10 == 3 {
        "rd"@
    } else {
        "th"@
    }
}

/// The number in digits followed by its ordinal ending, as in "22nd".
pub fn add_ordinal_suffix(n: u32) -> (r: String)
    ensures
        r@ == decimal(n as nat) + ordinal_suffix(n as nat),
{
    let h: u32 = n % 100;
    let d: u32 = n % 10;
    let suffix: &str = if h == 11 || h == 12 || h == 13 {
        "th"
    } else if d == 1 {
        "st"
    } else if d == 2 {
        "nd"
    } else if d == 3 {
        "rd"
    } else {
        "th"
    };
    let mut r = String::new();
    push_decimal(&mut r, n as u128);
    r.append(suffix);
    assert(r@ =~= decimal(n as nat) + ordinal_suffix(n as nat));
    r
}

/// The words that follow in `s` when `cur` holds the characters of the word
/// that is being read: a word is a longest run of characters that are not
/// white space.
pub open spec fn words_after(s: Seq<char>, cur: Seq<char>) -> Seq<Seq<char>>
    decreases s.len(),
{
    let closed = if cur.len() == 0 {
        Seq::<Seq<char>>::empty()
    } else {
        seq![cur]
    };
    if s.len() == 0 {
        closed
    } else if is_whitespace_char(s[0]) {
        closed + words_after(s.skip(1), Seq::empty())
    } else {
        words_after(s.skip(1), cur.push(s[0]))
    }
}

/// The words of a text, in order.
pub open spec fn words_of(s: Seq<char>) -> Seq<Seq<char>> {
    words_after(s, Seq::empty())
}

/// A word with its first character in upper case and the rest unchanged.
pub open spec fn capitalize_word(w: Seq<char>) -> Seq<char> {
    if w.len() == 0 {
        w
    } else {
        uppercase_of(w[0]) + w.skip(1)
    }
}

/// The capitalised words, with one space between neighbours.
pub open spec fn join_capitalized(ws: Seq<Seq<char>>) -> Seq<char>
    decreases ws.len(),
{
    if ws.len() == 0 {
        Seq::empty()
    } else if ws.len() == 1 {
        capitalize_word(ws[0])
    } else {
        join_capitalized(ws.drop_last()) + seq![' '] + capitalize_word(ws.last())
    }
}

/// A text with each word capitalised and the white space between words
/// reduced to one space.
pub open spec fn capitalized(s: Seq<char>) -> Seq<char> {
    join_capitalized(words_of(s))
}

/// Capitalises the first letter of each word and joins the words with single
/// spaces.
pub fn capitalize_first_letter_of_each_word(s: &str) -> (r: String)
    ensures
        r@ == capitalized(s@),
{
    let n: usize = s.unicode_len();
    let mut out = String::new();
    let mut in_word: bool = false;
    let mut any_done: bool = false;
    let ghost mut done: Seq<Seq<char>> = Seq::empty();
    let ghost mut cur: Seq<char> = Seq::empty();
    let mut i: usize = 0;
    assert(s@.skip(0) =~= s@);
    while i < n
        invariant
            n == s@.len(),
            i <= n,
            in_word == (cur.len() > 0),
            any_done == (done.len() > 0),
            words_of(s@) == done + words_after(s@.skip(i as int), cur),
            out@ == join_capitalized(
                if cur.len() > 0 {
                    done.push(cur)
                } else {
                    done
                },
            ),
        decreases n - i,
    {
        let c: char = s.get_char(i);
        let ghost rest = s@.skip(i as int);
        let ghost done0 = done;
        let ghost cur0 = cur;
        let ghost out0 = out@;
        assert(rest.len() > 0 && rest[0] == c);
        assert(rest.skip(1) =~= s@.skip(i + 1));
        if is_whitespace(c) {
            proof {
                if cur0.len() > 0 {
                    done = done0.push(cur0);
                    cur = Seq::empty();
                    assert(words_after(rest, cur0) == seq![cur0] + words_after(
                        rest.skip(1),
                        Seq::empty(),
                    ));
                    assert(done0 + (seq![cur0] + words_after(rest.skip(1), Seq::empty()))
                        =~= done + words_after(rest.skip(1), Seq::empty()));
                } else {
                    assert(cur0 =~= Seq::<char>::empty());
                    assert(words_after(rest, cur0) == Seq::<Seq<char>>::empty() + words_after(
                        rest.skip(1),
                        Seq::empty(),
                    ));
                    assert(Seq::<Seq<char>>::empty() + words_after(rest.skip(1), Seq::empty())
                        =~= words_after(rest.skip(1), Seq::empty()));
                }
            }
            if in_word {
                any_done = true;
            }
            in_word = false;
        } else {
            assert(words_after(rest, cur0) == words_after(rest.skip(1), cur0.push(c)));
            if in_word {
                push_char(&mut out, c);
                proof {
                    let before = done0.push(cur0);
                    let after = done0.push(cur0.push(c));
                    assert(after.drop_last() =~= done0);
                    assert(before.drop_last() =~= done0);
                    assert(cur0.push(c).skip(1) =~= cur0.skip(1).push(c));
                    assert(capitalize_word(cur0.push(c)) =~= capitalize_word(cur0).push(c));
                    assert(out0 == join_capitalized(before));
                    assert(join_capitalized(after) =~= join_capitalized(before).push(c));
                }
            } else {
                if any_done {
                    push_char(&mut out, ' ');
                }
                let up = to_uppercase(c);
                out.append(up.as_str());
                proof {
                    let w = cur0.push(c);
                    assert(w.skip(1) =~= Seq::<char>::empty());
                    assert(capitalize_word(w) =~= uppercase_of(c));
                    let after = done0.push(w);
                    assert(after.drop_last() =~= done0);
                    assert(out0 == join_capitalized(done0));
                    if done0.len() > 0 {
                        assert(join_capitalized(after) =~= out0 + seq![' '] + uppercase_of(c));
                        assert(out@ =~= out0.push(' ') + uppercase_of(c));
                    } else {
                        assert(out0 =~= Seq::<char>::empty());
                        assert(join_capitalized(after) =~= uppercase_of(c));
                    }
                    assert(out@ =~= join_capitalized(after));
                }
            }
            proof {
                cur = cur0.push(c);
            }
            in_word = true;
        }
        i += 1;
    }
    proof {
        assert(s@.skip(n as int).len() == 0);
        if cur.len() > 0 {
            assert(done + seq![cur] =~= done.push(cur));
        } else {
            assert(done + Seq::<Seq<char>>::empty() =~= done);
        }
    }
    out
}

/// The texts of the cells of one row.
pub open spec fn cells(row: Vec<String>) -> Seq<Seq<char>> {
    row@.map_values(|c: String| c@)
}

/// The row of a mentee: name, calls a month, gross, net, net per call,
/// status, payment day as an ordinal, notes.
pub open spec fn mentee_row(m: Mentee) -> Seq<Seq<char>> {
    seq![
        capitalized(m.name@),
        decimal(m.calls as nat),
        decimal(m.gross as nat),
        decimal(m.net as nat),
        decimal(net_per_call(m.net as nat, m.calls as nat)),
        capitalized(m.status.label()),
        decimal(m.payment_day as nat) + ordinal_suffix(m.payment_day as nat),
        m.notes@,
    ]
}

/// The row of a video: id, mentee, date, length, notes.
pub open spec fn video_row(v: VideoWithMenteeName) -> Seq<Seq<char>> {
    seq![
        signed_decimal(v.id as int),
        capitalized(v.mentee_name@),
        date_cell(v.date@),
        decimal(v.length as nat),
        v.notes@,
    ]
}

/// The row of a call: id, mentee, date, notes (empty where there are none).
pub open spec fn call_row(c: CallWithMenteeName) -> Seq<Seq<char>> {
    seq![
        decimal(c.id as nat),
        capitalized(c.mentee_name@),
        date_cell(c.date@),
        match c.notes {
            Some(n) => n@,
            None => Seq::empty(),
        },
    ]
}

/// The row of a payment: id, mentee, date, amount.
pub open spec fn payment_row(p: PaymentWithMenteeName) -> Seq<Seq<char>> {
    seq![
        decimal(p.id as nat),
        capitalized(p.mentee_name@),
        date_cell(p.date@),
        decimal(p.amount as nat),
    ]
}

/// The text of a date cell for a stored date text.
pub fn date_cell_text(date: &str) -> (r: String)
    ensures
        r@ == date_cell(date@),
{
    date_or_raw(format_date(date), date)
}

/// One row per mentee, in the order given.
pub fn format_mentees(mentees: Vec<Mentee>) -> (rows: Vec<Vec<String>>)
    ensures
        rows@.len() == mentees@.len(),
        forall|i: int| 0 <= i < rows@.len() ==> cells(#[trigger] rows@[i]) == mentee_row(mentees@[i]),
{
    let mut rows: Vec<Vec<String>> = Vec::new();
    let mut i: usize = 0;
    while i < mentees.len()
        invariant
            i <= mentees@.len(),
            rows@.len() == i,
            forall|k: int| 0 <= k < i ==> cells(#[trigger] rows@[k]) == mentee_row(mentees@[k]),
        decreases mentees@.len() - i,
    {
        let m = &mentees[i];
        let mut row: Vec<String> = Vec::new();
        row.push(capitalize_first_letter_of_each_word(m.name.as_str()));
        row.push(decimal_text(m.calls as u64));
        row.push(decimal_text(m.gross as u64));
        row.push(decimal_text(m.net as u64));
        row.push(decimal_text(calc_net_per_call(&m.net, &m.calls) as u64));
        row.push(capitalize_first_letter_of_each_word(m.status.as_str()));
        row.push(add_ordinal_suffix(m.payment_day));
        row.push(m.notes.clone());
        assert(cells(row) =~= mentee_row(*m));
        rows.push(row);
        i += 1;
    }
    rows
}

/// One row per video, in the order given.
pub fn format_videos(videos: Vec<VideoWithMenteeName>) -> (rows: Vec<Vec<String>>)
    ensures
        rows@.len() == videos@.len(),
        forall|i: int| 0 <= i < rows@.len() ==> cells(#[trigger] rows@[i]) == video_row(videos@[i]),
{
    let mut rows: Vec<Vec<String>> = Vec::new();
    let mut i: usize = 0;
    while i < videos.len()
        invariant
            i <= videos@.len(),
            rows@.len() == i,
            forall|k: int| 0 <= k < i ==> cells(#[trigger] rows@[k]) == video_row(videos@[k]),
        decreases videos@.len() - i,
    {
        let v = &videos[i];
        let mut row: Vec<String> = Vec::new();
        row.push(signed_decimal_text(v.id));
        row.push(capitalize_first_letter_of_each_word(v.mentee_name.as_str()));
        row.push(date_cell_text(v.date.as_str()));
        row.push(decimal_text(v.length as u64));
        row.push(v.notes.clone());
        assert(cells(row) =~= video_row(*v));
        rows.push(row);
        i += 1;
    }
    rows
}

/// One row per call, in the order given.
pub fn format_calls(calls: Vec<CallWithMenteeName>) -> (rows: Vec<Vec<String>>)
    ensures
        rows@.len() == calls@.len(),
        forall|i: int| 0 <= i < rows@.len() ==> cells(#[trigger] rows@[i]) == call_row(calls@[i]),
{
    let mut rows: Vec<Vec<String>> = Vec::new();
    let mut i: usize = 0;
    while i < calls.len()
        invariant
            i <= calls@.len(),
            rows@.len() == i,
            forall|k: int| 0 <= k < i ==> cells(#[trigger] rows@[k]) == call_row(calls@[k]),
        decreases calls@.len() - i,
    {
        let c = &calls[i];
        let mut row: Vec<String> = Vec::new();
        row.push(decimal_text(c.id as u64));
        row.push(capitalize_first_letter_of_each_word(c.mentee_name.as_str()));
        row.push(date_cell_text(c.date.as_str()));
        let notes = match &c.notes {
            Some(n) => n.clone(),
            None => String::new(),
        };
        row.push(notes);
        assert(cells(row) =~= call_row(*c));
        rows.push(row);
        i += 1;
    }
    rows
}

/// One row per payment, in the order given.
pub fn format_payments(payments: Vec<PaymentWithMenteeName>) -> (rows: Vec<Vec<String>>)
    ensures
        rows@.len() == payments@.len(),
        forall|i: int| 0 <= i < rows@.len() ==> cells(#[trigger] rows@[i]) == payment_row(payments@[i]),
{
    let mut rows: Vec<Vec<String>> = Vec::new();
    let mut i: usize = 0;
    while i < payments.len()
        invariant
            i <= payments@.len(),
            rows@.len() == i,
            forall|k: int| 0 <= k < i ==> cells(#[trigger] rows@[k]) == payment_row(payments@[k]),
        decreases payments@.len() - i,
    {
        let p = &payments[i];
        let mut row: Vec<String> = Vec::new();
        row.push(decimal_text(p.id as u64));
        row.push(capitalize_first_letter_of_each_word(p.mentee_name.as_str()));
        row.push(date_cell_text(p.date.as_str()));
        row.push(decimal_text(p.amount as u64));
        assert(cells(row) =~= payment_row(*p));
        rows.push(row);
        i += 1;
    }
    rows
}

/// How a number of remaining calls is coloured.
#[derive(Debug, Clone, Copy, PartialEq, Eq, Structural)]
pub enum Tone {
    /// Calls are left.
    Good,
    /// None are left, or more were taken than paid for.
    Bad,
}

/// The colour for a number of remaining calls: good where it is above zero.
pub fn remaining_tone(remaining_calls: i64) -> (r: Tone)
    ensures
        r == (if remaining_calls > 0 {
            Tone::Good
        } else {
            Tone::Bad
        }),
{
    if remaining_calls > 0 {
        Tone::Good
    } else {
        Tone::Bad
    }
}

/// The lines of the detailed view of a mentee. `remaining` is the text that
/// stands for the remaining calls.
pub open spec fn detail_lines(m: MenteeWithCounts, remaining: Seq<char>) -> Seq<Seq<char>> {
    seq![
        Seq::empty(),
        "Mentee Details:"@,
        "-----------------------"@,
        "Name:             "@ + capitalized(m.mentee.name@),
        "Status:           "@ + m.mentee.status.title(),
        "Payment Day:      "@ + (decimal(m.mentee.payment_day as nat) + ordinal_suffix(
            m.mentee.payment_day as nat,
        )),
        Seq::empty(),
        "Payment Details:"@,
        "-----------------------"@,
        "Gross:            $"@ + decimal(m.mentee.gross as nat),
        "Net:              $"@ + decimal(m.mentee.net as nat),
        "Net / Call:       $"@ + decimal(
            net_per_call(m.mentee.net as nat, m.mentee.calls as nat),
        ),
        "Total Payments:   "@ + signed_decimal(m.payment_count as int),
        Seq::empty(),
        "Call Details:"@,
        "-----------------------"@,
        "Calls / Month:    "@ + decimal(m.mentee.calls as nat),
        "Total Calls:      "@ + signed_decimal(m.call_count as int),
        "Total Videos:     "@ + signed_decimal(m.video_count as int),
        "Remaining Calls:  "@ + remaining,
        "Notes:            "@ + m.mentee.notes@,
        Seq::empty(),
    ]
}

fn labelled(label: &str, value: &str) -> (r: String)
    ensures
        r@ == label@ + value@,
{
    let mut r = String::from_str(label);
    r.append(value);
    r
}

/// The lines of the detailed view of a mentee, top to bottom. The caller
/// gives the text that stands for the remaining calls, so that it may carry
/// a colour.
pub fn display_mentee(mentee: &MenteeWithCounts, remaining: &str) -> (lines: Vec<String>)
    ensures
        cells(lines) == detail_lines(*mentee, remaining@),
{
    let m = &mentee.mentee;
    let mut lines: Vec<String> = Vec::new();
    lines.push(String::new());
    lines.push(String::from_str("Mentee Details:"));
    lines.push(String::from_str("-----------------------"));
    lines.push(
        labelled(
            "Name:             ",
            capitalize_first_letter_of_each_word(m.name.as_str()).as_str(),
        ),
    );
    lines.push(labelled("Status:           ", m.status.name()));
    lines.push(labelled("Payment Day:      ", add_ordinal_suffix(m.payment_day).as_str()));
    lines.push(String::new());
    lines.push(String::from_str("Payment Details:"));
    lines.push(String::from_str("-----------------------"));
    lines.push(labelled("Gross:            $", decimal_text(m.gross as u64).as_str()));
    lines.push(labelled("Net:              $", decimal_text(m.net as u64).as_str()));
    lines.push(
        labelled(
            "Net / Call:       $",
            decimal_text(calc_net_per_call(&m.net, &m.calls) as u64).as_str(),
        ),
    );
    lines.push(
        labelled("Total Payments:   ", signed_decimal_text(mentee.payment_count).as_str()),
    );
    lines.push(String::new());
    lines.push(String::from_str("Call Details:"));
    lines.push(String::from_str("-----------------------"));
    lines.push(labelled("Calls / Month:    ", decimal_text(m.calls as u64).as_str()));
    lines.push(labelled("Total Calls:      ", signed_decimal_text(mentee.call_count).as_str()));
    lines.push(labelled("Total Videos:     ", signed_decimal_text(mentee.video_count).as_str()));
    lines.push(labelled("Remaining Calls:  ", remaining));
    lines.push(labelled("Notes:            ", m.notes.as_str()));
    lines.push(String::new());
    assert(cells(lines) =~= detail_lines(*mentee, remaining@));
    lines
}

} // verus!
