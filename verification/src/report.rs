//! The lines that tell what a stage reported.

use vstd::prelude::*;
use vstd::string::StringExecFns;
use crate::acquisition::Fault;
use crate::pipeline::{Record, StageReport};
use crate::stage::heading_text;

verus! {

/// The character that stands for a digit.
pub open spec fn digit_char(digit: int) -> char {
    if digit <= 0 {
        '0'
    } else if digit == 1 {
        '1'
    } else if digit == 2 {
        '2'
    } else if digit == 3 {
        '3'
    } else if digit == 4 {
        '4'
    } else if digit == 5 {
        '5'
    } else if digit == 6 {
        '6'
    } else if digit == 7 {
        '7'
    } else if digit == 8 {
        '8'
    } else {
        '9'
    }
}

/// A number in decimal, without sign or leading zeros.
pub open spec fn decimal(n: nat) -> Seq<char>
    decreases n,
{
    if n < 10 {
        seq![digit_char(n as int)]
    } else {
        decimal(n / 10).push(digit_char((n % 10) as int))
    }
}

/// The decimal of a number is never empty.
pub proof fn lemma_decimal_nonempty(n: nat)
    ensures
        decimal(n).len() >= 1,
    decreases n,
{
    if n >= 10 {
        lemma_decimal_nonempty(n / 10);
    }
}

/// Different numbers are written differently.
pub proof fn lemma_decimal_injective(a: nat, b: nat)
    requires
        a != b,
    ensures
        decimal(a) != decimal(b),
    decreases a,
{
    if a < 10 && b < 10 {
        assert(decimal(a)[0] == digit_char(a as int));
        assert(decimal(b)[0] == digit_char(b as int));
    } else if a < 10 {
        lemma_decimal_nonempty(b / 10);
        assert(decimal(a).len() == 1);
        assert(decimal(b).len() == decimal(b / 10).len() + 1);
    } else if b < 10 {
        lemma_decimal_nonempty(a / 10);
        assert(decimal(b).len() == 1);
        assert(decimal(a).len() == decimal(a / 10).len() + 1);
    } else {
        let x = decimal(a / 10);
        let y = decimal(b / 10);
        let p = digit_char((a % 10) as int);
        let q = digit_char((b % 10) as int);
        assert(decimal(a) == x.push(p));
        assert(decimal(b) == y.push(q));
        if x.push(p) == y.push(q) {
            assert(x.push(p).last() == p);
            assert(y.push(q).last() == q);
            assert(x.push(p).drop_last() =~= x);
            assert(y.push(q).drop_last() =~= y);
            assert(p == q);
            assert(a % 10 == b % 10);
            assert(x == y);
            if a / 10 != b / 10 {
                lemma_decimal_injective(a / 10, b / 10);
            }
            assert(a / 10 == b / 10);
            assert(false);
        }
    }
}

/// One message of a listing: two spaces, its number, a full stop, a space,
/// and the message as it came.
pub open spec fn numbered(number: nat, message: Seq<char>) -> Seq<char> {
    "  "@ + decimal(number) + ". "@ + message
}

/// What is printed for the messages of one stage: the single line `ok` when
/// there are none, else every message on a line of its own, numbered from
/// one, in the order in which they came.
pub open spec fn listing(messages: Seq<Seq<char>>) -> Seq<Seq<char>> {
    if messages.len() == 0 {
        seq!["ok"@]
    } else {
        Seq::new(messages.len(), |i: int| numbered((i + 1) as nat, messages[i]))
    }
}

/// What is printed for one stage: its heading, then its listing.
pub open spec fn stage_text(record: Record) -> Seq<Seq<char>> {
    seq![heading_text(record.stage)] + listing(record.messages)
}

/// The text of one digit.
fn digit_text(digit: usize) -> (text: &'static str)
    requires
        digit < 10,
    ensures
        text@ == seq![digit_char(digit as int)],
{
    proof {
        reveal_strlit("0");
        reveal_strlit("1");
        reveal_strlit("2");
        reveal_strlit("3");
        reveal_strlit("4");
        reveal_strlit("5");
        reveal_strlit("6");
        reveal_strlit("7");
        reveal_strlit("8");
        reveal_strlit("9");
    }
    let text = if digit == 0 {
        "0"
    } else if digit == 1 {
        "1"
    } else if digit == 2 {
        "2"
    } else if digit == 3 {
        "3"
    } else if digit == 4 {
        "4"
    } else if digit == 5 {
        "5"
    } else if digit == 6 {
        "6"
    } else if digit == 7 {
        "7"
    } else if digit == 8 {
        "8"
    } else {
        "9"
    };
    assert(text@ =~= seq![digit_char(digit as int)]);
    text
}

/// Writes `n` in decimal at the end of `out`.
fn write_decimal(n: usize, out: &mut String)
    ensures
        final(out)@ == old(out)@ + decimal(n as nat),
    decreases n,
{
    if n >= 10 {
        write_decimal(n / 10, out);
    }
    out.append(digit_text(n % 10));
    assert(out@ =~= old(out)@ + decimal(n as nat));
}

/// A number in decimal.
pub fn decimal_text(n: usize) -> (text: String)
    ensures
        text@ == decimal(n as nat),
{
    let mut text = String::new();
    write_decimal(n, &mut text);
    assert(text@ =~= decimal(n as nat));
    text
}

/// The line of one message in a listing.
pub fn numbered_line(number: usize, message: &str) -> (line: String)
    ensures
        line@ == numbered(number as nat, message@),
{
    let mut line = "  ".to_owned();
    write_decimal(number, &mut line);
    line.append(". ");
    line.append(message);
    line
}

/// The lines to print for the messages of one stage. Nothing is reordered,
/// merged or left out.
pub fn listing_lines(messages: &Vec<String>) -> (lines: Vec<String>)
    ensures
        lines.deep_view() == listing(messages.deep_view()),
{
    let mut lines: Vec<String> = Vec::new();
    if messages.len() == 0 {
        lines.push("ok".to_owned());
        assert(lines.deep_view() =~= listing(messages.deep_view()));
        return lines;
    }
    let mut i: usize = 0;
    while i < messages.len()
        invariant
            i <= messages.len(),
            lines@.len() == i,
            forall|k: int|
                0 <= k < i ==> (#[trigger] lines@[k])@ == numbered(
                    (k + 1) as nat,
                    messages@[k]@,
                ),
        decreases messages.len() - i,
    {
        lines.push(numbered_line(i + 1, messages[i].as_str()));
        i = i + 1;
    }
    assert(lines.deep_view() =~= listing(messages.deep_view()));
    lines
}

/// The lines to print for one stage: its heading, then its listing.
pub fn stage_lines(report: &StageReport) -> (lines: Vec<String>)
    ensures
        lines.deep_view() == stage_text(report@),
{
    let mut lines: Vec<String> = Vec::new();
    lines.push(report.stage.heading().to_owned());
    let mut rest = listing_lines(&report.messages);
    let ghost first = lines.deep_view();
    let ghost second = rest.deep_view();
    lines.append(&mut rest);
    assert(lines.deep_view() =~= first + second);
    assert(first =~= seq![heading_text(report.stage)]);
    lines
}

/// The line that tells that the schema at a URL was fetched.
pub open spec fn fetched_text(url: Seq<char>) -> Seq<char> {
    "\t- "@ + url + ".. ok"@
}

/// The line that tells that the schema at a URL could not be had, and why.
/// The reason stands on a line of its own below the URL.
pub open spec fn failed_text(url: Seq<char>, reason: Seq<char>) -> Seq<char> {
    "\t- "@ + url + ".. ERROR \n\t"@ + reason
}

/// The reason given for a URL that answered with a status that is no
/// success.
pub open spec fn refusal_text(url: Seq<char>) -> Seq<char> {
    "Cannot download extension schema: "@ + url
}

/// What is printed for a failure: a line for a URL that could not be reached
/// or that refused, nothing for the others, on which the run breaks off
/// without a report.
pub open spec fn fault_text(fault: Fault) -> Option<Seq<char>> {
    match fault {
        Fault::Unreachable { url, reason } => Some(failed_text(url@, reason@)),
        Fault::Refused { url, status } => Some(failed_text(url@, refusal_text(url@))),
        _ => None,
    }
}

/// What is printed for the local schema files: each file on a line of its
/// own, in the order given, or a line that says there are none.
pub open spec fn local_text(shown: Seq<Seq<char>>) -> Seq<Seq<char>> {
    if shown.len() == 0 {
        seq!["\t- NONE"@]
    } else {
        Seq::new(shown.len(), |i: int| "\t- "@ + shown[i])
    }
}

/// The line that tells that the schema at a URL was fetched.
pub fn fetched_line(url: &str) -> (line: String)
    ensures
        line@ == fetched_text(url@),
{
    let mut line = "\t- ".to_owned();
    line.append(url);
    line.append(".. ok");
    line
}

/// The line that tells that the schema at a URL could not be had, and why.
pub fn failed_line(url: &str, reason: &str) -> (line: String)
    ensures
        line@ == failed_text(url@, reason@),
{
    let mut line = "\t- ".to_owned();
    line.append(url);
    line.append(".. ERROR \n\t");
    line.append(reason);
    line
}

/// The line to print for a failure, if the run reports it.
pub fn fault_line(fault: &Fault) -> (line: Option<String>)
    ensures
        line matches Some(text) ==> fault_text(*fault) == Some(text@),
        line is None ==> fault_text(*fault) is None,
{
    match fault {
        Fault::Unreachable { url, reason } => Some(failed_line(url.as_str(), reason.as_str())),
        Fault::Refused { url, status } => {
            let mut reason = "Cannot download extension schema: ".to_owned();
            reason.append(url.as_str());
            Some(failed_line(url.as_str(), reason.as_str()))
        },
        _ => None,
    }
}

/// The lines to print for the local schema files, each given as it is to be
/// shown.
pub fn local_lines(shown: &Vec<String>) -> (lines: Vec<String>)
    ensures
        lines.deep_view() == local_text(shown.deep_view()),
{
    let mut lines: Vec<String> = Vec::new();
    if shown.len() == 0 {
        lines.push("\t- NONE".to_owned());
        assert(lines.deep_view() =~= local_text(shown.deep_view()));
        return lines;
    }
    let mut i: usize = 0;
    while i < shown.len()
        invariant
            i <= shown.len(),
            lines@.len() == i,
            forall|k: int| 0 <= k < i ==> (#[trigger] lines@[k])@ == "\t- "@ + shown@[k]@,
        decreases shown.len() - i,
    {
        let mut line = "\t- ".to_owned();
        line.append(shown[i].as_str());
        lines.push(line);
        i = i + 1;
    }
    assert(lines.deep_view() =~= local_text(shown.deep_view()));
    lines
}

} // verus!
