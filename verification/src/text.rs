//! Text helpers: string comparison, decimal rendering, and the messages the
//! launcher prints.

use vstd::prelude::*;

verus! {

/// Whether two string slices hold the same characters.
pub fn same_text(a: &str, b: &str) -> (same: bool)
    ensures
        same == (a@ == b@),
{
    let left = a.to_owned();
    let right = b.to_owned();
    left == right
}

/// The character that writes the digit `d`.
pub open spec fn digit_char(d: nat) -> char
    recommends
        d < 10,
{
    if d == 0 {
        '0'
    } else if d == 1 {
        '1'
    } else if d == 2 {
        '2'
    } else if d == 3 {
        '3'
    } else if d == 4 {
        '4'
    } else if d == 5 {
        '5'
    } else if d == 6 {
        '6'
    } else if d == 7 {
        '7'
    } else if d == 8 {
        '8'
    } else {
        '9'
    }
}

/// The decimal numeral of `n`: most significant digit first, no leading
/// zeros, `"0"` for zero.
pub open spec fn decimal(n: nat) -> Seq<char>
    decreases n,
{
    if n < 10 {
        seq![digit_char(n)]
    } else {
        decimal(n / 10).push(digit_char(n % 10))
    }
}

/// The digit that `c` writes; zero for a character that writes none.
pub open spec fn digit_value(c: char) -> nat {
    if c == '1' {
        1
    } else if c == '2' {
        2
    } else if c == '3' {
        3
    } else if c == '4' {
        4
    } else if c == '5' {
        5
    } else if c == '6' {
        6
    } else if c == '7' {
        7
    } else if c == '8' {
        8
    } else if c == '9' {
        9
    } else {
        0
    }
}

/// The number that a numeral writes, its last character being the units.
pub open spec fn numeral_value(numeral: Seq<char>) -> nat
    decreases numeral.len(),
{
    if numeral.len() == 0 {
        0
    } else {
        10 * numeral_value(numeral.drop_last()) + digit_value(numeral.last())
    }
}

/// `decimal(n)` is a numeral of `n`: it is not empty, it holds digits only,
/// it starts with a zero only for zero itself, and it reads back as `n`.
pub proof fn theorem_decimal_reads_back(n: nat)
    ensures
        decimal(n).len() >= 1,
        forall|i: int|
            0 <= i < decimal(n).len() ==> decimal(n)[i] == digit_char(
                digit_value(#[trigger] decimal(n)[i]),
            ),
        n > 0 ==> decimal(n).first() != '0',
        numeral_value(decimal(n)) == n,
    decreases n,
{
    if n < 10 {
        assert(decimal(n).drop_last() =~= Seq::<char>::empty());
        assert(numeral_value(Seq::<char>::empty()) == 0);
    } else {
        theorem_decimal_reads_back(n / 10);
        assert(decimal(n).drop_last() =~= decimal(n / 10));
        assert(decimal(n).first() == decimal(n / 10).first());
    }
}

/// The one-character string that writes the digit `d`.
fn digit_text(d: u32) -> (text: &'static str)
    requires
        d < 10,
    ensures
        text@ == seq![digit_char(d as nat)],
{
    proof {
        reveal_strlit("0");
        reveal_strlit("1");
        reveal_strlit("2");
        reveal_strlit("3");
        reveal_strlit("4");
        reveal_strlit("5");
        reveal_strlit("6");
        reveal_strlit("7");
        reveal_strlit("8");
        reveal_strlit("9");
    }
    let text = match d {
        0 => "0",
        1 => "1",
        2 => "2",
        3 => "3",
        4 => "4",
        5 => "5",
        6 => "6",
        7 => "7",
        8 => "8",
        _ => "9",
    };
    assert(text@ =~= seq![digit_char(d as nat)]);
    text
}

/// Renders `n` as a decimal numeral.
pub fn decimal_string(n: u32) -> (text: String)
    ensures
        text@ == decimal(n as nat),
    decreases n,
{
    if n < 10 {
        digit_text(n).to_owned()
    } else {
        let mut text = decimal_string(n / 10);
        text.append(digit_text(n % 10));
        text
    }
}

/// The line that reports a started application and its process identifier.
pub open spec fn launched_line(app: Seq<char>, pid: u32) -> Seq<char> {
    "Launched "@ + app + " (PID: "@ + decimal(pid as nat) + ")"@
}

/// The line that reports a registered path that is not on disk.
pub open spec fn path_not_found_line(path: Seq<char>) -> Seq<char> {
    "Application path not found: "@ + path
}

/// The line that reports a key that is not registered.
pub open spec fn unknown_application_line(app: Seq<char>) -> Seq<char> {
    "Unknown application: "@ + app
}

/// The line that reports a first argument that names no command.
pub open spec fn unknown_command_line(command: Seq<char>) -> Seq<char> {
    "Unknown command: "@ + command
}

/// The line under which one registered key is listed.
pub open spec fn listed_line(key: Seq<char>) -> Seq<char> {
    "- "@ + key
}

/// The usage text, line by line.
pub open spec fn usage_lines() -> Seq<Seq<char>> {
    seq![
        "Usage:"@,
        "  app-launcher list              - List available applications"@,
        "  app-launcher run <app-name>    - Launch specified application"@,
        ""@,
        "Available applications:"@,
        "  - docker-desktop   (Docker Desktop)"@,
        "  - slack           (Slack)"@,
        "  - chatwork        (Chatwork in browser)"@,
        "  - chrome          (Google Chrome)"@,
    ]
}

/// `prefix` followed by `rest`.
pub fn prefixed(prefix: &str, rest: &str) -> (line: String)
    ensures
        line@ == prefix@ + rest@,
{
    let mut line = prefix.to_owned();
    line.append(rest);
    line
}

/// Writes [`launched_line`].
pub fn launched_message(app: &str, pid: u32) -> (line: String)
    ensures
        line@ == launched_line(app@, pid),
{
    let mut line = prefixed("Launched ", app);
    line.append(" (PID: ");
    line.append(decimal_string(pid).as_str());
    line.append(")");
    line
}

/// Appends the usage text to `lines`.
pub fn push_usage(lines: &mut Vec<String>)
    ensures
        final(lines).deep_view() == old(lines).deep_view() + usage_lines(),
{
    let ghost before = lines.deep_view();
    lines.push("Usage:".to_owned());
    lines.push("  app-launcher list              - List available applications".to_owned());
    lines.push("  app-launcher run <app-name>    - Launch specified application".to_owned());
    lines.push("".to_owned());
    lines.push("Available applications:".to_owned());
    lines.push("  - docker-desktop   (Docker Desktop)".to_owned());
    lines.push("  - slack           (Slack)".to_owned());
    lines.push("  - chatwork        (Chatwork in browser)".to_owned());
    lines.push("  - chrome          (Google Chrome)".to_owned());
    assert(lines.deep_view() =~= before + usage_lines());
}

} // verus!
