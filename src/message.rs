use vstd::prelude::*;

verus! {

/// The decimal digit character for `d`, which is below ten.
pub open spec fn digit_char(d: nat) -> char {
    if d == 0 {
        '0'
    } else if d == 1 {
        '1'
    } else if d == 2 {
        '2'
    } else if d == 3 {
        '3'
    } else if d == 4 {
        '4'
    } else if d == 5 {
        '5'
    } else if d == 6 {
        '6'
    } else if d == 7 {
        '7'
    } else if d == 8 {
        '8'
    } else {
        '9'
    }
}

/// The decimal representation of `n`, without sign or leading zeros.
pub open spec fn decimal_spec(n: nat) -> Seq<char>
    decreases n,
{
    if n < 10 {
        seq![digit_char(n)]
    } else {
        decimal_spec(n / 10).push(digit_char(n % 10))
    }
}

fn digit_str(d: u32) -> (r: &'static str)
    requires
        d < 10,
    ensures
        r@ == seq![digit_char(d as nat)],
{
    let r = if d == 0 {
        "0"
    } else if d == 1 {
        "1"
    } else if d == 2 {
        "2"
    } else if d == 3 {
        "3"
    } else if d == 4 {
        "4"
    } else if d == 5 {
        "5"
    } else if d == 6 {
        "6"
    } else if d == 7 {
        "7"
    } else if d == 8 {
        "8"
    } else {
        "9"
    };
    proof {
        reveal_strlit("0");
        reveal_strlit("1");
        reveal_strlit("2");
        reveal_strlit("3");
        reveal_strlit("4");
        reveal_strlit("5");
        reveal_strlit("6");
        reveal_strlit("7");
        reveal_strlit("8");
        reveal_strlit("9");
    }
    assert(r@ =~= seq![digit_char(d as nat)]);
    r
}

/// Writes `n` in decimal, as a process identifier is shown.
pub fn decimal_text(n: u32) -> (r: String)
    ensures
        r@ == decimal_spec(n as nat),
    decreases n,
{
    if n < 10 {
        String::from_str(digit_str(n))
    } else {
        let high = decimal_text(n / 10);
        let r = high.concat(digit_str(n % 10));
        assert(r@ =~= decimal_spec(n as nat));
        r
    }
}

/// Severity of a log line, from the most to the least severe.
#[derive(Clone, Copy, Debug, PartialEq, Eq, Structural)]
pub enum LogLevel {
    Error,
    Warn,
    Info,
    Debug,
    Trace,
}

/// A line for the log: its level and its text.
#[derive(Clone, Debug)]
pub struct LogLine {
    pub level: LogLevel,
    pub text: String,
}

pub struct LogLineView {
    pub level: LogLevel,
    pub text: Seq<char>,
}

impl View for LogLine {
    type V = LogLineView;

    open spec fn view(&self) -> LogLineView {
        LogLineView { level: self.level, text: self.text@ }
    }
}

pub open spec fn starting_text(shown_dir: Seq<char>) -> Seq<char> {
    "Starting web server in: "@ + shown_dir
}

pub open spec fn started_text(pid: u32) -> Seq<char> {
    "Web server started with PID: "@ + decimal_spec(pid as nat)
}

pub open spec fn failed_text(error: Seq<char>) -> Seq<char> {
    "Failed to start web server: "@ + error
}

/// The quoted, escaped form in which a path is shown in the log.
pub uninterp spec fn shown_path(p: Seq<char>) -> Seq<char>;

/// Relies on `Debug` for `std::path::Path`: it writes the path in quotes with
/// special characters escaped, and depends on the path's characters alone.
#[verifier::external_body]
pub(crate) fn show_path(p: &str) -> (r: String)
    ensures
        r@ == shown_path(p@),
{
    format!("{:?}", std::path::Path::new(p))
}

/// The informational line that names the directory the server starts in, from
/// that directory as shown in the log.
pub fn starting_line(shown_dir: &str) -> (r: LogLine)
    ensures
        r@ == (LogLineView { level: LogLevel::Info, text: starting_text(shown_dir@) }),
{
    let text = String::from_str("Starting web server in: ").concat(shown_dir);
    LogLine { level: LogLevel::Info, text }
}

/// The informational line that reports the started server's process identifier.
pub fn started_line(pid: u32) -> (r: LogLine)
    ensures
        r@ == (LogLineView { level: LogLevel::Info, text: started_text(pid) }),
{
    let digits = decimal_text(pid);
    let text = String::from_str("Web server started with PID: ").concat(digits.as_str());
    LogLine { level: LogLevel::Info, text }
}

/// The error line that reports why the server could not be started.
pub fn failed_line(error: &str) -> (r: LogLine)
    ensures
        r@ == (LogLineView { level: LogLevel::Error, text: failed_text(error@) }),
{
    let text = String::from_str("Failed to start web server: ").concat(error);
    LogLine { level: LogLevel::Error, text }
}

} // verus!
