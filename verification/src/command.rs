//! What the debugger is asked to do: the target that the command line names,
//! the commands of the interactive session, and the steps of the session
//! itself.

use crate::error::Error;
use crate::process::{cause_signal_name, reason_text, text_view, StopReason};
use crate::text::{parse_i32, parsed_i32, signed_decimal, signed_decimal_text};
use vstd::prelude::*;
use vstd::string::{StringExecFns, StringSliceAdditionalSpecFns};

verus! {

/// The process that a session is about.
#[derive(Debug, PartialEq, Eq)]
pub enum Target {
    /// The running process with this identifier, to attach to.
    Attach(i32),
    /// The program at this path, to launch under trace.
    Launch(String),
    /// None: the command line names no target.
    Missing,
}

/// A command of the interactive session.
#[derive(Copy, Clone, Debug, PartialEq, Eq, Structural)]
pub enum Command {
    /// Resume the process and wait for its next stop.
    Continue,
    /// Anything else: accepted, and nothing is done.
    Unknown,
}

/// What the line editor handed over.
#[derive(Debug, PartialEq, Eq)]
pub enum Input {
    /// A line that was entered.
    Line(String),
    /// The interrupt key.
    Interrupted,
    /// The end of the input.
    Eof,
    /// A failure of the editor, with its description.
    Failed(String),
}

/// What the session does next.
#[derive(Debug, PartialEq, Eq)]
pub enum Step {
    /// Execute the command line, after adding it to the history where
    /// `remember` says so.
    Execute { line: String, remember: bool },
    /// Do nothing and read the next line.
    Idle,
    /// Print the message and end the session.
    Quit(String),
}

/// The option that asks for an attach: `-p`.
pub open spec fn attach_option() -> Seq<char> {
    seq!['-', 'p']
}

/// The target that the arguments name: the process whose identifier follows
/// `-p`, where the arguments are these two; else the program that the first
/// argument names; and none where there is no argument.
pub open spec fn target_of(args: Seq<String>) -> Result<Target, Error> {
    if args.len() == 0 {
        Ok(Target::Missing)
    } else if args.len() == 2 && args[0]@ == attach_option() {
        match parsed_i32(vstd::utf8::encode_utf8(args[1]@)) {
            Some(pid) => Ok(Target::Attach(pid)),
            None => Err(Error::InvalidTarget),
        }
    } else {
        Ok(Target::Launch(args[0]))
    }
}

/// Reads the target of the session from the arguments of the command line,
/// the program's own name left out. Fails with `InvalidTarget` where what
/// follows `-p` is no number.
pub fn target_from_args(args: Vec<String>) -> (target: Result<Target, Error>)
    ensures
        target == target_of(args@),
{
    proof {
        reveal_strlit("-p");
        assert("-p"@ =~= attach_option());
    }
    let option = String::from_str("-p");
    if args.len() == 0 {
        Ok(Target::Missing)
    } else if args.len() == 2 && args[0] == option {
        match parse_i32(args[1].as_str()) {
            Some(pid) => Ok(Target::Attach(pid)),
            None => Err(Error::InvalidTarget),
        }
    } else {
        Ok(Target::Launch(args[0].clone()))
    }
}

/// The characters that count as white space.
pub const BLANK: u8 = 32;

pub const TAB: u8 = 9;

pub const LINE_FEED: u8 = 10;

pub const FORM_FEED: u8 = 12;

pub const CARRIAGE_RETURN: u8 = 13;

/// Whether `byte` is white space: a blank, a tab, a line feed, a form feed
/// or a carriage return.
pub open spec fn is_space(byte: u8) -> bool {
    byte == BLANK || byte == TAB || byte == LINE_FEED || byte == FORM_FEED || byte
        == CARRIAGE_RETURN
}

/// `line` without the white space that it begins with.
pub open spec fn skip_spaces(line: Seq<u8>) -> Seq<u8>
    decreases line.len(),
{
    if line.len() > 0 && is_space(line[0]) {
        skip_spaces(line.drop_first())
    } else {
        line
    }
}

/// What `line` begins with, up to its first white space.
pub open spec fn leading_word(line: Seq<u8>) -> Seq<u8>
    decreases line.len(),
{
    if line.len() == 0 || is_space(line[0]) {
        Seq::<u8>::empty()
    } else {
        seq![line[0]] + leading_word(line.drop_first())
    }
}

/// The first word of `line`: empty where the line holds white space only.
pub open spec fn first_word(line: Seq<u8>) -> Seq<u8> {
    leading_word(skip_spaces(line))
}

/// The name of the command that resumes the process: the bytes of the word
/// `continue`, letter by letter.
pub open spec fn continue_word() -> Seq<u8> {
    seq![99u8, 111u8, 110u8, 116u8, 105u8, 110u8, 117u8, 101u8]
}

/// The command that `line` gives: its first word says which, and any
/// beginning of a command's name stands for the command.
pub open spec fn command_of(line: Seq<u8>) -> Command {
    let word = first_word(line);
    if word.len() > 0 && word.is_prefix_of(continue_word()) {
        Command::Continue
    } else {
        Command::Unknown
    }
}

/// Reads the command that `line` gives.
pub fn parse_command(line: &str) -> (command: Command)
    ensures
        command == command_of(line.spec_bytes()),
{
    let bytes = line.as_bytes();
    let n = bytes.len();
    let name: [u8; 8] = [99, 111, 110, 116, 105, 110, 117, 101];
    assert(name@ =~= continue_word());
    let mut start: usize = 0;
    assert(bytes@.subrange(0, n as int) =~= bytes@);
    while start < n && is_space_byte(bytes[start])
        invariant
            start <= n,
            n == bytes.len(),
            skip_spaces(bytes@) == skip_spaces(bytes@.subrange(start as int, n as int)),
        decreases n - start,
    {
        proof {
            let rest = bytes@.subrange(start as int, n as int);
            assert(rest.drop_first() =~= bytes@.subrange(start + 1, n as int));
        }
        start = start + 1;
    }
    let ghost rest = bytes@.subrange(start as int, n as int);
    assert(skip_spaces(rest) == rest);
    assert(rest.subrange(0, rest.len() as int) =~= rest);
    assert(rest.subrange(0, 0) + leading_word(rest) =~= leading_word(rest));
    let mut len: usize = 0;
    while start + len < n && !is_space_byte(bytes[start + len])
        invariant
            start + len <= n,
            len <= 8,
            n == bytes.len(),
            name@ == continue_word(),
            bytes@ == line.spec_bytes(),
            rest == bytes@.subrange(start as int, n as int),
            rest == skip_spaces(bytes@),
            leading_word(rest) == rest.subrange(0, len as int) + leading_word(
                rest.subrange(len as int, rest.len() as int),
            ),
            rest.subrange(0, len as int).is_prefix_of(continue_word()),
        decreases n - (start + len),
    {
        proof {
            let tail = rest.subrange(len as int, rest.len() as int);
            assert(tail.drop_first() =~= rest.subrange(len + 1, rest.len() as int));
            assert(rest.subrange(0, len as int) + (seq![tail[0]] + leading_word(
                tail.drop_first(),
            )) =~= rest.subrange(0, len + 1) + leading_word(tail.drop_first()));
            assert(tail[0] == bytes@[start + len]);
        }
        if len == 8 || bytes[start + len] != name[len] {
            proof {
                let word = leading_word(rest);
                let longer = rest.subrange(0, len + 1);
                assert(longer.is_prefix_of(word));
                if word.is_prefix_of(continue_word()) {
                    assert(word[len as int] == longer[len as int]);
                    assert(word.len() <= 8);
                }
            }
            return Command::Unknown;
        }
        len = len + 1;
    }
    proof {
        let tail = rest.subrange(len as int, rest.len() as int);
        assert(leading_word(tail) =~= Seq::<u8>::empty());
        assert(leading_word(rest) =~= rest.subrange(0, len as int));
    }
    if len > 0 {
        Command::Continue
    } else {
        Command::Unknown
    }
}

/// Whether `byte` is white space.
fn is_space_byte(byte: u8) -> (space: bool)
    ensures
        space == is_space(byte),
{
    byte == BLANK || byte == TAB || byte == LINE_FEED || byte == FORM_FEED || byte
        == CARRIAGE_RETURN
}

/// Whether `step` is what the session does with what the line editor handed
/// over, where `last` is the newest line of the history, if there is one.
///
/// An empty line repeats the newest line of the history, and does nothing
/// where the history is empty. Any other line is added to the history and
/// executed. The interrupt key, the end of the input and a failure of the
/// editor end the session, each with its message.
pub open spec fn is_next_step(input: Input, last: Option<String>, step: Step) -> bool {
    match input {
        Input::Line(line) => {
            if line@.len() == 0 {
                match last {
                    Some(previous) => step == (Step::Execute { line: previous, remember: false }),
                    None => step == Step::Idle,
                }
            } else {
                step == (Step::Execute { line, remember: true })
            }
        },
        Input::Interrupted => step matches Step::Quit(message) && message@ == "Ctrl-C"@,
        Input::Eof => step matches Step::Quit(message) && message@ == "Ctrl-D"@,
        Input::Failed(description) => step matches Step::Quit(message) && message@
            == "unexpected readline error: "@ + description@,
    }
}

/// Decides what the session does next.
pub fn next_step(input: Input, last: Option<String>) -> (step: Step)
    ensures
        is_next_step(input, last, step),
{
    match input {
        Input::Line(line) => {
            if line.as_str().is_empty() {
                match last {
                    Some(previous) => Step::Execute { line: previous, remember: false },
                    None => Step::Idle,
                }
            } else {
                Step::Execute { line, remember: true }
            }
        },
        Input::Interrupted => Step::Quit(String::from_str("Ctrl-C")),
        Input::Eof => Step::Quit(String::from_str("Ctrl-D")),
        Input::Failed(description) => {
            let mut message = String::from_str("unexpected readline error: ");
            message.append(description.as_str());
            Step::Quit(message)
        },
    }
}

/// The line that reports a stop: the process and the reason, where `name` is
/// the name of the reason's signal, if it has one.
pub open spec fn stop_report_text(pid: i32, reason: StopReason, name: Option<Seq<char>>) -> Seq<
    char,
> {
    "process id "@ + signed_decimal(pid as int) + " "@ + reason_text(
        reason.state(),
        reason.cause(),
        name,
    )
}

/// Writes the line that reports a stop, given the name of the reason's
/// signal, if it has one.
pub fn render_stop_report(pid: i32, reason: &StopReason, name: Option<String>) -> (line: String)
    ensures
        line@ == stop_report_text(pid, *reason, text_view(name)),
{
    let mut line = String::from_str("process id ");
    let number = signed_decimal_text(pid);
    line.append(number.as_str());
    line.append(" ");
    let text = reason.render(name);
    line.append(text.as_str());
    line
}

/// Writes the line that reports a stop.
pub fn stop_report(pid: i32, reason: &StopReason) -> (line: String)
    ensures
        line@ == stop_report_text(pid, *reason, cause_signal_name(reason.cause())),
{
    render_stop_report(pid, reason, reason.stop_cause().known_signal_name())
}

} // verus!
