//! Commands that a pull-request comment can address to the bot.
//!
//! A comment is a command when, once surrounding white space is set aside, it
//! starts with `@` and the bot's user name, followed by a space and one verb.

use crate::text::{chars_eq, chars_of, char_views, trim, trim_bounds, words, words_between};
use vstd::prelude::*;

verus! {

/// What a command asks for.
#[derive(Debug, Clone, Copy, PartialEq, Eq, Structural)]
pub enum CommandAction {
    /// Run the pipeline of the pull request's head commit again.
    Retry,
}

/// A command read from a comment.
#[derive(Debug, Clone, Copy, PartialEq, Eq, Structural)]
pub struct Command {
    pub command: CommandAction,
}

/// Why a comment is not a command.
#[derive(Debug, Clone, Copy, PartialEq, Eq, Structural)]
pub enum CommandError {
    /// The verb is not one the bot knows.
    UnknownCommand,
    /// The comment does not start with `@` and the bot's user name.
    BadUsername,
    /// More than one word follows the user name.
    InvalidLength,
    /// The user name is not followed by a space and a verb.
    InvalidFormat,
}

/// The command that the settings call `name`.
pub open spec fn command_named(name: Seq<char>) -> Option<CommandAction> {
    if name == "Retry"@ {
        Some(CommandAction::Retry)
    } else {
        None
    }
}

/// The command that the settings call `name`, if there is one.
pub fn command_from_name(name: &str) -> (command: Option<CommandAction>)
    ensures
        command == command_named(name@),
{
    let given = chars_of(name);
    let retry = chars_of("Retry");
    if chars_eq(&given, &retry) {
        Some(CommandAction::Retry)
    } else {
        None
    }
}

/// How a comment addresses the user `username`.
pub open spec fn mention(username: Seq<char>) -> Seq<char> {
    seq!['@'] + username
}

/// The verb of a command, given the single word that follows the mention.
pub open spec fn verb(word: Seq<char>) -> Result<Command, CommandError> {
    if word == "retry"@ {
        Ok(Command { command: CommandAction::Retry })
    } else {
        Err(CommandError::UnknownCommand)
    }
}

/// The command that the comment `body` holds for the bot named `username`.
///
/// The comment is trimmed. Unless it then starts with the mention, the user
/// name is bad. Unless a space follows the mention, and at least one word
/// follows that, the format is invalid. More than one word is too many. The
/// single word left is the verb.
pub open spec fn parse(body: Seq<char>, username: Seq<char>) -> Result<Command, CommandError> {
    let text = trim(body);
    let at = mention(username);
    if !at.is_prefix_of(text) {
        Err(CommandError::BadUsername)
    } else if text.len() == at.len() || text[at.len() as int] != ' ' {
        Err(CommandError::InvalidFormat)
    } else {
        let args = words(text.skip(at.len() as int + 1));
        if args.len() == 0 {
            Err(CommandError::InvalidFormat)
        } else if args.len() > 1 {
            Err(CommandError::InvalidLength)
        } else {
            verb(args[0])
        }
    }
}

/// Whether `cs[lo..hi]` starts with `@` followed by the characters of `name`.
fn starts_with_mention(cs: &Vec<char>, lo: usize, hi: usize, name: &Vec<char>) -> (found: bool)
    requires
        lo <= hi <= cs.len(),
    ensures
        found == mention(name@).is_prefix_of(cs@.subrange(lo as int, hi as int)),
{
    let ghost text = cs@.subrange(lo as int, hi as int);
    let ghost at = mention(name@);
    if hi - lo <= name.len() {
        return false;
    }
    if cs[lo] != '@' {
        assert(text.subrange(0, at.len() as int)[0] != at[0]);
        return false;
    }
    let mut k: usize = 0;
    while k < name.len()
        invariant
            lo <= hi <= cs.len(),
            hi - lo > name.len(),
            k <= name.len(),
            text == cs@.subrange(lo as int, hi as int),
            at == mention(name@),
            forall|j: int| 0 <= j < k ==> cs[lo + 1 + j] == name[j],
        decreases name.len() - k,
    {
        if cs[lo + 1 + k] != name[k] {
            assert(text[1 + k] == cs[lo + 1 + k]);
            assert(at[1 + k] == name[k as int]);
            assert(text.subrange(0, at.len() as int)[1 + k] != at[1 + k]);
            return false;
        }
        k += 1;
    }
    assert forall|j: int| 0 <= j < at.len() implies at[j] == text.subrange(0, at.len() as int)[j] by {
        if j > 0 {
            assert(cs[lo + 1 + (j - 1)] == name[j - 1]);
        }
    }
    assert(at =~= text.subrange(0, at.len() as int));
    true
}

/// Reads the command that the comment `body` holds for the bot `username`.
pub fn parse_body(body: &str, username: &str) -> (parsed: Result<Command, CommandError>)
    ensures
        parsed == parse(body@, username@),
{
    let cs = chars_of(body);
    let name = chars_of(username);
    let (lo, hi) = trim_bounds(&cs);
    let ghost text = cs@.subrange(lo as int, hi as int);
    if !starts_with_mention(&cs, lo, hi, &name) {
        return Err(CommandError::BadUsername);
    }
    let after: usize = lo + 1 + name.len();
    if after == hi || cs[after] != ' ' {
        return Err(CommandError::InvalidFormat);
    }
    assert(text.skip(name.len() + 2) =~= cs@.subrange(after + 1, hi as int));
    let args = words_between(&cs, after + 1, hi);
    if args.len() == 0 {
        return Err(CommandError::InvalidFormat);
    }
    if args.len() > 1 {
        return Err(CommandError::InvalidLength);
    }
    assert(char_views(args@)[0] == args[0]@);
    let retry = chars_of("retry");
    if chars_eq(&args[0], &retry) {
        Ok(Command { command: CommandAction::Retry })
    } else {
        Err(CommandError::UnknownCommand)
    }
}

/// The name of an error, as it is shown in messages.
pub open spec fn error_name(error: CommandError) -> Seq<char> {
    match error {
        CommandError::UnknownCommand => "UnknownCommand"@,
        CommandError::BadUsername => "BadUsername"@,
        CommandError::InvalidLength => "InvalidLength"@,
        CommandError::InvalidFormat => "InvalidFormat"@,
    }
}

impl CommandError {
    /// The name of this error.
    pub fn name(&self) -> (out: &'static str)
        ensures
            out@ == error_name(*self),
    {
        match self {
            CommandError::UnknownCommand => "UnknownCommand",
            CommandError::BadUsername => "BadUsername",
            CommandError::InvalidLength => "InvalidLength",
            CommandError::InvalidFormat => "InvalidFormat",
        }
    }
}

} // verus!
