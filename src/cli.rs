use vstd::prelude::*;

use crate::error::WorkspaceError;

verus! {

/// The usage text for a program invoked as `program`, one line per entry,
/// each ended by a newline.
pub open spec fn usage_of(program: Seq<char>) -> Seq<char> {
    "Utility for getting / creating workspace.\n"@ + "Usage: "@ + program + " [subcommand]\n"@
        + "Subcommands: \n"@
        + "    temp (-t)  Get the directory template (copy source to create new workspace)\n"@
        + "    year (-y)  Get the year directory\n"@ + "    date (-d)  Get today's workspace\n"@
        + "    help (-h)  Show this help message\n"@
}

pub fn usage_text(program: &str) -> (r: String)
    ensures
        r@ == usage_of(program@),
{
    let mut r = String::from_str("Utility for getting / creating workspace.\n");
    r.append("Usage: ");
    r.append(program);
    r.append(" [subcommand]\n");
    r.append("Subcommands: \n");
    r.append("    temp (-t)  Get the directory template (copy source to create new workspace)\n");
    r.append("    year (-y)  Get the year directory\n");
    r.append("    date (-d)  Get today's workspace\n");
    r.append("    help (-h)  Show this help message\n");
    r
}

/// What the first command-line argument asks for.
#[derive(Debug)]
pub enum Command {
    Temp,
    Year,
    Date,
    Help,
    Unknown(String),
    Missing,
}

/// `c` is what the first argument `arg` asks for: each subcommand by its
/// name or its short flag; any other text is unknown; no argument is missing.
pub open spec fn parsed_as(arg: Option<Seq<char>>, c: Command) -> bool {
    match arg {
        None => c is Missing,
        Some(a) => if a == "temp"@ || a == "-t"@ {
            c is Temp
        } else if a == "year"@ || a == "-y"@ {
            c is Year
        } else if a == "date"@ || a == "-d"@ {
            c is Date
        } else if a == "help"@ || a == "-h"@ {
            c is Help
        } else {
            c matches Command::Unknown(s) && s@ == a
        },
    }
}

fn names(a: &String, long: &str, short: &str) -> (r: bool)
    ensures
        r == (a@ == long@ || a@ == short@),
{
    *a == String::from_str(long) || *a == String::from_str(short)
}

pub fn parse_command(arg: Option<&str>) -> (r: Command)
    ensures
        parsed_as(
            match arg {
                Some(a) => Some(a@),
                None => None,
            },
            r,
        ),
{
    match arg {
        None => Command::Missing,
        Some(a) => {
            let s = String::from_str(a);
            if names(&s, "temp", "-t") {
                Command::Temp
            } else if names(&s, "year", "-y") {
                Command::Year
            } else if names(&s, "date", "-d") {
                Command::Date
            } else if names(&s, "help", "-h") {
                Command::Help
            } else {
                Command::Unknown(s)
            }
        },
    }
}

/// What a command prints and how the invocation ends.
#[derive(Debug)]
pub struct Reply {
    pub output: String,
    pub result: Result<(), WorkspaceError>,
}

/// Shows the usage text and succeeds.
pub fn handle_help(program: &str) -> (r: Reply)
    ensures
        r.output@ == usage_of(program@),
        r.result is Ok,
{
    Reply { output: usage_text(program), result: Ok(()) }
}

/// Shows the usage text and fails, naming the subcommand that is not known.
pub fn handle_unknown(program: &str, subcmd: &str) -> (r: Reply)
    ensures
        r.output@ == usage_of(program@),
        r.result matches Err(WorkspaceError::UnknownSubcommand(s)) && s@ == subcmd@,
{
    Reply {
        output: usage_text(program),
        result: Err(WorkspaceError::UnknownSubcommand(String::from_str(subcmd))),
    }
}

/// Shows the usage text and fails because no subcommand was given.
pub fn handle_invalid(program: &str) -> (r: Reply)
    ensures
        r.output@ == usage_of(program@),
        r.result matches Err(WorkspaceError::MissingSubcommand),
{
    Reply { output: usage_text(program), result: Err(WorkspaceError::MissingSubcommand) }
}

/// The reply to a command that needs no workspace: help, an unknown
/// subcommand or no subcommand at all. `None` for the commands that resolve
/// workspace paths, which the caller carries out itself.
pub fn immediate_reply(program: &str, command: Command) -> (r: Option<Reply>)
    ensures
        command is Help ==> (r matches Some(rep) && rep.output@ == usage_of(program@)
            && rep.result is Ok),
        command matches Command::Unknown(s) ==> (r matches Some(rep) && rep.output@ == usage_of(
            program@,
        ) && (rep.result matches Err(WorkspaceError::UnknownSubcommand(t)) && t@ == s@)),
        command is Missing ==> (r matches Some(rep) && rep.output@ == usage_of(program@)
            && (rep.result matches Err(WorkspaceError::MissingSubcommand))),
        (command is Temp || command is Year || command is Date) ==> r is None,
{
    match command {
        Command::Help => Some(handle_help(program)),
        Command::Unknown(s) => Some(handle_unknown(program, s.as_str())),
        Command::Missing => Some(handle_invalid(program)),
        _ => None,
    }
}

/// With no argument the command is missing, whatever else holds: the
/// invocation ends at once with the usage text and an error, before any path
/// is resolved.
pub proof fn lemma_no_argument_is_missing(c: Command)
    ensures
        parsed_as(None, c) <==> c is Missing,
{
}

} // verus!
