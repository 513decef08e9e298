//! The commands that can be given on the command line.

use vstd::prelude::*;

verus! {

/// What the command line asks for.
#[derive(Debug, PartialEq, Eq)]
pub enum Command {
    /// Issue a token for the user of this name.
    GenerateToken { username: String },
    /// A command was given that asks for nothing.
    Nothing,
    /// No command was given.
    Invalid,
}

/// Whether `command` is what the arguments ask for. The first argument is
/// the program's own name; `generate_token` followed by a user name asks
/// for a token; any other command asks for nothing.
pub open spec fn is_command_of(command: Command, args: Seq<String>) -> bool {
    if args.len() <= 1 {
        command == Command::Invalid
    } else if args.len() > 2 && args[1]@ == "generate_token"@ {
        command matches Command::GenerateToken { username } && username@ == args[2]@
    } else {
        command == Command::Nothing
    }
}

/// Reads the command off the arguments of the program.
pub fn run_custom_commands(args: &Vec<String>) -> (command: Command)
    ensures
        is_command_of(command, args@),
{
    if args.len() > 1 {
        let wanted = "generate_token".to_owned();
        if args.len() > 2 && args[1] == wanted {
            Command::GenerateToken { username: args[2].clone() }
        } else {
            Command::Nothing
        }
    } else {
        Command::Invalid
    }
}

} // verus!
