//! Command-line parsing of the agent's operator tool.
use crate::text::{str_eq, to_string};
use vstd::prelude::*;

verus! {

/// The commands of the operator tool.
#[derive(Debug, Clone, Copy, PartialEq, Eq, Structural)]
pub enum CliCommand {
    ConfigCheck,
    Replay,
    ImprovementDemo,
    OutputSmoke,
    Live,
}

/// The texts of a list of strings.
pub open spec fn arg_texts(args: Seq<String>) -> Seq<Seq<char>> {
    args.map_values(|a: String| a@)
}

/// The first position at or after `i` where `name` is followed by a value.
pub open spec fn flag_index_from(args: Seq<Seq<char>>, name: Seq<char>, i: nat) -> Option<nat>
    decreases args.len() - i,
{
    if i + 1 >= args.len() {
        None
    } else if args[i as int] == name {
        Some(i)
    } else {
        flag_index_from(args, name, i + 1)
    }
}

/// The value that follows the first occurrence of `name` that has one.
pub open spec fn flag_value(args: Seq<Seq<char>>, name: Seq<char>) -> Option<Seq<char>> {
    match flag_index_from(args, name, 0) {
        Some(i) => Some(args[(i + 1) as int]),
        None => None,
    }
}

/// The command a name selects.
pub open spec fn command_named(name: Seq<char>) -> Option<CliCommand> {
    if name == "config-check"@ {
        Some(CliCommand::ConfigCheck)
    } else if name == "replay"@ {
        Some(CliCommand::Replay)
    } else if name == "improvement-demo"@ {
        Some(CliCommand::ImprovementDemo)
    } else if name == "output-smoke"@ {
        Some(CliCommand::OutputSmoke)
    } else if name == "live"@ {
        Some(CliCommand::Live)
    } else {
        None
    }
}

/// The value that follows the flag `name`, if the flag is given with a value.
pub fn optional_flag(args: &[String], name: &str) -> (r: Option<String>)
    ensures
        match flag_value(arg_texts(args@), name@) {
            Some(v) => r matches Some(s) && s@ == v,
            None => r is None,
        },
{
    let ghost texts = arg_texts(args@);
    let mut i: usize = 0;
    while args.len() > 1 && i < args.len() - 1
        invariant
            i <= args.len(),
            texts == arg_texts(args@),
            flag_index_from(texts, name@, 0) == flag_index_from(texts, name@, i as nat),
        decreases args.len() - i,
    {
        proof {
            assert(texts[i as int] == args@[i as int]@);
            assert(texts[i + 1] == args@[i + 1]@);
        }
        if str_eq(args[i].as_str(), name) {
            return Some(args[i + 1].clone());
        }
        i = i + 1;
    }
    None
}

/// The value of a flag that must be given.
pub fn required_flag(args: &[String], name: &str) -> (r: Result<String, String>)
    ensures
        match flag_value(arg_texts(args@), name@) {
            Some(v) => r matches Ok(s) && s@ == v,
            None => r matches Err(m) && m@ == "missing required flag "@ + name@,
        },
{
    match optional_flag(args, name) {
        Some(v) => Ok(v),
        None => Err(to_string("missing required flag ").concat(name)),
    }
}

/// The command selected by the first argument after the program name;
/// `config-check` when there is none.
pub fn parse_command(args: &[String]) -> (r: Result<CliCommand, String>)
    ensures
        args@.len() < 2 ==> r == Ok::<CliCommand, String>(CliCommand::ConfigCheck),
        args@.len() >= 2 ==> match command_named(args@[1]@) {
            Some(c) => r == Ok::<CliCommand, String>(c),
            None => r matches Err(m) && m@ == "unknown command: "@ + args@[1]@,
        },
{
    if args.len() < 2 {
        return Ok(CliCommand::ConfigCheck);
    }
    let name = args[1].as_str();
    if str_eq(name, "config-check") {
        Ok(CliCommand::ConfigCheck)
    } else if str_eq(name, "replay") {
        Ok(CliCommand::Replay)
    } else if str_eq(name, "improvement-demo") {
        Ok(CliCommand::ImprovementDemo)
    } else if str_eq(name, "output-smoke") {
        Ok(CliCommand::OutputSmoke)
    } else if str_eq(name, "live") {
        Ok(CliCommand::Live)
    } else {
        Err(to_string("unknown command: ").concat(name))
    }
}

/// The command names: `config-check`, `replay`, `improvement-demo`,
/// `output-smoke` and `live`; no other name selects a command.
pub proof fn lemma_command_names(name: Seq<char>)
    ensures
        command_named("config-check"@) == Some(CliCommand::ConfigCheck),
        command_named("replay"@) == Some(CliCommand::Replay),
        command_named("improvement-demo"@) == Some(CliCommand::ImprovementDemo),
        command_named("output-smoke"@) == Some(CliCommand::OutputSmoke),
        command_named("live"@) == Some(CliCommand::Live),
        name != "config-check"@ && name != "replay"@ && name != "improvement-demo"@ && name
            != "output-smoke"@ && name != "live"@ ==> command_named(name) is None,
{
    reveal_strlit("config-check");
    reveal_strlit("replay");
    reveal_strlit("improvement-demo");
    reveal_strlit("output-smoke");
    reveal_strlit("live");
    assert("replay"@.len() != "config-check"@.len());
    assert("improvement-demo"@.len() != "config-check"@.len());
    assert("improvement-demo"@.len() != "replay"@.len());
    assert("output-smoke"@[0] != "config-check"@[0]);
    assert("output-smoke"@.len() != "replay"@.len());
    assert("output-smoke"@.len() != "improvement-demo"@.len());
    assert("live"@.len() != "config-check"@.len());
    assert("live"@.len() != "replay"@.len());
    assert("live"@.len() != "improvement-demo"@.len());
    assert("live"@.len() != "output-smoke"@.len());
}

} // verus!
