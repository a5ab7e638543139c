//! What the process says for each parsed command line.

use crate::entity::{entity_name, entity_str, Entity};
use vstd::prelude::*;
use vstd::string::StringExecFns;

verus! {

/// A fully parsed command line: either the `list` subcommand with a valid
/// entity kind, or no subcommand at all. Command lines outside these two
/// shapes never reach the library; the argument parser rejects them with a
/// usage error before any line is produced.
#[derive(Clone, Copy, PartialEq, Eq, Structural, Debug)]
pub enum Invocation {
    List(Entity),
    NoSubcommand,
}

/// The line printed for a valid `list` command: exactly `Listing ` followed
/// by the entity's command-line name.
pub open spec fn listing_line_spec(e: Entity) -> Seq<char> {
    "Listing "@ + entity_name(e)
}

/// The hint printed when the process is started without a subcommand.
pub open spec fn no_subcommand_hint() -> Seq<char> {
    "No subcommand was used. Use --help for more information."@
}

/// The one line a parsed command line produces.
pub open spec fn invocation_line_spec(inv: Invocation) -> Seq<char> {
    match inv {
        Invocation::List(e) => listing_line_spec(e),
        Invocation::NoSubcommand => no_subcommand_hint(),
    }
}

/// Builds the `Listing <entity>` line for a valid `list` command.
pub fn listing_line(e: Entity) -> (r: String)
    ensures
        r@ == listing_line_spec(e),
{
    String::from_str("Listing ").concat(entity_str(e))
}

/// Dispatches a parsed command line to its output line: the `Listing` line
/// for `list <entity>`, the generic hint when no subcommand was given.
pub fn invocation_line(inv: Invocation) -> (r: String)
    ensures
        r@ == invocation_line_spec(inv),
{
    match inv {
        Invocation::List(e) => listing_line(e),
        Invocation::NoSubcommand => String::from_str(
            "No subcommand was used. Use --help for more information.",
        ),
    }
}

/// Dispatch is free of hidden state: any two runs over the same parsed
/// command line produce the same output line, since [`invocation_line`]
/// pins its result to a function of the invocation alone.
pub proof fn lemma_dispatch_deterministic(inv: Invocation, first: Seq<char>, second: Seq<char>)
    requires
        first == invocation_line_spec(inv),
        second == invocation_line_spec(inv),
    ensures
        first == second,
{
}

} // verus!
