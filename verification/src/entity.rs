//! The closed set of entity kinds the `list` command can name.

use vstd::prelude::*;
use vstd::string::StringExecFns;

verus! {

/// One of the six kinds of thing the collection manager can list. The
/// command line names them by the strings [`entity_name`] gives.
#[derive(Clone, Copy, PartialEq, Eq, Structural, Debug)]
pub enum Entity {
    Publishers,
    Series,
    Issues,
    Characters,
    Creators,
    Events,
}

/// The name under which each entity kind appears on the command line.
pub open spec fn entity_name(e: Entity) -> Seq<char> {
    match e {
        Entity::Publishers => "publishers"@,
        Entity::Series => "series"@,
        Entity::Issues => "issues"@,
        Entity::Characters => "characters"@,
        Entity::Creators => "creators"@,
        Entity::Events => "events"@,
    }
}

/// Which entity kind, if any, a command-line string names.
pub open spec fn entity_of(s: Seq<char>) -> Option<Entity> {
    if s == "publishers"@ {
        Some(Entity::Publishers)
    } else if s == "series"@ {
        Some(Entity::Series)
    } else if s == "issues"@ {
        Some(Entity::Issues)
    } else if s == "characters"@ {
        Some(Entity::Characters)
    } else if s == "creators"@ {
        Some(Entity::Creators)
    } else if s == "events"@ {
        Some(Entity::Events)
    } else {
        None
    }
}

/// Parses a command-line value into an entity kind: `Some` exactly on the
/// six names of the enumerated set, `None` on every other string.
pub fn parse_entity(s: &str) -> (r: Option<Entity>)
    ensures
        r == entity_of(s@),
{
    // Comparison goes through owned strings: vstd gives `==` a meaning on
    // `String`, not on `&str`.
    let owned = String::from_str(s);
    if owned == String::from_str("publishers") {
        Some(Entity::Publishers)
    } else if owned == String::from_str("series") {
        Some(Entity::Series)
    } else if owned == String::from_str("issues") {
        Some(Entity::Issues)
    } else if owned == String::from_str("characters") {
        Some(Entity::Characters)
    } else if owned == String::from_str("creators") {
        Some(Entity::Creators)
    } else if owned == String::from_str("events") {
        Some(Entity::Events)
    } else {
        None
    }
}

/// The command-line name of an entity kind, as an executable string.
pub fn entity_str(e: Entity) -> (r: &'static str)
    ensures
        r@ == entity_name(e),
{
    match e {
        Entity::Publishers => "publishers",
        Entity::Series => "series",
        Entity::Issues => "issues",
        Entity::Characters => "characters",
        Entity::Creators => "creators",
        Entity::Events => "events",
    }
}

/// Naming an entity and parsing that name round-trips: each of the six
/// names parses back to the kind it names.
pub proof fn lemma_entity_name_round_trip(e: Entity)
    ensures
        entity_of(entity_name(e)) == Some(e),
{
    reveal_strlit("publishers");
    reveal_strlit("series");
    reveal_strlit("issues");
    reveal_strlit("characters");
    reveal_strlit("creators");
    reveal_strlit("events");
    assert("publishers"@.len() == 10);
    assert("series"@.len() == 6);
    assert("issues"@.len() == 6);
    assert("characters"@.len() == 10);
    assert("creators"@.len() == 8);
    assert("events"@.len() == 6);
    match e {
        Entity::Publishers => {
        }
        Entity::Series => {
            assert("series"@ != "publishers"@);
        }
        Entity::Issues => {
            assert("issues"@ != "publishers"@);
            assert("issues"@[0] != "series"@[0]);
        }
        Entity::Characters => {
            assert("characters"@[0] != "publishers"@[0]);
            assert("characters"@ != "series"@);
            assert("characters"@ != "issues"@);
        }
        Entity::Creators => {
            assert("creators"@ != "publishers"@);
            assert("creators"@ != "series"@);
            assert("creators"@ != "issues"@);
            assert("creators"@ != "characters"@);
        }
        Entity::Events => {
            assert("events"@ != "publishers"@);
            assert("events"@[0] != "series"@[0]);
            assert("events"@[0] != "issues"@[0]);
            assert("events"@ != "characters"@);
            assert("events"@ != "creators"@);
        }
    }
}

/// A string outside the enumerated set of six entity names parses to no
/// entity kind at all.
pub proof fn lemma_unknown_entity_rejected(s: Seq<char>)
    requires
        s != "publishers"@,
        s != "series"@,
        s != "issues"@,
        s != "characters"@,
        s != "creators"@,
        s != "events"@,
    ensures
        entity_of(s) is None,
{
}

} // verus!
