//! Schema versions: which versions a consumer understands, and how to move
//! from one version to a later one.

use vstd::prelude::*;
use vstd::string::*;

verus! {

/// The schema version stamped on every envelope.
pub const CURRENT_VERSION: u32 = 1;

/// The character of one decimal digit.
pub open spec fn digit_char(d: nat) -> char {
    if d == 0 {
        '0'
    } else if d == 1 {
        '1'
    } else if d == 2 {
        '2'
    } else if d == 3 {
        '3'
    } else if d == 4 {
        '4'
    } else if d == 5 {
        '5'
    } else if d == 6 {
        '6'
    } else if d == 7 {
        '7'
    } else if d == 8 {
        '8'
    } else {
        '9'
    }
}

/// The decimal numeral of `n`, without leading zeros.
pub open spec fn decimal(n: nat) -> Seq<char>
    decreases n,
{
    if n < 10 {
        seq![digit_char(n)]
    } else {
        decimal(n / 10).push(digit_char(n % 10))
    }
}

/// The single step that stands for a transition without curated steps: it
/// names both versions.
pub open spec fn generic_step(from: u32, to: u32) -> Seq<char> {
    "Migrate from v"@ + decimal(from as nat) + " to v"@ + decimal(to as nat)
}

/// The steps that lead from one version to another, if the second is later.
pub open spec fn spec_migration_path(from: u32, to: u32) -> Option<Seq<Seq<char>>> {
    if from >= to {
        None
    } else if from == 1 && to == 2 {
        Some(
            seq![
                "Add metadata fields for enhanced indexing"@,
                "Update event type symbols for consistency"@,
            ],
        )
    } else if (from == 1 || from == 2) && to == 3 {
        Some(seq!["Add batch operation support"@, "Include gas usage metadata"@])
    } else {
        Some(seq![generic_step(from, to)])
    }
}

/// The texts of a list of steps.
pub open spec fn step_texts(steps: Seq<String>) -> Seq<Seq<char>> {
    Seq::new(steps.len(), |i: int| steps[i]@)
}

/// One decimal digit as text.
fn digit_text(d: u32) -> (text: &'static str)
    requires
        d < 10,
    ensures
        text@ == seq![digit_char(d as nat)],
{
    proof {
        reveal_strlit("0");
        reveal_strlit("1");
        reveal_strlit("2");
        reveal_strlit("3");
        reveal_strlit("4");
        reveal_strlit("5");
        reveal_strlit("6");
        reveal_strlit("7");
        reveal_strlit("8");
        reveal_strlit("9");
    }
    let text = if d == 0 {
        "0"
    } else if d == 1 {
        "1"
    } else if d == 2 {
        "2"
    } else if d == 3 {
        "3"
    } else if d == 4 {
        "4"
    } else if d == 5 {
        "5"
    } else if d == 6 {
        "6"
    } else if d == 7 {
        "7"
    } else if d == 8 {
        "8"
    } else {
        "9"
    };
    assert(text@ =~= seq![digit_char(d as nat)]);
    text
}

/// Appends the decimal numeral of `n` to `out`.
fn append_decimal(out: &mut String, n: u32)
    ensures
        final(out)@ == old(out)@ + decimal(n as nat),
    decreases n,
{
    if n >= 10 {
        append_decimal(out, n / 10);
    }
    out.append(digit_text(n % 10));
    assert(out@ =~= old(out)@ + decimal(n as nat));
}

/// Answers questions about event schema versions.
pub struct EventSchema;

impl EventSchema {
    /// The schema version in effect.
    pub fn current_version() -> (version: u32)
        ensures
            version == CURRENT_VERSION,
    {
        CURRENT_VERSION
    }

    /// Whether a consumer built against `version` is understood: exactly the
    /// versions up to the current one are.
    pub fn is_compatible(version: u32) -> (compatible: bool)
        ensures
            compatible <==> version <= CURRENT_VERSION,
    {
        version <= Self::current_version()
    }

    /// The steps that lead from `from_version` to `to_version`: none unless
    /// the second is later; the curated steps for the known transitions;
    /// one generic step naming both versions for any other.
    pub fn get_migration_path(from_version: u32, to_version: u32) -> (path: Option<Vec<String>>)
        ensures
            (match path {
                Some(steps) => spec_migration_path(from_version, to_version) == Some(step_texts(steps@)),
                None => spec_migration_path(from_version, to_version) is None,
            }),
            path is None <==> from_version >= to_version,
            path matches Some(steps) ==> steps@.len() > 0,
    {
        if from_version >= to_version {
            return None;
        }
        let mut steps: Vec<String> = Vec::new();
        if from_version == 1 && to_version == 2 {
            steps.push(String::from_str("Add metadata fields for enhanced indexing"));
            steps.push(String::from_str("Update event type symbols for consistency"));
        } else if (from_version == 1 || from_version == 2) && to_version == 3 {
            steps.push(String::from_str("Add batch operation support"));
            steps.push(String::from_str("Include gas usage metadata"));
        } else {
            let mut step = String::from_str("Migrate from v");
            append_decimal(&mut step, from_version);
            step.append(" to v");
            append_decimal(&mut step, to_version);
            steps.push(step);
        }
        assert(spec_migration_path(from_version, to_version) == Some(step_texts(steps@))) by {
            assert(spec_migration_path(from_version, to_version)->Some_0 =~= step_texts(steps@));
        }
        Some(steps)
    }
}

} // verus!
