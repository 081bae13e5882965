//! The build step's own logic: reading a command line, and checking the
//! build's artifacts.
use vstd::prelude::*;
use crate::text::{split_whitespace, words_spec};

verus! {

/// A command line read as a program and its arguments: its
/// white-space-separated words, the first being the program; `None` when
/// there is no word.
pub fn parse_command(command: &str) -> (r: Option<(String, Vec<String>)>)
    ensures
        match r {
            Some((program, args)) => {
                &&& words_spec(command@).len() > 0
                &&& program@ == words_spec(command@)[0]
                &&& args@.map_values(|w: String| w@) == words_spec(command@).drop_first()
            },
            None => words_spec(command@).len() == 0,
        },
{
    let mut words = split_whitespace(command);
    if words.len() == 0 {
        return None;
    }
    let ghost all = words@;
    let program = words.remove(0);
    proof {
        assert(words@ == all.remove(0));
        assert(words@.map_values(|w: String| w@) =~= all.map_values(|w: String| w@).drop_first());
    }
    Some((program, words))
}

/// The message for a missing artifact.
pub open spec fn missing_artifact_message(artifact: Seq<char>) -> Seq<char> {
    "Build artifact not found: "@ + artifact
}

/// Checks the build's artifacts, given for each whether it exists: the
/// first missing one is reported.
pub fn verify_artifacts(artifacts: &Vec<String>, present: &Vec<bool>) -> (r: Result<(), String>)
    requires
        artifacts.len() == present.len(),
    ensures
        match r {
            Ok(()) => forall|i: int| 0 <= i < present@.len() ==> #[trigger] present@[i],
            Err(msg) => exists|i: int| {
                &&& 0 <= i < present@.len()
                &&& !present@[i]
                &&& (forall|j: int| 0 <= j < i ==> #[trigger] present@[j])
                &&& msg@ == missing_artifact_message(artifacts@[i]@)
            },
        },
{
    let mut i: usize = 0;
    while i < artifacts.len()
        invariant
            i <= artifacts@.len(),
            artifacts@.len() == present@.len(),
            forall|j: int| 0 <= j < i ==> #[trigger] present@[j],
        decreases artifacts@.len() - i,
    {
        if !present[i] {
            let mut msg = String::from_str("Build artifact not found: ");
            msg.append(artifacts[i].as_str());
            return Err(msg);
        }
        i = i + 1;
    }
    Ok(())
}

} // verus!
