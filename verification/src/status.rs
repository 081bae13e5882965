//! The deployment status as shown to the user: the history, newest first,
//! numbered from 1, with the current version marked.
use vstd::prelude::*;
use crate::rollback::{State, Version};
use crate::actor::message::Timestamp;

verus! {

/// `parts` written one after another with `sep` between neighbours.
pub open spec fn join_spec(parts: Seq<Seq<char>>, sep: Seq<char>) -> Seq<char>
    decreases parts.len(),
{
    if parts.len() == 0 {
        Seq::empty()
    } else if parts.len() == 1 {
        parts[0]
    } else {
        join_spec(parts.drop_last(), sep) + sep + parts.last()
    }
}

/// Whether `commit` is the current version of the history.
pub open spec fn is_current_spec(current: Option<String>, commit: Seq<char>) -> bool {
    match current {
        Some(c) => c@ == commit,
        None => false,
    }
}

/// One version of the history as shown.
pub struct HistoryLine {
    /// Its place in the listing: 1 for the newest.
    pub number: usize,
    pub commit: String,
    /// When the version was backed up.
    pub timestamp: Timestamp,
    /// The artifacts, separated by `, `.
    pub artifacts: String,
    /// Whether it is the current version.
    pub is_current: bool,
}

/// `line` shows `v` as the entry numbered `number` of a history whose
/// current version is `current`.
pub open spec fn shows(line: HistoryLine, v: Version, number: int, current: Option<String>) -> bool {
    &&& line.number == number
    &&& line.commit@ == v.commit@
    &&& line.timestamp == v.timestamp
    &&& line.artifacts@ == join_spec(v.artifacts@.map_values(|a: String| a@), ", "@)
    &&& line.is_current == is_current_spec(current, v.commit@)
}

/// Strings written one after another with `sep` between neighbours.
pub fn join(parts: &Vec<String>, sep: &str) -> (r: String)
    ensures
        r@ == join_spec(parts@.map_values(|s: String| s@), sep@),
{
    let ghost all = parts@.map_values(|s: String| s@);
    let mut r = String::new();
    let mut i: usize = 0;
    assert(all.subrange(0, 0) =~= Seq::<Seq<char>>::empty());
    while i < parts.len()
        invariant
            i <= parts@.len(),
            all == parts@.map_values(|s: String| s@),
            r@ == join_spec(all.subrange(0, i as int), sep@),
        decreases parts@.len() - i,
    {
        let ghost before = r@;
        assert(all.subrange(0, i + 1).drop_last() =~= all.subrange(0, i as int));
        assert(all.subrange(0, i + 1).last() == parts@[i as int]@);
        if i > 0 {
            r.append(sep);
        } else {
            assert(all.subrange(0, 1) =~= seq![parts@[0]@]);
        }
        r.append(parts[i].as_str());
        i = i + 1;
    }
    assert(all.subrange(0, parts@.len() as int) =~= all);
    r
}

/// The history as shown: the versions newest first, numbered from 1, each
/// with its artifacts joined and marked when it is the current version.
pub fn history_lines(state: &State) -> (r: Vec<HistoryLine>)
    ensures
        r@.len() == state.versions@.len(),
        forall|i: int|
            0 <= i < r@.len() ==> shows(
                #[trigger] r@[i],
                state.versions@[state.versions@.len() - 1 - i],
                i + 1,
                state.current_version,
            ),
{
    let n = state.versions.len();
    let mut r: Vec<HistoryLine> = Vec::new();
    let mut i: usize = 0;
    while i < n
        invariant
            n == state.versions@.len(),
            i <= n,
            r@.len() == i,
            forall|k: int|
                0 <= k < i ==> shows(#[trigger] r@[k], state.versions@[n - 1 - k], k + 1, state.current_version),
        decreases n - i,
    {
        let v = &state.versions[n - 1 - i];
        let is_current = match &state.current_version {
            Some(c) => crate::text::str_eq(c.as_str(), v.commit.as_str()),
            None => false,
        };
        let line = HistoryLine {
            number: i + 1,
            commit: v.commit.clone(),
            timestamp: v.timestamp,
            artifacts: join(&v.artifacts, ", "),
            is_current,
        };
        r.push(line);
        i = i + 1;
    }
    r
}

} // verus!
