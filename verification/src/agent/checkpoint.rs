//! Checkpoints: versioned snapshots of an agent's state, stored one file per
//! version as `checkpoint_NNNNNN.json` under a directory named by the
//! actor's id.
use vstd::prelude::*;
use super::state::AgentState;
use crate::actor::message::{ActorId, Timestamp, hex_fixed, append_hex_fixed};
use crate::text::{
    all_digits, dec_digits, digit_char, digit_value, decimal_zero_padded, digits_value, is_digit, matches_at, occurs_at,
    parse_u64, parse_u64_spec, unsigned_digits, zero_pad,
};

verus! {

/// A snapshot of an agent's state.
#[derive(Debug)]
pub struct Checkpoint {
    pub actor_id: ActorId,
    /// When the checkpoint was taken.
    pub timestamp: Timestamp,
    pub state: AgentState,
    pub version: u64,
}

#[verifier::external_type_specification]
#[verifier::external_body]
pub struct ExPathBuf(std::path::PathBuf);

/// Where checkpoints are kept: a base directory, any path the file system
/// accepts.
#[derive(Debug)]
pub struct CheckpointStore {
    pub base_dir: std::path::PathBuf,
}

/// The file name of a checkpoint version.
pub open spec fn file_name_spec(version: u64) -> Seq<char> {
    "checkpoint_"@ + zero_pad(dec_digits(version as nat), 6) + ".json"@
}

/// The version a file name stands for: the name must be `checkpoint_`,
/// then a number as `u64::from_str` reads it, then `.json`.
pub open spec fn version_of_spec(name: Seq<char>) -> Option<u64> {
    if name.len() >= 16 && occurs_at(name, "checkpoint_"@, 0) && occurs_at(name, ".json"@, name.len() - 5) {
        parse_u64_spec(name.subrange(11, name.len() - 5))
    } else {
        None
    }
}

/// The hyphenated lower-case form of a 128-bit id, as a UUID is written:
/// 8, 4, 4, 4 and 12 hex digits.
pub open spec fn uuid_text(id: u128) -> Seq<char> {
    let h = hex_fixed(id as nat, 32);
    h.subrange(0, 8) + "-"@ + h.subrange(8, 12) + "-"@ + h.subrange(12, 16) + "-"@ + h.subrange(16, 20) + "-"@
        + h.subrange(20, 32)
}

/// The position of the newest checkpoint among file names: the first of the
/// names with the highest version.
pub open spec fn is_latest(names: Seq<Seq<char>>, version: u64, index: int) -> bool {
    &&& 0 <= index < names.len()
    &&& version_of_spec(names[index]) == Some(version)
    &&& forall|j: int| 0 <= j < names.len() && version_of_spec(names[j]) is Some ==> version_of_spec(names[j]).unwrap() <= version
    &&& forall|j: int| 0 <= j < index && version_of_spec(names[j]) is Some ==> version_of_spec(names[j]).unwrap() < version
}

proof fn lemma_hex_fixed_len(x: nat, n: nat)
    ensures
        hex_fixed(x, n).len() == n,
    decreases n,
{
    if n > 0 {
        lemma_hex_fixed_len(x / 16, (n - 1) as nat);
    }
}

impl CheckpointStore {
    /// A store under the given base directory.
    pub fn new(base_dir: std::path::PathBuf) -> (r: Self)
        ensures
            r.base_dir == base_dir,
    {
        CheckpointStore { base_dir }
    }

    /// The file name of a checkpoint version, such as `checkpoint_000042.json`.
    pub fn file_name(version: u64) -> (r: String)
        ensures
            r@ == file_name_spec(version),
    {
        let mut s = String::from_str("checkpoint_");
        let digits = decimal_zero_padded(version, 6);
        s.append(digits.as_str());
        s.append(".json");
        s
    }

    /// The version that a file name stands for, if it names a checkpoint.
    pub fn version_of(name: &str) -> (r: Option<u64>)
        ensures
            r == version_of_spec(name@),
    {
        let n = name.unicode_len();
        if n < 16 {
            return None;
        }
        if !matches_at(name, "checkpoint_", 0) {
            return None;
        }
        if !matches_at(name, ".json", n - 5) {
            return None;
        }
        let middle = name.substring_char(11, n - 5);
        parse_u64(middle)
    }

    /// The newest checkpoint among the file names of a directory: its
    /// version and position; `None` when no name is a checkpoint's.
    pub fn latest(names: &Vec<String>) -> (r: Option<(u64, usize)>)
        ensures
            match r {
                Some((v, i)) => is_latest(names@.map_values(|s: String| s@), v, i as int),
                None => forall|j: int| 0 <= j < names@.len() ==> version_of_spec(#[trigger] names@[j]@) is None,
            },
    {
        let ghost ns = names@.map_values(|s: String| s@);
        let mut best: Option<(u64, usize)> = None;
        let mut i: usize = 0;
        while i < names.len()
            invariant
                i <= names@.len(),
                ns == names@.map_values(|s: String| s@),
                match best {
                    Some((v, b)) => {
                        &&& b < i
                        &&& version_of_spec(ns[b as int]) == Some(v)
                        &&& forall|j: int| 0 <= j < i && version_of_spec(ns[j]) is Some ==> version_of_spec(ns[j]).unwrap() <= v
                        &&& forall|j: int| 0 <= j < b && version_of_spec(ns[j]) is Some ==> version_of_spec(ns[j]).unwrap() < v
                    },
                    None => forall|j: int| 0 <= j < i ==> version_of_spec(ns[j]) is None,
                },
            decreases names@.len() - i,
        {
            let ov = Self::version_of(names[i].as_str());
            assert(ns[i as int] == names@[i as int]@);
            match ov {
                Some(version) => {
                    match best {
                        Some((v, _)) => {
                            if version > v {
                                best = Some((version, i));
                            }
                        },
                        None => {
                            best = Some((version, i));
                        },
                    }
                },
                None => {},
            }
            i = i + 1;
        }
        proof {
            if best is None {
                assert forall|j: int| 0 <= j < names@.len() implies version_of_spec(#[trigger] names@[j]@) is None by {
                    assert(ns[j] == names@[j]@);
                }
            }
        }
        best
    }

    /// The directory name under the base directory that holds an actor's
    /// checkpoints: its id written as a UUID.
    pub fn actor_dir_name(actor_id: &ActorId) -> (r: String)
        ensures
            r@ == uuid_text(actor_id.id),
    {
        let mut h = String::new();
        append_hex_fixed(actor_id.id, 32, &mut h);
        proof {
            lemma_hex_fixed_len(actor_id.id as nat, 32);
            assert(h@ =~= hex_fixed(actor_id.id as nat, 32));
        }
        let hs = h.as_str();
        let mut s = String::from_str(hs.substring_char(0, 8));
        s.append("-");
        s.append(hs.substring_char(8, 12));
        s.append("-");
        s.append(hs.substring_char(12, 16));
        s.append("-");
        s.append(hs.substring_char(16, 20));
        s.append("-");
        s.append(hs.substring_char(20, 32));
        s
    }
}

/// A decimal rendering consists of digits and has the value it renders.
pub proof fn lemma_dec_digits_value(n: nat)
    ensures
        all_digits(dec_digits(n)),
        digits_value(dec_digits(n)) == n,
        dec_digits(n).len() >= 1,
    decreases n,
{
    if n >= 10 {
        lemma_dec_digits_value(n / 10);
        let d = dec_digits(n / 10);
        assert(dec_digits(n).drop_last() =~= d);
        assert(digit_value(digit_char(n % 10)) == n % 10);
        assert((n / 10) * 10 + n % 10 == n);
        assert(dec_digits(n).last() == digit_char(n % 10));
        assert(digits_value(dec_digits(n)) == digits_value(d) * 10 + digit_value(digit_char(n % 10)));
        assert(all_digits(dec_digits(n))) by {
            assert forall|i: int| 0 <= i < dec_digits(n).len() implies is_digit(#[trigger] dec_digits(n)[i]) by {
                if i < d.len() {
                    assert(dec_digits(n)[i] == d[i]);
                }
            }
        }
    } else {
        assert(dec_digits(n).drop_last() =~= Seq::<char>::empty());
        assert(digit_value(digit_char(n)) == n);
        assert(digits_value(dec_digits(n)) == digits_value(Seq::<char>::empty()) * 10 + digit_value(digit_char(n)));
    }
}

/// Leading zeros change neither the digit property nor the value.
pub proof fn lemma_leading_zeros(z: nat, d: Seq<char>)
    requires
        all_digits(d),
    ensures
        all_digits(Seq::new(z, |i: int| '0') + d),
        digits_value(Seq::new(z, |i: int| '0') + d) == digits_value(d),
    decreases d.len(),
{
    let zs = Seq::new(z, |i: int| '0');
    if d.len() == 0 {
        lemma_zeros_value(z);
        assert(zs + d =~= zs);
    } else {
        lemma_leading_zeros(z, d.drop_last());
        assert((zs + d).drop_last() =~= zs + d.drop_last());
    }
}

proof fn lemma_zeros_value(z: nat)
    ensures
        digits_value(Seq::new(z, |i: int| '0')) == 0,
    decreases z,
{
    if z > 0 {
        lemma_zeros_value((z - 1) as nat);
        assert(Seq::new(z, |i: int| '0').drop_last() =~= Seq::new((z - 1) as nat, |i: int| '0'));
    }
}

/// Reading back the file name of a version gives that version.
pub proof fn lemma_file_name_round_trip(version: u64)
    ensures
        version_of_spec(file_name_spec(version)) == Some(version),
{
    let d = dec_digits(version as nat);
    lemma_dec_digits_value(version as nat);
    let p = zero_pad(d, 6);
    if d.len() < 6 {
        lemma_leading_zeros((6 - d.len()) as nat, d);
    }
    assert(all_digits(p) && digits_value(p) == version);
    let name = file_name_spec(version);
    reveal_strlit("checkpoint_");
    reveal_strlit(".json");
    assert(name.subrange(0, 11) =~= "checkpoint_"@);
    assert(name.subrange(name.len() - 5, name.len() as int) =~= ".json"@);
    assert(name.subrange(11, name.len() - 5) =~= p);
    assert(is_digit(p[0]));
    assert(unsigned_digits(p) == p);
}

} // verus!
