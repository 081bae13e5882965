//! Actor identities, message envelopes and system control messages.
use vstd::prelude::*;

verus! {

/// A fresh random 128-bit identifier (a version-4 UUID, as an integer).
#[verifier::external_body]
pub(crate) fn fresh_uuid() -> u128 {
    uuid::Uuid::new_v4().as_u128()
}

/// A point in time as a UTC timestamp holds it: whole seconds since the
/// Unix epoch, and the nanoseconds within the second (up to 1,999,999,999
/// during a leap second).
#[derive(Debug, Clone, Copy, PartialEq, Eq, Structural)]
pub struct Timestamp {
    pub secs: i64,
    pub nanos: u32,
}

/// The current wall-clock time (`chrono::Utc::now`, read through
/// `timestamp` and `timestamp_subsec_nanos`).
#[verifier::external_body]
pub(crate) fn current_time() -> (r: Timestamp)
    ensures
        r.nanos <= 1_999_999_999,
{
    let t = chrono::Utc::now();
    Timestamp { secs: t.timestamp(), nanos: t.timestamp_subsec_nanos() }
}

/// The unique identity of an actor: a random 128-bit id and a name.
#[derive(Debug, Hash, Eq)]
pub struct ActorId {
    pub id: u128,
    pub name: String,
}

impl View for ActorId {
    type V = (u128, Seq<char>);

    open spec fn view(&self) -> (u128, Seq<char>) {
        (self.id, self.name@)
    }
}

impl Clone for ActorId {
    fn clone(&self) -> (r: Self)
        ensures
            r == *self,
    {
        ActorId { id: self.id, name: self.name.clone() }
    }
}

impl PartialEq for ActorId {
    fn eq(&self, other: &Self) -> (r: bool) {
        self.id == other.id && self.name == other.name
    }
}

impl vstd::std_specs::cmp::PartialEqSpecImpl for ActorId {
    open spec fn obeys_eq_spec() -> bool {
        true
    }

    open spec fn eq_spec(&self, other: &Self) -> bool {
        self@ == other@
    }
}

/// A lower-case hexadecimal digit.
pub open spec fn hex_digit(d: nat) -> char {
    if d < 10 {
        (d + 48) as char
    } else {
        (d + 87) as char
    }
}

/// The last `n` hexadecimal digits of `x`, most significant first.
pub open spec fn hex_fixed(x: nat, n: nat) -> Seq<char>
    decreases n,
{
    if n == 0 {
        Seq::empty()
    } else {
        hex_fixed(x / 16, (n - 1) as nat).push(hex_digit(x % 16))
    }
}

/// The short form of an identity: its name, then the first eight hex
/// digits of its id (the top 32 bits) in brackets, as in `planner(1a2b3c4d)`.
pub open spec fn id_text(id: (u128, Seq<char>)) -> Seq<char> {
    id.1 + "("@ + hex_fixed(id.0 as nat / 0x1_0000_0000_0000_0000_0000_0000nat, 8) + ")"@
}

fn hex_char(d: u128) -> (c: char)
    requires
        d < 16,
    ensures
        c == hex_digit(d as nat),
{
    let b: u8 = d as u8;
    if b < 10 {
        (48u8 + b) as char
    } else {
        (87u8 + b) as char
    }
}

pub(crate) fn append_hex_fixed(x: u128, n: u32, out: &mut String)
    ensures
        final(out)@ == old(out)@ + hex_fixed(x as nat, n as nat),
    decreases n,
{
    if n > 0 {
        append_hex_fixed(x / 16, n - 1, out);
        crate::text::push_char(out, hex_char(x % 16));
        assert(final(out)@ =~= old(out)@ + hex_fixed(x as nat, n as nat));
    } else {
        assert(final(out)@ =~= old(out)@ + hex_fixed(x as nat, n as nat));
    }
}

impl ActorId {
    /// The short form of the identity, such as `planner(1a2b3c4d)`.
    pub fn describe(&self) -> (s: String)
        ensures
            s@ == id_text(self@),
    {
        let mut s = self.name.clone();
        s.append("(");
        append_hex_fixed(self.id / 0x1_0000_0000_0000_0000_0000_0000u128, 8, &mut s);
        s.append(")");
        s
    }

    /// A new identity with a fresh random id and the given name.
    pub fn new(name: &str) -> (r: Self)
        ensures
            r.name@ == name@,
    {
        ActorId { id: fresh_uuid(), name: String::from_str(name) }
    }

    /// Whether two identities are the same: same id and same name.
    pub fn same(&self, other: &ActorId) -> (r: bool)
        ensures
            r == (self@ == other@),
    {
        self.id == other.id && self.name == other.name
    }
}

/// A message envelope: the payload with its metadata (message id, trace id,
/// timestamp, sender).
#[derive(Debug)]
pub struct Envelope<P> {
    pub id: u128,
    pub trace_id: u128,
    /// When the envelope was made.
    pub timestamp: Timestamp,
    pub sender: Option<ActorId>,
    pub payload: P,
}

impl<P> Envelope<P> {
    /// A new envelope on a fresh trace.
    pub fn new(payload: P, sender: Option<ActorId>) -> (r: Self)
        ensures
            r.payload == payload,
            r.sender == sender,
    {
        let trace_id = fresh_uuid();
        Self::with_trace(payload, sender, trace_id)
    }

    /// A new envelope on the given trace.
    pub fn with_trace(payload: P, sender: Option<ActorId>, trace_id: u128) -> (r: Self)
        ensures
            r.payload == payload,
            r.sender == sender,
            r.trace_id == trace_id,
    {
        Envelope { id: fresh_uuid(), trace_id, timestamp: current_time(), sender, payload }
    }
}

/// System-level control messages.
#[derive(Debug, Clone, Copy, PartialEq, Eq, Structural)]
pub enum SystemMessage {
    /// Stop normally.
    Stop,
    /// Restart (sent by a supervisor).
    Restart,
    /// Liveness check.
    Ping,
    /// Liveness reply.
    Pong,
}

} // verus!
