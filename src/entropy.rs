//! Sources of randomness and time that can be swapped for deterministic ones
//! when a loop is replayed.
use vstd::prelude::*;

use std::time::{Duration, Instant, SystemTime};

verus! {

#[verifier::external_type_specification]
#[verifier::external_body]
pub struct ExInstant(Instant);

#[verifier::external_type_specification]
#[verifier::external_body]
pub struct ExSystemTime(SystemTime);

/// Whether `c` is a lowercase hexadecimal digit.
pub open spec fn is_lower_hex(c: char) -> bool {
    ('0' <= c && c <= '9') || ('a' <= c && c <= 'f')
}

/// Whether `s` is a random (version 4) UUID in lowercase hyphenated form:
/// hyphens at 8, 13, 18 and 23, lowercase hex digits elsewhere, the version
/// digit `4` at 14 and one of `8`, `9`, `a`, `b` at 19.
pub open spec fn is_v4_uuid_text(s: Seq<char>) -> bool {
    &&& s.len() == 36
    &&& forall|i: int|
        0 <= i < 36 ==> if i == 8 || i == 13 || i == 18 || i == 23 {
            s[i] == '-'
        } else {
            is_lower_hex(#[trigger] s[i])
        }
    &&& s[14] == '4'
    &&& (s[19] == '8' || s[19] == '9' || s[19] == 'a' || s[19] == 'b')
}

/// Relies on `std::time::Instant::now`: a reading of the monotonic clock.
#[verifier::external_body]
fn instant_now() -> (r: Instant) {
    Instant::now()
}

/// Relies on `std::time::SystemTime::now`: a reading of the wall clock.
#[verifier::external_body]
fn system_time_now() -> (r: SystemTime) {
    SystemTime::now()
}

/// Relies on `SystemTime::duration_since(UNIX_EPOCH)`: `None` where `t` lies
/// before the epoch.
#[verifier::external_body]
fn duration_since_epoch(t: &SystemTime) -> (r: Option<Duration>) {
    t.duration_since(SystemTime::UNIX_EPOCH).ok()
}

/// Relies on `Duration::as_millis`: the whole milliseconds of `d`.
#[verifier::external_body]
fn duration_millis(d: &Duration) -> (r: u128) {
    d.as_millis()
}

/// Relies on `uuid::Uuid::new_v4` and the `Display` impl of `Uuid`: a fresh
/// random UUID with the version and variant bits set, written in lowercase
/// hyphenated form.
#[verifier::external_body]
fn fresh_uuid() -> (r: String)
    ensures
        is_v4_uuid_text(r@),
{
    uuid::Uuid::new_v4().to_string()
}

/// Relies on `rand::random`: a random `u64` from the thread-local generator.
#[verifier::external_body]
fn random_u64() -> (r: u64) {
    rand::random()
}

/// Source of time.
pub trait Clock {
    /// A monotonic instant, for measuring durations.
    fn now(&self) -> Instant;

    /// Wall-clock time.
    fn wall_time(&self) -> SystemTime;

    /// Milliseconds since the Unix epoch.
    fn unix_millis(&self) -> u64;
}

/// Milliseconds since the epoch as a `u64`: the low 64 bits of `millis`, or 0
/// where the clock read before the epoch.
pub fn millis_or_zero(millis: Option<u128>) -> (r: u64)
    ensures
        r == match millis {
            Some(m) => m as u64,
            None => 0u64,
        },
{
    match millis {
        Some(m) => m as u64,
        None => 0,
    }
}

/// Clock backed by the system's monotonic and wall clocks.
#[derive(Debug)]
pub struct SystemClock;

impl Clock for SystemClock {
    fn now(&self) -> Instant {
        instant_now()
    }

    fn wall_time(&self) -> SystemTime {
        system_time_now()
    }

    fn unix_millis(&self) -> u64 {
        let t = system_time_now();
        let millis = match duration_since_epoch(&t) {
            Some(d) => Some(duration_millis(&d)),
            None => None,
        };
        millis_or_zero(millis)
    }
}

/// Random source backed by the system's generators.
#[derive(Debug)]
pub struct SystemRandomSource;

impl SystemRandomSource {
    /// A fresh random UUID in hyphenated form.
    pub fn uuid(&self) -> (r: String)
        ensures
            is_v4_uuid_text(r@),
    {
        fresh_uuid()
    }

    /// A random `u64`.
    pub fn u64(&self) -> u64 {
        random_u64()
    }
}

/// Deterministic random source for replay: hands out a recorded sequence of
/// UUIDs, then fresh ones once the sequence is used up.
#[derive(Debug)]
pub struct ScriptedRandomSource {
    pending: Vec<String>,
}

impl ScriptedRandomSource {
    /// The recorded UUIDs not yet handed out, next first.
    pub closed spec fn pending(&self) -> Seq<String> {
        self.pending@
    }

    pub fn new(uuids: Vec<String>) -> (r: ScriptedRandomSource)
        ensures
            r.pending() == uuids@,
    {
        ScriptedRandomSource { pending: uuids }
    }

    /// The next recorded UUID, or a fresh one once none is left.
    pub fn uuid(&mut self) -> (r: String)
        ensures
            old(self).pending().len() > 0 ==> {
                &&& r == old(self).pending()[0]
                &&& final(self).pending() == old(self).pending().drop_first()
            },
            old(self).pending().len() == 0 ==> {
                &&& is_v4_uuid_text(r@)
                &&& final(self).pending() == old(self).pending()
            },
    {
        if self.pending.len() > 0 {
            self.pending.remove(0)
        } else {
            fresh_uuid()
        }
    }
}

/// Replay sources of entropy scopes that are active side by side, each found
/// by the index that `open` returned.
pub struct EntropyScopes {
    scopes: Vec<ScriptedRandomSource>,
}

impl EntropyScopes {
    /// The recorded UUIDs each scope has yet to hand out.
    pub closed spec fn pending_of(&self) -> Seq<Seq<String>> {
        self.scopes@.map_values(|s: ScriptedRandomSource| s.pending())
    }

    pub fn new() -> (r: EntropyScopes)
        ensures
            r.pending_of().len() == 0,
    {
        EntropyScopes { scopes: Vec::new() }
    }

    /// Opens a scope that replays `uuids`; the other scopes are untouched.
    pub fn open(&mut self, uuids: Vec<String>) -> (id: usize)
        requires
            old(self).pending_of().len() < usize::MAX,
        ensures
            id == old(self).pending_of().len(),
            final(self).pending_of() == old(self).pending_of().push(uuids@),
    {
        let id = self.scopes.len();
        self.scopes.push(ScriptedRandomSource::new(uuids));
        assert(self.pending_of() =~= old(self).pending_of().push(uuids@));
        id
    }

    /// A UUID drawn in scope `scope`: the next one that scope recorded (or a
    /// fresh one once it has none left). No other scope's sequence moves.
    pub fn uuid_in(&mut self, scope: usize) -> (r: String)
        requires
            scope < old(self).pending_of().len(),
        ensures
            final(self).pending_of().len() == old(self).pending_of().len(),
            forall|j: int|
                0 <= j < old(self).pending_of().len() && j != scope ==> #[trigger] final(self).pending_of()[j]
                    == old(self).pending_of()[j],
            old(self).pending_of()[scope as int].len() > 0 ==> {
                &&& r == old(self).pending_of()[scope as int][0]
                &&& final(self).pending_of()[scope as int] == old(self).pending_of()[scope as int].drop_first()
            },
            old(self).pending_of()[scope as int].len() == 0 ==> {
                &&& is_v4_uuid_text(r@)
                &&& final(self).pending_of()[scope as int] == old(self).pending_of()[scope as int]
            },
    {
        let mut source = self.scopes.remove(scope);
        let r = source.uuid();
        self.scopes.insert(scope, source);
        assert forall|j: int|
            0 <= j < old(self).pending_of().len() && j != scope implies #[trigger] self.pending_of()[j]
            == old(self).pending_of()[j] by {
            assert(self.scopes@[j] == old(self).scopes@[j]);
        }
        r
    }
}

/// The UUID accessor of the active entropy scope: the scope's value where a
/// scope is active (`scoped`), else a fresh UUID. The fallback serves code
/// that does not yet run inside a scope and is not a replay-safe path.
pub fn entropy_uuid(scoped: Option<String>) -> (r: String)
    ensures
        match scoped {
            Some(u) => r == u,
            None => is_v4_uuid_text(r@),
        },
{
    match scoped {
        Some(u) => u,
        None => fresh_uuid(),
    }
}

/// The clock accessor of the active entropy scope: the scope's reading where a
/// scope is active (`scoped`), else the system's monotonic clock. The fallback
/// serves code that does not yet run inside a scope and is not a replay-safe
/// path.
pub fn entropy_now(scoped: Option<Instant>) -> (r: Instant)
    ensures
        scoped is Some ==> r == scoped->Some_0,
{
    match scoped {
        Some(t) => t,
        None => instant_now(),
    }
}

} // verus!
