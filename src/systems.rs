use vstd::prelude::*;
use vstd::string::StrSliceExecFns;

use std::time::{Duration, Instant};

verus! {

/// `std::time::Instant`, a reading of the monotonic clock, carried through
/// opaquely.
#[verifier::external_type_specification]
#[verifier::external_body]
pub struct ExInstant(Instant);

/// Relies on `Instant::now`: reads the monotonic clock.
#[verifier::external_body]
fn instant_now() -> (r: Instant) {
    Instant::now()
}

/// Relies on `Instant::duration_since`: the time from `earlier` to `later`.
#[verifier::external_body]
fn duration_since(later: &Instant, earlier: Instant) -> (r: Duration) {
    later.duration_since(earlier)
}

/// Relies on `Duration::as_millis`: the whole milliseconds of `d`.
#[verifier::external_body]
fn duration_as_millis(d: &Duration) -> (r: u128) {
    d.as_millis()
}

#[derive(Copy, Clone, Debug, PartialEq, Eq, Structural)]
pub enum Sex {
    Male,
    Female,
}

/// Two strings hold the same characters.
fn str_eq(a: &str, b: &str) -> (r: bool)
    ensures
        r == (a@ == b@),
{
    let n = a.unicode_len();
    if n != b.unicode_len() {
        return false;
    }
    let mut i: usize = 0;
    while i < n
        invariant
            n == a@.len() == b@.len(),
            0 <= i <= n,
            forall|j: int| 0 <= j < i ==> a@[j] == b@[j],
        decreases n - i,
    {
        if a.get_char(i) != b.get_char(i) {
            return false;
        }
        i = i + 1;
    }
    assert(a@ =~= b@);
    true
}

/// How long each system took in the last frame, in milliseconds, by name.
#[derive(Clone, Debug)]
pub struct SystemFrameDurations(pub Vec<(&'static str, u32)>);

/// `after` is `before` with `name` recorded as taking `millis`: its entry
/// overwritten if there is one, else a new entry appended.
pub open spec fn recorded(
    before: Seq<(&'static str, u32)>,
    after: Seq<(&'static str, u32)>,
    name: &'static str,
    millis: u32,
) -> bool {
    if exists|i: int| 0 <= i < before.len() && (#[trigger] before[i]).0@ == name@ {
        exists|i: int|
            0 <= i < before.len() && (#[trigger] before[i]).0@ == name@ && (forall|j: int|
                0 <= j < i ==> (#[trigger] before[j]).0@ != name@) && after == before.update(
                i,
                (before[i].0, millis),
            )
    } else {
        after == before.push((name, millis))
    }
}

impl SystemFrameDurations {
    pub fn new() -> (r: SystemFrameDurations)
        ensures
            r.0@.len() == 0,
    {
        SystemFrameDurations(Vec::new())
    }

    /// Records that system `name` took `millis`.
    pub fn record(&mut self, name: &'static str, millis: u32)
        ensures
            recorded(old(self).0@, final(self).0@, name, millis),
    {
        let mut i: usize = 0;
        while i < self.0.len()
            invariant
                0 <= i <= self.0@.len(),
                self.0@ == old(self).0@,
                forall|j: int| 0 <= j < i ==> (#[trigger] self.0@[j]).0@ != name@,
            decreases self.0@.len() - i,
        {
            if str_eq(self.0[i].0, name) {
                let entry_name = self.0[i].0;
                self.0.set(i, (entry_name, millis));
                assert(exists|k: int|
                    0 <= k < old(self).0@.len() && (#[trigger] old(self).0@[k]).0@ == name@);
                return;
            }
            i = i + 1;
        }
        self.0.push((name, millis));
    }

    /// Records the time from `started` until now as the duration of system `name`.
    pub fn system_finished(&mut self, started: Instant, name: &'static str)
        ensures
            exists|millis: u32| recorded(old(self).0@, final(self).0@, name, millis),
    {
        let now = instant_now();
        let elapsed = duration_since(&now, started);
        let millis = duration_as_millis(&elapsed) as u32;
        self.record(name, millis);
    }

    /// Starts timing system `name`.
    pub fn start_measurement(&self, name: &'static str) -> (r: SystemStopwatch)
        ensures
            r.name == name,
    {
        SystemStopwatch::new(name)
    }
}

/// Times one system run; `finish` records the duration.
pub struct SystemStopwatch {
    pub started: Instant,
    pub name: &'static str,
}

impl SystemStopwatch {
    pub fn new(name: &'static str) -> (r: SystemStopwatch)
        ensures
            r.name == name,
    {
        SystemStopwatch { started: instant_now(), name }
    }

    /// Records the time since the stopwatch started under its name.
    pub fn finish(self, times: &mut SystemFrameDurations)
        ensures
            exists|millis: u32| recorded(old(times).0@, final(times).0@, self.name, millis),
    {
        times.system_finished(self.started, self.name);
    }
}

/// Runs `f` and answers how long it took with its result.
pub fn measure_time<T, F: FnOnce() -> T>(f: F) -> (r: (Duration, T))
    requires
        f.requires(()),
    ensures
        f.ensures((), r.1),
{
    let start = instant_now();
    let r = f();
    let end = instant_now();
    (duration_since(&end, start), r)
}

} // verus!
