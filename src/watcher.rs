use vstd::prelude::*;

verus! {

/// A file modification time: whole seconds and nanoseconds since the Unix
/// epoch.
#[derive(Clone, Copy, Debug, PartialEq, Eq, Structural)]
pub struct Timestamp {
    pub secs: u64,
    pub nanos: u32,
}

pub open spec fn nanos_per_sec() -> int {
    1_000_000_000
}

impl Timestamp {
    /// The nanosecond part stays under one second.
    pub open spec fn wf(&self) -> bool {
        self.nanos < 1_000_000_000
    }

    /// The instant as a count of nanoseconds since the epoch.
    pub open spec fn instant(&self) -> int {
        self.secs * nanos_per_sec() + self.nanos
    }

    pub fn new(secs: u64, nanos: u32) -> (r: Timestamp)
        requires
            nanos < 1_000_000_000,
        ensures
            r.wf(),
            r.secs == secs,
            r.nanos == nanos,
    {
        Timestamp { secs, nanos }
    }

    /// Whether `self` is a strictly later instant than `other`.
    pub fn is_after(&self, other: &Timestamp) -> (r: bool)
        requires
            self.wf(),
            other.wf(),
        ensures
            r == (self.instant() > other.instant()),
    {
        proof {
            lemma_instant_order(*self, *other);
            lemma_instant_order(*other, *self);
        }
        self.secs > other.secs || (self.secs == other.secs && self.nanos > other.nanos)
    }
}

/// Instants order as their (seconds, nanoseconds) pairs do.
proof fn lemma_instant_order(a: Timestamp, b: Timestamp)
    requires
        a.wf(),
        b.wf(),
    ensures
        a.secs > b.secs ==> a.instant() > b.instant(),
{
    if a.secs > b.secs {
        let (sa, sb, na, nb) = (a.secs as int, b.secs as int, a.nanos as int, b.nanos as int);
        assert(sa * 1_000_000_000 >= (sb + 1) * 1_000_000_000) by (nonlinear_arith)
            requires
                sa >= sb + 1,
        ;
        assert(na < 1_000_000_000 && nb >= 0);
    }
}

/// The change check made once per tick.
///
/// `observed` is the tracked artifact's modification time as just read, or
/// `None` when it could not be read (for instance while a build is still
/// writing the file): that counts as no change. The new time is returned only
/// when it is strictly later than `last_known`.
pub fn changed_since(observed: Option<Timestamp>, last_known: &Timestamp) -> (r: Option<
    Timestamp,
>)
    requires
        last_known.wf(),
        observed matches Some(t) ==> t.wf(),
    ensures
        r == (match observed {
            Some(t) => if t.instant() > last_known.instant() {
                Some(t)
            } else {
                None
            },
            None => None,
        }),
{
    match observed {
        Some(t) => {
            if t.is_after(last_known) {
                Some(t)
            } else {
                None
            }
        },
        None => None,
    }
}

} // verus!
