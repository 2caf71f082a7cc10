//! Points in time on the machine's monotonic clock.
use vstd::prelude::*;

verus! {

/// The number of nanoseconds in a second.
pub const NANOS_PER_SEC: i128 = 1_000_000_000;

/// A reading of the machine's monotonic clock, as the standard library hands it out. A value of it
/// says nothing by itself: it only tells how much time lies between it and another reading.
#[verifier::external_type_specification]
#[verifier::external_body]
pub struct ExInstant(std::time::Instant);

/// Reads the machine's monotonic clock with `std::time::Instant::now`.
///
/// Nothing is claimed of what it reads.
#[verifier::external_body]
pub(crate) fn read_monotonic() -> (reading: std::time::Instant) {
    std::time::Instant::now()
}

/// The time from one reading to another, and none if the other is the sooner, from
/// `std::time::Instant::saturating_duration_since`, in whole seconds (`Duration::as_secs`) and the
/// nanoseconds beyond them (`Duration::subsec_nanos`).
///
/// Not proved: the nanoseconds beyond the last whole second are fewer than a second's, and no time
/// lies between a reading and itself. How much lies between two readings is up to the machine, and
/// nothing is claimed of it.
#[verifier::external_body]
pub(crate) fn elapsed_between(from: &std::time::Instant, to: &std::time::Instant) -> (elapsed: (u64, u32))
    ensures
        elapsed.1 < NANOS_PER_SEC,
        *from == *to ==> elapsed == (0u64, 0u32),
{
    let elapsed = to.saturating_duration_since(*from);
    (elapsed.as_secs(), elapsed.subsec_nanos())
}

/// The nanoseconds in so many whole seconds and the nanoseconds beyond them.
pub open spec fn nanos_in(elapsed: (u64, u32)) -> int {
    elapsed.0 * NANOS_PER_SEC + elapsed.1
}

/// The nanoseconds in so many whole seconds and the nanoseconds beyond them.
fn in_nanos(elapsed: (u64, u32)) -> (nanos: i128)
    ensures
        nanos == nanos_in(elapsed),
{
    elapsed.0 as i128 * NANOS_PER_SEC + elapsed.1 as i128
}

/// Whether the machine may tell that the reading `to` was taken `gap` nanoseconds after the reading
/// `from`, or `-gap` nanoseconds before it.
pub closed spec fn machine_tells(
    from: std::time::Instant,
    to: std::time::Instant,
    gap: int,
) -> bool {
    exists|ahead: (u64, u32), behind: (u64, u32)|
        {
            &&& #[trigger] call_ensures(elapsed_between, (&from, &to), ahead)
            &&& #[trigger] call_ensures(elapsed_between, (&to, &from), behind)
            &&& gap == nanos_in(ahead) - nanos_in(behind)
        }
}

/// Whether `gap` is how many nanoseconds after the reading `from` the reading `to` was taken: none
/// where they are the same reading, and what the machine tells where they are not.
pub open spec fn lie_apart(from: std::time::Instant, to: std::time::Instant, gap: int) -> bool {
    &&& from == to ==> gap == 0
    &&& machine_tells(from, to, gap)
}

/// How many nanoseconds after the reading `from` the reading `to` was taken.
fn gap_between(from: &std::time::Instant, to: &std::time::Instant) -> (gap: i128)
    ensures
        lie_apart(*from, *to, gap as int),
{
    let ahead = elapsed_between(from, to);
    let behind = elapsed_between(to, from);
    let gap: i128 = in_nanos(ahead) - in_nanos(behind);
    assert(machine_tells(*from, *to, gap as int));
    gap
}

/// A number of seconds is a thousand million times as many nanoseconds.
pub proof fn law_nanos_in_seconds(secs: u64, nanos: u32)
    ensures
        nanos_in((secs, nanos)) == secs * 1_000_000_000 + nanos,
{
}

/// What the machine tells of two readings is the time from the first to the second less the time
/// from the second to the first, to the nanosecond.
pub(crate) proof fn law_gap_is_the_time_between(
    from: std::time::Instant,
    to: std::time::Instant,
    ahead: (u64, u32),
    behind: (u64, u32),
)
    requires
        call_ensures(elapsed_between, (&from, &to), ahead),
        call_ensures(elapsed_between, (&to, &from), behind),
    ensures
        machine_tells(
            from,
            to,
            (ahead.0 - behind.0) * 1_000_000_000 + (ahead.1 - behind.1),
        ),
{
    assert((ahead.0 - behind.0) * 1_000_000_000 + (ahead.1 - behind.1) == nanos_in(ahead)
        - nanos_in(behind));
}

/// Nothing else is told of two readings than the time between them.
pub(crate) proof fn law_gap_is_nothing_else(
    from: std::time::Instant,
    to: std::time::Instant,
    gap: int,
)
    requires
        machine_tells(from, to, gap),
    ensures
        exists|ahead: (u64, u32), behind: (u64, u32)|
            {
                &&& #[trigger] call_ensures(elapsed_between, (&from, &to), ahead)
                &&& #[trigger] call_ensures(elapsed_between, (&to, &from), behind)
                &&& gap == (ahead.0 - behind.0) * 1_000_000_000 + (ahead.1 - behind.1)
            },
{
}

/// The gap from one reading to another is what the machine tells, and the gap back is the same the
/// other way round. There is none from a reading to itself.
pub proof fn law_gap_both_ways(from: std::time::Instant, to: std::time::Instant, gap: int)
    requires
        lie_apart(from, to, gap),
    ensures
        machine_tells(from, to, gap),
        lie_apart(to, from, -gap),
        from == to ==> gap == 0,
{
}

/// Whether `a <= b + gap`.
fn at_most(a: i128, b: i128, gap: i128) -> (holds: bool)
    ensures
        holds <==> a <= b + gap,
{
    match a.checked_sub(b) {
        Some(difference) => difference <= gap,
        None => a < b,
    }
}

/// A point in time: so many nanoseconds after or before the origin of a [`Clock`].
#[derive(Clone, Copy, Debug)]
pub struct Instant {
    origin: std::time::Instant,
    nanos: i128,
}

impl View for Instant {
    type V = int;

    /// How many nanoseconds after the origin this instant comes.
    closed spec fn view(&self) -> int {
        self.nanos as int
    }
}

impl Instant {
    /// The reading of the machine's clock that this instant is counted from.
    pub closed spec fn spec_origin(self) -> std::time::Instant {
        self.origin
    }

    /// Whether this is the instant that comes so many nanoseconds after `earlier`.
    pub open spec fn comes_after(self, earlier: Instant, nanos: int) -> bool {
        self.spec_origin() == earlier.spec_origin() && self@ == earlier@ + nanos
    }

    /// Where this instant lies on a time line on which `at` says where the readings lie.
    pub open spec fn moment(self, at: spec_fn(std::time::Instant) -> int) -> int {
        at(self.spec_origin()) + self@
    }

    /// The reading of the machine's clock that this instant is counted from.
    pub fn origin(&self) -> (origin: std::time::Instant)
        ensures
            origin == self.spec_origin(),
    {
        self.origin
    }

    /// How many nanoseconds after the origin this instant comes.
    pub fn as_nanos(&self) -> (nanos: i128)
        ensures
            nanos == self@,
    {
        self.nanos
    }

    /// The instant `secs` seconds after this one.
    pub fn plus_secs(&self, secs: u32) -> (instant: Self)
        requires
            self@ + secs * NANOS_PER_SEC <= i128::MAX,
        ensures
            instant.comes_after(*self, secs * NANOS_PER_SEC),
            instant.spec_origin() == self.spec_origin(),
            instant@ == self@ + secs * 1_000_000_000,
    {
        Self { origin: self.origin, nanos: self.nanos + secs as i128 * NANOS_PER_SEC }
    }

    /// The sooner of two instants, on whatever clocks they are counted.
    pub fn sooner(self, other: Self) -> (instant: Self)
        ensures
            exists|gap: int| #[trigger]
                lie_apart(self.spec_origin(), other.spec_origin(), gap) && instant == sooner(
                    self,
                    other,
                    gap,
                ) && (self@ <= other@ + gap ==> instant == self) && (other@ + gap < self@ ==> instant
                    == other),
            self.spec_origin() == other.spec_origin() ==> instant@ <= self@ && instant@ <= other@,
    {
        let gap = gap_between(&self.origin, &other.origin);
        assert(lie_apart(self.spec_origin(), other.spec_origin(), gap as int));
        if at_most(self.nanos, other.nanos, gap) {
            self
        } else {
            other
        }
    }
}

impl PartialEq for Instant {
    /// Whether two instants are the same point in time, on whatever clocks they are counted.
    fn eq(&self, other: &Self) -> (same: bool)
        ensures
            exists|gap: int| #[trigger]
                lie_apart(self.spec_origin(), other.spec_origin(), gap) && same == (self@ == other@
                    + gap),
    {
        let gap = gap_between(&self.origin, &other.origin);
        assert(lie_apart(self.spec_origin(), other.spec_origin(), gap as int));
        match self.nanos.checked_sub(other.nanos) {
            Some(difference) => difference == gap,
            None => false,
        }
    }
}

impl vstd::std_specs::cmp::PartialEqSpecImpl for Instant {
    /// Where two instants are counted on different clocks, the machine has a say in whether they
    /// are the same.
    open spec fn obeys_eq_spec() -> bool {
        false
    }

    open spec fn eq_spec(&self, other: &Self) -> bool {
        self.spec_origin() == other.spec_origin() && self@ == other@
    }
}

impl Eq for Instant {
}

/// An instant is nothing but its origin and its distance from it.
pub proof fn law_instant_is_its_distance(a: Instant, b: Instant)
    requires
        a.spec_origin() == b.spec_origin(),
        a@ == b@,
    ensures
        a == b,
{
}

/// The sooner of two instants, where the origin of `b` comes `gap` nanoseconds after that of `a`.
pub open spec fn sooner(a: Instant, b: Instant, gap: int) -> Instant {
    if a@ <= b@ + gap {
        a
    } else {
        b
    }
}

/// How many nanoseconds after the origin of `a` that of `b` comes, on a time line on which `at` says
/// where the readings lie.
pub open spec fn gap_on(
    at: spec_fn(std::time::Instant) -> int,
    a: Instant,
    b: Instant,
) -> int {
    at(b.spec_origin()) - at(a.spec_origin())
}

/// The sooner of two instants is one of them, and lies where the first of them does.
pub proof fn law_sooner_is_first(
    a: Instant,
    b: Instant,
    at: spec_fn(std::time::Instant) -> int,
)
    ensures
        ({
            let first = sooner(a, b, gap_on(at, a, b));
            &&& first == a || first == b
            &&& first.moment(at) <= a.moment(at)
            &&& first.moment(at) <= b.moment(at)
        }),
{
}

/// Where the origin of `b` comes `gap` nanoseconds after that of `a`, the sooner of the two is `a`
/// unless `b` comes before it.
pub proof fn law_sooner_by_gap(a: Instant, b: Instant, gap: int)
    ensures
        a@ <= b@ + gap ==> sooner(a, b, gap) == a,
        b@ + gap < a@ ==> sooner(a, b, gap) == b,
{
}

/// An instant comes after another by the time between their counts, on the same clock.
pub proof fn law_comes_after(later: Instant, earlier: Instant, nanos: int)
    ensures
        later.comes_after(earlier, nanos) <==> later.spec_origin() == earlier.spec_origin() && later@
            - earlier@ == nanos,
{
}

/// A clock tells the time from its origin to a reading of the machine's clock, and nothing else.
pub(crate) proof fn law_clock_tells_elapsed_time(clock: Clock, elapsed: (u64, u32))
    ensures
        clock.reads(elapsed) <==> exists|reading: std::time::Instant|
            {
                &&& #[trigger] call_ensures(read_monotonic, (), reading)
                &&& call_ensures(elapsed_between, (&clock.spec_origin(), &reading), elapsed)
            },
        clock.reads(elapsed) ==> elapsed.1 < 1_000_000_000,
{
}

/// The origin of a clock that was started is a reading of the machine's clock.
pub(crate) proof fn law_clock_starts_at_a_reading(clock: Clock)
    ensures
        clock.started() <==> call_ensures(read_monotonic, (), clock.spec_origin()),
{
}

/// One past the last nanosecond that a [`Clock`] can read.
pub open spec fn clock_limit() -> int {
    0x1_0000_0000_0000_0000 * NANOS_PER_SEC
}

/// A monotonic clock that counts from the moment it was started.
#[derive(Clone, Copy, Debug)]
pub struct Clock {
    origin: std::time::Instant,
}

impl Clock {
    /// The reading of the machine's clock that this clock counts from.
    pub closed spec fn spec_origin(self) -> std::time::Instant {
        self.origin
    }

    /// Whether the origin is what a reading of the machine's clock may give.
    pub closed spec fn started(self) -> bool {
        call_ensures(read_monotonic, (), self.origin)
    }

    /// Whether `elapsed` is what the machine may tell of the time from the origin to a reading, in
    /// whole seconds and the nanoseconds beyond them.
    pub closed spec fn reads(self, elapsed: (u64, u32)) -> bool {
        exists|reading: std::time::Instant|
            {
                &&& #[trigger] call_ensures(read_monotonic, (), reading)
                &&& call_ensures(elapsed_between, (&self.origin, &reading), elapsed)
            }
    }

    /// Starts a clock: its origin is now.
    pub fn start() -> (clock: Self)
        ensures
            clock.started(),
    {
        Self { origin: read_monotonic() }
    }

    /// The reading of the machine's clock that this clock counts from.
    pub fn origin(&self) -> (origin: std::time::Instant)
        ensures
            origin == self.spec_origin(),
    {
        self.origin
    }

    /// The instant that comes `nanos` nanoseconds after the origin.
    pub fn at(&self, nanos: i128) -> (instant: Instant)
        ensures
            instant.spec_origin() == self.spec_origin(),
            instant@ == nanos,
    {
        Instant { origin: self.origin, nanos }
    }

    /// The instant that comes so many whole seconds and the nanoseconds beyond them after the
    /// origin.
    pub fn after(&self, elapsed: (u64, u32)) -> (instant: Instant)
        ensures
            instant.spec_origin() == self.spec_origin(),
            instant@ == nanos_in(elapsed),
            instant@ == elapsed.0 * 1_000_000_000 + elapsed.1,
    {
        self.at(in_nanos(elapsed))
    }

    /// The current instant on this clock: the time that the machine tells to have passed since
    /// the origin.
    pub fn now(&self) -> (now: Instant)
        ensures
            now.spec_origin() == self.spec_origin(),
            0 <= now@ < clock_limit(),
            exists|elapsed: (u64, u32)| #[trigger]
                self.reads(elapsed) && now@ == elapsed.0 * 1_000_000_000 + elapsed.1,
    {
        let reading = read_monotonic();
        let elapsed = elapsed_between(&self.origin, &reading);
        assert(self.reads(elapsed));
        self.after(elapsed)
    }
}

} // verus!
