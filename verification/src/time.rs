//! Clocks and leeway. Instants are whole seconds since the Unix epoch.

use vstd::prelude::*;

verus! {

/// The first second that a token can be stamped with.
pub const MIN_TIMESTAMP: i64 = -8_334_601_315_200;

/// The last second that a token can be stamped with.
pub const MAX_TIMESTAMP: i64 = 8_210_266_876_799;

/// The leeway of time options for which none was chosen: a minute.
pub const DEFAULT_LEEWAY: u64 = 60;

/// Where the current time comes from.
#[derive(Clone, Copy, Debug, PartialEq, Eq)]
pub enum Clock {
    /// The machine's clock.
    System,
    /// A clock that stands still at the given second.
    Fixed(i64),
    /// The machine's clock, moved by the given seconds.
    Shifted(i64),
}

/// How time enters the creation and the validation of tokens.
#[derive(Clone, Copy, Debug, PartialEq, Eq)]
pub struct TimeOptions {
    /// Seconds for which a token is still accepted after it has expired.
    pub leeway: u64,
    /// The source of the current time.
    pub clock: Clock,
}

/// `t`, moved to the nearest instant that a token can be stamped with.
pub open spec fn clamp_spec(t: int) -> int {
    if t < MIN_TIMESTAMP {
        MIN_TIMESTAMP as int
    } else if t > MAX_TIMESTAMP {
        MAX_TIMESTAMP as int
    } else {
        t
    }
}

/// Whether `t` is an instant that a token can be stamped with.
pub open spec fn representable(t: int) -> bool {
    MIN_TIMESTAMP <= t <= MAX_TIMESTAMP
}

/// Moves `t` to the nearest instant that a token can be stamped with.
pub fn clamp(t: i64) -> (r: i64)
    ensures
        r == clamp_spec(t as int),
        representable(r as int),
{
    if t < MIN_TIMESTAMP {
        MIN_TIMESTAMP
    } else if t > MAX_TIMESTAMP {
        MAX_TIMESTAMP
    } else {
        t
    }
}

/// Reads the machine's clock through `chrono::Utc::now` and gives the
/// seconds of the instant that it returns and the nanoseconds that have
/// passed of the next second. The reading differs from call to call; all
/// that is claimed is that the seconds lie between the least and the
/// greatest instant that `chrono::DateTime<Utc>` can hold. `chrono` itself
/// gives up on a machine whose clock is set before 1970.
#[verifier::external_body]
fn system_now() -> (r: (i64, u32))
    ensures
        representable(r.0 as int),
{
    let now = chrono::Utc::now();
    (now.timestamp(), now.timestamp_subsec_nanos())
}

/// Moves `t` by `by` seconds, to the nearest instant that a token can
/// be stamped with.
fn shifted(t: i64, by: i64) -> (r: i64)
    ensures
        r == clamp_spec(t + by),
        representable(r as int),
{
    let moved: i128 = (t as i128) + (by as i128);
    if moved < MIN_TIMESTAMP as i128 {
        MIN_TIMESTAMP
    } else if moved > MAX_TIMESTAMP as i128 {
        MAX_TIMESTAMP
    } else {
        moved as i64
    }
}

/// The second in which the machine's clock stands.
fn machine_second() -> (r: i64)
    ensures
        representable(r as int),
{
    system_now().0
}

/// The first whole second that is not before the reading of the
/// machine's clock: the second in which it stands, or the next one once
/// a part of that second has passed.
fn machine_second_rounded_up() -> (r: i64)
    ensures
        representable(r as int),
{
    let reading: (i64, u32) = system_now();
    if reading.1 > 0 {
        shifted(reading.0, 1)
    } else {
        reading.0
    }
}

impl Clock {
    /// Whether a reading of this clock may give `t`: an instant that a
    /// token can be stamped with; for a clock that stands still the one
    /// at which it stands; for a shifted clock a reading of the machine's
    /// clock moved by the shift.
    pub open spec fn may_read(self, t: int) -> bool {
        &&& representable(t)
        &&& self matches Clock::Fixed(at) ==> t == clamp_spec(at as int)
        &&& self matches Clock::Shifted(by) ==> exists|machine: int| #[trigger]
            representable(machine) && t == clamp_spec(machine + by)
    }

    /// Reads the clock: the second in which it stands. Tokens are
    /// stamped with this reading.
    pub fn now(&self) -> (r: i64)
        ensures
            self.may_read(r as int),
    {
        match self {
            Clock::System => machine_second(),
            Clock::Fixed(at) => clamp(*at),
            Clock::Shifted(by) => {
                let machine: i64 = machine_second();
                let moved: i64 = shifted(machine, *by);
                assert(representable(machine as int) && moved == clamp_spec(machine + *by));
                moved
            },
        }
    }

    /// Reads the clock for a comparison with an expiration: the first
    /// whole second that is not before the reading. An expiration is a
    /// whole second, so the clock has passed it exactly when this second
    /// has.
    pub fn now_rounded_up(&self) -> (r: i64)
        ensures
            self.may_read(r as int),
    {
        match self {
            Clock::System => machine_second_rounded_up(),
            Clock::Fixed(at) => clamp(*at),
            Clock::Shifted(by) => {
                let machine: i64 = machine_second_rounded_up();
                let moved: i64 = shifted(machine, *by);
                assert(representable(machine as int) && moved == clamp_spec(machine + *by));
                moved
            },
        }
    }
}

impl TimeOptions {
    /// Options with the given leeway and clock.
    pub fn new(leeway: u64, clock: Clock) -> (r: Self)
        ensures
            r == (TimeOptions { leeway, clock }),
    {
        TimeOptions { leeway, clock }
    }

    /// Options with the given leeway, on the machine's clock.
    pub fn from_leeway(leeway: u64) -> (r: Self)
        ensures
            r == (TimeOptions { leeway, clock: Clock::System }),
    {
        TimeOptions { leeway, clock: Clock::System }
    }

    /// Reads the clock of these options: the second in which it stands.
    pub fn now(&self) -> (r: i64)
        ensures
            self.clock.may_read(r as int),
    {
        self.clock.now()
    }

    /// Reads the clock of these options for a comparison with an
    /// expiration: the first whole second that is not before the reading.
    pub fn now_rounded_up(&self) -> (r: i64)
        ensures
            self.clock.may_read(r as int),
    {
        self.clock.now_rounded_up()
    }
}

/// A minute of leeway, on the machine's clock.
impl Default for TimeOptions {
    fn default() -> (r: Self)
        ensures
            r == (TimeOptions { leeway: DEFAULT_LEEWAY, clock: Clock::System }),
    {
        TimeOptions { leeway: DEFAULT_LEEWAY, clock: Clock::System }
    }
}

/// `true` exactly when a token that expires at `expiration` has run out at
/// `now`, with `leeway` seconds of grace.
pub open spec fn expired_at(expiration: int, leeway: int, now: int) -> bool {
    now > expiration + leeway
}

/// Decides whether a token that expires at `expiration` has run out at `now`.
pub fn is_expired(expiration: i64, leeway: u64, now: i64) -> (r: bool)
    ensures
        r == expired_at(expiration as int, leeway as int, now as int),
{
    (now as i128) > (expiration as i128) + (leeway as i128)
}

/// The instant at which a token issued at `now` for `lifetime` seconds
/// expires: `now + lifetime`, or the last instant there is if that lies
/// beyond it.
pub open spec fn expiration_spec(now: int, lifetime: int) -> int {
    clamp_spec(clamp_spec(now) + lifetime)
}

/// Computes the instant at which a token issued at `now` for `lifetime`
/// seconds expires.
pub fn expiration_after(now: i64, lifetime: u64) -> (r: i64)
    ensures
        r == expiration_spec(now as int, lifetime as int),
        representable(r as int),
{
    let start: i128 = clamp(now) as i128;
    let end: i128 = start + (lifetime as i128);
    if end > MAX_TIMESTAMP as i128 {
        MAX_TIMESTAMP
    } else {
        end as i64
    }
}

} // verus!
