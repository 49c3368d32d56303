//! A pausable stopwatch.

use vstd::prelude::*;

verus! {

/// Nanoseconds in one second.
pub const NANOS_PER_SEC: u32 = 1_000_000_000;

/// A span of time as whole seconds plus the nanoseconds of the last,
/// unfinished second, below one billion.
#[derive(Clone, Copy, Debug, PartialEq, Eq, Structural)]
pub struct Duration {
    secs: u64,
    nanos: u32,
}

/// The longest span a [`Duration`] can hold, in nanoseconds.
pub open spec fn max_duration_nanos() -> nat {
    (u64::MAX as nat) * (NANOS_PER_SEC as nat) + (NANOS_PER_SEC as nat - 1) as nat
}

impl Duration {
    #[verifier::type_invariant]
    closed spec fn nanos_below_one_second(self) -> bool {
        self.nanos < NANOS_PER_SEC
    }

    /// Total length in nanoseconds.
    pub closed spec fn spec_as_nanos(self) -> nat {
        self.secs as nat * NANOS_PER_SEC as nat + self.nanos as nat
    }

    /// Every duration lies between zero and the longest one.
    pub fn as_nanos(&self) -> (nanos: u128)
        ensures
            nanos == self.spec_as_nanos(),
            nanos <= max_duration_nanos(),
    {
        proof {
            use_type_invariant(self);
        }
        let secs = self.secs;
        assert(secs as nat * 1_000_000_000 <= u64::MAX as nat * 1_000_000_000) by (nonlinear_arith)
            requires
                secs <= u64::MAX,
        ;
        secs as u128 * NANOS_PER_SEC as u128 + self.nanos as u128
    }

    /// The empty span.
    pub fn zero() -> (d: Self)
        ensures
            d.spec_as_nanos() == 0,
    {
        Duration { secs: 0, nanos: 0 }
    }

    /// The longest span a duration can hold.
    pub fn max_value() -> (d: Self)
        ensures
            d.spec_as_nanos() == max_duration_nanos(),
    {
        Duration { secs: u64::MAX, nanos: NANOS_PER_SEC - 1 }
    }

    /// Creates a span of `secs` seconds and `nanos` nanoseconds; nanoseconds
    /// beyond a second carry into the seconds.
    pub fn new(secs: u64, nanos: u32) -> (d: Self)
        requires
            secs as nat * NANOS_PER_SEC as nat + nanos as nat <= max_duration_nanos(),
        ensures
            d.spec_as_nanos() == secs as nat * NANOS_PER_SEC as nat + nanos as nat,
    {
        let carry = (nanos / NANOS_PER_SEC) as u64;
        let rest = nanos % NANOS_PER_SEC;
        assert(carry <= 4);
        assert(secs + carry <= u64::MAX) by (nonlinear_arith)
            requires
                secs * 1_000_000_000 + nanos <= u64::MAX * 1_000_000_000 + 999_999_999,
                carry == nanos / 1_000_000_000,
        ;
        Duration { secs: secs + carry, nanos: rest }
    }

    /// Whole seconds.
    pub fn as_secs(&self) -> (secs: u64)
        ensures
            secs == self.spec_as_nanos() / NANOS_PER_SEC as nat,
    {
        proof {
            use_type_invariant(self);
        }
        self.secs
    }

    /// Nanoseconds past the whole seconds.
    pub fn subsec_nanos(&self) -> (nanos: u32)
        ensures
            nanos == self.spec_as_nanos() % NANOS_PER_SEC as nat,
    {
        proof {
            use_type_invariant(self);
        }
        self.nanos
    }

    /// The sum of two spans, or the longest span when the sum exceeds it.
    pub fn saturating_add(self, other: Self) -> (sum: Self)
        ensures
            sum.spec_as_nanos() == spec_saturating_sum(self.spec_as_nanos(), other.spec_as_nanos()),
    {
        proof {
            use_type_invariant(&self);
            use_type_invariant(&other);
        }
        let secs = match self.secs.checked_add(other.secs) {
            Some(s) => s,
            None => return Self::max_value(),
        };
        let nanos = self.nanos + other.nanos;
        if nanos >= NANOS_PER_SEC {
            let secs = match secs.checked_add(1) {
                Some(s) => s,
                None => return Self::max_value(),
            };
            Duration { secs, nanos: nanos - NANOS_PER_SEC }
        } else {
            Duration { secs, nanos }
        }
    }
}

/// `a + b`, capped at the longest duration.
pub open spec fn spec_saturating_sum(a: nat, b: nat) -> nat {
    if a + b > max_duration_nanos() {
        max_duration_nanos()
    } else {
        (a + b) as nat
    }
}

/// Declares the platform's monotonic clock reading to the verifier.
#[verifier::external_type_specification]
#[verifier::external_body]
pub struct ExInstant(std::time::Instant);

/// Trusted: `std::time::Instant::now`. Nothing is stated of the reading.
#[verifier::external_body]
fn instant_now() -> (now: std::time::Instant) {
    std::time::Instant::now()
}

/// Trusted: `std::time::Instant::elapsed`, converted to seconds and
/// nanoseconds. Nothing is stated of the length: it depends on the clock.
#[verifier::external_body]
fn elapsed_since(start: &std::time::Instant) -> (span: Duration) {
    let span = start.elapsed();
    Duration { secs: span.as_secs(), nanos: span.subsec_nanos() }
}

/// Stopwatch state.
#[derive(Clone, Copy, Debug)]
enum State {
    Stopped,
    Running { start_time: std::time::Instant, accumulated: Duration },
    Paused { accumulated: Duration },
}

/// What a stopwatch shows, leaving out the clock reading it was last
/// started at.
pub enum StopwatchModel {
    Stopped,
    Running { accumulated: nat },
    Paused { accumulated: nat },
}

/// A pausable stopwatch for measuring elapsed time.
#[derive(Debug)]
pub struct Stopwatch {
    state: State,
}

impl View for Stopwatch {
    type V = StopwatchModel;

    closed spec fn view(&self) -> StopwatchModel {
        match self.state {
            State::Stopped => StopwatchModel::Stopped,
            State::Running { accumulated, .. } => StopwatchModel::Running {
                accumulated: accumulated.spec_as_nanos(),
            },
            State::Paused { accumulated } => StopwatchModel::Paused {
                accumulated: accumulated.spec_as_nanos(),
            },
        }
    }
}

impl Default for Stopwatch {
    /// A stopped stopwatch.
    fn default() -> (watch: Self)
        ensures
            watch@ is Stopped,
    {
        Self::new()
    }
}

/// The time a stopwatch shows, given the time since it was last started.
pub open spec fn spec_elapsed(model: StopwatchModel, since_start: nat) -> nat {
    match model {
        StopwatchModel::Stopped => 0,
        StopwatchModel::Paused { accumulated } => accumulated,
        StopwatchModel::Running { accumulated } => spec_saturating_sum(accumulated, since_start),
    }
}

/// What starting does: a stopped stopwatch runs from zero, a paused one
/// resumes with what it showed, a running one goes on.
pub open spec fn spec_started(model: StopwatchModel) -> StopwatchModel {
    match model {
        StopwatchModel::Stopped => StopwatchModel::Running { accumulated: 0 },
        StopwatchModel::Paused { accumulated } => StopwatchModel::Running { accumulated },
        StopwatchModel::Running { accumulated } => StopwatchModel::Running { accumulated },
    }
}

/// What pausing does, `since_start` after the last start: a running
/// stopwatch keeps the time it showed; any other is left as it is.
pub open spec fn spec_paused(model: StopwatchModel, since_start: nat) -> StopwatchModel {
    match model {
        StopwatchModel::Running { accumulated } => StopwatchModel::Paused {
            accumulated: spec_saturating_sum(accumulated, since_start),
        },
        _ => model,
    }
}

/// Starting twice is starting once, and pausing twice is pausing once.
pub proof fn lemma_start_and_pause_idempotent(model: StopwatchModel, first: nat, second: nat)
    ensures
        spec_started(spec_started(model)) == spec_started(model),
        spec_paused(spec_paused(model, first), second) == spec_paused(model, first),
{
}

/// A paused stopwatch shows the same time however long it stays paused:
/// time spent paused is not counted.
pub proof fn lemma_paused_time_not_counted(accumulated: nat, waited: nat, later: nat)
    ensures
        spec_elapsed(StopwatchModel::Paused { accumulated }, waited) == spec_elapsed(
            StopwatchModel::Paused { accumulated },
            later,
        ),
{
}

/// Pausing a running stopwatch freezes the time it showed at that moment.
pub proof fn lemma_pause_freezes_elapsed(model: StopwatchModel, since_start: nat, later: nat)
    requires
        model is Running,
    ensures
        spec_elapsed(spec_paused(model, since_start), later) == spec_elapsed(model, since_start),
{
}

/// Running spans add up across pauses: started from zero, run for `first`,
/// paused, resumed and run for `second`, a stopwatch shows
/// `first + second` (capped at the longest duration).
pub proof fn lemma_running_spans_add(first: nat, second: nat)
    requires
        first <= max_duration_nanos(),
    ensures
        spec_paused(spec_started(spec_paused(spec_started(StopwatchModel::Stopped), first)), second)
            == (StopwatchModel::Paused { accumulated: spec_saturating_sum(first, second) }),
        first + second <= max_duration_nanos() ==> spec_paused(
            spec_started(spec_paused(spec_started(StopwatchModel::Stopped), first)),
            second,
        ) == (StopwatchModel::Paused { accumulated: (first + second) as nat }),
{
}

/// A reset stopwatch shows zero, whatever it showed before.
pub proof fn lemma_reset_shows_zero(since_start: nat)
    ensures
        spec_elapsed(StopwatchModel::Stopped, since_start) == 0,
{
}

impl Stopwatch {
    /// Creates a stopped stopwatch with zero elapsed time.
    pub fn new() -> (watch: Self)
        ensures
            watch@ is Stopped,
    {
        Stopwatch { state: State::Stopped }
    }

    /// Starts or resumes the stopwatch; a running stopwatch is left as it
    /// is.
    pub fn start(&mut self)
        ensures
            final(self)@ == spec_started(old(self)@),
            old(self)@ is Running ==> *final(self) == *old(self),
    {
        match self.state {
            State::Stopped => {
                self.state = State::Running { start_time: instant_now(), accumulated: Duration::zero() };
            },
            State::Paused { accumulated } => {
                self.state = State::Running { start_time: instant_now(), accumulated };
            },
            State::Running { .. } => {},
        }
    }

    /// Pauses a running stopwatch, adding `since_start`, the time since it
    /// was last started, to the time it shows. A stopped or paused
    /// stopwatch is left as it is.
    pub fn pause_after(&mut self, since_start: Duration)
        ensures
            final(self)@ == spec_paused(old(self)@, since_start.spec_as_nanos()),
            !(old(self)@ is Running) ==> *final(self) == *old(self),
    {
        if let State::Running { accumulated, .. } = self.state {
            self.state = State::Paused { accumulated: accumulated.saturating_add(since_start) };
        }
    }

    /// Pauses the stopwatch; calling this while stopped or already paused
    /// is a no-op. A running stopwatch keeps what it showed and adds the
    /// clock's time since it was last started.
    pub fn pause(&mut self)
        ensures
            exists|since_start: nat| final(self)@ == spec_paused(old(self)@, since_start),
            !(old(self)@ is Running) ==> *final(self) == *old(self),
    {
        if let State::Running { start_time, .. } = self.state {
            let since_start = elapsed_since(&start_time);
            self.pause_after(since_start);
            assert(self@ == spec_paused(old(self)@, since_start.spec_as_nanos()));
        } else {
            assert(self@ == spec_paused(old(self)@, 0));
        }
    }

    /// Stops the stopwatch and clears all accumulated elapsed time.
    pub fn reset(&mut self)
        ensures
            final(self)@ is Stopped,
    {
        self.state = State::Stopped;
    }

    /// The time shown, given `since_start`, the time since the stopwatch
    /// was last started: zero when stopped, the accumulated time when
    /// paused, their sum when running.
    pub fn elapsed_after(&self, since_start: Duration) -> (shown: Duration)
        ensures
            shown.spec_as_nanos() == spec_elapsed(self@, since_start.spec_as_nanos()),
    {
        match self.state {
            State::Stopped => Duration::zero(),
            State::Paused { accumulated } => accumulated,
            State::Running { accumulated, .. } => accumulated.saturating_add(since_start),
        }
    }

    /// Returns elapsed time, excluding time spent paused.
    pub fn elapsed(&self) -> (shown: Duration)
        ensures
            exists|since_start: nat| shown.spec_as_nanos() == spec_elapsed(self@, since_start),
            !(self@ is Running) ==> shown.spec_as_nanos() == spec_elapsed(self@, 0),
    {
        match self.state {
            State::Running { start_time, .. } => {
                let since_start = elapsed_since(&start_time);
                self.elapsed_after(since_start)
            },
            _ => self.elapsed_after(Duration::zero()),
        }
    }
}

} // verus!
