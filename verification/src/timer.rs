//! When the two timers decay. They should do so sixty times a second; a
//! policy decides, each time the machine asks, whether a tick is due.

use std::time::{Duration, Instant};
use vstd::prelude::*;

verus! {

/// A policy for the decay tick. The machine asks once per step.
pub trait Timer {
    /// Whether the timers are to decay now.
    fn should_tick(&mut self) -> bool;
}

/// How many queries make one tick of the instruction-counting policy: the
/// machine is meant to run about 500 instructions a second, and 500 / 60 is
/// about 8.
pub const INSTRUCTIONS_PER_TICK: u8 = 8;

/// The counter of the instruction-counting policy after one more query.
pub open spec fn counted_down(counter: u8) -> u8 {
    if counter == 1 {
        INSTRUCTIONS_PER_TICK
    } else {
        (counter - 1) as u8
    }
}

/// The counter of a new instruction-counting policy after `queries` queries.
pub open spec fn counter_after(queries: nat) -> u8
    decreases queries,
{
    if queries == 0 {
        INSTRUCTIONS_PER_TICK
    } else {
        counted_down(counter_after((queries - 1) as nat))
    }
}

/// A policy that ticks on every eighth query. It needs no clock, which makes
/// a run repeatable.
pub struct InstructionTimer {
    counter: u8,
}

impl View for InstructionTimer {
    type V = u8;

    /// The number of queries up to and including the next tick.
    closed spec fn view(&self) -> u8 {
        self.counter
    }
}

impl InstructionTimer {
    #[verifier::type_invariant]
    spec fn well_formed(self) -> bool {
        1 <= self.counter <= INSTRUCTIONS_PER_TICK
    }

    pub fn new() -> (timer: InstructionTimer)
        ensures
            timer@ == counter_after(0),
    {
        InstructionTimer { counter: INSTRUCTIONS_PER_TICK }
    }
}

impl Timer for InstructionTimer {
    /// Ticks when the counter has come down to one, and then starts over.
    fn should_tick(&mut self) -> (should_tick: bool)
        ensures
            should_tick == (old(self)@ == 1),
            final(self)@ == counted_down(old(self)@),
    {
        proof {
            use_type_invariant(&*self);
        }
        let should_tick = self.counter == 1;
        self.counter = if should_tick {
            INSTRUCTIONS_PER_TICK
        } else {
            self.counter - 1
        };
        should_tick
    }
}

/// The instruction-counting policy ticks on every eighth query and on no
/// other: after `queries` queries the counter stands at `8 - queries % 8`, so
/// the next query ticks exactly when `queries + 1` is a multiple of 8.
pub proof fn lemma_instruction_timer_cadence(queries: nat)
    ensures
        counter_after(queries) == INSTRUCTIONS_PER_TICK - queries % 8,
        (counter_after(queries) == 1) == ((queries + 1) % 8 == 0),
    decreases queries,
{
    if queries > 0 {
        lemma_instruction_timer_cadence((queries - 1) as nat);
    }
}

/// The length of one tick of the wall-clock policy in microseconds: the
/// nearest whole number to a sixtieth of a second.
pub const TICK_MICROS: u128 = 16667;

/// The time between two readings of a clock, if the clock did not run
/// backwards between them.
pub open spec fn elapsed_between(last_check: u128, now: u128) -> Option<int> {
    if now >= last_check {
        Some(now - last_check)
    } else {
        None
    }
}

/// Whether the wall-clock policy ticks when `elapsed` microseconds come on
/// top of the `ticked` that it has gathered: it does when together they
/// reach the length of a tick. Time that cannot be told is no time.
pub open spec fn tick_is_due(ticked: u128, elapsed: Option<int>) -> bool {
    match elapsed {
        Some(elapsed) => ticked + elapsed >= TICK_MICROS,
        None => false,
    }
}

/// What the wall-clock policy has gathered after such a query. A tick takes
/// away every whole tick's worth and keeps the rest.
pub open spec fn ticked_after(ticked: u128, elapsed: Option<int>) -> int {
    match elapsed {
        Some(elapsed) => if ticked + elapsed >= TICK_MICROS {
            (ticked + elapsed) % (TICK_MICROS as int)
        } else {
            ticked + elapsed
        },
        None => ticked as int,
    }
}

/// A policy that ticks by the clock. Times are microseconds since the timer
/// was made.
pub struct WallTimer {
    /// The clock's reading when the timer was made.
    pub origin: Instant,
    /// When the policy was last asked.
    pub last_check: u128,
    /// The time gathered towards the next tick.
    pub ticked: u128,
}

impl WallTimer {
    pub fn new() -> (timer: WallTimer)
        ensures
            timer.last_check == 0,
            timer.ticked == 0,
    {
        WallTimer { origin: clock_now(), last_check: 0, ticked: 0 }
    }

    /// Asks the policy at the time `now`. The time since the last query is
    /// added to what was gathered; where that reaches a tick's length the
    /// policy ticks once and keeps the remainder. If `now` lies before the
    /// last query the clock cannot be trusted: nothing is added and nothing
    /// ticks. Either way the next query is measured from `now`.
    pub fn should_tick_internal(&mut self, now: u128) -> (should_tick: bool)
        ensures
            should_tick == tick_is_due(
                old(self).ticked,
                elapsed_between(old(self).last_check, now),
            ),
            final(self).ticked == ticked_after(
                old(self).ticked,
                elapsed_between(old(self).last_check, now),
            ),
            final(self).last_check == now,
    {
        let mut should_tick = false;
        if now >= self.last_check {
            let elapsed = now - self.last_check;
            match self.ticked.checked_add(elapsed) {
                Some(ticked) => {
                    if ticked >= TICK_MICROS {
                        should_tick = true;
                        self.ticked = ticked % TICK_MICROS;
                    } else {
                        self.ticked = ticked;
                    }
                },
                None => {
                    should_tick = true;
                    assert((self.ticked + elapsed) % (TICK_MICROS as int) == (self.ticked
                        % TICK_MICROS + elapsed % TICK_MICROS) % (TICK_MICROS as int)) by {
                        vstd::arithmetic::div_mod::lemma_add_mod_noop(
                            self.ticked as int,
                            elapsed as int,
                            TICK_MICROS as int,
                        );
                    }
                    self.ticked = (self.ticked % TICK_MICROS + elapsed % TICK_MICROS)
                        % TICK_MICROS;
                },
            }
        }
        self.last_check = now;
        should_tick
    }

    /// The microseconds that the clock has counted since the timer was made.
    fn read_clock(&self) -> u128 {
        let since_origin = clock_elapsed(&self.origin);
        duration_micros(&since_origin)
    }
}

impl Timer for WallTimer {
    /// Reads the clock and asks the policy at that time. Nothing is known of
    /// the reading, so all that can be said is that the policy was asked at
    /// some time.
    fn should_tick(&mut self) -> (should_tick: bool)
        ensures
            exists|now: u128|
                {
                    &&& should_tick == tick_is_due(
                        old(self).ticked,
                        #[trigger] elapsed_between(old(self).last_check, now),
                    )
                    &&& final(self).ticked == ticked_after(
                        old(self).ticked,
                        elapsed_between(old(self).last_check, now),
                    )
                    &&& final(self).last_check == now
                },
    {
        let now = self.read_clock();
        self.should_tick_internal(now)
    }
}

/// The wall-clock policy never keeps a whole tick: whatever it had gathered,
/// after a query that ticked what is left is less than a tick, and it is
/// what the sum leaves over, not zero.
pub proof fn lemma_wall_timer_keeps_residual(ticked: u128, last_check: u128, now: u128)
    requires
        tick_is_due(ticked, elapsed_between(last_check, now)),
    ensures
        now >= last_check,
        ticked_after(ticked, elapsed_between(last_check, now)) == (ticked + (now - last_check))
            % (TICK_MICROS as int),
        0 <= ticked_after(ticked, elapsed_between(last_check, now)) < TICK_MICROS,
{
}

/// A clock that ran backwards makes the wall-clock policy neither tick nor
/// gather anything.
pub proof fn lemma_wall_timer_ignores_backward_clock(ticked: u128, last_check: u128, now: u128)
    requires
        now < last_check,
    ensures
        !tick_is_due(ticked, elapsed_between(last_check, now)),
        ticked_after(ticked, elapsed_between(last_check, now)) == ticked,
{
}

/// `std::time::Instant`, which this crate only carries around: nothing is
/// known of what one holds.
#[verifier::external_type_specification]
#[verifier::external_body]
pub struct ExInstant(std::time::Instant);

/// Calls `Instant::now`. The reading depends on when the call is made, so
/// the contract says nothing of it.
#[verifier::external_body]
fn clock_now() -> Instant {
    Instant::now()
}

/// Calls `Instant::elapsed`: the time since `origin` was read, which depends
/// on when the call is made. The contract says nothing of it.
#[verifier::external_body]
fn clock_elapsed(origin: &Instant) -> Duration {
    origin.elapsed()
}

/// Calls `Duration::as_micros`: the whole microseconds in `duration`. What
/// a `Duration` holds is not visible here, so the contract says nothing of
/// the number.
#[verifier::external_body]
fn duration_micros(duration: &Duration) -> u128 {
    duration.as_micros()
}

} // verus!
