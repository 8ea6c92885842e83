//! The generator: a start time, a machine id, and the counter that makes each
//! identifier of one tick distinct.

use crate::builder::default_start_time;
use crate::builder::Builder;
use crate::builder::DEFAULT_MACHINE_ID;
use crate::clock::utc_now;
use crate::error::Error;
use crate::error::NoCause;
use crate::id::encode;
use crate::id::lemma_decode_encode;
use crate::id::pack;
use crate::id::unpack;
use crate::id::well_formed;
use crate::id::TIME_LIMIT;
use crate::time::elapsed_since;
use crate::time::elapsed_time;
use crate::time::nanos_until;
use crate::time::sonyflake_time;
use crate::time::time_until;
use crate::time::to_sonyflake_time;
use crate::time::Timestamp;
use vstd::prelude::*;

verus! {

/// The sequence number a generator is made with, for tick 0: the middle of
/// the range, `1 << (BIT_LEN_SEQUENCE - 1)`. Identifiers of tick 0 therefore
/// start at 129.
pub const INITIAL_SEQUENCE: u8 = 128;

/// The sequence number of the first identifier of every later tick.
pub const FIRST_SEQUENCE: u8 = 0;

/// The counter: the tick of the identifier issued last, and its sequence
/// number. Before the first identifier it stands at tick 0 and
/// `INITIAL_SEQUENCE`.
#[derive(Clone, Copy, Debug, PartialEq, Eq)]
pub struct Internals {
    pub elapsed_time: u64,
    pub sequence: u8,
}

/// What one attempt to make an identifier comes to.
#[derive(Clone, Copy, Debug, PartialEq, Eq)]
pub enum Attempt {
    /// The next identifier.
    Id(u64),
    /// The tick has no sequence number left. The counter is unchanged; the
    /// next tick begins in this many nanoseconds, and an attempt made then
    /// does not wait again.
    Wait(u64),
    /// The elapsed time no longer fits its 39 bits. Every later attempt ends
    /// the same way.
    OverTimeLimit,
}

/// The counter after one attempt made when the clock reads `current`.
///
/// A clock that has moved on starts a new tick. A clock that stands still, or
/// has gone back, leaves the tick as it is and takes its next sequence number.
/// Where the tick has none left, or lies past the time limit, the counter
/// stays as it is.
pub open spec fn next_state(state: Internals, current: u64) -> Internals {
    if state.elapsed_time < current {
        Internals { elapsed_time: current, sequence: FIRST_SEQUENCE }
    } else if state.elapsed_time < TIME_LIMIT && state.sequence < u8::MAX {
        Internals { elapsed_time: state.elapsed_time, sequence: (state.sequence + 1) as u8 }
    } else {
        state
    }
}

/// Whether an attempt made when the clock reads `current` has to wait for the
/// next tick: the clock has not moved on and the tick is used up.
pub open spec fn must_wait(state: Internals, current: u64) -> bool {
    current <= state.elapsed_time < TIME_LIMIT && state.sequence == u8::MAX
}

/// A generator, to the contracts.
pub struct SonyflakeView {
    /// The tick of the start time, counted from the Unix epoch.
    pub start_time: int,
    pub machine_id: u16,
    pub internals: Internals,
}

impl SonyflakeView {
    /// What the clock of this generator reads at the instant `now`.
    pub open spec fn current(self, now: int) -> u64 {
        elapsed_since(self.start_time, now) as u64
    }

    /// The generator after one attempt made at the instant `now`.
    pub open spec fn after(self, now: int) -> SonyflakeView {
        SonyflakeView {
            start_time: self.start_time,
            machine_id: self.machine_id,
            internals: next_state(self.internals, self.current(now)),
        }
    }

    /// What one attempt made at the instant `now` comes to.
    pub open spec fn attempt(self, now: int) -> Attempt {
        let next = next_state(self.internals, self.current(now));
        if must_wait(self.internals, self.current(now)) {
            Attempt::Wait(
                nanos_until(self.start_time, self.internals.elapsed_time + 1, now) as u64,
            )
        } else if next.elapsed_time >= TIME_LIMIT {
            Attempt::OverTimeLimit
        } else {
            Attempt::Id(
                pack(next.elapsed_time as int, next.sequence as int, self.machine_id as int) as u64,
            )
        }
    }
}

/// A generator of identifiers.
///
/// Every method that makes an identifier takes `&mut self`: one attempt runs
/// from its clock reading to its result with no other attempt in between.
#[derive(Debug)]
pub struct Sonyflake {
    start_time: Timestamp,
    machine_id: u16,
    internals: Internals,
}

impl View for Sonyflake {
    type V = SonyflakeView;

    closed spec fn view(&self) -> SonyflakeView {
        SonyflakeView {
            start_time: sonyflake_time(self.start_time@),
            machine_id: self.machine_id,
            internals: self.internals,
        }
    }
}

impl Sonyflake {
    /// A generator with the default start time and the default machine id.
    pub fn new() -> (made: Result<Sonyflake, Error<NoCause>>)
        ensures
            made matches Ok(sf) && sf@ == (SonyflakeView {
                start_time: sonyflake_time(default_start_time()),
                machine_id: DEFAULT_MACHINE_ID,
                internals: Internals { elapsed_time: 0, sequence: INITIAL_SEQUENCE },
            }),
    {
        Builder::new().finalize()
    }

    /// A generator that starts at `start_time`, with the counter as given.
    pub(crate) fn new_inner(start_time: Timestamp, machine_id: u16, internals: Internals) -> (sf:
        Sonyflake)
        ensures
            sf@ == (SonyflakeView {
                start_time: sonyflake_time(start_time@),
                machine_id,
                internals,
            }),
    {
        Sonyflake { start_time, machine_id, internals }
    }

    /// The tick of the start time, counted from the Unix epoch.
    pub fn start_time(&self) -> (units: i128)
        ensures
            units == self@.start_time,
    {
        to_sonyflake_time(self.start_time)
    }

    /// The machine id that every identifier of this generator holds.
    pub fn machine_id(&self) -> (id: u16)
        ensures
            id == self@.machine_id,
    {
        self.machine_id
    }

    /// The counter as it stands.
    pub fn internals(&self) -> (state: Internals)
        ensures
            state == self@.internals,
    {
        self.internals
    }

    /// One attempt to make the next identifier, with the clock read as `now`.
    pub fn next_id_at(&mut self, now: Timestamp) -> (attempt: Attempt)
        ensures
            final(self)@ == old(self)@.after(now@),
            attempt == old(self)@.attempt(now@),
            attempt matches Attempt::Id(id) ==> well_formed(id as int) && unpack(
                id as int,
            ).machine_id == old(self)@.machine_id,
    {
        let current: u64 = elapsed_time(self.start_time, now);
        if self.internals.elapsed_time < current {
            self.internals.elapsed_time = current;
            self.internals.sequence = FIRST_SEQUENCE;
        } else if self.internals.elapsed_time >= TIME_LIMIT {
            return Attempt::OverTimeLimit;
        } else if self.internals.sequence == u8::MAX {
            return Attempt::Wait(time_until(self.start_time, self.internals.elapsed_time + 1, now));
        } else {
            self.internals.sequence = self.internals.sequence + 1;
        }
        if self.internals.elapsed_time >= TIME_LIMIT {
            return Attempt::OverTimeLimit;
        }
        proof {
            lemma_decode_encode(
                self.internals.elapsed_time,
                self.internals.sequence,
                self.machine_id,
            );
        }
        Attempt::Id(encode(self.internals.elapsed_time, self.internals.sequence, self.machine_id))
    }

    /// What the clock of this generator reads now.
    pub fn now_units(&self) -> (units: u64)
        ensures
            exists|now: int| units == #[trigger] self@.current(now),
    {
        let now: Timestamp = utc_now();
        let units: u64 = elapsed_time(self.start_time, now);
        assert(units == self@.current(now@));
        units
    }

    /// One attempt to make the next identifier, with the clock read once.
    pub fn next_id(&mut self) -> (attempt: Attempt)
        ensures
            exists|now: int|
                final(self)@ == #[trigger] old(self)@.after(now) && attempt == old(self)@.attempt(
                    now,
                ),
    {
        let now: Timestamp = utc_now();
        self.next_id_at(now)
    }
}

} // verus!
