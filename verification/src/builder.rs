//! Making a generator: a start time, a function that gives the machine id,
//! and a function that checks it.

use crate::clock::plain_calendar_time;
use crate::clock::utc_calendar_nanos;
use crate::clock::utc_from_ymd_hms;
use crate::clock::utc_now;
use crate::error::Error;
use crate::error::NoCause;
use crate::sonyflake::Internals;
use crate::sonyflake::Sonyflake;
use crate::sonyflake::SonyflakeView;
use crate::sonyflake::INITIAL_SEQUENCE;
use crate::time::sonyflake_time;
use crate::time::Timestamp;
use vstd::prelude::*;

verus! {

/// The machine id of a generator that was given no function for it.
pub const DEFAULT_MACHINE_ID: u16 = 65535;

/// The start time of a generator that was given none: the instant that
/// 2014-09-01 00:00:00 UTC is, in nanoseconds since the Unix epoch.
pub open spec fn default_start_time() -> int {
    utc_calendar_nanos(2014, 9, 1, 0, 0, 0)->0
}

/// The machine-id function of a builder that was given none.
pub fn fake_machine_id() -> (id: Result<u16, NoCause>)
    ensures
        id == Ok::<u16, NoCause>(DEFAULT_MACHINE_ID),
{
    Ok(DEFAULT_MACHINE_ID)
}

/// The check of a builder that was given none: every machine id passes.
pub fn any_machine_id(machine_id: u16) -> (accepted: bool)
    ensures
        accepted,
{
    true
}

/// The instant of 2014-09-01 00:00:00 UTC.
pub fn default_start() -> (start: Timestamp)
    ensures
        start@ == default_start_time(),
{
    assert(plain_calendar_time(2014, 9, 1, 0, 0, 0));
    utc_from_ymd_hms(2014, 9, 1, 0, 0, 0).unwrap()
}

/// A builder of a [`Sonyflake`]: `M` is the function that gives the machine
/// id, `C` the function that checks it.
pub struct Builder<M, C> {
    start_time: Option<Timestamp>,
    machine_id: M,
    check_machine_id: C,
}

impl<M, C> Builder<M, C> {
    /// The start time that was set, if any.
    pub closed spec fn start(self) -> Option<Timestamp> {
        self.start_time
    }

    /// The function that gives the machine id.
    pub closed spec fn source(self) -> M {
        self.machine_id
    }

    /// The function that checks the machine id.
    pub closed spec fn check(self) -> C {
        self.check_machine_id
    }
}

// `new` stands in the impl of one type only, so that `Builder::new()` needs no
// type arguments; the builder it returns has the types of the two default
// functions.
impl Builder<(), ()> {
    /// A builder with no start time set, whose machine id is
    /// `DEFAULT_MACHINE_ID` and whose check lets every machine id pass.
    pub fn new() -> (builder: Builder<impl Fn() -> Result<u16, NoCause>, impl Fn(u16) -> bool>)
        ensures
            builder.start() is None,
            builder.source().requires(()),
            forall|id: Result<u16, NoCause>| #[trigger]
                builder.source().ensures((), id) ==> id == Ok::<u16, NoCause>(DEFAULT_MACHINE_ID),
            forall|id: u16| #[trigger] builder.check().requires((id,)),
            forall|id: u16, accepted: bool| #[trigger]
                builder.check().ensures((id,), accepted) ==> accepted,
    {
        Builder {
            start_time: None,
            machine_id: fake_machine_id,
            check_machine_id: any_machine_id,
        }
    }
}

impl<M, C> Builder<M, C> {
    /// Sets the start time. A start time that lies after the clock reading
    /// makes `finalize` fail.
    pub fn start_time(self, start_time: Timestamp) -> (builder: Builder<M, C>)
        ensures
            builder.start() == Some(start_time),
            builder.source() == self.source(),
            builder.check() == self.check(),
    {
        Builder {
            start_time: Some(start_time),
            machine_id: self.machine_id,
            check_machine_id: self.check_machine_id,
        }
    }

    /// Sets the function that gives the machine id. `finalize` calls it once,
    /// and fails where it fails.
    pub fn machine_id<F, E>(self, machine_id: F) -> (builder: Builder<F, C>) where
        F: Fn() -> Result<u16, E>,

        ensures
            builder.start() == self.start(),
            builder.source() == machine_id,
            builder.check() == self.check(),
    {
        Builder {
            start_time: self.start_time,
            machine_id,
            check_machine_id: self.check_machine_id,
        }
    }

    /// Sets the function that checks the machine id. `finalize` calls it once
    /// on the machine id, and fails where it returns `false`.
    pub fn check_machine_id<G>(self, check_machine_id: G) -> (builder: Builder<M, G>) where
        G: Fn(u16) -> bool,

        ensures
            builder.start() == self.start(),
            builder.source() == self.source(),
            builder.check() == check_machine_id,
    {
        Builder { start_time: self.start_time, machine_id: self.machine_id, check_machine_id }
    }

    /// The start tick of the generator that this builder makes.
    pub open spec fn start_tick(self) -> int {
        match self.start() {
            Some(start_time) => sonyflake_time(start_time@),
            None => sonyflake_time(default_start_time()),
        }
    }

    /// Whether the start time that was set lies after the instant `now`.
    pub open spec fn starts_after(self, now: int) -> bool {
        self.start() matches Some(start_time) && start_time@ > now
    }

    /// Whether the two functions, called as `finalize` calls them at the
    /// instant `now`, can have returned `resolved` and `accepted`: the
    /// machine-id function is called unless the start time lies after `now`,
    /// and the check is called on the machine id that it gave.
    pub open spec fn answers<E>(self, now: int, resolved: Result<u16, E>, accepted: bool) -> bool
        where M: Fn() -> Result<u16, E>, C: Fn(u16) -> bool {
        !self.starts_after(now) ==> {
            &&& self.source().ensures((), resolved)
            &&& resolved matches Ok(machine_id) ==> self.check().ensures((machine_id,), accepted)
        }
    }

    /// Whether `made` is what `finalize` comes to when the clock reads `now`,
    /// the machine-id function returns `resolved`, and the check, where it is
    /// asked, returns `accepted`.
    ///
    /// The three tests are made in this order, and the first that fails
    /// decides: the start time, the machine-id function, the check.
    pub open spec fn outcome<E>(
        self,
        now: int,
        resolved: Result<u16, E>,
        accepted: bool,
        made: Result<Sonyflake, Error<E>>,
    ) -> bool {
        if self.starts_after(now) {
            made == Err::<Sonyflake, Error<E>>(
                Error::StartTimeAheadOfCurrentTime(self.start()->0),
            )
        } else {
            match resolved {
                Err(cause) => made == Err::<Sonyflake, Error<E>>(Error::MachineIdFailed(cause)),
                Ok(machine_id) => if !accepted {
                    made == Err::<Sonyflake, Error<E>>(Error::CheckMachineIdFailed)
                } else {
                    made matches Ok(sf) && sf@ == (SonyflakeView {
                        start_time: self.start_tick(),
                        machine_id,
                        internals: Internals { elapsed_time: 0, sequence: INITIAL_SEQUENCE },
                    })
                },
            }
        }
    }

    /// Makes the generator, with the clock read as `now`.
    ///
    /// Fails where the start time that was set lies after `now`, where the
    /// machine-id function fails, and where the check refuses the machine id.
    /// The machine-id function is called only if the start time passes, the
    /// check only if the machine-id function succeeds.
    pub fn finalize_at<E>(self, now: Timestamp) -> (made: Result<Sonyflake, Error<E>>) where
        M: Fn() -> Result<u16, E>,
        C: Fn(u16) -> bool,

        requires
            self.source().requires(()),
            forall|id: u16| #[trigger] self.check().requires((id,)),
        ensures
            exists|resolved: Result<u16, E>, accepted: bool|
                self.answers(now@, resolved, accepted) && #[trigger] self.outcome(
                    now@,
                    resolved,
                    accepted,
                    made,
                ),
    {
        let start_time: Timestamp = match self.start_time {
            Some(start_time) => {
                if start_time.is_after(&now) {
                    let made: Result<Sonyflake, Error<E>> = Err(
                        Error::StartTimeAheadOfCurrentTime(start_time),
                    );
                    assert(self.outcome(now@, Ok::<u16, E>(0u16), true, made));
                    return made;
                }
                start_time
            },
            None => default_start(),
        };
        let resolved: Result<u16, E> = (self.machine_id)();
        let machine_id: u16 = match resolved {
            Ok(machine_id) => machine_id,
            Err(cause) => {
                let made: Result<Sonyflake, Error<E>> = Err(Error::MachineIdFailed(cause));
                assert(self.outcome(now@, resolved, false, made));
                return made;
            },
        };
        assert(self.check().requires((machine_id,)));
        let accepted: bool = (self.check_machine_id)(machine_id);
        if !accepted {
            let made: Result<Sonyflake, Error<E>> = Err(Error::CheckMachineIdFailed);
            assert(self.outcome(now@, resolved, accepted, made));
            return made;
        }
        let made: Result<Sonyflake, Error<E>> = Ok(
            Sonyflake::new_inner(
                start_time,
                machine_id,
                Internals { elapsed_time: 0, sequence: INITIAL_SEQUENCE },
            ),
        );
        assert(self.outcome(now@, resolved, accepted, made));
        made
    }

    /// Makes the generator, with the clock read once.
    pub fn finalize<E>(self) -> (made: Result<Sonyflake, Error<E>>) where
        M: Fn() -> Result<u16, E>,
        C: Fn(u16) -> bool,

        requires
            self.source().requires(()),
            forall|id: u16| #[trigger] self.check().requires((id,)),
        ensures
            exists|now: int, resolved: Result<u16, E>, accepted: bool|
                self.answers(now, resolved, accepted) && #[trigger] self.outcome(
                    now,
                    resolved,
                    accepted,
                    made,
                ),
    {
        let now: Timestamp = utc_now();
        let made: Result<Sonyflake, Error<E>> = self.finalize_at(now);
        assert(exists|resolved: Result<u16, E>, accepted: bool|
            self.answers(now@, resolved, accepted) && #[trigger] self.outcome(
                now@,
                resolved,
                accepted,
                made,
            ));
        made
    }
}

} // verus!
