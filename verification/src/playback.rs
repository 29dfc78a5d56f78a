//! Playback: the switch that starts and stops the background task which
//! steps through the words, one word per interval.
//!
//! The task itself runs outside this library. The scheduler decides when one
//! is to be started and which is to be cancelled first, so that no two of
//! them ever run side by side.

use vstd::prelude::*;

verus! {

/// The nanoseconds of a second.
pub const SECOND: u64 = 1_000_000_000;

/// The rate of the reader when none is chosen, in words a second.
pub const STANDARD_RATE: u32 = 6;

/// A rate of playback, in words a second: never zero.
#[derive(Debug)]
pub struct ReadRate {
    per_second: u32,
}

impl View for ReadRate {
    type V = u32;

    closed spec fn view(&self) -> u32 {
        self.per_second
    }
}

/// The time between two words at `rate` words a second, in nanoseconds: a
/// second shared out among the words, the remainder dropped.
pub open spec fn interval_of(rate: u32) -> nat {
    (SECOND as int / rate as int) as nat
}

impl ReadRate {
    #[verifier::type_invariant]
    pub open spec fn inv(&self) -> bool {
        self@ > 0
    }

    /// The rate of so many words a second; none for zero.
    pub fn new(per_second: u32) -> (r: Option<ReadRate>)
        ensures
            match r {
                Some(rate) => per_second > 0 && rate@ == per_second,
                None => per_second == 0,
            },
    {
        if per_second == 0 {
            None
        } else {
            Some(ReadRate { per_second })
        }
    }

    /// Six words a second.
    pub fn standard() -> (rate: ReadRate)
        ensures
            rate@ == STANDARD_RATE,
    {
        ReadRate { per_second: STANDARD_RATE }
    }

    /// The words shown in a second.
    pub fn per_second(&self) -> (r: u32)
        ensures
            r == self@,
            r > 0,
    {
        proof {
            use_type_invariant(self);
        }
        self.per_second
    }

    /// The time between two words, in nanoseconds.
    pub fn interval_nanos(&self) -> (nanos: u64)
        ensures
            nanos == interval_of(self@),
            self@ > 0,
    {
        proof {
            use_type_invariant(self);
        }
        SECOND / (self.per_second as u64)
    }
}

/// The order that a throw of the switch gives to whoever runs the tasks: first
/// cancel the task `cancel` and wait until it is gone, then start the task
/// `spawn`.
#[derive(Clone, Copy, Debug, PartialEq, Eq, Structural)]
pub struct Swap {
    pub cancel: Option<u64>,
    pub spawn: Option<u64>,
}

impl Swap {
    /// The tasks that run after the order is carried out, where `alive` ran
    /// before it.
    pub open spec fn carried_out(self, alive: Set<u64>) -> Set<u64> {
        let rest = match self.cancel {
            Some(task) => alive.remove(task),
            None => alive,
        };
        match self.spawn {
            Some(task) => rest.insert(task),
            None => rest,
        }
    }
}

/// The state of playback.
pub struct PlaybackView {
    /// Whether playback is switched on.
    pub active: bool,
    /// The words shown in a second.
    pub rate: u32,
    /// The task that was started last and not cancelled since.
    pub handle: Option<u64>,
    /// The number that the next task gets.
    pub serial: u64,
}

impl PlaybackView {
    /// Whether every task of `alive` is the one that the state holds: with
    /// that, at most one task runs.
    pub open spec fn owns(self, alive: Set<u64>) -> bool {
        forall|task: u64| alive.contains(task) ==> self.handle == Some(task)
    }

    /// The number after `serial`; after the largest comes zero.
    pub open spec fn next_serial(self) -> u64 {
        if self.serial == u64::MAX {
            0
        } else {
            (self.serial + 1) as u64
        }
    }

    /// The state after a throw of the switch, and the order that goes with
    /// it. From off to on, the task held, if any, is cancelled and a new one
    /// started; from on to off, the task held is cancelled.
    pub open spec fn toggled(self) -> (PlaybackView, Swap) {
        if self.active {
            (
                PlaybackView { active: false, handle: None, ..self },
                Swap { cancel: self.handle, spawn: None },
            )
        } else {
            (
                PlaybackView {
                    active: true,
                    handle: Some(self.serial),
                    serial: self.next_serial(),
                    ..self
                },
                Swap { cancel: self.handle, spawn: Some(self.serial) },
            )
        }
    }

    /// The state after playback is shut down, and the order that goes with it.
    pub open spec fn stopped(self) -> (PlaybackView, Swap) {
        (
            PlaybackView { active: false, handle: None, ..self },
            Swap { cancel: self.handle, spawn: None },
        )
    }

    /// Whether the task `task` is to go on: playback is on and the task is
    /// the one that the state holds.
    pub open spec fn drives(self, task: u64) -> bool {
        self.active && self.handle == Some(task)
    }
}

/// A throw of the switch leaves no task running but the one that the new
/// state holds: at most one task runs, whatever ran before.
pub proof fn lemma_toggle_keeps_one_task(playback: PlaybackView, alive: Set<u64>)
    requires
        playback.owns(alive),
    ensures
        playback.toggled().0.owns(playback.toggled().1.carried_out(alive)),
        playback.toggled().0.active == !playback.active,
{
}

/// Two throws of the switch, one after the other, from a playback that is
/// off: playback is off again, no task is held and none runs; between the two
/// throws the only task that runs is the one started by the first.
pub proof fn lemma_toggle_twice(playback: PlaybackView, alive: Set<u64>)
    requires
        playback.owns(alive),
        !playback.active,
    ensures
        ({
            let (first, start) = playback.toggled();
            let (second, stop) = first.toggled();
            &&& first.active
            &&& start.carried_out(alive) == set![playback.serial]
            &&& !second.active
            &&& second.handle is None
            &&& stop.carried_out(start.carried_out(alive)) == Set::<u64>::empty()
        }),
{
}

/// The playback scheduler.
#[derive(Debug)]
pub struct PlaybackState {
    active: bool,
    rate: ReadRate,
    handle: Option<u64>,
    serial: u64,
}

impl View for PlaybackState {
    type V = PlaybackView;

    closed spec fn view(&self) -> PlaybackView {
        PlaybackView {
            active: self.active,
            rate: self.rate@,
            handle: self.handle,
            serial: self.serial,
        }
    }
}

impl PlaybackState {
    /// Playback at `rate`, switched off, with no task.
    pub fn new(rate: ReadRate) -> (playback: PlaybackState)
        ensures
            playback@ == (PlaybackView { active: false, rate: rate@, handle: None, serial: 0 }),
    {
        PlaybackState { active: false, rate, handle: None, serial: 0 }
    }

    /// Throws the switch and returns the order to carry out.
    pub fn toggle(&mut self) -> (swap: Swap)
        ensures
            (final(self)@, swap) == old(self)@.toggled(),
    {
        let cancel = self.handle;
        if self.active {
            self.active = false;
            self.handle = None;
            Swap { cancel, spawn: None }
        } else {
            let task: u64 = self.serial;
            self.active = true;
            self.handle = Some(task);
            self.serial = if task == u64::MAX {
                0
            } else {
                task + 1
            };
            Swap { cancel, spawn: Some(task) }
        }
    }

    /// Shuts playback down and returns the order to carry out.
    pub fn stop(&mut self) -> (swap: Swap)
        ensures
            (final(self)@, swap) == old(self)@.stopped(),
    {
        let cancel = self.handle;
        self.active = false;
        self.handle = None;
        Swap { cancel, spawn: None }
    }

    /// Whether playback is switched on.
    pub fn is_active(&self) -> (r: bool)
        ensures
            r == self@.active,
    {
        self.active
    }

    /// The task held, if any.
    pub fn handle(&self) -> (r: Option<u64>)
        ensures
            r == self@.handle,
    {
        self.handle
    }

    /// Whether the task `task` is to go on.
    pub fn drives(&self, task: u64) -> (r: bool)
        ensures
            r == self@.drives(task),
    {
        self.active && self.handle == Some(task)
    }

    /// The time between two words, in nanoseconds.
    pub fn interval_nanos(&self) -> (nanos: u64)
        ensures
            nanos == interval_of(self@.rate),
            self@.rate > 0,
    {
        self.rate.interval_nanos()
    }
}

} // verus!
