use vstd::prelude::*;
use crate::events::AudioEvent;
use crate::transitions::spec_welcome_delay_ms;

verus! {

/// Relies on rand::random: draws a value of the standard distribution
/// from the thread-local generator. Nothing is promised of the value.
pub assume_specification<T>[ rand::random::<T> ]() -> (r: T)
    where
        rand::distributions::Standard: rand::distributions::Distribution<T>,
;

/// One timed step of a scheduled sequence, for the runner to perform
/// before stepping again.
#[derive(Clone, Copy, Debug, PartialEq, Eq, Structural)]
pub enum SeqAction {
    /// Sleep this many milliseconds.
    Sleep { ms: u64 },
    /// Emit this audio event.
    Emit { audio: AudioEvent },
    /// Emit this audio event, then sleep this many milliseconds.
    EmitThenSleep { audio: AudioEvent, ms: u64 },
    /// Step again at once.
    Proceed,
    /// The sequence is over.
    Stop,
}

/// Initial wait before the first announcement.
pub const BOARDING_INITIAL_WAIT_MS: u64 = 30_000;

/// Pause between the end of a fade-out and the announcement.
pub const FADE_SETTLE_MS: u64 = 100;

/// Sleep after each fade step.
pub const FADE_STEP_MS: u64 = 40;

/// Volume change per fade step, in whole percent.
pub const FADE_STEP_VOLUME: u8 = 5;

/// Assumed duration of the welcome-aboard announcement.
pub const ANNOUNCE_WAIT_MS: u64 = 5_000;

/// Delay between a detach and the doors announcement.
pub const DOORS_AUTO_DELAY_MS: u64 = 15_000;

/// Where the boarding-music announcement cycle stands. The sequence
/// runs: initial wait, fade out, pause, welcome aboard, announcement
/// wait, fade in; then each cycle waits a random 30 to 120 seconds,
/// consults the shared attachment flag, and either stops or repeats
/// the fade-announce-fade round.
#[derive(Clone, Copy, Debug, PartialEq, Eq, Structural)]
pub enum BoardingPhase {
    InitialDelay,
    FadingOut { volume: u8 },
    PauseBeforeAnnounce,
    Announcing,
    AnnounceWait,
    FadingIn { volume: u8 },
    CycleDelay,
    CycleCheck,
    Finished,
}

/// The announcement cycle scheduled on a jetway attach, driven step by
/// step by a runner that performs each returned action.
#[derive(Clone, Copy, Debug, PartialEq, Eq, Structural)]
pub struct BoardingSequence {
    pub phase: BoardingPhase,
}

/// A fade volume is a whole multiple of the fade step within 0..=100.
pub open spec fn fade_volume_ok(volume: u8) -> bool {
    volume <= 100 && volume % FADE_STEP_VOLUME == 0
}

/// The phase after one step. The random value matters only for the
/// cycle delay and the attachment flag only for the cycle check.
pub open spec fn spec_boarding_next(
    phase: BoardingPhase,
    attached: bool,
    random_value: u64,
) -> BoardingPhase {
    match phase {
        BoardingPhase::InitialDelay => BoardingPhase::FadingOut { volume: 100 },
        BoardingPhase::FadingOut { volume } => if volume == 0 {
            BoardingPhase::PauseBeforeAnnounce
        } else {
            BoardingPhase::FadingOut { volume: (volume - FADE_STEP_VOLUME) as u8 }
        },
        BoardingPhase::PauseBeforeAnnounce => BoardingPhase::Announcing,
        BoardingPhase::Announcing => BoardingPhase::AnnounceWait,
        BoardingPhase::AnnounceWait => BoardingPhase::FadingIn { volume: 0 },
        BoardingPhase::FadingIn { volume } => if volume == 100 {
            BoardingPhase::CycleDelay
        } else {
            BoardingPhase::FadingIn { volume: (volume + FADE_STEP_VOLUME) as u8 }
        },
        BoardingPhase::CycleDelay => BoardingPhase::CycleCheck,
        BoardingPhase::CycleCheck => if attached {
            BoardingPhase::FadingOut { volume: 100 }
        } else {
            BoardingPhase::Finished
        },
        BoardingPhase::Finished => BoardingPhase::Finished,
    }
}

/// The action one step yields.
pub open spec fn spec_boarding_action(
    phase: BoardingPhase,
    attached: bool,
    random_value: u64,
) -> SeqAction {
    match phase {
        BoardingPhase::InitialDelay => SeqAction::Sleep { ms: BOARDING_INITIAL_WAIT_MS },
        BoardingPhase::FadingOut { volume } => SeqAction::EmitThenSleep {
            audio: AudioEvent::BoardingMusic { volume },
            ms: FADE_STEP_MS,
        },
        BoardingPhase::PauseBeforeAnnounce => SeqAction::Sleep { ms: FADE_SETTLE_MS },
        BoardingPhase::Announcing => SeqAction::Emit { audio: AudioEvent::WelcomeAboard },
        BoardingPhase::AnnounceWait => SeqAction::Sleep { ms: ANNOUNCE_WAIT_MS },
        BoardingPhase::FadingIn { volume } => SeqAction::EmitThenSleep {
            audio: AudioEvent::BoardingMusic { volume },
            ms: FADE_STEP_MS,
        },
        BoardingPhase::CycleDelay => SeqAction::Sleep { ms: spec_welcome_delay_ms(random_value) },
        BoardingPhase::CycleCheck => if attached {
            SeqAction::Proceed
        } else {
            SeqAction::Stop
        },
        BoardingPhase::Finished => SeqAction::Stop,
    }
}

impl BoardingSequence {
    /// The fade volume, where there is one, stays a whole step.
    pub open spec fn wf(self) -> bool {
        match self.phase {
            BoardingPhase::FadingOut { volume } => fade_volume_ok(volume),
            BoardingPhase::FadingIn { volume } => fade_volume_ok(volume),
            _ => true,
        }
    }

    /// A sequence at its start: the initial wait is still owed.
    pub fn new() -> (s: Self)
        ensures
            s.phase == BoardingPhase::InitialDelay,
            s.wf(),
    {
        BoardingSequence { phase: BoardingPhase::InitialDelay }
    }

    /// Advances one step. `attached` is the shared attachment flag as
    /// read at this checkpoint; `random_value` feeds the cycle delay.
    pub fn step(&mut self, attached: bool, random_value: u64) -> (a: SeqAction)
        requires
            old(self).wf(),
        ensures
            final(self).wf(),
            final(self).phase == spec_boarding_next(old(self).phase, attached, random_value),
            a == spec_boarding_action(old(self).phase, attached, random_value),
    {
        match self.phase {
            BoardingPhase::InitialDelay => {
                self.phase = BoardingPhase::FadingOut { volume: 100 };
                SeqAction::Sleep { ms: BOARDING_INITIAL_WAIT_MS }
            },
            BoardingPhase::FadingOut { volume } => {
                if volume == 0 {
                    self.phase = BoardingPhase::PauseBeforeAnnounce;
                } else {
                    self.phase = BoardingPhase::FadingOut { volume: volume - FADE_STEP_VOLUME };
                }
                SeqAction::EmitThenSleep {
                    audio: AudioEvent::BoardingMusic { volume },
                    ms: FADE_STEP_MS,
                }
            },
            BoardingPhase::PauseBeforeAnnounce => {
                self.phase = BoardingPhase::Announcing;
                SeqAction::Sleep { ms: FADE_SETTLE_MS }
            },
            BoardingPhase::Announcing => {
                self.phase = BoardingPhase::AnnounceWait;
                SeqAction::Emit { audio: AudioEvent::WelcomeAboard }
            },
            BoardingPhase::AnnounceWait => {
                self.phase = BoardingPhase::FadingIn { volume: 0 };
                SeqAction::Sleep { ms: ANNOUNCE_WAIT_MS }
            },
            BoardingPhase::FadingIn { volume } => {
                if volume == 100 {
                    self.phase = BoardingPhase::CycleDelay;
                } else {
                    self.phase = BoardingPhase::FadingIn { volume: volume + FADE_STEP_VOLUME };
                }
                SeqAction::EmitThenSleep {
                    audio: AudioEvent::BoardingMusic { volume },
                    ms: FADE_STEP_MS,
                }
            },
            BoardingPhase::CycleDelay => {
                self.phase = BoardingPhase::CycleCheck;
                let seconds: u64 = random_value % 91 + 30;
                SeqAction::Sleep { ms: seconds * 1000 }
            },
            BoardingPhase::CycleCheck => {
                if attached {
                    self.phase = BoardingPhase::FadingOut { volume: 100 };
                    SeqAction::Proceed
                } else {
                    self.phase = BoardingPhase::Finished;
                    SeqAction::Stop
                }
            },
            BoardingPhase::Finished => SeqAction::Stop,
        }
    }

    /// Advances one step, drawing the cycle delay from the thread-local
    /// generator. Whatever was drawn, a cycle delay sleeps between 30
    /// and 120 seconds; every other phase steps as `step` with any
    /// value.
    pub fn step_with_random(&mut self, attached: bool) -> (a: SeqAction)
        requires
            old(self).wf(),
        ensures
            final(self).wf(),
            old(self).phase matches BoardingPhase::CycleDelay ==> {
                &&& final(self).phase == BoardingPhase::CycleCheck
                &&& a matches SeqAction::Sleep { ms } && 30_000 <= ms <= 120_000
            },
            !(old(self).phase matches BoardingPhase::CycleDelay) ==> {
                &&& final(self).phase == spec_boarding_next(old(self).phase, attached, 0)
                &&& a == spec_boarding_action(old(self).phase, attached, 0)
            },
    {
        let random_value: u64 = rand::random();
        self.step(attached, random_value)
    }
}

/// Where the detach sequence stands: one delayed doors announcement.
#[derive(Clone, Copy, Debug, PartialEq, Eq, Structural)]
pub enum DetachPhase {
    Waiting,
    Announcing,
    Finished,
}

/// The one-shot sequence scheduled on a jetway detach: wait, announce
/// doors to auto, stop.
#[derive(Clone, Copy, Debug, PartialEq, Eq, Structural)]
pub struct DetachSequence {
    pub phase: DetachPhase,
}

/// The phase after one detach-sequence step.
pub open spec fn spec_detach_next(phase: DetachPhase) -> DetachPhase {
    match phase {
        DetachPhase::Waiting => DetachPhase::Announcing,
        DetachPhase::Announcing => DetachPhase::Finished,
        DetachPhase::Finished => DetachPhase::Finished,
    }
}

/// The action one detach-sequence step yields.
pub open spec fn spec_detach_action(phase: DetachPhase) -> SeqAction {
    match phase {
        DetachPhase::Waiting => SeqAction::Sleep { ms: DOORS_AUTO_DELAY_MS },
        DetachPhase::Announcing => SeqAction::Emit { audio: AudioEvent::DoorsAuto },
        DetachPhase::Finished => SeqAction::Stop,
    }
}

impl DetachSequence {
    /// A sequence at its start: the delay is still owed.
    pub fn new() -> (s: Self)
        ensures
            s.phase == DetachPhase::Waiting,
    {
        DetachSequence { phase: DetachPhase::Waiting }
    }

    /// Advances one step.
    pub fn step(&mut self) -> (a: SeqAction)
        ensures
            final(self).phase == spec_detach_next(old(self).phase),
            a == spec_detach_action(old(self).phase),
    {
        match self.phase {
            DetachPhase::Waiting => {
                self.phase = DetachPhase::Announcing;
                SeqAction::Sleep { ms: DOORS_AUTO_DELAY_MS }
            },
            DetachPhase::Announcing => {
                self.phase = DetachPhase::Finished;
                SeqAction::Emit { audio: AudioEvent::DoorsAuto }
            },
            DetachPhase::Finished => SeqAction::Stop,
        }
    }
}

} // verus!
