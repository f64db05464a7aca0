//! The decisions of the pipeline watcher. The watcher samples the pipeline's
//! position every tick and reads its bus; a position that stays at the same
//! nonzero value for too many samples means the source stalled, and the
//! pipeline is restarted. Some cameras repeat a timestamp when starting, so a
//! few repeats are tolerated first.

use vstd::prelude::*;

verus! {

/// How many repeated positions in a row are tolerated; one more restarts the
/// pipeline.
pub const MAX_LOST_TIMESTAMPS: usize = 15;

/// What the watcher does after a position sample.
#[derive(Debug, PartialEq, Eq, Clone, Copy)]
pub enum WatchAction {
    /// Go on watching.
    Keep,
    /// Set the pipeline to `Null`, wait for it, then set it to `Playing`.
    Restart,
}

/// One step of the watch: the previous position, the count of repeats and a
/// sample (`None` where the position could not be queried) give the new
/// previous position, the new count, and whether to restart.
pub open spec fn watch_step(previous: Option<u64>, lost: nat, sample: Option<u64>) -> (Option<u64>, nat, bool) {
    match sample {
        None => (previous, lost, false),
        Some(position) => match previous {
            None => (Some(position), lost, false),
            Some(last) => {
                let counted: nat = if last != 0 && last == position {
                    lost + 1
                } else {
                    0
                };
                if counted > MAX_LOST_TIMESTAMPS {
                    (Some(position), 0, true)
                } else {
                    (Some(position), counted, false)
                }
            },
        },
    }
}

/// The position watch of a running pipeline.
#[derive(Debug)]
pub struct PositionWatch {
    previous_position: Option<u64>,
    lost_timestamps: usize,
}

impl PositionWatch {
    #[verifier::type_invariant]
    spec fn count_in_bounds(self) -> bool {
        &&& self.lost_timestamps <= MAX_LOST_TIMESTAMPS
        &&& self.previous_position is None ==> self.lost_timestamps == 0
    }

    pub closed spec fn previous(self) -> Option<u64> {
        self.previous_position
    }

    pub closed spec fn lost(self) -> nat {
        self.lost_timestamps as nat
    }

    /// A watch that has seen no position yet.
    pub fn new() -> (res: PositionWatch)
        ensures
            res.previous() is None,
            res.lost() == 0,
    {
        PositionWatch { previous_position: None, lost_timestamps: 0 }
    }

    /// The last position seen, in nanoseconds.
    pub fn previous_position(&self) -> (res: Option<u64>)
        ensures
            res == self.previous(),
    {
        self.previous_position
    }

    /// How many times in a row the position was seen unchanged; never more
    /// than `MAX_LOST_TIMESTAMPS`, and none before a position was seen.
    pub fn lost_timestamps(&self) -> (res: usize)
        ensures
            res == self.lost(),
            res <= MAX_LOST_TIMESTAMPS,
            self.previous() is None ==> res == 0,
    {
        proof {
            use_type_invariant(self);
        }
        self.lost_timestamps
    }

    /// Takes a position sample, in nanoseconds (`None` where the pipeline
    /// could not be queried), and says whether to restart the pipeline.
    pub fn observe(&mut self, sample: Option<u64>) -> (action: WatchAction)
        ensures
            watch_step(old(self).previous(), old(self).lost(), sample) == (
                final(self).previous(),
                final(self).lost(),
                action == WatchAction::Restart,
            ),
            final(self).lost() <= MAX_LOST_TIMESTAMPS,
            final(self).previous() is None ==> final(self).lost() == 0,
            (sample is Some && old(self).previous() is Some && (old(self).previous()->0 == 0
                || old(self).previous()->0 != sample->0)) ==> (final(self).lost() == 0 && action
                == WatchAction::Keep),
            action == WatchAction::Restart ==> (sample is Some && old(self).previous() == sample
                && sample->0 != 0 && old(self).lost() == MAX_LOST_TIMESTAMPS && final(self).lost() == 0),
    {
        proof {
            use_type_invariant(&*self);
        }
        match sample {
            None => WatchAction::Keep,
            Some(position) => match self.previous_position {
                None => {
                    self.previous_position = Some(position);
                    WatchAction::Keep
                },
                Some(last) => {
                    let counted: usize = if last != 0 && last == position {
                        self.lost_timestamps + 1
                    } else {
                        0
                    };
                    if counted > MAX_LOST_TIMESTAMPS {
                        self.previous_position = Some(position);
                        self.lost_timestamps = 0;
                        WatchAction::Restart
                    } else {
                        self.previous_position = Some(position);
                        self.lost_timestamps = counted;
                        WatchAction::Keep
                    }
                },
            },
        }
    }
}

} // verus!

verus! {

/// A message read from the pipeline's bus, by what the watcher makes of it.
#[derive(Debug, PartialEq, Eq)]
pub enum BusEvent {
    /// The stream ended.
    EndOfStream,
    /// An element failed, with the error's text.
    Error(String),
    /// An element changed state.
    StateChanged,
    /// Any other message.
    Other,
}

/// What the watcher does after a bus message.
#[derive(Debug, PartialEq, Eq)]
pub enum BusVerdict {
    /// Read the next message, or go on to the next tick when there is none.
    KeepReading,
    /// Stop watching: the stream is over and nothing went wrong.
    Finish,
    /// Stop watching with the error, which ends the stream's session.
    Fail(String),
}

/// Decides what a bus message means for the watch: the end of the stream
/// ends it without error, an error ends it with that error, anything else is
/// only traced.
pub fn on_bus_event(event: BusEvent) -> (verdict: BusVerdict)
    ensures
        match event {
            BusEvent::EndOfStream => verdict == BusVerdict::Finish,
            BusEvent::Error(message) => verdict == BusVerdict::Fail(message),
            _ => verdict == BusVerdict::KeepReading,
        },
{
    match event {
        BusEvent::EndOfStream => BusVerdict::Finish,
        BusEvent::Error(message) => BusVerdict::Fail(message),
        BusEvent::StateChanged => BusVerdict::KeepReading,
        BusEvent::Other => BusVerdict::KeepReading,
    }
}

/// Whether `n` samples of the same `position` in a row, from the given
/// previous position and count, make the watch restart the pipeline.
pub open spec fn restarts_within(previous: Option<u64>, lost: nat, position: u64, n: nat) -> bool
    decreases n,
{
    if n == 0 {
        false
    } else {
        let (next, counted, restart) = watch_step(previous, lost, Some(position));
        restart || restarts_within(next, counted, position, (n - 1) as nat)
    }
}

proof fn lemma_restarts_within_monotonic(previous: Option<u64>, lost: nat, position: u64, n: nat, m: nat)
    requires
        n <= m,
        restarts_within(previous, lost, position, n),
    ensures
        restarts_within(previous, lost, position, m),
    decreases n,
{
    if n > 0 {
        let (next, counted, restart) = watch_step(previous, lost, Some(position));
        if !restart {
            lemma_restarts_within_monotonic(next, counted, position, (n - 1) as nat, (m - 1) as nat);
        }
    }
}

proof fn lemma_repeats_restart(position: u64, lost: nat)
    requires
        position != 0,
        lost <= MAX_LOST_TIMESTAMPS,
    ensures
        restarts_within(Some(position), lost, position, (MAX_LOST_TIMESTAMPS + 1 - lost) as nat),
    decreases MAX_LOST_TIMESTAMPS - lost,
{
    if lost < MAX_LOST_TIMESTAMPS {
        lemma_repeats_restart(position, lost + 1);
    }
}

proof fn lemma_repeats_keep(position: u64, lost: nat, n: nat)
    requires
        lost + n <= MAX_LOST_TIMESTAMPS,
    ensures
        !restarts_within(Some(position), lost, position, n),
    decreases n,
{
    if n > 0 {
        let (next, counted, restart) = watch_step(Some(position), lost, Some(position));
        lemma_repeats_keep(position, counted, (n - 1) as nat);
    }
}

/// A stalled source is always restarted: from any state of the watch,
/// `MAX_LOST_TIMESTAMPS + 2` samples in a row of the same nonzero position
/// restart the pipeline.
pub proof fn lemma_stall_forces_restart(previous: Option<u64>, lost: nat, position: u64)
    requires
        position != 0,
        lost <= MAX_LOST_TIMESTAMPS,
    ensures
        restarts_within(previous, lost, position, (MAX_LOST_TIMESTAMPS + 2) as nat),
{
    let (next, counted, restart) = watch_step(previous, lost, Some(position));
    if !restart {
        lemma_repeats_restart(position, counted);
        lemma_restarts_within_monotonic(
            next,
            counted,
            position,
            (MAX_LOST_TIMESTAMPS + 1 - counted) as nat,
            (MAX_LOST_TIMESTAMPS + 1) as nat,
        );
    }
}

/// Repeats are tolerated: a watch that has seen no position yet does not
/// restart the pipeline within `MAX_LOST_TIMESTAMPS + 1` samples of the same
/// position, whatever that position is.
pub proof fn lemma_repeats_tolerated(position: u64)
    ensures
        !restarts_within(None, 0, position, (MAX_LOST_TIMESTAMPS + 1) as nat),
{
    lemma_repeats_keep(position, 0, MAX_LOST_TIMESTAMPS as nat);
}

/// A zero position never counts as a stall: samples of position zero never
/// restart the pipeline, however many.
pub proof fn lemma_zero_never_restarts(previous: Option<u64>, lost: nat, n: nat)
    requires
        lost <= MAX_LOST_TIMESTAMPS,
    ensures
        !restarts_within(previous, lost, 0, n),
    decreases n,
{
    if n > 0 {
        let (next, counted, restart) = watch_step(previous, lost, Some(0));
        lemma_zero_never_restarts(next, counted, (n - 1) as nat);
    }
}

} // verus!

verus! {

/// A sample that moves the position, or that follows a position of zero,
/// erases the count of repeats and never restarts the pipeline.
pub proof fn lemma_moving_position_clears_count(last: u64, lost: nat, position: u64)
    requires
        last == 0 || last != position,
    ensures
        watch_step(Some(last), lost, Some(position)) == (Some(position), 0nat, false),
{
}

/// A repeat of a nonzero position below the limit counts one more repeat
/// and does not restart the pipeline.
pub proof fn lemma_repeat_counts_one(position: u64, lost: nat)
    requires
        position != 0,
        lost < MAX_LOST_TIMESTAMPS,
    ensures
        watch_step(Some(position), lost, Some(position)) == (Some(position), lost + 1, false),
{
}

/// A restart happens only on a repeat of the same nonzero position when the
/// limit of repeats was already counted, and it erases the count.
pub proof fn lemma_restart_needs_full_count(previous: Option<u64>, lost: nat, sample: Option<u64>)
    requires
        lost <= MAX_LOST_TIMESTAMPS,
        watch_step(previous, lost, sample).2,
    ensures
        sample is Some,
        previous == sample,
        sample->0 != 0,
        lost == MAX_LOST_TIMESTAMPS,
        watch_step(previous, lost, sample).0 == sample,
        watch_step(previous, lost, sample).1 == 0,
{
}

/// A failed position query changes nothing and never restarts.
pub proof fn lemma_no_sample_keeps_state(previous: Option<u64>, lost: nat)
    ensures
        watch_step(previous, lost, None) == (previous, lost, false),
{
}

/// The first position seen is remembered without counting or restarting.
pub proof fn lemma_first_sample_is_remembered(lost: nat, position: u64)
    ensures
        watch_step(None, lost, Some(position)) == (Some(position), lost, false),
{
}

} // verus!
