//! The download-completion poll, as an explicit state machine. The runner
//! makes one filesystem observation per tick, sleeps between ticks, and
//! feeds each observation to `poll_step`; the poll has no timeout.

use vstd::prelude::*;

verus! {

/// State of the poll that waits for a manually downloaded file.
#[derive(Clone, Copy, Debug, PartialEq, Eq, Structural)]
pub enum DownloadPoll {
    /// The expected file has not appeared yet.
    AwaitingFile,
    /// The file exists; the previous size reading was `last_size` bytes.
    MeasuringSize { last_size: u64 },
    /// Two consecutive readings reported the same nonzero size.
    Complete,
}

/// One observation of the downloads directory, made between ticks.
#[derive(Clone, Copy, Debug, PartialEq, Eq, Structural)]
pub enum PollObservation {
    /// The expected file does not exist.
    FileAbsent,
    /// The expected file exists.
    FilePresent,
    /// The file's size could not be read.
    SizeUnknown,
    /// The file's size was read as `size` bytes.
    SizeRead { size: u64 },
}

/// How one observation advances the poll. While the file is absent the poll
/// keeps waiting; once it appears, sizes are compared reading by reading,
/// and the poll completes exactly when a reading repeats the previous
/// nonzero size. A failed size reading, or an observation that does not
/// belong to the current phase, changes nothing.
pub open spec fn poll_step_spec(s: DownloadPoll, o: PollObservation) -> DownloadPoll {
    match s {
        DownloadPoll::AwaitingFile => match o {
            PollObservation::FileAbsent => DownloadPoll::AwaitingFile,
            PollObservation::FilePresent => DownloadPoll::MeasuringSize { last_size: 0 },
            _ => s,
        },
        DownloadPoll::MeasuringSize { last_size } => match o {
            PollObservation::SizeRead { size } => if size > 0 && size == last_size {
                DownloadPoll::Complete
            } else {
                DownloadPoll::MeasuringSize { last_size: size }
            },
            _ => s,
        },
        DownloadPoll::Complete => DownloadPoll::Complete,
    }
}

/// Advances the poll by one observation.
pub fn poll_step(s: DownloadPoll, o: PollObservation) -> (r: DownloadPoll)
    ensures
        r == poll_step_spec(s, o),
{
    match s {
        DownloadPoll::AwaitingFile => match o {
            PollObservation::FileAbsent => DownloadPoll::AwaitingFile,
            PollObservation::FilePresent => DownloadPoll::MeasuringSize { last_size: 0 },
            _ => s,
        },
        DownloadPoll::MeasuringSize { last_size } => match o {
            PollObservation::SizeRead { size } => if size > 0 && size == last_size {
                DownloadPoll::Complete
            } else {
                DownloadPoll::MeasuringSize { last_size: size }
            },
            _ => s,
        },
        DownloadPoll::Complete => DownloadPoll::Complete,
    }
}

/// The size-stability heuristic: an unfinished poll completes on exactly
/// one kind of observation, a size reading that repeats the previous
/// reading's nonzero size while the poll is measuring.
pub proof fn lemma_completion_needs_stable_size(s: DownloadPoll, o: PollObservation)
    requires
        s != DownloadPoll::Complete,
    ensures
        poll_step_spec(s, o) == DownloadPoll::Complete <==> (s matches DownloadPoll::MeasuringSize {
            last_size,
        } && o matches PollObservation::SizeRead { size } && size == last_size && size > 0),
{
}

/// A completed poll stays completed, whatever is observed afterwards.
pub proof fn lemma_complete_is_final(o: PollObservation)
    ensures
        poll_step_spec(DownloadPoll::Complete, o) == DownloadPoll::Complete,
{
}

} // verus!
