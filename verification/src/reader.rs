//! The decisions of the standard-input reader loops. The loops themselves,
//! which block on the terminal and send to the main event loop, run outside the
//! library; after each read or poll they ask these functions what to do.

use vstd::prelude::*;
use crate::client_input::{
    PasteBurstAccumulator, is_key_release, spec_burst_char, spec_finish, spec_windows_key_raw_bytes,
    windows_key_raw_bytes,
};
use crate::protocol::{ClientInputEvent, ClientInputEventView, Event, events_view, spec_client_event_from_event};

verus! {

/// How a read of standard input ended.
#[derive(Debug, Clone, Copy, PartialEq, Eq, Structural)]
pub enum ReadOutcome {
    /// End of input.
    Eof,
    /// Some bytes were read.
    Data,
    /// The read was interrupted by a signal.
    Interrupted,
    /// The read failed otherwise.
    Failed,
}

/// What the Unix reader does after a read.
#[derive(Debug, Clone, Copy, PartialEq, Eq, Structural)]
pub enum ReadAction {
    /// Leave the loop.
    Stop,
    /// Read again.
    Retry,
    /// Frame and forward the bytes read.
    Forward,
}

/// The Unix reader stops at end of input or on a failed read, retries an
/// interrupted read, and forwards the bytes of a successful one.
pub fn unix_read_action(outcome: ReadOutcome) -> (a: ReadAction)
    ensures
        a == (match outcome {
            ReadOutcome::Eof | ReadOutcome::Failed => ReadAction::Stop,
            ReadOutcome::Interrupted => ReadAction::Retry,
            ReadOutcome::Data => ReadAction::Forward,
        }),
{
    match outcome {
        ReadOutcome::Eof | ReadOutcome::Failed => ReadAction::Stop,
        ReadOutcome::Interrupted => ReadAction::Retry,
        ReadOutcome::Data => ReadAction::Forward,
    }
}

/// Input is quiet: a readiness poll succeeded and found nothing to read (a
/// failed poll or pending input is not quiet).
pub fn input_is_quiet(ready: Option<bool>) -> (b: bool)
    ensures
        b == (ready == Some(false)),
{
    match ready {
        Some(r) => !r,
        None => false,
    }
}

/// After input went quiet and the framer was flushed: the framer held an
/// escape back (it had pending input yet flushed nothing), and input is still
/// quiet, so it is flushed once more to release the escape.
pub fn unix_should_flush_held_escape(had_pending: bool, flushed_nothing: bool, still_quiet: bool) -> (b: bool)
    ensures
        b == (had_pending && flushed_nothing && still_quiet),
{
    had_pending && flushed_nothing && still_quiet
}

/// How many quiet polls an incomplete raw sequence may wait (about five
/// seconds) before it is abandoned.
pub const MAX_PENDING_TICKS: u32 = 500;

/// The state of the Windows reader between events: whether the raw framer is
/// in the middle of a sequence, how many quiet polls that sequence has waited,
/// and the paste burst being built.
#[derive(Debug)]
pub struct WindowsReader {
    pub raw_sequence_pending: bool,
    pub pending_ticks: u32,
    pub paste_burst: PasteBurstAccumulator,
}

/// What the Windows reader does after a poll found no event.
#[derive(Debug)]
pub struct IdleStep {
    /// The finished paste burst to forward, if not empty.
    pub burst_flush: Vec<ClientInputEvent>,
    /// Whether to flush the framer's pending sequence.
    pub flush_framer: bool,
}

/// What the Windows reader does with an event.
#[derive(Debug)]
pub enum EventStep {
    /// Feed these bytes to the raw framer.
    Raw(Vec<u8>),
    /// The event takes the semantic path.
    Semantic {
        /// Flush the framer's interrupted sequence first.
        flush_framer_first: bool,
        /// Then forward the paste burst the event finished, if not empty.
        burst_flush: Vec<ClientInputEvent>,
        /// Then forward the event itself, unless it joined a burst.
        forward: Option<ClientInputEvent>,
    },
}

impl WindowsReader {
    /// The tick counter stays below the limit.
    pub open spec fn wf(&self) -> bool {
        self.pending_ticks < MAX_PENDING_TICKS
    }

    /// A reader with no pending sequence and no burst.
    pub fn new() -> (r: WindowsReader)
        ensures
            !r.raw_sequence_pending,
            r.pending_ticks == 0,
            r.paste_burst@ == Seq::<char>::empty(),
            r.wf(),
    {
        WindowsReader { raw_sequence_pending: false, pending_ticks: 0, paste_burst: PasteBurstAccumulator::new() }
    }

    /// A poll found an event waiting: the pending sequence is not idle.
    pub fn on_poll_ready(&mut self)
        ensures
            final(self).pending_ticks == 0,
            final(self).raw_sequence_pending == old(self).raw_sequence_pending,
            final(self).paste_burst@ == old(self).paste_burst@,
            final(self).wf(),
    {
        self.pending_ticks = 0;
    }

    /// A poll found no event: the burst, if any, has ended, and a pending raw
    /// sequence is flushed.
    pub fn on_idle(&mut self) -> (s: IdleStep)
        ensures
            events_view(s.burst_flush@) == spec_finish(old(self).paste_burst@),
            s.flush_framer == old(self).raw_sequence_pending,
            final(self).paste_burst@ == Seq::<char>::empty(),
            final(self).raw_sequence_pending == old(self).raw_sequence_pending,
            final(self).pending_ticks == old(self).pending_ticks,
    {
        let burst_flush = self.paste_burst.finish();
        IdleStep { burst_flush, flush_framer: self.raw_sequence_pending }
    }

    /// After an idle flush of the framer, which still waits for the rest of a
    /// sequence or not. A sequence that keeps waiting counts quiet polls and is
    /// abandoned at the limit; the result says whether to drop the framer's
    /// pending input.
    pub fn after_idle_flush(&mut self, still_pending: bool) -> (abandon: bool)
        requires
            old(self).wf(),
        ensures
            final(self).wf(),
            final(self).paste_burst@ == old(self).paste_burst@,
            still_pending && old(self).pending_ticks + 1 < MAX_PENDING_TICKS ==> {
                &&& !abandon
                &&& final(self).raw_sequence_pending == old(self).raw_sequence_pending
                &&& final(self).pending_ticks == old(self).pending_ticks + 1
            },
            still_pending && old(self).pending_ticks + 1 >= MAX_PENDING_TICKS ==> {
                &&& abandon
                &&& !final(self).raw_sequence_pending
                &&& final(self).pending_ticks == 0
            },
            !still_pending ==> {
                &&& !abandon
                &&& !final(self).raw_sequence_pending
                &&& final(self).pending_ticks == 0
            },
    {
        if still_pending {
            self.pending_ticks = self.pending_ticks + 1;
            if self.pending_ticks >= MAX_PENDING_TICKS {
                self.raw_sequence_pending = false;
                self.pending_ticks = 0;
                return true;
            }
            false
        } else {
            self.raw_sequence_pending = false;
            self.pending_ticks = 0;
            false
        }
    }

    /// Decides what to do with an event read from the terminal. Keys that
    /// belong to a raw sequence go to the framer; any other event first flushes
    /// an interrupted sequence, then passes the paste-burst accumulator, and is
    /// forwarded unless the burst absorbed it.
    pub fn on_event(&mut self, event: &Event) -> (s: EventStep)
        ensures
            final(self).pending_ticks == old(self).pending_ticks,
            match s {
                EventStep::Raw(bytes) => {
                    &&& spec_windows_key_raw_bytes(*event, old(self).raw_sequence_pending) == Some(bytes@)
                    &&& final(self).raw_sequence_pending == old(self).raw_sequence_pending
                    &&& final(self).paste_burst@ == old(self).paste_burst@
                },
                EventStep::Semantic { flush_framer_first, burst_flush, forward } => {
                    &&& spec_windows_key_raw_bytes(*event, old(self).raw_sequence_pending) is None
                    &&& flush_framer_first == old(self).raw_sequence_pending
                    &&& !final(self).raw_sequence_pending
                    &&& semantic_step(*event, old(self).paste_burst@, final(self).paste_burst@, events_view(burst_flush@), forward)
                },
            },
    {
        match windows_key_raw_bytes(event, self.raw_sequence_pending) {
            Some(bytes) => EventStep::Raw(bytes),
            None => {
                let flush_framer_first = self.raw_sequence_pending;
                self.raw_sequence_pending = false;
                let outcome = self.paste_burst.observe(event);
                let forward = if outcome.absorbed {
                    None
                } else {
                    ClientInputEvent::from_event(event)
                };
                EventStep::Semantic { flush_framer_first, burst_flush: outcome.flush, forward }
            },
        }
    }

    /// The framer produced events (or nothing) for bytes fed to it; a sequence
    /// is pending exactly when it produced nothing.
    pub fn after_raw_push(&mut self, produced_nothing: bool)
        ensures
            final(self).raw_sequence_pending == produced_nothing,
            final(self).pending_ticks == old(self).pending_ticks,
            final(self).paste_burst@ == old(self).paste_burst@,
    {
        self.raw_sequence_pending = produced_nothing;
    }
}

/// What the paste burst does with an event on the semantic path, and what is
/// forwarded: a release leaves the burst as it is and is forwarded only when no
/// burst is building; a text key joins the burst; any other event finishes the
/// burst and is forwarded.
pub open spec fn semantic_step(
    event: Event,
    burst: Seq<char>,
    burst_after: Seq<char>,
    flushed: Seq<ClientInputEventView>,
    forward: Option<ClientInputEvent>,
) -> bool {
    let forwarded = match forward {
        Some(e) => Some(e@),
        None => None,
    };
    if is_key_release(event) {
        &&& flushed.len() == 0
        &&& burst_after == burst
        &&& forwarded == (if burst.len() > 0 { None } else { spec_client_event_from_event(event) })
    } else if spec_burst_char(event) is Some {
        &&& flushed.len() == 0
        &&& burst_after == burst.push(spec_burst_char(event)->0)
        &&& forwarded is None
    } else {
        &&& flushed == spec_finish(burst)
        &&& burst_after == Seq::<char>::empty()
        &&& forwarded == spec_client_event_from_event(event)
    }
}

} // verus!
