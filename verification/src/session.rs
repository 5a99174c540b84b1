//! The session and its command surface.
//!
//! At most one Telnet session is live at a time.  `ConnectionState` is the
//! context object the whole surface works on: it records whether a session is
//! established, distinguishes successive sessions by a generation number, and
//! owns the output buffer the monitor fills.  The transport itself lives with
//! the caller: establishing, closing and writing to the socket happen there,
//! and each such step is mirrored here by the transition that describes it.
//!
//! Reconnecting follows the replace policy: a new connect tears the previous
//! session down and substitutes a fresh one, so the most recent peer wins and
//! repeated connect calls are harmless.

use vstd::prelude::*;
use vstd::slice::slice_to_vec;
use crate::classify::{classify_transcript, transcript_outcome, Outcome, StreamEnd};
use crate::errors::ApiError;
use crate::output::{spec_record, OutputBuffer};

verus! {

/// The line terminator appended to every dispatched command.
pub const LINE_TERMINATOR: u8 = 10;

/// The context object of the command surface.
pub struct ConnectionState {
    link: Option<u64>,
    next_gen: u64,
    output: OutputBuffer,
}

/// The abstract state of a `ConnectionState`: the generation of the live
/// session, if any; the generation the next session will get; and the
/// buffered console lines.
#[verifier::ext_equal]
pub ghost struct ConnView {
    pub link: Option<int>,
    pub next_gen: int,
    pub output: Seq<Seq<u8>>,
}

impl View for ConnectionState {
    type V = ConnView;

    closed spec fn view(&self) -> ConnView {
        ConnView {
            link: match self.link {
                Some(g) => Some(g as int),
                None => None,
            },
            next_gen: self.next_gen as int,
            output: self.output@,
        }
    }
}

/// A session is present.
pub open spec fn connected(v: ConnView) -> bool {
    v.link is Some
}

/// The state of a freshly created context: no session, nothing buffered.
pub open spec fn initial_state() -> ConnView {
    ConnView { link: None, next_gen: 0, output: Seq::empty() }
}

/// What a successful connect does: whatever was live before is replaced by a
/// fresh session, and the output buffer starts empty.
pub open spec fn spec_connect(v: ConnView) -> ConnView {
    ConnView { link: Some(v.next_gen), next_gen: v.next_gen + 1, output: Seq::empty() }
}

/// What disconnect does: the session, if any, is cleared; the buffered output
/// is kept.
pub open spec fn spec_disconnect(v: ConnView) -> ConnView {
    ConnView { link: None, ..v }
}

/// What clearing the output buffer does.
pub open spec fn spec_clear_output(v: ConnView) -> ConnView {
    ConnView { output: Seq::empty(), ..v }
}

/// What recording one monitored line does.
pub open spec fn spec_record_output(v: ConnView, line: Seq<u8>) -> ConnView {
    ConnView { output: spec_record(v.output, line), ..v }
}

/// The exact byte sequence written for a command: the command, then one line
/// terminator.
pub open spec fn framed(command: Seq<u8>) -> Seq<u8> {
    command.push(LINE_TERMINATOR)
}

impl ConnectionState {
    /// A context with no session and an empty output buffer.
    pub fn new() -> (r: Self)
        ensures
            r@ == initial_state(),
    {
        let r = ConnectionState { link: None, next_gen: 0, output: OutputBuffer::new() };
        proof {
            assert(r@ =~= initial_state());
        }
        r
    }

    /// Reports whether a session is live, without side effects.
    pub fn is_connected(&self) -> (r: bool)
        ensures
            r == connected(self@),
    {
        self.link.is_some()
    }

    /// A fresh generation is still available for another connect.  True for
    /// the whole practical life of a context; false only once the generation
    /// counter is exhausted.
    pub fn can_connect(&self) -> (r: bool)
        ensures
            r == (self@.next_gen < u64::MAX),
    {
        self.next_gen < u64::MAX
    }

    /// Records that a new session was established, replacing any previous
    /// one; the output buffer is cleared for the new session.  The caller
    /// performs the actual dial first and calls this only when it succeeded.
    ///
    /// The bound on the generation counter is a machine limit only.
    pub fn connect_to_telnet(&mut self)
        requires
            old(self)@.next_gen < u64::MAX,
        ensures
            final(self)@ == spec_connect(old(self)@),
    {
        self.link = Some(self.next_gen);
        self.next_gen = self.next_gen + 1;
        self.output.clear();
        proof {
            assert(self@ =~= spec_connect(old(self)@));
        }
    }

    /// Clears the session if one is live, and succeeds as a no-op otherwise.
    /// The caller drops the transport alongside, which closes it.
    pub fn disconnect_from_telnet(&mut self)
        ensures
            final(self)@ == spec_disconnect(old(self)@),
    {
        self.link = None;
        proof {
            assert(self@ =~= spec_disconnect(old(self)@));
        }
    }

    /// Dispatches one command: on a live session, the returned bytes are
    /// exactly the command followed by one line terminator, to be written and
    /// flushed as a single unit; with no session the command is refused, and
    /// no reconnect is attempted here.
    pub fn send_command(&self, command: &[u8]) -> (r: Result<Vec<u8>, ApiError>)
        ensures
            connected(self@) ==> (r matches Ok(w) && w@ == framed(command@)),
            !connected(self@) ==> (r matches Err(ApiError::NotConnected)),
    {
        if self.link.is_some() {
            let mut w = slice_to_vec(command);
            w.push(LINE_TERMINATOR);
            Ok(w)
        } else {
            Err(ApiError::NotConnected)
        }
    }

    /// The session a newly started monitor binds to: the generation of the
    /// session live now, or nothing when no session is live (the monitor then
    /// exits at once).
    pub fn start_telnet_monitor(&self) -> (r: Option<u64>)
        ensures
            connected(self@) ==> (r matches Some(g) && self@.link == Some(g as int)),
            !connected(self@) ==> r is None,
    {
        self.link
    }

    /// Accepted as a control surface for the monitor, and always succeeds;
    /// it changes nothing here, since the monitor's natural stop is the end
    /// of the stream it drains (closing the transport ends it).
    pub fn stop_telnet_monitor(&self) -> (r: Result<(), ApiError>)
        ensures
            r is Ok,
    {
        Ok(())
    }

    /// Records one line the monitor read from the console.
    pub fn record_output_line(&mut self, line: &[u8])
        ensures
            final(self)@ == spec_record_output(old(self)@, line@),
    {
        self.output.record_line(line);
        proof {
            assert(self@ =~= spec_record_output(old(self)@, line@));
        }
    }

    /// A snapshot of the buffered console lines, in arrival order.
    pub fn get_telnet_output(&self) -> (r: Vec<Vec<u8>>)
        ensures
            r.deep_view() == self@.output,
    {
        self.output.snapshot()
    }

    /// Empties the output buffer; no session is needed.
    pub fn clear_telnet_output(&mut self)
        ensures
            final(self)@ == spec_clear_output(old(self)@),
    {
        self.output.clear();
        proof {
            assert(self@ =~= spec_clear_output(old(self)@));
        }
    }

    /// Resolves an install-result wait.  With no live session the answer is
    /// `NotConnected` at once, whatever was observed; otherwise the transcript
    /// the wait collected decides.
    pub fn await_install_result(&self, lines: &Vec<Vec<u8>>, end: StreamEnd) -> (r: Outcome)
        ensures
            connected(self@) ==> r == transcript_outcome(lines.deep_view(), end),
            !connected(self@) ==> r == Outcome::NotConnected,
    {
        if self.is_connected() {
            classify_transcript(lines, end)
        } else {
            Outcome::NotConnected
        }
    }
}

/// Disconnecting leaves no session behind, and disconnecting with no session
/// is a no-op: a second disconnect changes nothing.
pub proof fn lemma_disconnect_idempotent(v: ConnView)
    ensures
        !connected(spec_disconnect(v)),
        spec_disconnect(spec_disconnect(v)) == spec_disconnect(v),
{
    assert(spec_disconnect(spec_disconnect(v)) =~= spec_disconnect(v));
}

/// Connecting twice in a row succeeds both times under the replace policy,
/// and the second session is a fresh one: the first session's generation is
/// no longer live, so reads bound to it are over.
pub proof fn lemma_reconnect_replaces(v: ConnView)
    ensures
        connected(spec_connect(v)),
        connected(spec_connect(spec_connect(v))),
        spec_connect(spec_connect(v)).link != spec_connect(v).link,
{
}

} // verus!
