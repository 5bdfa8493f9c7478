//! Preloading the home timeline: the decisions taken while notes stream in
//! from the server.
use vstd::prelude::*;

use crate::model::note::{import_note, spec_import_note, ApiNote};
use crate::timeline::TimelineMsg;

verus! {

/// How many notes of the home timeline are loaded when the client starts.
pub const PRELOAD_LIMIT: usize = 20;

/// What happens on the connection to the server.
pub enum PreloadEvent {
    /// The connection is open.
    Connected,
    /// The connection could not be opened.
    ConnectFailed,
    /// The next note of the home timeline arrived.
    Received(ApiNote),
    /// Reading the next note failed.
    StreamFailed,
    /// The home timeline has no more notes.
    StreamEnded,
}

/// What to do after an event: a message for the timeline, if any, and
/// whether to wait for the next note.
pub struct PreloadAction {
    pub send: Option<TimelineMsg>,
    pub poll: bool,
}

/// The progress of preloading: how many notes were taken, and whether it
/// is over.
pub struct Preloader {
    taken: usize,
    finished: bool,
}

impl Preloader {
    #[verifier::type_invariant]
    closed spec fn within_limit(self) -> bool {
        self.taken <= PRELOAD_LIMIT
    }
}

impl View for Preloader {
    /// The number of notes taken, and whether preloading is over.
    type V = (nat, bool);

    closed spec fn view(&self) -> (nat, bool) {
        (self.taken as nat, self.finished)
    }
}

impl Preloader {
    /// Preloading before the connection opens.
    pub fn new() -> (preloader: Preloader)
        ensures
            preloader@ == (0nat, false),
    {
        Preloader { taken: 0, finished: false }
    }

    /// Decides what to do after `event`. Once preloading is over nothing
    /// more is done. Otherwise: an open connection starts reading; each note
    /// read is sent to the timeline, read with the note it refers to, and
    /// reading goes on until the limit is reached; a failure is reported to
    /// the timeline as a connection error and ends preloading, and so does
    /// the end of the stream, silently.
    pub fn step(&mut self, event: PreloadEvent) -> (action: PreloadAction)
        ensures
            final(self)@.0 <= PRELOAD_LIMIT,
            old(self)@.1 ==> final(self)@ == old(self)@ && action.send is None && !action.poll,
            !old(self)@.1 ==> match event {
                PreloadEvent::Connected => {
                    &&& final(self)@ == old(self)@
                    &&& action.send is None
                    &&& action.poll == (old(self)@.0 < PRELOAD_LIMIT)
                },
                PreloadEvent::Received(note) => if old(self)@.0 < PRELOAD_LIMIT {
                    &&& final(self)@.0 == old(self)@.0 + 1
                    &&& final(self)@.1 == (final(self)@.0 == PRELOAD_LIMIT)
                    &&& action.send matches Some(TimelineMsg::InsertNote(n)) && n@ == spec_import_note(note, true)
                    &&& action.poll == (final(self)@.0 < PRELOAD_LIMIT)
                } else {
                    &&& final(self)@ == (old(self)@.0, true)
                    &&& action.send is None
                    &&& !action.poll
                },
                PreloadEvent::ConnectFailed | PreloadEvent::StreamFailed => {
                    &&& final(self)@ == (old(self)@.0, true)
                    &&& action.send matches Some(TimelineMsg::ConnectionError)
                    &&& !action.poll
                },
                PreloadEvent::StreamEnded => {
                    &&& final(self)@ == (old(self)@.0, true)
                    &&& action.send is None
                    &&& !action.poll
                },
            },
    {
        proof {
            use_type_invariant(&*self);
        }
        if self.finished {
            return PreloadAction { send: None, poll: false };
        }
        match event {
            PreloadEvent::Connected => PreloadAction { send: None, poll: self.taken < PRELOAD_LIMIT },
            PreloadEvent::Received(note) => {
                if self.taken < PRELOAD_LIMIT {
                    self.taken = self.taken + 1;
                    let poll = self.taken < PRELOAD_LIMIT;
                    self.finished = !poll;
                    PreloadAction { send: Some(TimelineMsg::InsertNote(import_note(note, true))), poll }
                } else {
                    self.finished = true;
                    PreloadAction { send: None, poll: false }
                }
            },
            PreloadEvent::ConnectFailed | PreloadEvent::StreamFailed => {
                self.finished = true;
                PreloadAction { send: Some(TimelineMsg::ConnectionError), poll: false }
            },
            PreloadEvent::StreamEnded => {
                self.finished = true;
                PreloadAction { send: None, poll: false }
            },
        }
    }
}

} // verus!
