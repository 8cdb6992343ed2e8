//! Outbound notifications to the session host, and the host collaborator
//! interface the session talks to.

use vstd::prelude::*;
use crate::metadata::{Metadata, MetadataView};
use crate::playback::PlaybackState;

verus! {

/// An outbound notification to the session host, fire-and-forget.
#[derive(Debug, PartialEq, Eq)]
pub enum SessionEvent {
    SetMetadata(Metadata),
    PlaybackStateChange(PlaybackState),
}

/// The mathematical value of a `SessionEvent`.
pub ghost enum SessionEventView {
    SetMetadata(MetadataView),
    PlaybackStateChange(PlaybackState),
}

impl View for SessionEvent {
    type V = SessionEventView;

    open spec fn view(&self) -> SessionEventView {
        match self {
            SessionEvent::SetMetadata(m) => SessionEventView::SetMetadata(m@),
            SessionEvent::PlaybackStateChange(s) => SessionEventView::PlaybackStateChange(*s),
        }
    }
}

/// The embedding environment that presents platform media controls. The
/// session hands it notifications in the order the mutating calls occurred;
/// delivery is best-effort and the host promises nothing back.
pub trait SessionHost: Sized {
    /// The notifications delivered so far, oldest first.
    spec fn notifications(&self) -> Seq<SessionEventView>;

    /// Deliver one notification.
    fn notify(&mut self, event: SessionEvent)
        ensures
            final(self).notifications() == old(self).notifications().push(event@),
    ;
}

/// A session host that records every notification it is handed.
pub struct EventLog {
    /// The notifications received, oldest first.
    pub events: Vec<SessionEvent>,
}

impl EventLog {
    /// A host that has seen no notification yet.
    pub fn new() -> (r: EventLog)
        ensures
            r.notifications() == Seq::<SessionEventView>::empty(),
    {
        EventLog { events: Vec::new() }
    }
}

impl SessionHost for EventLog {
    open spec fn notifications(&self) -> Seq<SessionEventView> {
        self.events@.map_values(|e: SessionEvent| e@)
    }

    fn notify(&mut self, event: SessionEvent) {
        self.events.push(event);
        proof {
            assert(self.notifications() =~= old(self).notifications().push(event@));
        }
    }
}

} // verus!
