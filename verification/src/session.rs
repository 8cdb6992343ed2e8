//! The media session controller: composes the metadata store, the action
//! handler registry and the position-state validator, owns an optional
//! playback instance, and talks to the session host it was built with.

use vstd::prelude::*;
use crate::actions::{ActionHandler, ActionHandlerRegistry, ActionKind};
use crate::host::{SessionEvent, SessionEventView, SessionHost};
use crate::metadata::{
    auto_title_update, opt_metadata_view, resolved_metadata, Metadata, MetadataStore,
};
use crate::playback::{default_effect, dispatch_default, PlaybackInstance, PlaybackOp, PlaybackState};
use crate::position::{
    effective_position, effective_rate, first_violation, is_empty_candidate, validate, RATE_ONE,
    InvalidState, PositionState,
};

verus! {

/// A per-page media session. It lives for its page context's lifetime and
/// holds at most one playback instance at a time.
pub struct MediaSession<H: ActionHandler, P: PlaybackInstance, S: SessionHost> {
    /// The session's optional metadata.
    pub metadata: MetadataStore,
    /// The declared playback state.
    pub playback_state: PlaybackState,
    /// The registered custom action handlers.
    pub action_handlers: ActionHandlerRegistry<H>,
    /// The playback instance under control, if one is registered.
    pub media_instance: Option<P>,
    /// The host shown the session's notifications.
    pub host: S,
    /// The owning page's URL: the fallback title for metadata updates.
    pub page_url: String,
}

impl<H: ActionHandler, P: PlaybackInstance, S: SessionHost> MediaSession<H, P, S> {
    /// A fresh session for a page: no metadata, playback state `NoneState`,
    /// no handlers, no playback instance.
    pub fn new(host: S, page_url: String) -> (r: Self)
        ensures
            r.metadata@ is None,
            r.playback_state == PlaybackState::NoneState,
            forall|a: ActionKind| r.action_handlers.spec_get(a) is None,
            r.media_instance is None,
            r.host == host,
            r.page_url == page_url,
    {
        MediaSession {
            metadata: MetadataStore::new(),
            playback_state: PlaybackState::NoneState,
            action_handlers: ActionHandlerRegistry::new(),
            media_instance: None,
            host,
            page_url,
        }
    }

    /// Put a playback instance under this session's control; a later
    /// registration replaces an earlier one.
    pub fn register_media_instance(&mut self, media_instance: P)
        ensures
            final(self).media_instance == Some(media_instance),
            final(self).metadata == old(self).metadata,
            final(self).playback_state == old(self).playback_state,
            final(self).action_handlers == old(self).action_handlers,
            final(self).host == old(self).host,
            final(self).page_url == old(self).page_url,
    {
        self.media_instance = Some(media_instance);
    }

    /// Hand one notification to the session host.
    pub fn send_event(&mut self, event: SessionEvent)
        ensures
            final(self).host.notifications() == old(self).host.notifications().push(event@),
            final(self).metadata == old(self).metadata,
            final(self).playback_state == old(self).playback_state,
            final(self).action_handlers == old(self).action_handlers,
            final(self).media_instance == old(self).media_instance,
            final(self).page_url == old(self).page_url,
    {
        self.host.notify(event);
    }

    /// A snapshot of the current metadata, or `None` when never set.
    pub fn get_metadata(&self) -> (r: Option<Metadata>)
        ensures
            r is Some <==> self.metadata@ is Some,
            r matches Some(m) ==> Some(m@) == self.metadata@,
    {
        self.metadata.get()
    }

    /// Apply an explicit metadata update. It overwrites unconditionally; an
    /// absent candidate or an empty candidate title falls back to the page
    /// URL. The stored value is announced to the host.
    pub fn set_metadata(&mut self, candidate: Option<Metadata>)
        ensures
            final(self).metadata@ == Some(
                resolved_metadata(opt_metadata_view(candidate), old(self).page_url@),
            ),
            final(self).host.notifications() == old(self).host.notifications().push(
                SessionEventView::SetMetadata(
                    resolved_metadata(opt_metadata_view(candidate), old(self).page_url@),
                ),
            ),
            final(self).playback_state == old(self).playback_state,
            final(self).action_handlers == old(self).action_handlers,
            final(self).media_instance == old(self).media_instance,
            final(self).page_url == old(self).page_url,
    {
        let stored = self.metadata.set(candidate, self.page_url.as_str());
        self.host.notify(SessionEvent::SetMetadata(stored));
    }

    /// Apply the automatic title-update path, fed by the media player: it
    /// creates metadata when none exists and fills in an empty title, but
    /// never clobbers a non-empty one. A change is announced to the host;
    /// the no-op announces nothing.
    pub fn update_title(&mut self, title: String)
        ensures
            match auto_title_update(old(self).metadata@, title@) {
                None => final(self).metadata@ == old(self).metadata@
                    && final(self).host.notifications() == old(self).host.notifications(),
                Some(v) => final(self).metadata@ == Some(v)
                    && final(self).host.notifications() == old(self).host.notifications().push(
                    SessionEventView::SetMetadata(v),
                ),
            },
            final(self).playback_state == old(self).playback_state,
            final(self).action_handlers == old(self).action_handlers,
            final(self).media_instance == old(self).media_instance,
            final(self).page_url == old(self).page_url,
    {
        let changed = self.metadata.update_title_from_player(title);
        match changed {
            Some(m) => self.host.notify(SessionEvent::SetMetadata(m)),
            None => {},
        }
    }

    /// The declared playback state.
    pub fn get_playback_state(&self) -> (r: PlaybackState)
        ensures
            r == self.playback_state,
    {
        self.playback_state
    }

    /// Declare the playback state; any transition is allowed.
    pub fn set_playback_state(&mut self, state: PlaybackState)
        ensures
            final(self).playback_state == state,
            final(self).metadata == old(self).metadata,
            final(self).action_handlers == old(self).action_handlers,
            final(self).media_instance == old(self).media_instance,
            final(self).host == old(self).host,
            final(self).page_url == old(self).page_url,
    {
        self.playback_state = state;
    }

    /// Register a custom handler for an action, or remove the registration
    /// when the handler is absent.
    pub fn set_action_handler(&mut self, action: ActionKind, handler: Option<H>)
        ensures
            final(self).action_handlers.spec_get(action) == handler,
            forall|b: ActionKind|
                b != action ==> final(self).action_handlers.spec_get(b) == old(
                    self,
                ).action_handlers.spec_get(b),
            final(self).metadata == old(self).metadata,
            final(self).playback_state == old(self).playback_state,
            final(self).media_instance == old(self).media_instance,
            final(self).host == old(self).host,
            final(self).page_url == old(self).page_url,
    {
        self.action_handlers.set(action, handler);
    }

    /// Handle one incoming control action: a registered custom handler
    /// intercepts it (a handler failure is swallowed and never falls through
    /// to the built-in behavior); otherwise the built-in behavior reaches the
    /// bound playback instance, and without one the action is a no-op.
    pub fn handle_action(&mut self, action: ActionKind)
        ensures
            final(self).metadata == old(self).metadata,
            final(self).playback_state == old(self).playback_state,
            final(self).host == old(self).host,
            final(self).page_url == old(self).page_url,
            forall|b: ActionKind|
                b != action ==> final(self).action_handlers.spec_get(b) == old(
                    self,
                ).action_handlers.spec_get(b),
            old(self).action_handlers.spec_get(action) is Some ==> {
                &&& final(self).media_instance == old(self).media_instance
                &&& final(self).action_handlers.spec_get(action) matches Some(h)
                    && h.invocations() == old(self).action_handlers.spec_get(
                    action,
                )->0.invocations() + 1
            },
            old(self).action_handlers.spec_get(action) is None ==> {
                &&& final(self).action_handlers == old(self).action_handlers
                &&& match old(self).media_instance {
                    None => final(self).media_instance is None,
                    Some(i) => final(self).media_instance matches Some(j) && j.ops()
                        == default_effect(i.ops(), action),
                }
            },
    {
        if self.action_handlers.contains(action) {
            // A handler failure is logged by the handler's side and swallowed
            // here; it must not reach the caller nor trigger the built-in
            // behavior.
            let _ = self.action_handlers.invoke(action);
            return;
        }
        match &mut self.media_instance {
            Some(instance) => dispatch_default(instance, action),
            None => {},
        }
    }

    /// Accept or reject a candidate position state. An empty candidate
    /// clears the instance's position tracking. Any other candidate passes
    /// the ordered validation rules; when they hold and an instance is
    /// bound, the instance receives the duration, the playback rate (one
    /// unit when absent) and the position (zero when absent), in that order.
    /// The instance may refuse the rate; that error propagates and the
    /// position is then not handed over.
    pub fn set_position_state(&mut self, state: &PositionState) -> (r: Result<(), InvalidState>)
        ensures
            final(self).metadata == old(self).metadata,
            final(self).playback_state == old(self).playback_state,
            final(self).action_handlers == old(self).action_handlers,
            final(self).host == old(self).host,
            final(self).page_url == old(self).page_url,
            is_empty_candidate(*state) ==> {
                &&& r == Ok::<(), InvalidState>(())
                &&& match old(self).media_instance {
                    None => final(self).media_instance is None,
                    Some(i) => final(self).media_instance matches Some(j) && j.ops() == i.ops().push(
                        PlaybackOp::ResetPositionTracking,
                    ),
                }
            },
            !is_empty_candidate(*state) && first_violation(*state) is Some ==> {
                &&& r == Err::<(), InvalidState>(first_violation(*state)->0)
                &&& final(self).media_instance == old(self).media_instance
            },
            !is_empty_candidate(*state) && first_violation(*state) is None ==> {
                &&& old(self).media_instance is None ==> r == Ok::<(), InvalidState>(())
                    && final(self).media_instance is None
                &&& old(self).media_instance matches Some(i) ==> {
                    &&& final(self).media_instance is Some
                    &&& r is Ok ==> final(self).media_instance->0.ops() == i.ops().push(
                        PlaybackOp::SetDuration(state.duration->0),
                    ).push(PlaybackOp::SetPlaybackRate(effective_rate(*state))).push(
                        PlaybackOp::SetCurrentTime(effective_position(*state)),
                    )
                    &&& r is Err ==> final(self).media_instance->0.ops() == i.ops().push(
                        PlaybackOp::SetDuration(state.duration->0),
                    )
                }
            },
    {
        if state.duration.is_none() && state.position.is_none() && state.playback_rate.is_none() {
            match &mut self.media_instance {
                Some(instance) => instance.reset_position_tracking(),
                None => {},
            }
            return Ok(());
        }
        match validate(state) {
            Ok(()) => {},
            Err(e) => {
                return Err(e);
            },
        }
        match &mut self.media_instance {
            Some(instance) => {
                let duration = state.duration.unwrap();
                instance.set_duration(duration);
                // An absent playback rate defaults to one unit.
                let rate = state.playback_rate.unwrap_or(RATE_ONE);
                match instance.set_playback_rate(rate) {
                    Ok(()) => {},
                    Err(e) => {
                        return Err(e);
                    },
                }
                // An absent position defaults to zero.
                let position = state.position.unwrap_or(0);
                instance.set_current_time(position);
                Ok(())
            },
            None => Ok(()),
        }
    }
}

} // verus!
