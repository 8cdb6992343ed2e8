//! Media control actions, custom action handlers, and the registry that maps
//! each action kind to an optional handler.

use vstd::prelude::*;

verus! {

/// The closed set of user-initiated media control intents.
#[derive(Clone, Copy, PartialEq, Eq, Structural, Debug, Hash)]
pub enum ActionKind {
    Play,
    Pause,
    SeekBackward,
    SeekForward,
    PreviousTrack,
    NextTrack,
    SkipAd,
    Stop,
    SeekTo,
}

/// The error a custom action handler reports. The session catches it and
/// never lets it reach the caller of `handle_action`.
#[derive(Clone, Copy, PartialEq, Eq, Structural, Debug)]
pub struct HandlerError;

/// A custom action handler, as registered by the hosting page. Invoking it
/// may fail; the failure is the handler's to report and the session's to
/// swallow.
pub trait ActionHandler: Sized {
    /// How many times this handler has been invoked.
    spec fn invocations(&self) -> nat;

    /// Invoke the handler once.
    fn call(&mut self) -> (r: Result<(), HandlerError>)
        ensures
            final(self).invocations() == old(self).invocations() + 1,
    ;
}

/// Maps each action kind to at most one custom handler; an absent entry
/// means "use the default behavior".
pub struct ActionHandlerRegistry<H> {
    pub play: Option<H>,
    pub pause: Option<H>,
    pub seek_backward: Option<H>,
    pub seek_forward: Option<H>,
    pub previous_track: Option<H>,
    pub next_track: Option<H>,
    pub skip_ad: Option<H>,
    pub stop: Option<H>,
    pub seek_to: Option<H>,
}

impl<H> ActionHandlerRegistry<H> {
    /// The handler registered for an action, if any.
    pub open spec fn spec_get(self, action: ActionKind) -> Option<H> {
        match action {
            ActionKind::Play => self.play,
            ActionKind::Pause => self.pause,
            ActionKind::SeekBackward => self.seek_backward,
            ActionKind::SeekForward => self.seek_forward,
            ActionKind::PreviousTrack => self.previous_track,
            ActionKind::NextTrack => self.next_track,
            ActionKind::SkipAd => self.skip_ad,
            ActionKind::Stop => self.stop,
            ActionKind::SeekTo => self.seek_to,
        }
    }

    /// An empty registry.
    pub fn new() -> (r: Self)
        ensures
            forall|a: ActionKind| r.spec_get(a) is None,
    {
        ActionHandlerRegistry {
            play: None,
            pause: None,
            seek_backward: None,
            seek_forward: None,
            previous_track: None,
            next_track: None,
            skip_ad: None,
            stop: None,
            seek_to: None,
        }
    }

    /// Register a handler for an action, or remove the registration when the
    /// handler is absent. Removing an absent registration is no error.
    pub fn set(&mut self, action: ActionKind, handler: Option<H>)
        ensures
            final(self).spec_get(action) == handler,
            forall|b: ActionKind|
                b != action ==> final(self).spec_get(b) == old(self).spec_get(b),
    {
        match action {
            ActionKind::Play => self.play = handler,
            ActionKind::Pause => self.pause = handler,
            ActionKind::SeekBackward => self.seek_backward = handler,
            ActionKind::SeekForward => self.seek_forward = handler,
            ActionKind::PreviousTrack => self.previous_track = handler,
            ActionKind::NextTrack => self.next_track = handler,
            ActionKind::SkipAd => self.skip_ad = handler,
            ActionKind::Stop => self.stop = handler,
            ActionKind::SeekTo => self.seek_to = handler,
        }
    }

    /// Whether a handler is registered for an action.
    pub fn contains(&self, action: ActionKind) -> (r: bool)
        ensures
            r == (self.spec_get(action) is Some),
    {
        match action {
            ActionKind::Play => self.play.is_some(),
            ActionKind::Pause => self.pause.is_some(),
            ActionKind::SeekBackward => self.seek_backward.is_some(),
            ActionKind::SeekForward => self.seek_forward.is_some(),
            ActionKind::PreviousTrack => self.previous_track.is_some(),
            ActionKind::NextTrack => self.next_track.is_some(),
            ActionKind::SkipAd => self.skip_ad.is_some(),
            ActionKind::Stop => self.stop.is_some(),
            ActionKind::SeekTo => self.seek_to.is_some(),
        }
    }
}

/// Invoke the handler held in a slot, exactly once.
fn call_slot<H: ActionHandler>(slot: &mut Option<H>) -> (r: Result<(), HandlerError>)
    requires
        *old(slot) is Some,
    ensures
        *final(slot) matches Some(h) && h.invocations() == (*old(slot))->0.invocations() + 1,
{
    match slot {
        Some(h) => h.call(),
        None => Err(HandlerError),
    }
}

impl<H: ActionHandler> ActionHandlerRegistry<H> {
    /// Invoke the handler registered for an action, exactly once, leaving
    /// every other registration as it was.
    pub fn invoke(&mut self, action: ActionKind) -> (r: Result<(), HandlerError>)
        requires
            old(self).spec_get(action) is Some,
        ensures
            final(self).spec_get(action) matches Some(h)
                && h.invocations() == old(self).spec_get(action)->0.invocations() + 1,
            forall|b: ActionKind|
                b != action ==> final(self).spec_get(b) == old(self).spec_get(b),
    {
        match action {
            ActionKind::Play => call_slot(&mut self.play),
            ActionKind::Pause => call_slot(&mut self.pause),
            ActionKind::SeekBackward => call_slot(&mut self.seek_backward),
            ActionKind::SeekForward => call_slot(&mut self.seek_forward),
            ActionKind::PreviousTrack => call_slot(&mut self.previous_track),
            ActionKind::NextTrack => call_slot(&mut self.next_track),
            ActionKind::SkipAd => call_slot(&mut self.skip_ad),
            ActionKind::Stop => call_slot(&mut self.stop),
            ActionKind::SeekTo => call_slot(&mut self.seek_to),
        }
    }
}

/// An action handler that records the outcome it reported for each
/// invocation, succeeding or failing as configured.
pub struct CountingHandler {
    /// One entry per invocation: whether the handler reported success.
    pub outcomes: Vec<bool>,
    /// Whether invocations report success.
    pub succeeds: bool,
}

impl CountingHandler {
    /// A handler that was never invoked and will report as configured.
    pub fn new(succeeds: bool) -> (r: CountingHandler)
        ensures
            r.invocations() == 0,
            r.succeeds == succeeds,
    {
        CountingHandler { outcomes: Vec::new(), succeeds }
    }

    /// How many times this handler has been invoked.
    pub fn count(&self) -> (n: usize)
        ensures
            n == self.invocations(),
    {
        self.outcomes.len()
    }
}

impl ActionHandler for CountingHandler {
    open spec fn invocations(&self) -> nat {
        self.outcomes@.len()
    }

    fn call(&mut self) -> (r: Result<(), HandlerError>)
        ensures
            r is Ok <==> old(self).succeeds,
            final(self).succeeds == old(self).succeeds,
    {
        let ok = self.succeeds;
        self.outcomes.push(ok);
        if ok {
            Ok(())
        } else {
            Err(HandlerError)
        }
    }
}

} // verus!
