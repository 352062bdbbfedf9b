use vstd::prelude::*;

verus! {

/// Who asked for the run to stop.
#[derive(Clone, Copy, Debug, PartialEq, Eq, Structural)]
pub enum ShutdownCause {
    /// The operating system delivered an interrupt.
    Interrupt,
    /// The workflow finished its work.
    Completed,
    /// The workflow hit a fatal error.
    Failed,
}

/// A single-assignment cancellation signal: the first publish wins, later
/// ones change nothing, and every holder sees the same final state.
#[derive(Debug)]
pub struct ShutdownCoordinator {
    cause: Option<ShutdownCause>,
}

impl View for ShutdownCoordinator {
    type V = Option<ShutdownCause>;

    /// The cause of the winning publish, if any.
    closed spec fn view(&self) -> Option<ShutdownCause> {
        self.cause
    }
}

/// The state of the signal after a publish of `cause`.
pub open spec fn published(state: Option<ShutdownCause>, cause: ShutdownCause) -> Option<ShutdownCause> {
    match state {
        Some(first) => Some(first),
        None => Some(cause),
    }
}

impl ShutdownCoordinator {
    /// A signal that nobody has published to.
    pub fn new() -> (r: ShutdownCoordinator)
        ensures
            r@ == None::<ShutdownCause>,
    {
        ShutdownCoordinator { cause: None }
    }

    /// Publishes `cause`. Returns whether this call was the first publish; a
    /// later publish leaves the signal as it was.
    pub fn publish(&mut self, cause: ShutdownCause) -> (first: bool)
        ensures
            first == (old(self)@ is None),
            final(self)@ == published(old(self)@, cause),
    {
        match self.cause {
            Some(_) => false,
            None => {
                self.cause = Some(cause);
                true
            },
        }
    }

    /// Whether the signal has been published.
    pub fn is_published(&self) -> (r: bool)
        ensures
            r == (self@ is Some),
    {
        self.cause.is_some()
    }

    /// The cause of the first publish, if there was one.
    pub fn cause(&self) -> (r: Option<ShutdownCause>)
        ensures
            r == self@,
    {
        self.cause
    }

    /// A handle that resolves once, when the signal is published.
    pub fn subscribe(&self) -> (r: Subscription)
        ensures
            !r@,
    {
        Subscription { resolved: false }
    }
}

/// A subscriber's view of the signal: resolves exactly once.
#[derive(Debug)]
pub struct Subscription {
    resolved: bool,
}

impl View for Subscription {
    type V = bool;

    /// Whether the handle has resolved.
    closed spec fn view(&self) -> bool {
        self.resolved
    }
}

impl Subscription {
    /// Returns `true` on the first poll that finds the signal published, and
    /// `false` on every other poll.
    pub fn poll(&mut self, bus: &ShutdownCoordinator) -> (fired: bool)
        ensures
            fired == (!old(self)@ && bus@ is Some),
            final(self)@ == (old(self)@ || bus@ is Some),
    {
        if !self.resolved && bus.cause.is_some() {
            self.resolved = true;
            true
        } else {
            false
        }
    }
}

/// A second publish, after a first, is a no-op: it reports that it was not
/// first and leaves the winning cause in place.
pub proof fn lemma_second_publish_is_noop(first: ShutdownCause, second: ShutdownCause)
    ensures
        published(published(None, first), second) == Some(first),
        published(published(None, first), second) == published(None, first),
{
}

} // verus!
