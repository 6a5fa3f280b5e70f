//! The live-reload channel: the two messages of its wire protocol, and what a
//! listener's connection does with the signals it waits for.

use vstd::prelude::*;

verus! {

/// A message to a connected client. On the wire it is a JSON object with the
/// one member that names it.
#[derive(Debug, Clone, Copy, PartialEq, Eq, Structural)]
pub enum LiveReloadMessage {
    /// A rebuild has begun.
    Loading { loading: bool },
    /// The rebuild is done: reload the page.
    Reload { reload: bool },
}

impl LiveReloadMessage {
    /// The JSON text of the message.
    pub open spec fn json(self) -> Seq<char> {
        match self {
            LiveReloadMessage::Loading { loading: true } => "{\"loading\":true}"@,
            LiveReloadMessage::Loading { loading: false } => "{\"loading\":false}"@,
            LiveReloadMessage::Reload { reload: true } => "{\"reload\":true}"@,
            LiveReloadMessage::Reload { reload: false } => "{\"reload\":false}"@,
        }
    }

    /// The JSON text frame that carries the message.
    pub fn to_json(&self) -> (text: String)
        ensures
            text@ == self.json(),
    {
        match self {
            LiveReloadMessage::Loading { loading: true } => "{\"loading\":true}".to_owned(),
            LiveReloadMessage::Loading { loading: false } => "{\"loading\":false}".to_owned(),
            LiveReloadMessage::Reload { reload: true } => "{\"reload\":true}".to_owned(),
            LiveReloadMessage::Reload { reload: false } => "{\"reload\":false}".to_owned(),
        }
    }
}

/// The signals that are ready when a connection wakes up.
#[derive(Debug, Clone, Copy, PartialEq, Eq, Structural)]
pub struct Pending {
    /// A build is done.
    pub reload: bool,
    /// A rebuild has begun.
    pub loading: bool,
    /// The session ends.
    pub shutdown: bool,
}

/// What a connection does next.
#[derive(Debug, Clone, Copy, PartialEq, Eq, Structural)]
pub enum ListenerStep {
    /// Send the message, then wait again.
    Send(LiveReloadMessage),
    /// Close the connection.
    Close,
    /// Nothing is ready: wait.
    Wait,
}

/// What a connection does when it wakes up with `pending`. A closed connection
/// stays closed. The shutdown goes before everything else; of the two
/// notifications the loading one, which was raised first, goes first.
pub open spec fn listener_step(open: bool, pending: Pending) -> ListenerStep {
    if !open || pending.shutdown {
        ListenerStep::Close
    } else if pending.loading {
        ListenerStep::Send(LiveReloadMessage::Loading { loading: true })
    } else if pending.reload {
        ListenerStep::Send(LiveReloadMessage::Reload { reload: true })
    } else {
        ListenerStep::Wait
    }
}

/// What is still pending after the step that a connection takes when it wakes
/// up with `pending`: the signal that the step sends is no longer pending; all
/// else is as it was.
pub open spec fn pending_left(open: bool, pending: Pending) -> Pending {
    if !open || pending.shutdown {
        pending
    } else if pending.loading {
        Pending { loading: false, ..pending }
    } else if pending.reload {
        Pending { reload: false, ..pending }
    } else {
        pending
    }
}

/// The connection of one live-reload listener. It takes no input from its
/// client: it only sends, until the session ends or a send fails.
#[derive(Debug)]
pub struct Listener {
    open: bool,
}

impl Listener {
    /// Whether the connection is open.
    pub closed spec fn is_open(&self) -> bool {
        self.open
    }

    /// An open connection.
    pub fn new() -> (l: Listener)
        ensures
            l.is_open(),
    {
        Listener { open: true }
    }

    /// Whether the connection is open.
    pub fn open(&self) -> (r: bool)
        ensures
            r == self.is_open(),
    {
        self.open
    }

    /// The connection woke up with `pending` ready. It takes one step, and
    /// the signal that the step answers is taken out of `pending`.
    pub fn on_ready(&mut self, pending: &mut Pending) -> (step: ListenerStep)
        ensures
            step == listener_step(old(self).is_open(), *old(pending)),
            *final(pending) == pending_left(old(self).is_open(), *old(pending)),
            final(self).is_open() == (old(self).is_open() && !old(pending).shutdown),
    {
        if !self.open || pending.shutdown {
            self.open = false;
            ListenerStep::Close
        } else if pending.loading {
            pending.loading = false;
            ListenerStep::Send(LiveReloadMessage::Loading { loading: true })
        } else if pending.reload {
            pending.reload = false;
            ListenerStep::Send(LiveReloadMessage::Reload { reload: true })
        } else {
            ListenerStep::Wait
        }
    }

    /// A send has ended. The connection stays open only if the message was
    /// delivered.
    pub fn on_sent(&mut self, delivered: bool)
        ensures
            final(self).is_open() == (old(self).is_open() && delivered),
    {
        if !delivered {
            self.open = false;
        }
    }
}

/// Whatever else is ready, a pending shutdown closes the connection and
/// nothing is sent.
pub proof fn law_shutdown_goes_first(open: bool, pending: Pending)
    requires
        pending.shutdown,
    ensures
        listener_step(open, pending) == ListenerStep::Close,
{
}

/// A connection that wakes up with both notifications pending sends the
/// loading one first and the reload one next, and then has nothing left to
/// send.
pub proof fn law_loading_goes_before_reload(pending: Pending)
    requires
        pending.loading,
        pending.reload,
        !pending.shutdown,
    ensures
        listener_step(true, pending) == ListenerStep::Send(
            LiveReloadMessage::Loading { loading: true },
        ),
        listener_step(true, pending_left(true, pending)) == ListenerStep::Send(
            LiveReloadMessage::Reload { reload: true },
        ),
        listener_step(true, pending_left(true, pending_left(true, pending))) == ListenerStep::Wait,
{
}

} // verus!
