use vstd::prelude::*;
use crate::hub::{receive_spec, subscribe_spec, Delivery, Hub, HubView, Received, Subscription};
use crate::message::{Message, MessageView};

verus! {

/// Where one client's event stream stands.
#[derive(Debug, Clone, Copy, PartialEq, Eq, Structural)]
pub enum StreamState {
    /// Waiting for or forwarding messages.
    Active,
    /// Finished; nothing more is sent.
    Closed,
}

/// What the stream's driver does next.
#[derive(Debug, PartialEq, Eq)]
pub enum StreamAction {
    /// Send this message to the client as one event.
    Emit(Message),
    /// Messages were skipped for lag; ask again at once.
    Skip,
    /// Nothing new: wait for a publish, a shutdown or a disconnect.
    Wait,
    /// End the stream.
    Stop,
}

pub enum ActionView {
    Emit(MessageView),
    Skip,
    Wait,
    Stop,
}

impl View for StreamAction {
    type V = ActionView;

    open spec fn view(&self) -> ActionView {
        match self {
            StreamAction::Emit(m) => ActionView::Emit(m@),
            StreamAction::Skip => ActionView::Skip,
            StreamAction::Wait => ActionView::Wait,
            StreamAction::Stop => ActionView::Stop,
        }
    }
}

/// A stream as a value: its hub cursor and its state.
pub struct StreamView {
    pub cursor: nat,
    pub state: StreamState,
}

/// One decision of a stream. A closed stream stays closed. A shutdown or a
/// disconnect closes an active one. Otherwise the next receive decides: a
/// message is emitted, a lag is skipped, nothing new means waiting, and a
/// closed hub ends the stream.
pub open spec fn next_spec(s: StreamView, v: HubView, shutdown: bool, disconnected: bool) -> (
    StreamView,
    ActionView,
) {
    if s.state == StreamState::Closed {
        (s, ActionView::Stop)
    } else if shutdown || disconnected {
        (StreamView { state: StreamState::Closed, ..s }, ActionView::Stop)
    } else {
        let (d, c) = receive_spec(v, s.cursor);
        match d {
            Delivery::Got(m) => (StreamView { cursor: c, state: StreamState::Active }, ActionView::Emit(m)),
            Delivery::Lagged(_) => (StreamView { cursor: c, state: StreamState::Active }, ActionView::Skip),
            Delivery::Empty => (StreamView { cursor: c, state: StreamState::Active }, ActionView::Wait),
            Delivery::Closed => (StreamView { cursor: c, state: StreamState::Closed }, ActionView::Stop),
        }
    }
}

/// One client's event stream over the hub.
pub struct Subscriber {
    sub: Subscription,
    state: StreamState,
}

impl View for Subscriber {
    type V = StreamView;

    closed spec fn view(&self) -> StreamView {
        StreamView { cursor: self.sub@, state: self.state }
    }
}

impl Subscriber {
    /// Subscribes to `hub`: the stream starts after everything published so
    /// far.
    pub fn new(hub: &mut Hub) -> (s: Subscriber)
        requires
            old(hub).wf(),
            old(hub)@.subscribers < usize::MAX,
        ensures
            final(hub).wf(),
            final(hub)@ == subscribe_spec(old(hub)@),
            s@ == (StreamView { cursor: old(hub)@.history.len(), state: StreamState::Active }),
    {
        let sub = hub.subscribe();
        Subscriber { sub, state: StreamState::Active }
    }

    /// Decides what the stream does next, given whether shutdown was
    /// signalled and whether the client has gone.
    pub fn next(&mut self, hub: &Hub, shutdown: bool, disconnected: bool) -> (a: StreamAction)
        requires
            hub.wf(),
        ensures
            (final(self)@, a@) == next_spec(old(self)@, hub@, shutdown, disconnected),
    {
        if self.state == StreamState::Closed {
            return StreamAction::Stop;
        }
        if shutdown || disconnected {
            self.state = StreamState::Closed;
            return StreamAction::Stop;
        }
        match hub.receive(&mut self.sub) {
            Received::Message(m) => StreamAction::Emit(m),
            Received::Lagged(_) => StreamAction::Skip,
            Received::Empty => StreamAction::Wait,
            Received::Closed => {
                self.state = StreamState::Closed;
                StreamAction::Stop
            },
        }
    }

    pub fn state(&self) -> (s: StreamState)
        ensures
            s == self@.state,
    {
        self.state
    }

    /// Ends the stream's subscription.
    pub fn finish(self, hub: &mut Hub)
        requires
            old(hub).wf(),
        ensures
            final(hub).wf(),
            final(hub)@ == (HubView {
                subscribers: if old(hub)@.subscribers > 0 { (old(hub)@.subscribers - 1) as nat } else { 0 },
                ..old(hub)@
            }),
    {
        hub.unsubscribe(self.sub);
    }
}

/// Shutdown ends every stream at its next decision, whatever each was
/// doing, and without an error: each one stops and is closed from then on.
pub proof fn shutdown_stops_every_stream(streams: Seq<StreamView>, v: HubView, disconnected: Seq<bool>)
    requires
        disconnected.len() == streams.len(),
    ensures
        forall|i: int|
            0 <= i < streams.len() ==> {
                let (s, a) = #[trigger] next_spec(streams[i], v, true, disconnected[i]);
                &&& a == ActionView::Stop
                &&& s.state == StreamState::Closed
                &&& s.cursor == streams[i].cursor
                &&& forall|w: HubView, sh: bool, d: bool| next_spec(s, w, sh, d) == (s, ActionView::Stop)
            },
{
}

} // verus!
