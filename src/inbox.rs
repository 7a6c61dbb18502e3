//! The connection's routing of decoded frames. Replies and events share one
//! socket: after a subscription, event frames may arrive while a reply is
//! awaited. Each frame goes where its tag's shape says, never where the
//! caller expects: a reply goes to the caller waiting for it, an event waits
//! in arrival order until the listener takes it.
use vstd::prelude::*;
use std::collections::VecDeque;
use crate::decoder::Frame;
use crate::dispatch::{Route, route, route_of};
use crate::error::ProtocolError;
use crate::event::Subscribe;
use crate::msg::Msg;

verus! {

/// An event frame that waits for the listener: its kind and raw payload.
#[derive(Debug)]
pub struct EventFrame {
    pub kind: Subscribe,
    pub payload: Vec<u8>,
}

/// A reply frame: the command it answers and its raw payload.
#[derive(Debug)]
pub struct ReplyFrame {
    pub msg: Msg,
    pub payload: Vec<u8>,
}

/// The events received and not yet taken, oldest first.
pub struct Inbox {
    events: VecDeque<EventFrame>,
}

impl Inbox {
    /// The events waiting, oldest first.
    pub closed spec fn waiting(&self) -> Seq<EventFrame> {
        self.events@
    }

    /// An inbox with no event waiting.
    pub fn new() -> (r: Inbox)
        ensures
            r.waiting() == Seq::<EventFrame>::empty(),
    {
        Inbox { events: VecDeque::new() }
    }

    /// The number of events waiting.
    pub fn len(&self) -> (r: usize)
        ensures
            r == self.waiting().len(),
    {
        self.events.len()
    }

    /// Routes a decoded frame by its tag. A reply is handed back; an event
    /// is queued behind those already waiting and `None` is returned. A tag
    /// that names no command and no event kind is an error, and nothing is
    /// queued.
    pub fn accept(&mut self, frame: Frame) -> (r: Result<Option<ReplyFrame>, ProtocolError>)
        ensures
            (route_of(frame.tag) matches Err(e) ==> r == Err::<Option<ReplyFrame>, ProtocolError>(e)
                && final(self).waiting() == old(self).waiting()),
            (route_of(frame.tag) matches Ok(Route::Reply(m)) ==> (r matches Ok(Some(rf)) && rf.msg
                == m && rf.payload == frame.payload) && final(self).waiting() == old(self).waiting()),
            (route_of(frame.tag) matches Ok(Route::Event(k)) ==> r matches Ok(None)
                && final(self).waiting() == old(self).waiting().push(
                (EventFrame { kind: k, payload: frame.payload }),
            )),
    {
        match route(frame.tag) {
            Err(e) => Err(e),
            Ok(Route::Reply(msg)) => Ok(Some(ReplyFrame { msg, payload: frame.payload })),
            Ok(Route::Event(kind)) => {
                self.events.push_back(EventFrame { kind, payload: frame.payload });
                Ok(None)
            },
        }
    }

    /// Takes the oldest waiting event, if any.
    pub fn take_event(&mut self) -> (r: Option<EventFrame>)
        ensures
            old(self).waiting().len() == 0 ==> r is None && final(self).waiting() == old(self).waiting(),
            old(self).waiting().len() > 0 ==> r == Some(old(self).waiting()[0]) && final(self).waiting()
                == old(self).waiting().drop_first(),
    {
        self.events.pop_front()
    }
}

} // verus!
