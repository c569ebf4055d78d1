//! The task that owns one socket: what it does when something happens on
//! the socket or when the keepalive timer fires.

use crate::error::{DataError, SocketError};
use crate::event::MarketEvent;
use crate::exchange::Connector;
use crate::model::Timestamp;
use crate::subscription::{SubKind, SubscriptionId};
use crate::transformer::{is_event_about, StatelessTransformer};
use vstd::prelude::*;

verus! {

/// What woke the task.
#[derive(Debug)]
pub enum Occurrence<T> {
    /// The keepalive timer fired.
    Tick,
    /// A message came in: the identifier that it carries, if any, the time
    /// at which it came, and what it reports, each item with the time that the
    /// exchange gives for it.
    Message { id: Option<SubscriptionId>, received_time: Timestamp, items: Vec<(Timestamp, T)> },
    /// A frame came in that is no message: it could not be read, or it is a
    /// ping, a pong or the like.
    Unreadable,
    /// The stream of the socket ended.
    Ended,
    /// The socket failed: a frame could not be received, or the keepalive
    /// frame could not be sent.
    Broken(SocketError),
    /// Nobody listens any more: the receiver of the events is gone.
    Abandoned,
}

/// What the task does next.
#[derive(Debug)]
pub enum Task<T> {
    /// Go on waiting for the socket and the timer.
    Wait,
    /// Send the keepalive frame, then go on waiting.
    Ping,
    /// Hand these events to the receiver, in this order, then go on waiting.
    Forward(Vec<Result<MarketEvent<T>, DataError>>),
    /// Close the socket and end, because of the error if there is one.
    Stop(Option<SocketError>),
}

/// Says what the task that owns a socket does next, told what woke it.
///
/// When the timer fires the keepalive frame is sent where the exchange wants
/// one. A message about an instrument that was subscribed to is handed on as
/// its events, one for each item and in the order of the items. A message
/// that carries no identifier or an unknown one, or no item, and a frame that
/// is no message are passed over: one bad frame does not end the task. The end
/// of the stream, a failure of the socket and the loss of the receiver end the
/// task.
pub fn consume<Exchange: Connector, Kind: SubKind>(
    transformer: &StatelessTransformer<Exchange, Kind>,
    keepalive: bool,
    occurrence: Occurrence<Kind::Event>,
) -> (task: Task<Kind::Event>)
    ensures
        match occurrence {
            Occurrence::Tick => if keepalive {
                task is Ping
            } else {
                task is Wait
            },
            Occurrence::Message { id, received_time, items } => match id {
                Some(id) => if transformer.instrument_map@.dom().contains(id@) && items@.len() > 0 {
                    task matches Task::Forward(events) && events@.len() == items@.len() && forall|
                        i: int,
                    |
                        0 <= i < items@.len() ==> is_event_about(
                            #[trigger] events@[i],
                            transformer.instrument_map@,
                            id@,
                            Exchange::exchange(),
                            received_time,
                            items@[i],
                        )
                } else {
                    task is Wait
                },
                None => task is Wait,
            },
            Occurrence::Unreadable => task is Wait,
            Occurrence::Ended => task == Task::<Kind::Event>::Stop(None),
            Occurrence::Broken(error) => task == Task::<Kind::Event>::Stop(Some(error)),
            Occurrence::Abandoned => task == Task::<Kind::Event>::Stop(None),
        },
{
    match occurrence {
        Occurrence::Tick => {
            if keepalive {
                Task::Ping
            } else {
                Task::Wait
            }
        },
        Occurrence::Message { id, received_time, items } => {
            if items.len() == 0 {
                return Task::Wait;
            }
            let events = transformer.transform(id, received_time, items);
            if events.len() == 0 {
                return Task::Wait;
            }
            match &events[0] {
                Ok(_) => Task::Forward(events),
                Err(_) => Task::Wait,
            }
        },
        Occurrence::Unreadable => Task::Wait,
        Occurrence::Ended => Task::Stop(None),
        Occurrence::Broken(error) => Task::Stop(Some(error)),
        Occurrence::Abandoned => Task::Stop(None),
    }
}

} // verus!
