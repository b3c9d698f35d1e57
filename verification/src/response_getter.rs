//! The getter that a client holds for one outstanding request.

use crate::data::{Data, DataRequest, NameType};
use crate::errors::CoreError;
use crate::message_queue::{outcome_view, MessageQueue, QueueView};
use crate::sync::guarded_queue;
use crate::translated_events::DataReceivedEvent;
use std::sync::mpsc::{Receiver, RecvError, Sender};
use std::sync::{Arc, Mutex, PoisonError};
use vstd::prelude::*;

verus! {

/// What one resolution hands back and what it leaves in the message queue.
pub struct Resolution {
    /// The response, or the failure.
    pub result: Result<Seq<u8>, CoreError>,
    /// The message queue afterwards.
    pub queue: QueueView,
}

/// What the first signal on the channel means for the getter: `Ok` to go on
/// to the message queue, or the failure to stop with.
pub open spec fn signal_verdict(received: Result<DataReceivedEvent, RecvError>) -> Result<
    (),
    CoreError,
> {
    match received {
        Ok(DataReceivedEvent::DataReceived) => Ok(()),
        Ok(DataReceivedEvent::Terminated) => Err(CoreError::OperationAborted),
        Err(_) => Err(CoreError::ReceiveFailure),
    }
}

/// The work on the message queue after a `DataReceived` signal: the delivered
/// response under `name` is handed out, and memoized when the request is
/// cacheable. A miss changes nothing.
pub open spec fn fetched(queue: QueueView, name: Seq<u8>, cacheable: bool) -> Resolution {
    match queue.get_response(name) {
        Ok(data) => Resolution {
            result: Ok(data),
            queue: if cacheable {
                queue.local_cache_insert(name, data)
            } else {
                queue
            },
        },
        Err(error) => Resolution { result: Err(error), queue },
    }
}

/// The whole of one resolution, given what the surroundings did.
///
/// `networked` says whether the getter has a channel, `received` is the first
/// signal on it (not looked at without a channel), `locked` says whether the
/// lock could be taken, and `queue` is the message queue as it stood under
/// the lock (or as it stands, where the lock is never asked for).
pub open spec fn resolution(
    networked: bool,
    request: DataRequest,
    received: Result<DataReceivedEvent, RecvError>,
    locked: bool,
    queue: QueueView,
) -> Resolution {
    let name = request.name()@;
    if networked {
        match signal_verdict(received) {
            Err(error) => Resolution { result: Err(error), queue },
            Ok(_) => if locked {
                fetched(queue, name, request.is_cacheable())
            } else {
                Resolution { result: Err(CoreError::MutexPoisoned), queue }
            },
        }
    } else {
        if locked {
            Resolution { result: queue.local_cache_get(name), queue }
        } else {
            Resolution { result: Err(CoreError::MutexPoisoned), queue }
        }
    }
}

/// A lazily evaluated response getter. It fetches either from the local cache
/// or, where it has a channel, waits for the message queue to signal that the
/// response has come in from the network.
pub struct ResponseGetter {
    data_channel: Option<(Sender<DataReceivedEvent>, Receiver<DataReceivedEvent>)>,
    message_queue: Arc<Mutex<MessageQueue>>,
    requested_name: NameType,
    requested_type: DataRequest,
}

impl ResponseGetter {
    /// The name a getter looks under is the name of its request.
    #[verifier::type_invariant]
    spec fn well_formed(&self) -> bool {
        self.requested_name == self.requested_type.name()
    }

    /// The channel the getter waits on, if it has one.
    pub closed spec fn data_channel(&self) -> Option<
        (Sender<DataReceivedEvent>, Receiver<DataReceivedEvent>),
    > {
        self.data_channel
    }

    /// The shared message queue the getter reads from.
    pub closed spec fn message_queue(&self) -> Arc<Mutex<MessageQueue>> {
        self.message_queue
    }

    /// The request the getter was made for.
    pub closed spec fn requested_type(&self) -> DataRequest {
        self.requested_type
    }

    /// The name the getter looks under in the message queue.
    pub closed spec fn requested_name(&self) -> NameType {
        self.requested_name
    }

    /// Creates a getter for `requested_type`, which looks under the name of
    /// that request. With a channel it will wait for a signal before it reads
    /// the delivered response; without one it reads the local cache only.
    pub fn new(
        data_channel: Option<(Sender<DataReceivedEvent>, Receiver<DataReceivedEvent>)>,
        message_queue: Arc<Mutex<MessageQueue>>,
        requested_type: DataRequest,
    ) -> (getter: ResponseGetter)
        ensures
            getter.data_channel() == data_channel,
            getter.message_queue() == message_queue,
            getter.requested_type() == requested_type,
            getter.requested_name() == requested_type.name(),
    {
        ResponseGetter {
            data_channel,
            message_queue,
            requested_name: requested_type.name(),
            requested_type,
        }
    }

    /// Decides on the first signal whether to go on to the message queue.
    /// Only `DataReceived` lets the getter go on; `Terminated` aborts, and a
    /// channel that was disconnected without a signal is a failure of its own.
    pub fn on_received(received: Result<DataReceivedEvent, RecvError>) -> (verdict: Result<
        (),
        CoreError,
    >)
        ensures
            verdict == signal_verdict(received),
    {
        match received {
            Ok(DataReceivedEvent::DataReceived) => Ok(()),
            Ok(DataReceivedEvent::Terminated) => Err(CoreError::OperationAborted),
            Err(_) => Err(CoreError::ReceiveFailure),
        }
    }

    /// Turns a refused lock into `MutexPoisoned` and hands a granted one
    /// through.
    pub fn on_locked<G>(locked: Result<G, PoisonError<G>>) -> (granted: Result<G, CoreError>)
        ensures
            match locked {
                Ok(guard) => granted == Ok::<G, CoreError>(guard),
                Err(_) => granted == Err::<G, CoreError>(CoreError::MutexPoisoned),
            },
    {
        match locked {
            Ok(guard) => Ok(guard),
            Err(_) => Err(CoreError::MutexPoisoned),
        }
    }

    /// Reads the delivered response for this getter's request out of `queue`
    /// and, for a cacheable request, memoizes it there. To be called with
    /// the lock held, after a `DataReceived` signal.
    pub fn fetch_response(&self, queue: &mut MessageQueue) -> (result: Result<Data, CoreError>)
        ensures
            outcome_view(result) == fetched(
                old(queue)@,
                self.requested_type().name()@,
                self.requested_type().is_cacheable(),
            ).result,
            final(queue)@ == fetched(
                old(queue)@,
                self.requested_type().name()@,
                self.requested_type().is_cacheable(),
            ).queue,
    {
        proof {
            use_type_invariant(self);
        }
        match queue.get_response(&self.requested_name) {
            Ok(response) => {
                if self.requested_type.is_cacheable() {
                    queue.local_cache_insert(self.requested_name, response.clone());
                }
                Ok(response)
            },
            Err(error) => Err(error),
        }
    }

    /// Reads the cached response for this getter's request out of `queue`.
    /// To be called with the lock held.
    pub fn fetch_cached(&self, queue: &MessageQueue) -> (result: Result<Data, CoreError>)
        ensures
            outcome_view(result) == queue@.local_cache_get(self.requested_type().name()@),
    {
        proof {
            use_type_invariant(self);
        }
        queue.local_cache_get(&self.requested_name)
    }

    /// Gets the response: from the local cache where the getter has no
    /// channel, else from the message queue once the channel has signalled
    /// that the response has come in. With a channel this blocks until the
    /// first signal; the lock is taken only after that signal and is held
    /// only while the message queue is read and the response memoized.
    ///
    /// The signal, the state of the lock and the contents of the message
    /// queue are in the hands of other threads. The result is the one that
    /// `resolution` gives for the signal that arrived, the lock as it was
    /// found and the queue as it stood under the lock.
    ///
    /// The calling thread must not hold the lock of the message queue, unless
    /// the getter has a channel on which `Terminated` is the first signal.
    pub fn get(&self) -> (result: Result<Data, CoreError>)
        ensures
            exists|received: Result<DataReceivedEvent, RecvError>, locked: bool, queue: QueueView|
                outcome_view(result) == #[trigger] resolution(
                    self.data_channel() is Some,
                    self.requested_type(),
                    received,
                    locked,
                    queue,
                ).result,
    {
        let ghost request = self.requested_type;
        match &self.data_channel {
            Some((_, data_receiver)) => {
                let received = data_receiver.recv();
                match Self::on_received(received) {
                    Err(error) => {
                        assert(resolution(true, request, received, true, QueueView::empty()).result
                            == Err::<Seq<u8>, CoreError>(error));
                        Err(error)
                    },
                    Ok(_) => match Self::on_locked(self.message_queue.lock()) {
                        Err(error) => {
                            assert(resolution(
                                true,
                                request,
                                received,
                                false,
                                QueueView::empty(),
                            ).result == Err::<Seq<u8>, CoreError>(error));
                            Err(error)
                        },
                        Ok(mut guard) => {
                            let queue = guarded_queue(&mut guard);
                            let ghost before = queue@;
                            let result = self.fetch_response(queue);
                            assert(resolution(true, request, received, true, before).result
                                == outcome_view(result));
                            result
                        },
                    },
                }
            },
            None => match Self::on_locked(self.message_queue.lock()) {
                Err(error) => {
                    assert(resolution(
                        false,
                        request,
                        Ok(DataReceivedEvent::DataReceived),
                        false,
                        QueueView::empty(),
                    ).result == Err::<Seq<u8>, CoreError>(error));
                    Err(error)
                },
                Ok(mut guard) => {
                    let queue = guarded_queue(&mut guard);
                    let ghost before = queue@;
                    let result = self.fetch_cached(queue);
                    assert(resolution(
                        false,
                        request,
                        Ok(DataReceivedEvent::DataReceived),
                        true,
                        before,
                    ).result == outcome_view(result));
                    result
                },
            },
        }
    }

    /// The sending half of the getter's channel, if it has one. Sending
    /// `Terminated` on it ends a wait in `get` with `OperationAborted`,
    /// provided no other signal was sent before.
    pub fn get_sender(&self) -> (sender: Option<&Sender<DataReceivedEvent>>)
        ensures
            sender == match self.data_channel() {
                Some(channel) => Some(&channel.0),
                None => None,
            },
    {
        match &self.data_channel {
            Some((sender, _)) => Some(sender),
            None => None,
        }
    }
}

} // verus!
