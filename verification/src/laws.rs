//! What holds of every resolution, whatever the surroundings do.
//!
//! The laws are stated over `resolution`, the model that `get` follows, and
//! over the views of the message queue that its methods are specified by.

use crate::data::DataRequest;
use crate::errors::CoreError;
use crate::message_queue::QueueView;
use crate::response_getter::{resolution, Resolution};
use crate::translated_events::DataReceivedEvent;
use std::sync::mpsc::RecvError;
use vstd::prelude::*;

verus! {

/// A getter without a channel that gets the lock hands back exactly what the
/// local cache answers for the requested name at that moment, a miss
/// included, and leaves the message queue as it was.
pub proof fn cache_only_resolution_is_cache_lookup(
    request: DataRequest,
    received: Result<DataReceivedEvent, RecvError>,
    queue: QueueView,
)
    ensures
        resolution(false, request, received, true, queue) == (Resolution {
            result: queue.local_cache_get(request.name()@),
            queue,
        }),
{
}

/// A getter without a channel never reports an outcome of the channel.
pub proof fn cache_only_resolution_never_waits(
    request: DataRequest,
    received: Result<DataReceivedEvent, RecvError>,
    locked: bool,
    queue: QueueView,
)
    ensures
        resolution(false, request, received, locked, queue).result != Err::<Seq<u8>, CoreError>(
            CoreError::OperationAborted,
        ),
        resolution(false, request, received, locked, queue).result != Err::<Seq<u8>, CoreError>(
            CoreError::ReceiveFailure,
        ),
{
}

/// A getter with a channel whose first signal is `Terminated` reports
/// `OperationAborted` and leaves the message queue untouched, whatever the
/// queue holds and whether or not the lock could have been taken.
pub proof fn terminated_aborts_and_leaves_queue(
    request: DataRequest,
    locked: bool,
    queue: QueueView,
)
    ensures
        resolution(true, request, Ok(DataReceivedEvent::Terminated), locked, queue) == (Resolution {
            result: Err(CoreError::OperationAborted),
            queue,
        }),
{
}

/// A getter with a channel whose channel is disconnected before any signal
/// reports `ReceiveFailure` and leaves the message queue untouched.
pub proof fn disconnected_fails_and_leaves_queue(
    request: DataRequest,
    failure: RecvError,
    locked: bool,
    queue: QueueView,
)
    ensures
        resolution(true, request, Err(failure), locked, queue) == (Resolution {
            result: Err(CoreError::ReceiveFailure),
            queue,
        }),
{
}

/// A resolution that cannot take the lock leaves the message queue untouched,
/// and reports `MutexPoisoned` unless the channel has ended it before.
pub proof fn refused_lock_leaves_queue(
    networked: bool,
    request: DataRequest,
    received: Result<DataReceivedEvent, RecvError>,
    queue: QueueView,
)
    ensures
        resolution(networked, request, received, false, queue).queue == queue,
        resolution(networked, request, received, false, queue).result is Err,
        !networked || received == Ok::<DataReceivedEvent, RecvError>(
            DataReceivedEvent::DataReceived,
        ) ==> resolution(networked, request, received, false, queue).result == Err::<
            Seq<u8>,
            CoreError,
        >(CoreError::MutexPoisoned),
{
}

/// For a cacheable request, after `DataReceived` and with a response
/// delivered under the requested name, the getter hands back that response,
/// and a cache lookup under the same name then answers with the same data.
/// The delivered responses stay as they were.
pub proof fn cacheable_response_is_memoized(request: DataRequest, queue: QueueView, data: Seq<u8>)
    requires
        request.is_cacheable(),
        queue.get_response(request.name()@) == Ok::<Seq<u8>, CoreError>(data),
    ensures
        resolution(true, request, Ok(DataReceivedEvent::DataReceived), true, queue).result == Ok::<
            Seq<u8>,
            CoreError,
        >(data),
        resolution(
            true,
            request,
            Ok(DataReceivedEvent::DataReceived),
            true,
            queue,
        ).queue.local_cache_get(request.name()@) == Ok::<Seq<u8>, CoreError>(data),
        resolution(true, request, Ok(DataReceivedEvent::DataReceived), true, queue).queue.responses
            == queue.responses,
{
}

/// A resolution for a request that is not cacheable never writes to the
/// message queue, whatever the surroundings do.
pub proof fn uncacheable_resolution_leaves_queue(
    networked: bool,
    request: DataRequest,
    received: Result<DataReceivedEvent, RecvError>,
    locked: bool,
    queue: QueueView,
)
    requires
        !request.is_cacheable(),
    ensures
        resolution(networked, request, received, locked, queue).queue == queue,
{
}

/// For a request that is not cacheable, after a resolution that handed out
/// the delivered response, a name that the cache did not hold before is
/// still not found in it.
pub proof fn uncacheable_response_stays_uncached(request: DataRequest, queue: QueueView)
    requires
        !request.is_cacheable(),
        queue.get_response(request.name()@) is Ok,
        queue.local_cache_get(request.name()@) is Err,
    ensures
        resolution(true, request, Ok(DataReceivedEvent::DataReceived), true, queue).result
            == queue.get_response(request.name()@),
        resolution(
            true,
            request,
            Ok(DataReceivedEvent::DataReceived),
            true,
            queue,
        ).queue.local_cache_get(request.name()@) == Err::<Seq<u8>, CoreError>(CoreError::NotFound),
{
}

/// After `DataReceived`, a getter that finds nothing delivered under the
/// requested name reports `NotFound` and leaves the message queue untouched,
/// cacheable or not.
pub proof fn missing_response_is_not_found(request: DataRequest, queue: QueueView)
    requires
        queue.get_response(request.name()@) is Err,
    ensures
        resolution(true, request, Ok(DataReceivedEvent::DataReceived), true, queue) == (Resolution {
            result: Err(CoreError::NotFound),
            queue,
        }),
{
}

/// Caching the same data under the same name a second time changes nothing:
/// the queue is the same as after the first time, and so is the answer of
/// the cache for every name.
pub proof fn cache_insert_is_idempotent(
    queue: QueueView,
    name: Seq<u8>,
    data: Seq<u8>,
    asked: Seq<u8>,
)
    ensures
        queue.local_cache_insert(name, data).local_cache_insert(name, data)
            == queue.local_cache_insert(name, data),
        queue.local_cache_insert(name, data).local_cache_insert(name, data).local_cache_get(asked)
            == queue.local_cache_insert(name, data).local_cache_get(asked),
        queue.local_cache_insert(name, data).local_cache_get(name) == Ok::<Seq<u8>, CoreError>(
            data,
        ),
{
    let once = queue.local_cache_insert(name, data);
    let twice = once.local_cache_insert(name, data);
    assert(twice.local_cache =~= once.local_cache);
}

} // verus!
