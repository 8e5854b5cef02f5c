//! What locks and route lookups ask, and what the answers mean.
use crate::api::BrokerOuterAPI;
use crate::codes::RequestCode;
use crate::command::{Invocation, RemotingCommand, RocketmqError};
use crate::queue_lock::LockStep;
use vstd::prelude::*;

verus! {

/// Locking and unlocking send the list of queues as it is given to the address that is
/// given, in the time that is given, and differ in what they ask for.
pub proof fn lemma_lock_and_unlock(
    api: &BrokerOuterAPI,
    broker: &str,
    body: Vec<u8>,
    timeout: u64,
    lock: Invocation,
    unlock: Invocation,
)
    requires
        call_ensures(BrokerOuterAPI::lock_batch_mq_async, (api, broker, body, timeout), lock),
        call_ensures(BrokerOuterAPI::unlock_batch_mq_async, (api, broker, body, timeout), unlock),
    ensures
        lock matches Invocation::Async { addr, request, timeout_millis } && {
            &&& addr is Some
            &&& addr->0@ == broker@
            &&& timeout_millis == timeout
            &&& request.code == RequestCode::LockBatchMq
            &&& request.header is LockBatchMq
            &&& request.body is Bytes
            &&& request.body->Bytes_0@ == body@
        },
        unlock matches Invocation::Async { addr, request, timeout_millis } && {
            &&& addr is Some
            &&& addr->0@ == broker@
            &&& timeout_millis == timeout
            &&& request.code == RequestCode::UnlockBatchMq
            &&& request.header is UnlockBatchMq
            &&& request.body is Bytes
            &&& request.body->Bytes_0@ == body@
        },
{
}

/// A response to a lock request can be read unless it is a success without a body; one
/// to a route lookup always. Each comes with what its body decodes to.
pub proof fn lemma_answers_can_be_read<S, E>(
    api: &BrokerOuterAPI,
    response: RemotingCommand,
    decoded: Option<S>,
    failure: E,
)
    requires
        response.code == 0 && response.body is Some ==> decoded is Some,
    ensures
        response.code != 0 || response.body is Some ==> {
            &&& call_requires(BrokerOuterAPI::lock_body_to_decode, (api, &response))
            &&& call_requires(
                BrokerOuterAPI::lock_batch_mq_response::<S, E>,
                (api, Ok((response, decoded))),
            )
        },
        call_requires(BrokerOuterAPI::lock_batch_mq_response::<S, E>, (api, Err(failure))),
        call_requires(
            BrokerOuterAPI::topic_route_info_response::<S, E>,
            (api, Ok((response, decoded))),
        ),
        call_requires(BrokerOuterAPI::topic_route_info_response::<S, E>, (api, Err(failure))),
{
}

/// The body of a success is decoded, as it is; of a refusal nothing is.
pub proof fn lemma_locked_queues_to_decode<'a>(
    api: &BrokerOuterAPI,
    response: &'a RemotingCommand,
    r: Option<&'a Vec<u8>>,
)
    requires
        call_ensures(BrokerOuterAPI::lock_body_to_decode, (api, response), r),
        response.code == 0 ==> response.body is Some,
    ensures
        r is Some <==> response.code == 0,
        r is Some ==> r->0@ == response.body->0@,
{
}

/// A lock request ends with the decoded set on a success alone. The remark of a
/// refusal is to be encoded, under its code; a failure of the transport is handed on.
pub proof fn lemma_lock_answer<S, E>(
    api: &BrokerOuterAPI,
    response: RemotingCommand,
    locked: Option<S>,
    failure: E,
    answered: LockStep<S, E>,
    failed: LockStep<S, E>,
)
    requires
        call_ensures(
            BrokerOuterAPI::lock_batch_mq_response::<S, E>,
            (api, Ok((response, locked))),
            answered,
        ),
        response.code == 0 ==> locked is Some,
        call_ensures(
            BrokerOuterAPI::lock_batch_mq_response::<S, E>,
            (api, Err(failure)),
            failed,
        ),
    ensures
        failed == LockStep::Done(Err::<S, RocketmqError<E>>(RocketmqError::Remoting(failure))),
        answered is Done <==> response.code == 0,
        answered matches LockStep::Done(result) ==> result is Ok && Some(result->Ok_0) == locked,
        answered matches LockStep::EncodeRemark { code, remark } ==> {
            &&& code == response.code
            &&& response.remark is Some ==> remark@ == response.remark->0@
            &&& response.remark is None ==> remark@.len() == 0
        },
{
}

/// A refused lock request fails with the code and the encoded remark, and names no
/// address.
pub proof fn lemma_lock_refusal<E>(
    api: &BrokerOuterAPI,
    code: i32,
    remark_json: String,
    r: RocketmqError<E>,
)
    requires
        call_ensures(BrokerOuterAPI::lock_batch_mq_refused::<E>, (api, code, remark_json), r),
    ensures
        r matches RocketmqError::MQBrokerError(c, message, address) && {
            &&& c == code
            &&& message@ == remark_json@
            &&& address@.len() == 0
        },
{
}

/// An unlock request succeeds on a success alone. A refusal carries its code and the
/// remark, and no address; a failure of the transport is handed on.
pub proof fn lemma_unlock_answer<E>(
    api: &BrokerOuterAPI,
    response: RemotingCommand,
    failure: E,
    answered: Result<(), RocketmqError<E>>,
    failed: Result<(), RocketmqError<E>>,
)
    requires
        call_ensures(
            BrokerOuterAPI::unlock_batch_mq_response::<E>,
            (api, Ok(response)),
            answered,
        ),
        call_ensures(BrokerOuterAPI::unlock_batch_mq_response::<E>, (api, Err(failure)), failed),
    ensures
        failed == Err::<(), RocketmqError<E>>(RocketmqError::Remoting(failure)),
        answered is Ok <==> response.code == 0,
        answered is Err ==> (answered->Err_0 matches RocketmqError::MQBrokerError(
            code,
            message,
            address,
        ) && {
            &&& code == response.code
            &&& response.remark is Some ==> message@ == response.remark->0@
            &&& response.remark is None ==> message@.len() == 0
            &&& address@.len() == 0
        }),
{
}

/// A route lookup asks for the topic that is given, in the time that is given, and
/// leaves the name server open.
pub proof fn lemma_route_lookup(
    api: &BrokerOuterAPI,
    name: &str,
    timeout: u64,
    r: Invocation,
)
    requires
        call_ensures(
            BrokerOuterAPI::get_topic_route_info_from_name_server,
            (api, name, timeout),
            r,
        ),
    ensures
        r matches Invocation::Async { addr, request, timeout_millis } && {
            &&& addr is None
            &&& timeout_millis == timeout
            &&& request.code == RequestCode::GetRouteinfoByTopic
            &&& request.body is Empty
            &&& request.header is GetRouteInfo
            &&& request.header->GetRouteInfo_topic@ == name@
        },
{
}

/// A warning is given of a topic that does not exist, where that is allowed, and of
/// nothing else.
pub proof fn lemma_route_warning(
    api: &BrokerOuterAPI,
    response: &RemotingCommand,
    allow_topic_not_exist: bool,
    r: bool,
)
    requires
        call_ensures(
            BrokerOuterAPI::warns_of_unknown_topic,
            (api, response, allow_topic_not_exist),
            r,
        ),
    ensures
        r <==> response.code == 17 && allow_topic_not_exist,
{
}

/// The body of a success is decoded, as it is, where there is one; of another response
/// nothing is.
pub proof fn lemma_route_to_decode<'a>(
    api: &BrokerOuterAPI,
    response: &'a RemotingCommand,
    r: Option<&'a Vec<u8>>,
)
    requires
        call_ensures(BrokerOuterAPI::route_body_to_decode, (api, response), r),
    ensures
        r is Some <==> response.code == 0 && response.body is Some,
        r is Some ==> r->0@ == response.body->0@,
{
}

/// A route lookup gives the decoded route on a success with a body alone. Any other
/// response fails it with its code and the remark, and no address; a failure of the
/// transport is handed on.
pub proof fn lemma_route_answer<T, E>(
    api: &BrokerOuterAPI,
    response: RemotingCommand,
    route: Option<T>,
    failure: E,
    answered: Result<T, RocketmqError<E>>,
    failed: Result<T, RocketmqError<E>>,
)
    requires
        call_ensures(
            BrokerOuterAPI::topic_route_info_response::<T, E>,
            (api, Ok((response, route))),
            answered,
        ),
        call_ensures(
            BrokerOuterAPI::topic_route_info_response::<T, E>,
            (api, Err(failure)),
            failed,
        ),
    ensures
        failed == Err::<T, RocketmqError<E>>(RocketmqError::Remoting(failure)),
        answered is Ok <==> response.code == 0 && response.body is Some,
        answered is Ok ==> Some(answered->Ok_0) == route,
        answered is Err ==> (answered->Err_0 matches RocketmqError::MQBrokerError(
            code,
            message,
            address,
        ) && {
            &&& code == response.code
            &&& response.remark is Some ==> message@ == response.remark->0@
            &&& response.remark is None ==> message@.len() == 0
            &&& address@.len() == 0
        }),
{
}

} // verus!
