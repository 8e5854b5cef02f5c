//! What a send asks of a broker, and what its answer means.
use crate::api::BrokerOuterAPI;
use crate::codes::RequestCode;
use crate::command::{
    Invocation, RemotingCommand, RemotingRequest, RequestBody, RequestHeader, RocketmqError,
    SendMessageRequestHeader,
};
use crate::message::MessageExt;
use crate::properties::PropertyMap;
use crate::send::{
    build_send_message_request, build_send_message_request_header_v2, process_send_response,
    send_status_of, PendingSend, SendMessageResponseHeader, SendResult, SendStatus,
};
use vstd::prelude::*;

verus! {

/// A broker takes a message on four codes, each with a status of its own.
pub proof fn lemma_codes_of_sends(code: i32, r: Option<SendStatus>)
    requires
        call_ensures(send_status_of, (code,), r),
    ensures
        r == Some(SendStatus::SendOk) <==> code == 0,
        r == Some(SendStatus::FlushDiskTimeout) <==> code == 10,
        r == Some(SendStatus::SlaveNotAvailable) <==> code == 11,
        r == Some(SendStatus::FlushSlaveTimeout) <==> code == 12,
        r is None <==> code != 0 && code != 10 && code != 11 && code != 12,
{
}

/// Every response can be read, with whatever its header decodes to where the code
/// has a status; one that takes the message has extra fields.
pub proof fn lemma_sends_can_be_read<E>(
    broker_name: &str,
    uniq_msg_id: String,
    queue_id: i32,
    topic: String,
    pending: PendingSend,
    response: RemotingCommand,
    header: Option<Result<SendMessageResponseHeader, E>>,
    failure: E,
)
    requires
        response.code == 0 || response.code == 10 || response.code == 11 || response.code == 12
            ==> header is Some && (header->0 is Ok ==> response.ext_fields is Some),
    ensures
        call_requires(
            process_send_response::<E>,
            (broker_name, uniq_msg_id, queue_id, topic, &response, header),
        ),
        call_requires(PendingSend::complete::<E>, (pending, Ok((response, header)))),
        call_requires(PendingSend::complete::<E>, (pending, Err(failure))),
{
}

/// The result of a message that was taken. Its id is the one that the client gave,
/// its offset id the one that the broker gave, and its queue the one sent to. The
/// queue offset repeats the queue id of the answer.
pub proof fn lemma_taken_message<E>(
    broker_name: &str,
    uniq_msg_id: String,
    queue_id: i32,
    topic: String,
    response: &RemotingCommand,
    header: SendMessageResponseHeader,
    r: Result<SendResult, RocketmqError<E>>,
)
    requires
        call_ensures(
            process_send_response::<E>,
            (broker_name, uniq_msg_id, queue_id, topic, response, Some(Ok(header))),
            r,
        ),
        response.code == 0 || response.code == 10 || response.code == 11 || response.code == 12,
    ensures
        r matches Ok(result) && {
            &&& response.code == 0 <==> result.send_status == SendStatus::SendOk
            &&& response.code == 10 <==> result.send_status == SendStatus::FlushDiskTimeout
            &&& response.code == 11 <==> result.send_status == SendStatus::SlaveNotAvailable
            &&& response.code == 12 <==> result.send_status == SendStatus::FlushSlaveTimeout
            &&& result.msg_id is Some
            &&& result.msg_id->0@ == uniq_msg_id@
            &&& result.offset_msg_id is Some
            &&& result.offset_msg_id->0@ == header.msg_id@
            &&& result.message_queue is Some
            &&& result.message_queue->0.topic@ == topic@
            &&& result.message_queue->0.broker_name@ == broker_name@
            &&& result.message_queue->0.queue_id == queue_id
            &&& header.queue_id >= 0 ==> result.queue_offset == header.queue_id
            &&& header.queue_id < 0 ==> result.queue_offset == 0x1_0000_0000_0000_0000
                + header.queue_id
            &&& result.transaction_id is Some
            &&& header.transaction_id is Some ==> result.transaction_id->0@
                == header.transaction_id->0@
            &&& header.transaction_id is None ==> result.transaction_id->0@.len() == 0
        },
{
}

/// The region of a result is the one that the extra fields of the response name, or
/// the default one; tracing is on where they name the region "true".
pub proof fn lemma_region_of_taken_message<E>(
    broker_name: &str,
    uniq_msg_id: String,
    queue_id: i32,
    topic: String,
    response: &RemotingCommand,
    header: SendMessageResponseHeader,
    r: Result<SendResult, RocketmqError<E>>,
    region: Option<String>,
)
    requires
        call_ensures(
            process_send_response::<E>,
            (broker_name, uniq_msg_id, queue_id, topic, response, Some(Ok(header))),
            r,
        ),
        response.code == 0 || response.code == 10 || response.code == 11 || response.code == 12,
        response.ext_fields is Some,
        call_ensures(PropertyMap::get, (&response.ext_fields->0, "MSG_REGION"), region),
    ensures
        r is Ok,
        r->Ok_0.region_id is Some,
        region is Some ==> r->Ok_0.region_id->0@ == region->0@,
        region is None ==> r->Ok_0.region_id->0@ == "DefaultRegion"@,
        r->Ok_0.trace_on <==> region is Some && region->0@ == "true"@,
{
}

/// A header that cannot be read fails a send that was taken, with the error as it
/// came.
pub proof fn lemma_unreadable_send<E>(
    broker_name: &str,
    uniq_msg_id: String,
    queue_id: i32,
    topic: String,
    response: &RemotingCommand,
    failure: E,
    r: Result<SendResult, RocketmqError<E>>,
)
    requires
        call_ensures(
            process_send_response::<E>,
            (broker_name, uniq_msg_id, queue_id, topic, response, Some(Err(failure))),
            r,
        ),
        response.code == 0 || response.code == 10 || response.code == 11 || response.code == 12,
    ensures
        r == Err::<SendResult, RocketmqError<E>>(RocketmqError::Remoting(failure)),
{
}

/// On any other code a send is refused, whatever its header: with that code, without
/// a message, and with the remark in the place of the address.
pub proof fn lemma_refused_send<E>(
    broker_name: &str,
    uniq_msg_id: String,
    queue_id: i32,
    topic: String,
    response: &RemotingCommand,
    header: Option<Result<SendMessageResponseHeader, E>>,
    r: Result<SendResult, RocketmqError<E>>,
)
    requires
        call_ensures(
            process_send_response::<E>,
            (broker_name, uniq_msg_id, queue_id, topic, response, header),
            r,
        ),
        response.code != 0,
        response.code != 10,
        response.code != 11,
        response.code != 12,
    ensures
        r matches Err(RocketmqError::MQBrokerError(code, message, address)) && {
            &&& code == response.code
            &&& message@.len() == 0
            &&& response.remark is Some ==> address@ == response.remark->0@
            &&& response.remark is None ==> address@.len() == 0
        },
{
}

/// What the broker says of a message does not hang on what the client says of it:
/// two sends with one answer differ in the client's id and the queue sent to alone.
pub proof fn lemma_two_sends_one_answer<E>(
    broker_a: &str,
    broker_b: &str,
    id_a: String,
    id_b: String,
    queue_a: i32,
    queue_b: i32,
    topic_a: String,
    topic_b: String,
    response: &RemotingCommand,
    header: SendMessageResponseHeader,
    a: Result<SendResult, RocketmqError<E>>,
    b: Result<SendResult, RocketmqError<E>>,
)
    requires
        call_ensures(
            process_send_response::<E>,
            (broker_a, id_a, queue_a, topic_a, response, Some(Ok(header))),
            a,
        ),
        call_ensures(
            process_send_response::<E>,
            (broker_b, id_b, queue_b, topic_b, response, Some(Ok(header))),
            b,
        ),
        a is Ok || b is Ok,
    ensures
        a is Ok,
        b is Ok,
        a->Ok_0.send_status == b->Ok_0.send_status,
        a->Ok_0.offset_msg_id->0@ == b->Ok_0.offset_msg_id->0@,
        a->Ok_0.queue_offset == b->Ok_0.queue_offset,
        a->Ok_0.transaction_id->0@ == b->Ok_0.transaction_id->0@,
        a->Ok_0.region_id->0@ == b->Ok_0.region_id->0@,
        a->Ok_0.trace_on == b->Ok_0.trace_on,
        a->Ok_0.msg_id->0@ == b->Ok_0.msg_id->0@ <==> id_a@ == id_b@,
{
}

/// The header of a send holds the message's own topic, queue, flags, time of birth
/// and count of attempts, beside the group and the properties that are given. It
/// announces a single message, and a topic of eight queues to create an unknown one by.
pub proof fn lemma_send_header(
    msg: &MessageExt,
    group: String,
    properties: String,
    r: SendMessageRequestHeader,
)
    requires
        call_ensures(build_send_message_request_header_v2, (msg, group, properties), r),
    ensures
        r.producer_group@ == group@,
        r.topic@ == msg.topic@,
        r.default_topic@ == "TBW102"@,
        r.default_topic_queue_nums == 8,
        r.queue_id == msg.queue_id,
        r.sys_flag == msg.sys_flag,
        r.born_timestamp == msg.born_timestamp,
        r.flag == msg.flag,
        r.properties is Some,
        r.properties->0@ == properties@,
        r.reconsume_times == Some(msg.reconsume_times),
        r.batch == Some(false),
{
}

/// A send request has the header of the message and no body.
pub proof fn lemma_send_request(
    msg: &MessageExt,
    group: String,
    properties: String,
    r: RemotingRequest,
)
    requires
        call_ensures(build_send_message_request, (msg, group, properties), r),
    ensures
        r.code == RequestCode::SendMessage,
        r.body is Empty,
        r.header matches RequestHeader::SendMessageV2(h) && {
            &&& h.producer_group@ == group@
            &&& h.topic@ == msg.topic@
            &&& h.default_topic@ == "TBW102"@
            &&& h.default_topic_queue_nums == 8
            &&& h.queue_id == msg.queue_id
            &&& h.sys_flag == msg.sys_flag
            &&& h.born_timestamp == msg.born_timestamp
            &&& h.flag == msg.flag
            &&& h.properties is Some
            &&& h.properties->0@ == properties@
            &&& h.reconsume_times == Some(msg.reconsume_times)
            &&& h.batch == Some(false)
        },
{
}

/// A send goes to the address that is given, with the time that is given. What is
/// kept for its answer is the message's own: its client id, or an empty one, its
/// queue and its topic.
pub proof fn lemma_send_goes_to_broker(
    api: &BrokerOuterAPI,
    broker_addr: &str,
    broker_name: &str,
    msg: MessageExt,
    group: String,
    timeout: u64,
    properties: String,
    client_id: Option<String>,
    r: (Invocation, PendingSend),
)
    requires
        call_ensures(
            BrokerOuterAPI::send_message_to_specific_broker,
            (api, broker_addr, broker_name, msg, group, timeout, properties),
            r,
        ),
        call_ensures(PropertyMap::get, (&msg.properties, "UNIQ_KEY"), client_id),
    ensures
        r.0 matches Invocation::Async { addr, request, timeout_millis } && {
            &&& addr is Some
            &&& addr->0@ == broker_addr@
            &&& timeout_millis == timeout
            &&& request.code == RequestCode::SendMessage
            &&& request.body is Empty
            &&& request.header matches RequestHeader::SendMessageV2(h)
            &&& h.producer_group@ == group@
            &&& h.topic@ == msg.topic@
            &&& h.default_topic@ == "TBW102"@
            &&& h.default_topic_queue_nums == 8
            &&& h.queue_id == msg.queue_id
            &&& h.sys_flag == msg.sys_flag
            &&& h.born_timestamp == msg.born_timestamp
            &&& h.flag == msg.flag
            &&& h.properties is Some
            &&& h.properties->0@ == properties@
            &&& h.reconsume_times == Some(msg.reconsume_times)
            &&& h.batch == Some(false)
        },
        r.1.broker_name@ == broker_name@,
        r.1.queue_id == msg.queue_id,
        r.1.topic@ == msg.topic@,
        client_id is Some ==> r.1.uniq_msg_id@ == client_id->0@,
        client_id is None ==> r.1.uniq_msg_id@.len() == 0,
{
}

/// A send ends as the reading of its response does; a failure of the transport is
/// handed on as it came.
pub proof fn lemma_send_completes<E>(
    pending: PendingSend,
    broker_name: &str,
    response: RemotingCommand,
    header: SendMessageResponseHeader,
    failure: E,
    completed: Result<SendResult, RocketmqError<E>>,
    read: Result<SendResult, RocketmqError<E>>,
    failed: Result<SendResult, RocketmqError<E>>,
)
    requires
        call_ensures(
            PendingSend::complete::<E>,
            (pending, Ok((response, Some(Ok(header))))),
            completed,
        ),
        broker_name@ == pending.broker_name@,
        call_ensures(
            process_send_response::<E>,
            (
                broker_name,
                pending.uniq_msg_id,
                pending.queue_id,
                pending.topic,
                &response,
                Some(Ok(header)),
            ),
            read,
        ),
        call_ensures(PendingSend::complete::<E>, (pending, Err(failure)), failed),
    ensures
        failed == Err::<SendResult, RocketmqError<E>>(RocketmqError::Remoting(failure)),
        completed is Ok <==> read is Ok,
        read is Ok ==> {
            &&& completed->Ok_0.send_status == read->Ok_0.send_status
            &&& completed->Ok_0.msg_id->0@ == pending.uniq_msg_id@
            &&& completed->Ok_0.offset_msg_id->0@ == header.msg_id@
            &&& completed->Ok_0.message_queue->0.topic@ == pending.topic@
            &&& completed->Ok_0.message_queue->0.broker_name@ == pending.broker_name@
            &&& completed->Ok_0.message_queue->0.queue_id == pending.queue_id
            &&& completed->Ok_0.queue_offset == read->Ok_0.queue_offset
            &&& completed->Ok_0.transaction_id->0@ == read->Ok_0.transaction_id->0@
            &&& completed->Ok_0.region_id->0@ == read->Ok_0.region_id->0@
            &&& completed->Ok_0.trace_on == read->Ok_0.trace_on
        },
        read is Err ==> {
            &&& completed->Err_0->MQBrokerError_0 == response.code
            &&& completed->Err_0->MQBrokerError_1@.len() == 0
            &&& completed->Err_0->MQBrokerError_2@ == read->Err_0->MQBrokerError_2@
        },
{
}

/// A send that was refused, or whose header cannot be read, ends with that error.
pub proof fn lemma_send_fails<E>(
    pending: PendingSend,
    response: RemotingCommand,
    header: Option<Result<SendMessageResponseHeader, E>>,
    r: Result<SendResult, RocketmqError<E>>,
)
    requires
        call_ensures(PendingSend::complete::<E>, (pending, Ok((response, header))), r),
        header is Some ==> header->0 is Err,
    ensures
        response.code == 0 || response.code == 10 || response.code == 11 || response.code == 12
            ==> header is Some && r == Err::<SendResult, RocketmqError<E>>(
            RocketmqError::Remoting(header->0->Err_0),
        ),
        response.code != 0 && response.code != 10 && response.code != 11 && response.code != 12
            ==> (r matches Err(RocketmqError::MQBrokerError(code, message, address)) && {
            &&& code == response.code
            &&& message@.len() == 0
            &&& response.remark is Some ==> address@ == response.remark->0@
            &&& response.remark is None ==> address@.len() == 0
        }),
{
}

} // verus!
