//! Sending a message to one broker.
use crate::api::BrokerOuterAPI;
use crate::codes::{
    as_unsigned, RequestCode, ResponseCode, AUTO_CREATE_TOPIC_KEY_TOPIC, DEFAULT_TRACE_REGION_ID,
    PROPERTY_MSG_REGION,
};
use crate::codes::{response_code, unsigned_bits};
use crate::command::{opt_text, BodyView, HeaderView, InvocationView, RequestView};
use crate::command::{
    Invocation, RemotingCommand, RemotingRequest, RequestBody, RequestHeader, RocketmqError,
    SendMessageRequestHeader,
};
use crate::message::{or_empty, property};
use crate::message::{MessageExt, MessageQueue};
use vstd::prelude::*;

verus! {

/// How a broker took a message.
#[derive(Clone, Copy, Debug, PartialEq, Eq, Structural)]
pub enum SendStatus {
    SendOk,
    FlushDiskTimeout,
    FlushSlaveTimeout,
    SlaveNotAvailable,
}

/// What a broker says of a message that it took.
#[derive(Debug, PartialEq, Eq)]
pub struct SendMessageResponseHeader {
    pub msg_id: String,
    pub queue_id: i32,
    pub transaction_id: Option<String>,
}

/// The outcome of a send.
#[derive(Debug, PartialEq, Eq)]
pub struct SendResult {
    pub send_status: SendStatus,
    pub msg_id: Option<String>,
    pub offset_msg_id: Option<String>,
    pub message_queue: Option<MessageQueue>,
    pub queue_offset: u64,
    pub transaction_id: Option<String>,
    pub region_id: Option<String>,
    pub trace_on: bool,
}

/// The status that a response code stands for; other codes are refusals.
pub open spec fn send_status(code: i32) -> Option<SendStatus> {
    match response_code(code) {
        ResponseCode::Success => Some(SendStatus::SendOk),
        ResponseCode::FlushDiskTimeout => Some(SendStatus::FlushDiskTimeout),
        ResponseCode::FlushSlaveTimeout => Some(SendStatus::FlushSlaveTimeout),
        ResponseCode::SlaveNotAvailable => Some(SendStatus::SlaveNotAvailable),
        _ => None,
    }
}

/// Reads the status of a send off a response code. Only where there is one is the
/// header of the response decoded.
pub fn send_status_of(code: i32) -> (r: Option<SendStatus>)
    ensures
        r == send_status(code),
{
    match ResponseCode::from_code(code) {
        ResponseCode::FlushDiskTimeout => Some(SendStatus::FlushDiskTimeout),
        ResponseCode::FlushSlaveTimeout => Some(SendStatus::FlushSlaveTimeout),
        ResponseCode::SlaveNotAvailable => Some(SendStatus::SlaveNotAvailable),
        ResponseCode::Success => Some(SendStatus::SendOk),
        _ => None,
    }
}

impl SendResult {
    /// Whether this is the result of a message that was taken with that status,
    /// where `region` is the region that the response names. The message queue is
    /// the one sent to; the queue offset repeats the queue id of the answer; tracing
    /// is on when the region reads "true".
    pub open spec fn says(
        self,
        status: SendStatus,
        uniq_msg_id: Seq<char>,
        topic: Seq<char>,
        broker_name: Seq<char>,
        queue_id: i32,
        header: SendMessageResponseHeader,
        region: Option<Seq<char>>,
    ) -> bool {
        &&& self.send_status == status
        &&& opt_text(self.msg_id) == Some(uniq_msg_id)
        &&& opt_text(self.offset_msg_id) == Some(header.msg_id@)
        &&& self.message_queue matches Some(queue)
        &&& queue.topic@ == topic
        &&& queue.broker_name@ == broker_name
        &&& queue.queue_id == queue_id
        &&& self.queue_offset == unsigned_bits(header.queue_id as int)
        &&& opt_text(self.transaction_id) == Some(or_empty(opt_text(header.transaction_id)))
        &&& opt_text(self.region_id) == Some(
            match region {
                Some(r) => r,
                None => DEFAULT_TRACE_REGION_ID@,
            },
        )
        &&& self.trace_on == (region == Some("true"@))
    }
}

/// Whether `r` is the outcome of a send that was answered with `response`, whose
/// header decodes to `header`: the message was taken, the header could not be read,
/// or the broker refused the message. A refusal has the remark of the response in
/// the place of the broker's address, and no message.
pub open spec fn send_answer<E>(
    r: Result<SendResult, RocketmqError<E>>,
    broker_name: Seq<char>,
    uniq_msg_id: Seq<char>,
    queue_id: i32,
    topic: Seq<char>,
    response: RemotingCommand,
    header: Option<Result<SendMessageResponseHeader, E>>,
) -> bool {
    match (send_status(response.code), header) {
        (Some(_), None) => false,
        (None, _) => r is Err && r->Err_0.is_broker_error(
            response.code,
            seq![],
            response.remark_text(),
        ),
        (Some(_), Some(Err(e))) => r == Err::<SendResult, RocketmqError<E>>(RocketmqError::Remoting(e)),
        (Some(status), Some(Ok(h))) => r is Ok && r->Ok_0.says(
            status,
            uniq_msg_id,
            topic,
            broker_name,
            queue_id,
            h,
            property(response.ext_fields->0@, PROPERTY_MSG_REGION@),
        ),
    }
}

/// Reads the response to a send, where `header` is what its header decodes to, which
/// is asked for where the code has a status.
///
/// A response that takes the message has extra fields; the region of the broker is
/// looked up in them.
pub fn process_send_response<E>(
    broker_name: &str,
    uniq_msg_id: String,
    queue_id: i32,
    topic: String,
    response: &RemotingCommand,
    header: Option<Result<SendMessageResponseHeader, E>>,
) -> (r: Result<SendResult, RocketmqError<E>>)
    requires
        send_status(response.code) is Some ==> header is Some,
        send_status(response.code) is Some && header->0 is Ok ==> response.ext_fields is Some,
    ensures
        send_answer(r, broker_name@, uniq_msg_id@, queue_id, topic@, *response, header),
{
    let (status, response_header) = match (send_status_of(response.code), header) {
        (Some(status), Some(Ok(h))) => (status, h),
        (Some(_), Some(Err(e))) => {
            return Err(RocketmqError::Remoting(e));
        },
        _ => {
            return Err(
                RocketmqError::MQBrokerError(
                    response.code,
                    String::new(),
                    response.remark_or_empty(),
                ),
            );
        },
    };
    let region = match &response.ext_fields {
        Some(fields) => fields.get(PROPERTY_MSG_REGION),
        None => None,
    };
    let trace_on = match &region {
        Some(value) => *value == "true".to_owned(),
        None => false,
    };
    let region_id = match region {
        Some(value) => value,
        None => DEFAULT_TRACE_REGION_ID.to_owned(),
    };
    let transaction_id = match response_header.transaction_id {
        Some(id) => id,
        None => String::new(),
    };
    Ok(
        SendResult {
            send_status: status,
            msg_id: Some(uniq_msg_id),
            offset_msg_id: Some(response_header.msg_id),
            message_queue: Some(
                MessageQueue { topic, broker_name: broker_name.to_owned(), queue_id },
            ),
            queue_offset: as_unsigned(response_header.queue_id as i64),
            transaction_id: Some(transaction_id),
            region_id: Some(region_id),
            trace_on,
        },
    )
}

/// What the header of a send request says: the message goes to its own queue, as a
/// single message, with `properties` as its properties in text form.
pub open spec fn send_header(msg: MessageExt, group: Seq<char>, properties: Seq<char>) -> HeaderView {
    HeaderView::SendMessageV2 {
        producer_group: group,
        topic: msg.topic@,
        default_topic: AUTO_CREATE_TOPIC_KEY_TOPIC@,
        default_topic_queue_nums: 8,
        queue_id: msg.queue_id,
        sys_flag: msg.sys_flag,
        born_timestamp: msg.born_timestamp,
        flag: msg.flag,
        properties: Some(properties),
        reconsume_times: Some(msg.reconsume_times),
        batch: Some(false),
    }
}

/// Builds the header of a send request.
pub fn build_send_message_request_header_v2(
    msg: &MessageExt,
    group: String,
    properties: String,
) -> (r: SendMessageRequestHeader)
    ensures
        r@ == send_header(*msg, group@, properties@),
{
    SendMessageRequestHeader {
        producer_group: group,
        topic: msg.topic.clone(),
        default_topic: AUTO_CREATE_TOPIC_KEY_TOPIC.to_owned(),
        default_topic_queue_nums: 8,
        queue_id: msg.queue_id,
        sys_flag: msg.sys_flag,
        born_timestamp: msg.born_timestamp,
        flag: msg.flag,
        properties: Some(properties),
        reconsume_times: Some(msg.reconsume_times),
        batch: Some(false),
    }
}

/// What a send request says; it has no body.
pub open spec fn send_request(msg: MessageExt, group: Seq<char>, properties: Seq<char>) -> RequestView {
    RequestView {
        code: RequestCode::SendMessage,
        header: send_header(msg, group, properties),
        body: BodyView::Empty,
    }
}

/// Builds a send request.
pub fn build_send_message_request(msg: &MessageExt, group: String, properties: String) -> (r:
    RemotingRequest)
    ensures
        r@ == send_request(*msg, group@, properties@),
{
    let header = build_send_message_request_header_v2(msg, group, properties);
    RemotingRequest {
        code: RequestCode::SendMessage,
        header: RequestHeader::SendMessageV2(header),
        body: RequestBody::Empty,
    }
}

/// A message on its way: what is needed of it to read the response.
#[derive(Debug, PartialEq, Eq)]
pub struct PendingSend {
    pub broker_name: String,
    pub uniq_msg_id: String,
    pub queue_id: i32,
    pub topic: String,
}

impl PendingSend {
    /// Whether this waits for the response to `msg`, sent to that broker. Where the
    /// client gave the message no id, the id is empty.
    pub open spec fn awaits(self, msg: MessageExt, broker_name: Seq<char>) -> bool {
        &&& self.broker_name@ == broker_name
        &&& self.uniq_msg_id@ == or_empty(msg.uniq_id_text())
        &&& self.queue_id == msg.queue_id
        &&& self.topic@ == msg.topic@
    }
}

impl BrokerOuterAPI {
    /// Sends a message to one broker, where `properties` is the text form of the
    /// message's properties.
    pub fn send_message_to_specific_broker(
        &self,
        broker_addr: &str,
        broker_name: &str,
        msg: MessageExt,
        group: String,
        timeout_millis: u64,
        properties: String,
    ) -> (r: (Invocation, PendingSend))
        ensures
            r.0@ == (InvocationView::Async {
                addr: Some(broker_addr@),
                request: send_request(msg, group@, properties@),
                timeout_millis,
            }),
            r.1.awaits(msg, broker_name@),
    {
        let uniq_msg_id = match msg.uniq_id() {
            Some(id) => id,
            None => String::new(),
        };
        let request = build_send_message_request(&msg, group, properties);
        let pending = PendingSend {
            broker_name: broker_name.to_owned(),
            uniq_msg_id,
            queue_id: msg.queue_id,
            topic: msg.topic,
        };
        (
            Invocation::Async { addr: Some(broker_addr.to_owned()), request, timeout_millis },
            pending,
        )
    }
}

impl PendingSend {
    /// Completes a send with its reply: the response, beside what its header decodes
    /// to where the code has a status, or the failure of the transport.
    pub fn complete<E>(
        self,
        reply: Result<(RemotingCommand, Option<Result<SendMessageResponseHeader, E>>), E>,
    ) -> (r: Result<SendResult, RocketmqError<E>>)
        requires
            reply is Ok && send_status(reply->Ok_0.0.code) is Some ==> reply->Ok_0.1 is Some,
            reply is Ok && send_status(reply->Ok_0.0.code) is Some && reply->Ok_0.1->0 is Ok
                ==> reply->Ok_0.0.ext_fields is Some,
        ensures
            match reply {
                Ok((response, header)) => send_answer(
                    r,
                    self.broker_name@,
                    self.uniq_msg_id@,
                    self.queue_id,
                    self.topic@,
                    response,
                    header,
                ),
                Err(e) => r == Err::<SendResult, RocketmqError<E>>(RocketmqError::Remoting(e)),
            },
    {
        match reply {
            Ok((response, header)) => process_send_response(
                self.broker_name.as_str(),
                self.uniq_msg_id,
                self.queue_id,
                self.topic,
                &response,
                header,
            ),
            Err(e) => Err(RocketmqError::Remoting(e)),
        }
    }
}

/// The result of a send tells of the message that was sent: its client id, its topic,
/// its queue, and the broker that it went to, whatever queue the answer names.
pub proof fn lemma_result_tells_of_message<E>(
    r: Result<SendResult, RocketmqError<E>>,
    pending: PendingSend,
    msg: MessageExt,
    broker_name: Seq<char>,
    response: RemotingCommand,
    header: Option<Result<SendMessageResponseHeader, E>>,
)
    requires
        pending.awaits(msg, broker_name),
        send_answer(
            r,
            pending.broker_name@,
            pending.uniq_msg_id@,
            pending.queue_id,
            pending.topic@,
            response,
            header,
        ),
        r is Ok,
    ensures
        opt_text(r->Ok_0.msg_id) == Some(or_empty(msg.uniq_id_text())),
        r->Ok_0.message_queue is Some,
        r->Ok_0.message_queue->0.topic@ == msg.topic@,
        r->Ok_0.message_queue->0.queue_id == msg.queue_id,
        r->Ok_0.message_queue->0.broker_name@ == broker_name,
{
}

/// A broker takes a message, perhaps with a warning, on exactly four codes, and
/// each of them has a status of its own.
pub proof fn lemma_send_statuses(a: i32, b: i32)
    ensures
        send_status(a) is Some <==> a == 0 || a == 10 || a == 11 || a == 12,
        send_status(a) is Some && send_status(a) == send_status(b) ==> a == b,
{
}

/// Tracing is on only where the result names the region "true", so never in the
/// default region.
pub proof fn lemma_trace_needs_region<E>(
    r: Result<SendResult, RocketmqError<E>>,
    broker_name: Seq<char>,
    uniq_msg_id: Seq<char>,
    queue_id: i32,
    topic: Seq<char>,
    response: RemotingCommand,
    header: Option<Result<SendMessageResponseHeader, E>>,
)
    requires
        send_answer(r, broker_name, uniq_msg_id, queue_id, topic, response, header),
        r is Ok,
    ensures
        r->Ok_0.trace_on <==> opt_text(r->Ok_0.region_id) == Some("true"@),
{
    reveal_strlit("true");
    reveal_strlit("DefaultRegion");
    assert("true"@.len() != "DefaultRegion"@.len());
}

/// A send is refused on exactly the codes without a status, and then with the code of
/// the response.
pub proof fn lemma_send_refusals<E>(
    r: Result<SendResult, RocketmqError<E>>,
    broker_name: Seq<char>,
    uniq_msg_id: Seq<char>,
    queue_id: i32,
    topic: Seq<char>,
    response: RemotingCommand,
    header: Option<Result<SendMessageResponseHeader, E>>,
)
    requires
        send_answer(r, broker_name, uniq_msg_id, queue_id, topic, response, header),
    ensures
        r is Ok ==> r->Ok_0.send_status == send_status(response.code)->0,
        r is Err && r->Err_0 is MQBrokerError <==> send_status(response.code) is None,
        r is Err && r->Err_0 is MQBrokerError ==> r->Err_0->MQBrokerError_0 == response.code,
{
}

} // verus!
