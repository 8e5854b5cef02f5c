//! Pulling messages from one broker.
use crate::api::BrokerOuterAPI;
use crate::codes::{
    as_signed, as_unsigned, build_sys_flag, RequestCode, ResponseCode, EXPRESSION_TYPE_TAG,
    PROPERTY_MAX_OFFSET, PROPERTY_MIN_OFFSET, PROPERTY_TRANSACTION_PREPARED,
    PROPERTY_UNIQ_CLIENT_MESSAGE_ID_KEYIDX, SUB_ALL,
};
use crate::codes::{response_code, signed_bits, unsigned_bits};
use crate::command::{
    opt_text, BodyView, HeaderView, InvocationView, RequestView, TopicRequestView,
};
use crate::command::{
    Invocation, PullMessageRequestHeader, RemotingCommand, RemotingRequest, RequestBody,
    RequestHeader, RocketmqError, RpcRequestHeader, TopicRequestHeader,
};
use crate::message::property;
use crate::message::MessageExt;
use crate::text::{decimal, signed_decimal};
use crate::text::{decimal_text, signed_decimal_text};
use vstd::prelude::*;

verus! {

/// How a pull went.
#[derive(Clone, Copy, Debug, PartialEq, Eq, Structural)]
pub enum PullStatus {
    Found,
    NoNewMsg,
    NoMatchedMsg,
    OffsetIllegal,
}

/// What a broker says in answer to a pull.
#[derive(Debug, PartialEq, Eq)]
pub struct PullMessageResponseHeader {
    pub suggest_which_broker_id: u64,
    pub next_begin_offset: i64,
    pub min_offset: i64,
    pub max_offset: i64,
    pub offset_delta: Option<i64>,
}

/// The outcome of a pull.
#[derive(Debug)]
pub struct PullResult {
    pub pull_status: PullStatus,
    pub next_begin_offset: u64,
    pub min_offset: u64,
    pub max_offset: u64,
    pub msg_found_list: Option<Vec<MessageExt>>,
}

/// The outcome of a pull with what is left to do for it.
#[derive(Debug)]
pub struct PullResultExt {
    pub pull_result: PullResult,
    pub suggest_which_broker_id: u64,
    pub message_binary: Option<Vec<u8>>,
    pub offset_delta: Option<i64>,
}

/// The status that a response code stands for; other codes are refusals.
pub open spec fn pull_status(code: i32) -> Option<PullStatus> {
    match response_code(code) {
        ResponseCode::Success => Some(PullStatus::Found),
        ResponseCode::PullNotFound => Some(PullStatus::NoNewMsg),
        ResponseCode::PullRetryImmediately => Some(PullStatus::NoMatchedMsg),
        ResponseCode::PullOffsetMoved => Some(PullStatus::OffsetIllegal),
        _ => None,
    }
}

/// Reads the status of a pull off a response code. Only where there is one is the
/// header of the response decoded.
pub fn pull_status_of(code: i32) -> (r: Option<PullStatus>)
    ensures
        r == pull_status(code),
{
    match ResponseCode::from_code(code) {
        ResponseCode::Success => Some(PullStatus::Found),
        ResponseCode::PullNotFound => Some(PullStatus::NoNewMsg),
        ResponseCode::PullRetryImmediately => Some(PullStatus::NoMatchedMsg),
        ResponseCode::PullOffsetMoved => Some(PullStatus::OffsetIllegal),
        _ => None,
    }
}

impl PullResult {
    /// Whether this is the outcome with that status and the offsets of `header`,
    /// read as unsigned numbers, and with an empty list of messages.
    pub open spec fn says(self, status: PullStatus, header: PullMessageResponseHeader) -> bool {
        &&& self.pull_status == status
        &&& self.next_begin_offset == unsigned_bits(header.next_begin_offset as int)
        &&& self.min_offset == unsigned_bits(header.min_offset as int)
        &&& self.max_offset == unsigned_bits(header.max_offset as int)
        &&& self.msg_found_list matches Some(list)
        &&& list@.len() == 0
    }
}

impl PullResultExt {
    /// Whether this is what a pull has before its messages are decoded: the outcome
    /// of `header`, with the body of the response.
    pub open spec fn says(
        self,
        status: PullStatus,
        header: PullMessageResponseHeader,
        body: Option<Vec<u8>>,
    ) -> bool {
        &&& self.pull_result.says(status, header)
        &&& self.suggest_which_broker_id == header.suggest_which_broker_id
        &&& self.message_binary == body
        &&& self.offset_delta == header.offset_delta
    }
}

/// Whether `r` is what the answer `response` to a pull, whose header decodes to
/// `header`, amounts to.
pub open spec fn pull_answer<E>(
    r: Result<PullResultExt, RocketmqError<E>>,
    response: RemotingCommand,
    addr: Seq<char>,
    header: Option<Result<PullMessageResponseHeader, E>>,
) -> bool {
    match (pull_status(response.code), header) {
        (Some(_), None) => false,
        (None, _) => r is Err && r->Err_0.is_broker_error(
            response.code,
            response.remark_text(),
            addr,
        ),
        (Some(_), Some(Err(e))) => r == Err::<PullResultExt, RocketmqError<E>>(
            RocketmqError::Remoting(e),
        ),
        (Some(status), Some(Ok(h))) => r is Ok && r->Ok_0.says(status, h, response.body),
    }
}

/// Reads the response to a pull, where `header` is what its header decodes to, which
/// is asked for where the code has a status.
pub fn process_pull_response<E>(
    response: RemotingCommand,
    addr: &str,
    header: Option<Result<PullMessageResponseHeader, E>>,
) -> (r: Result<PullResultExt, RocketmqError<E>>)
    requires
        pull_status(response.code) is Some ==> header is Some,
    ensures
        pull_answer(r, response, addr@, header),
{
    let (status, response_header) = match (pull_status_of(response.code), header) {
        (Some(status), Some(Ok(h))) => (status, h),
        (Some(_), Some(Err(e))) => {
            return Err(RocketmqError::Remoting(e));
        },
        _ => {
            return Err(
                RocketmqError::MQBrokerError(
                    response.code,
                    response.remark_or_empty(),
                    addr.to_owned(),
                ),
            );
        },
    };
    Ok(
        PullResultExt {
            pull_result: PullResult {
                pull_status: status,
                next_begin_offset: as_unsigned(response_header.next_begin_offset),
                min_offset: as_unsigned(response_header.min_offset),
                max_offset: as_unsigned(response_header.max_offset),
                msg_found_list: Some(Vec::new()),
            },
            suggest_which_broker_id: response_header.suggest_which_broker_id,
            message_binary: response.body,
            offset_delta: response_header.offset_delta,
        },
    )
}

/// Takes the encoded messages out of a pull that found some, for decoding: none of
/// them is left behind, and a pull without a body has no bytes. Of another pull
/// nothing is decoded.
pub fn take_message_binary(pull: &mut PullResultExt) -> (r: Option<Vec<u8>>)
    ensures
        final(pull).pull_result == old(pull).pull_result,
        final(pull).suggest_which_broker_id == old(pull).suggest_which_broker_id,
        final(pull).offset_delta == old(pull).offset_delta,
        old(pull).pull_result.pull_status != PullStatus::Found ==> r is None
            && final(pull).message_binary == old(pull).message_binary,
        old(pull).pull_result.pull_status == PullStatus::Found ==> final(pull).message_binary is None
            && r is Some && r->0@ == (match old(pull).message_binary {
            Some(bytes) => bytes@,
            None => seq![],
        }),
{
    match pull.pull_result.pull_status {
        PullStatus::Found => match pull.message_binary.take() {
            Some(bytes) => Some(bytes),
            None => Some(Vec::new()),
        },
        _ => None,
    }
}

/// The transaction id of a message after a pull: a prepared message with a client id
/// takes that id, any other keeps what it has.
pub open spec fn stamped_transaction_id(msg: MessageExt) -> Option<Seq<char>> {
    if property(msg.properties@, PROPERTY_TRANSACTION_PREPARED@) == Some("true"@)
        && msg.uniq_id_text() is Some {
        msg.uniq_id_text()
    } else {
        opt_text(msg.transaction_id)
    }
}

/// How far a pull moves the queue offsets of its messages.
pub open spec fn offset_shift(delta: Option<i64>) -> int {
    match delta {
        Some(d) => d as int,
        None => 0,
    }
}

/// Whether `after` is the message `before` as a pull leaves it: it knows the offsets
/// of the queue, its broker and its queue, and stands where the pull moves it. The
/// rest stays as it was.
pub open spec fn stamped(
    before: MessageExt,
    after: MessageExt,
    pull: PullResultExt,
    broker_name: Seq<char>,
    queue_id: i32,
) -> bool {
    &&& after.properties@ == before.properties@.insert(
        PROPERTY_MIN_OFFSET@,
        decimal(pull.pull_result.min_offset as nat),
    ).insert(PROPERTY_MAX_OFFSET@, decimal(pull.pull_result.max_offset as nat))
    &&& opt_text(after.transaction_id) == stamped_transaction_id(before)
    &&& after.broker_name@ == broker_name
    &&& after.queue_id == queue_id
    &&& after.queue_offset == before.queue_offset + offset_shift(pull.offset_delta)
    &&& after.topic == before.topic
    &&& after.flag == before.flag
    &&& after.sys_flag == before.sys_flag
    &&& after.born_timestamp == before.born_timestamp
    &&& after.reconsume_times == before.reconsume_times
}

/// Whether the queue offset of a message can be moved as the pull asks.
pub open spec fn offset_fits(msg: MessageExt, delta: Option<i64>) -> bool {
    i64::MIN <= msg.queue_offset + offset_shift(delta) <= i64::MAX
}

/// Tests whether the queue offset of a message can be moved as the pull asks.
pub fn offset_in_range(msg: &MessageExt, delta: Option<i64>) -> (r: bool)
    ensures
        r == offset_fits(*msg, delta),
{
    match delta {
        Some(offset_delta) => msg.queue_offset.checked_add(offset_delta).is_some(),
        None => true,
    }
}

/// Stamps one message of a pull.
fn stamp_message(
    message: &mut MessageExt,
    pull: &PullResultExt,
    broker_name: &str,
    queue_id: i32,
)
    requires
        offset_fits(*old(message), pull.offset_delta),
    ensures
        stamped(*old(message), *final(message), *pull, broker_name@, queue_id),
{
    let prepared = match message.properties.get(PROPERTY_TRANSACTION_PREPARED) {
        Some(value) => value == "true".to_owned(),
        None => false,
    };
    if prepared {
        match message.uniq_id() {
            Some(id) => {
                message.transaction_id = Some(id);
            },
            None => {},
        }
    }
    message.properties.put(
        PROPERTY_MIN_OFFSET.to_owned(),
        decimal_text(pull.pull_result.min_offset),
    );
    message.properties.put(
        PROPERTY_MAX_OFFSET.to_owned(),
        decimal_text(pull.pull_result.max_offset),
    );
    message.broker_name = broker_name.to_owned();
    message.queue_id = queue_id;
    match pull.offset_delta {
        Some(offset_delta) => {
            message.queue_offset = message.queue_offset + offset_delta;
        },
        None => {},
    }
}

/// Stamps the messages that a pull found, once they are decoded, in their order.
pub fn process_pull_result(
    pull: &PullResultExt,
    broker_name: &str,
    queue_id: i32,
    message_list: Vec<MessageExt>,
) -> (r: Vec<MessageExt>)
    requires
        pull.pull_result.pull_status == PullStatus::Found ==> forall|i: int|
            0 <= i < message_list@.len() ==> offset_fits(#[trigger] message_list@[i], pull.offset_delta),
    ensures
        pull.pull_result.pull_status != PullStatus::Found ==> r@ == message_list@,
        pull.pull_result.pull_status == PullStatus::Found ==> r@.len() == message_list@.len()
            && forall|i: int|
            0 <= i < r@.len() ==> stamped(
                message_list@[i],
                #[trigger] r@[i],
                *pull,
                broker_name@,
                queue_id,
            ),
{
    match pull.pull_result.pull_status {
        PullStatus::Found => {
            let mut messages = message_list;
            let mut i: usize = 0;
            let len: usize = messages.len();
            while i < len
                invariant
                    i <= len,
                    len == message_list@.len(),
                    messages@.len() == len,
                    pull.pull_result.pull_status == PullStatus::Found,
                    forall|j: int|
                        0 <= j < len ==> offset_fits(#[trigger] message_list@[j], pull.offset_delta),
                    forall|j: int| i <= j < len ==> #[trigger] messages@[j] == message_list@[j],
                    forall|j: int|
                        0 <= j < i ==> stamped(
                            message_list@[j],
                            #[trigger] messages@[j],
                            *pull,
                            broker_name@,
                            queue_id,
                        ),
                decreases len - i,
            {
                stamp_message(&mut messages[i], pull, broker_name, queue_id);
                i = i + 1;
            }
            messages
        },
        _ => message_list,
    }
}

/// What a pull request says: it asks for messages of every tag, tells the broker not
/// to wait and not to commit an offset, and names the broker that it is meant for.
/// Its version is the time, in milliseconds.
pub open spec fn pull_request(
    broker_name: Seq<char>,
    consumer_group: Seq<char>,
    topic: Seq<char>,
    queue_id: i32,
    offset: i64,
    max_nums: i32,
    now_millis: u64,
) -> RequestView {
    RequestView {
        code: RequestCode::PullMessage,
        header: HeaderView::PullMessage {
            consumer_group,
            topic,
            queue_id,
            queue_offset: offset,
            max_msg_nums: max_nums,
            sys_flag: 4,
            commit_offset: 0,
            suspend_timeout_millis: 0,
            subscription: Some(SUB_ALL@),
            sub_version: signed_bits(now_millis as int),
            expression_type: Some(EXPRESSION_TYPE_TAG@),
            max_msg_bytes: Some(i32::MAX),
            topic_request: Some(TopicRequestView { lo: None, rpc: Some(Some(broker_name)) }),
        },
        body: BodyView::Empty,
    }
}

/// A pull on its way: what is needed of it to read the response.
#[derive(Debug, PartialEq, Eq)]
pub struct PendingPull {
    pub broker_addr: String,
    pub broker_name: String,
    pub queue_id: i32,
}

/// How a pull is summed up in words.
#[derive(Debug, PartialEq, Eq)]
pub enum PullDescription<E> {
    /// The name of the status.
    Status(PullStatus),
    /// A text.
    Text(String),
    /// The message of a failure of the transport.
    Failure(E),
}

/// What the caller of a pull learns: the outcome, if there is one; the description;
/// and whether the pull failed.
pub type PullReport<E> = (Option<PullResult>, PullDescription<E>, bool);

/// What is to be done with a reply to a pull.
#[derive(Debug)]
pub enum PullStep<E> {
    /// Nothing: the pull is over.
    Done(PullReport<E>),
    /// The messages in `binary` are to be decoded.
    Decode { pull: PullResultExt, binary: Vec<u8> },
}

/// The text that a refused or unreadable response is described by.
pub open spec fn response_code_text(code: i32) -> Seq<char> {
    "Response Code:"@ + signed_decimal(code as int)
}

/// Whether `report` tells of a failure with that description.
pub open spec fn failed_with_text<E>(report: PullReport<E>, text: Seq<char>) -> bool {
    &&& report.0 is None
    &&& report.1 matches PullDescription::Text(t)
    &&& t@ == text
    &&& report.2
}

/// Whether `step` is what the reply to a pull calls for. Where the response is
/// refused or its header cannot be read, its code is reported. Messages are decoded
/// only where the pull found some.
pub open spec fn pull_step<E>(
    step: PullStep<E>,
    reply: Result<(RemotingCommand, Option<Result<PullMessageResponseHeader, E>>), E>,
) -> bool {
    match reply {
        Err(e) => step == PullStep::Done((None, PullDescription::Failure(e), true)),
        Ok((response, header)) => match (pull_status(response.code), header) {
            (Some(PullStatus::Found), Some(Ok(h))) => {
                &&& step matches PullStep::Decode { pull, binary }
                &&& pull.says(PullStatus::Found, h, None)
                &&& binary@ == (match response.body {
                    Some(bytes) => bytes@,
                    None => seq![],
                })
            },
            (Some(status), Some(Ok(h))) => {
                &&& step matches PullStep::Done(report)
                &&& report.0 matches Some(result)
                &&& result.says(status, h)
                &&& report.1 == PullDescription::<E>::Status(status)
                &&& !report.2
            },
            (_, _) => {
                &&& step matches PullStep::Done(report)
                &&& failed_with_text(report, response_code_text(response.code))
            },
        },
    }
}

impl BrokerOuterAPI {
    /// Pulls messages of one queue from one broker, at the time `now_millis`.
    pub fn pull_message_from_specific_broker_async(
        &self,
        broker_name: &str,
        broker_addr: &str,
        consumer_group: &str,
        topic: &str,
        queue_id: i32,
        offset: i64,
        max_nums: i32,
        timeout_millis: u64,
        now_millis: u64,
    ) -> (r: (Invocation, PendingPull))
        ensures
            r.0@ == (InvocationView::Async {
                addr: Some(broker_addr@),
                request: pull_request(
                    broker_name@,
                    consumer_group@,
                    topic@,
                    queue_id,
                    offset,
                    max_nums,
                    now_millis,
                ),
                timeout_millis,
            }),
            r.1.broker_addr@ == broker_addr@,
            r.1.broker_name@ == broker_name@,
            r.1.queue_id == queue_id,
    {
        let header = PullMessageRequestHeader {
            consumer_group: consumer_group.to_owned(),
            topic: topic.to_owned(),
            queue_id,
            queue_offset: offset,
            max_msg_nums: max_nums,
            sys_flag: build_sys_flag(false, false, true, false),
            commit_offset: 0,
            suspend_timeout_millis: 0,
            subscription: Some(SUB_ALL.to_owned()),
            sub_version: as_signed(now_millis),
            expression_type: Some(EXPRESSION_TYPE_TAG.to_owned()),
            max_msg_bytes: Some(i32::MAX),
            topic_request: Some(
                TopicRequestHeader {
                    lo: None,
                    rpc: Some(RpcRequestHeader { broker_name: Some(broker_name.to_owned()) }),
                },
            ),
        };
        let request = RemotingRequest {
            code: RequestCode::PullMessage,
            header: RequestHeader::PullMessage(header),
            body: RequestBody::Empty,
        };
        let pending = PendingPull {
            broker_addr: broker_addr.to_owned(),
            broker_name: broker_name.to_owned(),
            queue_id,
        };
        (
            Invocation::Async { addr: Some(broker_addr.to_owned()), request, timeout_millis },
            pending,
        )
    }
}

impl PendingPull {
    /// Reads the reply to a pull: the response, beside what its header decodes to
    /// where the code has a status, or the failure of the transport.
    pub fn answer<E>(
        &self,
        reply: Result<(RemotingCommand, Option<Result<PullMessageResponseHeader, E>>), E>,
    ) -> (r: PullStep<E>)
        requires
            reply is Ok && pull_status(reply->Ok_0.0.code) is Some ==> reply->Ok_0.1 is Some,
        ensures
            pull_step(r, reply),
    {
        let (response, header) = match reply {
            Ok(pair) => pair,
            Err(e) => {
                return PullStep::Done((None, PullDescription::Failure(e), true));
            },
        };
        let code: i32 = response.code;
        let mut pull = match process_pull_response(response, self.broker_addr.as_str(), header) {
            Ok(value) => value,
            Err(_) => {
                let mut text = "Response Code:".to_owned();
                text.append(signed_decimal_text(code).as_str());
                return PullStep::Done((None, PullDescription::Text(text), true));
            },
        };
        match take_message_binary(&mut pull) {
            Some(binary) => PullStep::Decode { pull, binary },
            None => {
                let status = pull.pull_result.pull_status;
                PullStep::Done((Some(pull.pull_result), PullDescription::Status(status), false))
            },
        }
    }

    /// Ends a pull whose messages are decoded. The report holds the outcome alone;
    /// the messages, stamped, stand beside it.
    pub fn finish<E>(&self, pull: PullResultExt, message_list: Vec<MessageExt>) -> (r: (
        PullReport<E>,
        Vec<MessageExt>,
    ))
        requires
            pull.pull_result.pull_status == PullStatus::Found ==> forall|i: int|
                0 <= i < message_list@.len() ==> offset_fits(
                    #[trigger] message_list@[i],
                    pull.offset_delta,
                ),
        ensures
            r.0.0 == Some(pull.pull_result),
            r.0.1 == PullDescription::<E>::Status(pull.pull_result.pull_status),
            !r.0.2,
            pull.pull_result.pull_status != PullStatus::Found ==> r.1@ == message_list@,
            pull.pull_result.pull_status == PullStatus::Found ==> r.1@.len() == message_list@.len()
                && forall|i: int|
                0 <= i < r.1@.len() ==> stamped(
                    message_list@[i],
                    #[trigger] r.1@[i],
                    pull,
                    self.broker_name@,
                    self.queue_id,
                ),
    {
        let messages = process_pull_result(
            &pull,
            self.broker_name.as_str(),
            self.queue_id,
            message_list,
        );
        let status = pull.pull_result.pull_status;
        ((Some(pull.pull_result), PullDescription::Status(status), false), messages)
    }
}

/// A pull has an outcome on exactly four codes, and each of them has a status of its
/// own.
pub proof fn lemma_pull_statuses(a: i32, b: i32)
    ensures
        pull_status(a) is Some <==> a == 0 || a == 19 || a == 20 || a == 21,
        pull_status(a) is Some && pull_status(a) == pull_status(b) ==> a == b,
{
}

/// A pull never ends in an error: it is reported with an outcome or as a failure, and
/// never both. An outcome lists no messages.
pub proof fn lemma_pull_reports<E>(
    step: PullStep<E>,
    reply: Result<(RemotingCommand, Option<Result<PullMessageResponseHeader, E>>), E>,
)
    requires
        pull_step(step, reply),
    ensures
        match step {
            PullStep::Done(report) => {
                &&& report.2 <==> report.0 is None
                &&& report.0 is Some ==> report.0->0.msg_found_list is Some
                    && report.0->0.msg_found_list->0@.len() == 0
            },
            PullStep::Decode { pull, .. } => {
                &&& pull.pull_result.pull_status == PullStatus::Found
                &&& pull.message_binary is None
                &&& pull.pull_result.msg_found_list is Some
                &&& pull.pull_result.msg_found_list->0@.len() == 0
            },
        },
{
}

/// Stamping a message touches two properties alone; any other reads as before.
pub proof fn lemma_stamp_keeps_properties(
    before: MessageExt,
    after: MessageExt,
    pull: PullResultExt,
    broker_name: Seq<char>,
    queue_id: i32,
    name: Seq<char>,
)
    requires
        stamped(before, after, pull, broker_name, queue_id),
        name != PROPERTY_MIN_OFFSET@,
        name != PROPERTY_MAX_OFFSET@,
    ensures
        property(after.properties@, name) == property(before.properties@, name),
{
}

/// A stamped message names the smallest and the largest offset of its queue.
pub proof fn lemma_stamp_names_offsets(
    before: MessageExt,
    after: MessageExt,
    pull: PullResultExt,
    broker_name: Seq<char>,
    queue_id: i32,
)
    requires
        stamped(before, after, pull, broker_name, queue_id),
    ensures
        property(after.properties@, PROPERTY_MIN_OFFSET@) == Some(
            decimal(pull.pull_result.min_offset as nat),
        ),
        property(after.properties@, PROPERTY_MAX_OFFSET@) == Some(
            decimal(pull.pull_result.max_offset as nat),
        ),
{
    reveal_strlit("MIN_OFFSET");
    reveal_strlit("MAX_OFFSET");
    assert(PROPERTY_MIN_OFFSET@[1] == 'I');
    assert(PROPERTY_MAX_OFFSET@[1] == 'A');
}

/// Stamping a message a second time changes nothing, unless the pull moves offsets.
pub proof fn lemma_stamp_twice(
    before: MessageExt,
    once: MessageExt,
    twice: MessageExt,
    pull: PullResultExt,
    broker_name: Seq<char>,
    queue_id: i32,
)
    requires
        stamped(before, once, pull, broker_name, queue_id),
        stamped(once, twice, pull, broker_name, queue_id),
        offset_shift(pull.offset_delta) == 0,
    ensures
        twice.properties@ == once.properties@,
        opt_text(twice.transaction_id) == opt_text(once.transaction_id),
        twice.broker_name@ == once.broker_name@,
        twice.queue_id == once.queue_id,
        twice.queue_offset == once.queue_offset,
{
    lemma_stamp_names_offsets(before, once, pull, broker_name, queue_id);
    assert(twice.properties@ =~= once.properties@);
    assert(PROPERTY_MIN_OFFSET@ != PROPERTY_TRANSACTION_PREPARED@ && PROPERTY_MAX_OFFSET@
        != PROPERTY_TRANSACTION_PREPARED@ && PROPERTY_MIN_OFFSET@
        != PROPERTY_UNIQ_CLIENT_MESSAGE_ID_KEYIDX@ && PROPERTY_MAX_OFFSET@
        != PROPERTY_UNIQ_CLIENT_MESSAGE_ID_KEYIDX@) by {
        reveal_strlit("MIN_OFFSET");
        reveal_strlit("MAX_OFFSET");
        reveal_strlit("TRAN_MSG");
        reveal_strlit("UNIQ_KEY");
        assert(PROPERTY_MIN_OFFSET@.len() == 10);
        assert(PROPERTY_MAX_OFFSET@.len() == 10);
    }
}

/// A pull is refused on exactly the codes without a status, and then with the code of
/// the response.
pub proof fn lemma_pull_refusals<E>(
    r: Result<PullResultExt, RocketmqError<E>>,
    response: RemotingCommand,
    addr: Seq<char>,
    header: Option<Result<PullMessageResponseHeader, E>>,
)
    requires
        pull_answer(r, response, addr, header),
    ensures
        r is Ok ==> r->Ok_0.pull_result.pull_status == pull_status(response.code)->0,
        r is Err && r->Err_0 is MQBrokerError <==> pull_status(response.code) is None,
        r is Err && r->Err_0 is MQBrokerError ==> r->Err_0->MQBrokerError_0 == response.code,
{
}

} // verus!
