//! What a pull asks of a broker, and what its answer means.
use crate::api::BrokerOuterAPI;
use crate::codes::{as_signed, RequestCode};
use crate::command::{Invocation, RemotingCommand, RequestHeader, RocketmqError};
use crate::message::MessageExt;
use crate::properties::PropertyMap;
use crate::pull::stamped;
use crate::pull::{
    offset_in_range, process_pull_response, process_pull_result, pull_status_of,
    take_message_binary, PendingPull, PullDescription, PullMessageResponseHeader, PullReport,
    PullResultExt, PullStatus, PullStep,
};
use crate::text::{decimal_text, signed_decimal_text};
use vstd::prelude::*;

verus! {

/// A pull has an outcome on four codes, each with a status of its own.
pub proof fn lemma_codes_of_pulls(code: i32, r: Option<PullStatus>)
    requires
        call_ensures(pull_status_of, (code,), r),
    ensures
        r == Some(PullStatus::Found) <==> code == 0,
        r == Some(PullStatus::NoNewMsg) <==> code == 19,
        r == Some(PullStatus::NoMatchedMsg) <==> code == 20,
        r == Some(PullStatus::OffsetIllegal) <==> code == 21,
        r is None <==> code != 0 && code != 19 && code != 20 && code != 21,
{
}

/// Every response can be read, with whatever its header decodes to where the code
/// has a status.
pub proof fn lemma_pulls_can_be_read<E>(
    pending: &PendingPull,
    addr: &str,
    response: RemotingCommand,
    header: Option<Result<PullMessageResponseHeader, E>>,
    failure: E,
)
    requires
        response.code == 0 || response.code == 19 || response.code == 20 || response.code == 21
            ==> header is Some,
    ensures
        call_requires(process_pull_response::<E>, (response, addr, header)),
        call_requires(PendingPull::answer::<E>, (pending, Ok((response, header)))),
        call_requires(PendingPull::answer::<E>, (pending, Err(failure))),
{
}

/// The messages of a pull can be stamped wherever their queue offsets can be moved
/// within the range of offsets; those of a pull that moves none always.
pub proof fn lemma_messages_can_be_stamped<E>(
    pending: &PendingPull,
    pull: PullResultExt,
    broker_name: &str,
    queue_id: i32,
    list: Vec<MessageExt>,
)
    requires
        pull.offset_delta is Some ==> forall|i: int|
            0 <= i < list@.len() ==> i64::MIN <= (#[trigger] list@[i]).queue_offset
                + pull.offset_delta->0 <= i64::MAX,
    ensures
        call_requires(process_pull_result, (&pull, broker_name, queue_id, list)),
        call_requires(PendingPull::finish::<E>, (pending, pull, list)),
{
}

/// The outcome of a pull has the offsets that the broker gives, each in its own place:
/// a number that is not negative is kept, and a negative one lies as far below the top
/// of the range as it lies below zero.
pub proof fn lemma_pull_outcome<E>(
    response: RemotingCommand,
    addr: &str,
    header: PullMessageResponseHeader,
    r: Result<PullResultExt, RocketmqError<E>>,
)
    requires
        call_ensures(process_pull_response::<E>, (response, addr, Some(Ok(header))), r),
        response.code == 0 || response.code == 19 || response.code == 20 || response.code == 21,
    ensures
        r matches Ok(pull) && {
            let result = pull.pull_result;
            &&& response.code == 0 <==> result.pull_status == PullStatus::Found
            &&& response.code == 19 <==> result.pull_status == PullStatus::NoNewMsg
            &&& response.code == 20 <==> result.pull_status == PullStatus::NoMatchedMsg
            &&& response.code == 21 <==> result.pull_status == PullStatus::OffsetIllegal
            &&& header.next_begin_offset >= 0 ==> result.next_begin_offset
                == header.next_begin_offset
            &&& header.next_begin_offset < 0 ==> result.next_begin_offset
                == 0x1_0000_0000_0000_0000 + header.next_begin_offset
            &&& header.min_offset >= 0 ==> result.min_offset == header.min_offset
            &&& header.min_offset < 0 ==> result.min_offset == 0x1_0000_0000_0000_0000
                + header.min_offset
            &&& header.max_offset >= 0 ==> result.max_offset == header.max_offset
            &&& header.max_offset < 0 ==> result.max_offset == 0x1_0000_0000_0000_0000
                + header.max_offset
            &&& result.msg_found_list is Some
            &&& result.msg_found_list->0@.len() == 0
            &&& pull.suggest_which_broker_id == header.suggest_which_broker_id
            &&& pull.offset_delta == header.offset_delta
            &&& pull.message_binary is Some <==> response.body is Some
            &&& response.body is Some ==> pull.message_binary->0@ == response.body->0@
        },
{
}

/// Where the next pull begins hangs on nothing but where the broker says that it does:
/// two outcomes begin at one offset exactly where their headers do. The same holds of
/// the smallest and of the largest offset.
pub proof fn lemma_offsets_do_not_mix<E>(
    response_a: RemotingCommand,
    response_b: RemotingCommand,
    addr_a: &str,
    addr_b: &str,
    header_a: PullMessageResponseHeader,
    header_b: PullMessageResponseHeader,
    a: Result<PullResultExt, RocketmqError<E>>,
    b: Result<PullResultExt, RocketmqError<E>>,
)
    requires
        call_ensures(process_pull_response::<E>, (response_a, addr_a, Some(Ok(header_a))), a),
        call_ensures(process_pull_response::<E>, (response_b, addr_b, Some(Ok(header_b))), b),
        a is Ok,
        b is Ok,
    ensures
        a->Ok_0.pull_result.next_begin_offset == b->Ok_0.pull_result.next_begin_offset
            <==> header_a.next_begin_offset == header_b.next_begin_offset,
        a->Ok_0.pull_result.min_offset == b->Ok_0.pull_result.min_offset <==> header_a.min_offset
            == header_b.min_offset,
        a->Ok_0.pull_result.max_offset == b->Ok_0.pull_result.max_offset <==> header_a.max_offset
            == header_b.max_offset,
{
}

/// A header that cannot be read fails a pull on a code with a status; on any other
/// code a pull is refused with that code, the remark, and the address of the broker.
pub proof fn lemma_failed_pull<E>(
    response: RemotingCommand,
    addr: &str,
    header: Option<Result<PullMessageResponseHeader, E>>,
    r: Result<PullResultExt, RocketmqError<E>>,
)
    requires
        call_ensures(process_pull_response::<E>, (response, addr, header), r),
    ensures
        (response.code == 0 || response.code == 19 || response.code == 20 || response.code == 21)
            && header is Some && header->0 is Err ==> r == Err::<PullResultExt, RocketmqError<E>>(
            RocketmqError::Remoting(header->0->Err_0),
        ),
        response.code != 0 && response.code != 19 && response.code != 20 && response.code != 21
            ==> (r matches Err(RocketmqError::MQBrokerError(code, message, address)) && {
            &&& code == response.code
            &&& response.remark is Some ==> message@ == response.remark->0@
            &&& response.remark is None ==> message@.len() == 0
            &&& address@ == addr@
        }),
{
}

/// The encoded messages of a pull that found some are taken out whole, and none are
/// left; those of another pull stay. The outcome is not touched.
pub proof fn lemma_binary_is_taken(pull: &mut PullResultExt, r: Option<Vec<u8>>)
    requires
        call_ensures(take_message_binary, (pull,), r),
    ensures
        final(pull).pull_result == old(pull).pull_result,
        final(pull).suggest_which_broker_id == old(pull).suggest_which_broker_id,
        final(pull).offset_delta == old(pull).offset_delta,
        r is Some <==> old(pull).pull_result.pull_status == PullStatus::Found,
        r is Some ==> final(pull).message_binary is None,
        r is Some && old(pull).message_binary is Some ==> r->0@ == old(pull).message_binary->0@,
        r is Some && old(pull).message_binary is None ==> r->0@.len() == 0,
        r is None ==> final(pull).message_binary == old(pull).message_binary,
{
}

/// An offset can be moved where the sum is an offset, and always where nothing moves
/// it.
pub proof fn lemma_movable_offsets(msg: &MessageExt, delta: Option<i64>, r: bool)
    requires
        call_ensures(offset_in_range, (msg, delta), r),
    ensures
        delta is None ==> r,
        delta is Some ==> (r <==> i64::MIN <= msg.queue_offset + delta->0 <= i64::MAX),
{
}

/// Messages of a pull that found some come out in their order, each with the broker
/// and the queue that are given, moved by the shift of the pull. What else a message
/// holds is its own.
pub proof fn lemma_stamped_messages(
    pull: &PullResultExt,
    broker_name: &str,
    queue_id: i32,
    list: Vec<MessageExt>,
    r: Vec<MessageExt>,
    i: int,
)
    requires
        call_ensures(process_pull_result, (pull, broker_name, queue_id, list), r),
        pull.pull_result.pull_status == PullStatus::Found,
    ensures
        r@.len() == list@.len(),
        0 <= i < list@.len() ==> {
            &&& r@[i].broker_name@ == broker_name@
            &&& r@[i].queue_id == queue_id
            &&& pull.offset_delta is Some ==> r@[i].queue_offset == list@[i].queue_offset
                + pull.offset_delta->0
            &&& pull.offset_delta is None ==> r@[i].queue_offset == list@[i].queue_offset
            &&& r@[i].topic@ == list@[i].topic@
            &&& r@[i].flag == list@[i].flag
            &&& r@[i].sys_flag == list@[i].sys_flag
            &&& r@[i].born_timestamp == list@[i].born_timestamp
            &&& r@[i].reconsume_times == list@[i].reconsume_times
        },
{
}

/// A stamped message names the smallest and the largest offset of its queue, spelled
/// as the numbers are; any other property reads as it did.
pub proof fn lemma_stamped_properties(
    pull: &PullResultExt,
    broker_name: &str,
    queue_id: i32,
    list: Vec<MessageExt>,
    r: Vec<MessageExt>,
    i: int,
    smallest: String,
    largest: String,
    name: &str,
    before: Option<String>,
    after: Option<String>,
)
    requires
        call_ensures(process_pull_result, (pull, broker_name, queue_id, list), r),
        pull.pull_result.pull_status == PullStatus::Found,
        0 <= i < list@.len(),
        call_ensures(decimal_text, (pull.pull_result.min_offset,), smallest),
        call_ensures(decimal_text, (pull.pull_result.max_offset,), largest),
        call_ensures(PropertyMap::get, (&list@[i].properties, name), before),
        call_ensures(PropertyMap::get, (&r@[i].properties, name), after),
    ensures
        name@ == "MIN_OFFSET"@ ==> after is Some && after->0@ == smallest@,
        name@ == "MAX_OFFSET"@ ==> after is Some && after->0@ == largest@,
        name@ != "MIN_OFFSET"@ && name@ != "MAX_OFFSET"@ ==> (after is Some <==> before is Some) && (
        after is Some ==> after->0@ == before->0@),
{
    reveal_strlit("MIN_OFFSET");
    reveal_strlit("MAX_OFFSET");
    assert("MIN_OFFSET"@[1] == 'I');
    assert("MAX_OFFSET"@[1] == 'A');
    assert(stamped(list@[i], r@[i], *pull, broker_name@, queue_id));
}

/// A prepared message with a client id takes that id as its transaction id; any other
/// message keeps the transaction id that it has.
pub proof fn lemma_stamped_transactions(
    pull: &PullResultExt,
    broker_name: &str,
    queue_id: i32,
    list: Vec<MessageExt>,
    r: Vec<MessageExt>,
    i: int,
    prepared: Option<String>,
    client_id: Option<String>,
)
    requires
        call_ensures(process_pull_result, (pull, broker_name, queue_id, list), r),
        pull.pull_result.pull_status == PullStatus::Found,
        0 <= i < list@.len(),
        call_ensures(PropertyMap::get, (&list@[i].properties, "TRAN_MSG"), prepared),
        call_ensures(PropertyMap::get, (&list@[i].properties, "UNIQ_KEY"), client_id),
    ensures
        prepared is Some && prepared->0@ == "true"@ && client_id is Some
            ==> r@[i].transaction_id is Some && r@[i].transaction_id->0@ == client_id->0@,
        prepared is None || prepared->0@ != "true"@ || client_id is None ==> (
        r@[i].transaction_id is Some <==> list@[i].transaction_id is Some) && (
        r@[i].transaction_id is Some ==> r@[i].transaction_id->0@ == list@[i].transaction_id->0@),
{
    assert(stamped(list@[i], r@[i], *pull, broker_name@, queue_id));
}

/// Messages of a pull that found none are not touched.
pub proof fn lemma_other_messages_stay(
    pull: &PullResultExt,
    broker_name: &str,
    queue_id: i32,
    list: Vec<MessageExt>,
    r: Vec<MessageExt>,
)
    requires
        call_ensures(process_pull_result, (pull, broker_name, queue_id, list), r),
        pull.pull_result.pull_status != PullStatus::Found,
    ensures
        r@ == list@,
{
}

/// A pull goes to the address that is given, with the time that is given. It asks for
/// as many messages as are wanted, from the offset that is wanted, of the queue and
/// the topic that are wanted, and of every tag; it asks the broker neither to wait nor
/// to commit. Its version is the time.
pub proof fn lemma_pull_asks(
    api: &BrokerOuterAPI,
    broker_name: &str,
    broker_addr: &str,
    consumer_group: &str,
    topic: &str,
    queue_id: i32,
    offset: i64,
    max_nums: i32,
    timeout: u64,
    now_millis: u64,
    version: i64,
    r: (Invocation, PendingPull),
)
    requires
        call_ensures(
            BrokerOuterAPI::pull_message_from_specific_broker_async,
            (
                api,
                broker_name,
                broker_addr,
                consumer_group,
                topic,
                queue_id,
                offset,
                max_nums,
                timeout,
                now_millis,
            ),
            r,
        ),
        call_ensures(as_signed, (now_millis,), version),
    ensures
        r.0 matches Invocation::Async { addr, request, timeout_millis } && {
            &&& addr is Some
            &&& addr->0@ == broker_addr@
            &&& timeout_millis == timeout
            &&& request.code == RequestCode::PullMessage
            &&& request.body is Empty
            &&& request.header matches RequestHeader::PullMessage(h)
            &&& h.consumer_group@ == consumer_group@
            &&& h.topic@ == topic@
            &&& h.queue_id == queue_id
            &&& h.queue_offset == offset
            &&& h.max_msg_nums == max_nums
            &&& h.sys_flag == 4
            &&& h.commit_offset == 0
            &&& h.suspend_timeout_millis == 0
            &&& h.subscription is Some
            &&& h.subscription->0@ == "*"@
            &&& h.sub_version == version
            &&& now_millis <= i64::MAX ==> h.sub_version == now_millis
            &&& h.expression_type is Some
            &&& h.expression_type->0@ == "TAG"@
            &&& h.max_msg_bytes == Some(0x7fff_ffffi32)
            &&& h.topic_request is Some
            &&& h.topic_request->0.lo is None
            &&& h.topic_request->0.rpc is Some
            &&& h.topic_request->0.rpc->0.broker_name is Some
            &&& h.topic_request->0.rpc->0.broker_name->0@ == broker_name@
        },
        r.1.broker_addr@ == broker_addr@,
        r.1.broker_name@ == broker_name@,
        r.1.queue_id == queue_id,
{
}

/// A failure of the transport is reported as it came, without an outcome.
pub proof fn lemma_transport_failure_reported<E>(pending: &PendingPull, failure: E, r: PullStep<E>)
    requires
        call_ensures(PendingPull::answer::<E>, (pending, Err(failure)), r),
    ensures
        r == PullStep::Done((None, PullDescription::Failure(failure), true)),
{
}

/// A refusal and a header that cannot be read are both reported by the code of the
/// response, spelled as a number, and without an outcome.
pub proof fn lemma_refusal_reported<E>(
    pending: &PendingPull,
    response: RemotingCommand,
    header: Option<Result<PullMessageResponseHeader, E>>,
    code: String,
    r: PullStep<E>,
)
    requires
        call_ensures(PendingPull::answer::<E>, (pending, Ok((response, header))), r),
        call_ensures(signed_decimal_text, (response.code,), code),
        (header is Some && header->0 is Err) || (response.code != 0 && response.code != 19
            && response.code != 20 && response.code != 21),
    ensures
        r matches PullStep::Done((result, description, failed)) && {
            &&& result is None
            &&& description matches PullDescription::Text(text)
            &&& text@ == "Response Code:"@ + code@
            &&& failed
        },
{
}

/// An answer with an outcome is reported with the outcome that the response amounts to,
/// under its status. Where messages were found, their bytes are to be decoded, all of
/// them and no others.
pub proof fn lemma_outcome_reported<E>(
    pending: &PendingPull,
    addr: &str,
    response: RemotingCommand,
    header: PullMessageResponseHeader,
    read: Result<PullResultExt, RocketmqError<E>>,
    r: PullStep<E>,
)
    requires
        call_ensures(PendingPull::answer::<E>, (pending, Ok((response, Some(Ok(header))))), r),
        call_ensures(process_pull_response::<E>, (response, addr, Some(Ok(header))), read),
        read is Ok,
    ensures
        ({
            let outcome = match r {
                PullStep::Done(report) => report.0->0,
                PullStep::Decode { pull, .. } => pull.pull_result,
            };
            &&& outcome.pull_status == read->Ok_0.pull_result.pull_status
            &&& outcome.next_begin_offset == read->Ok_0.pull_result.next_begin_offset
            &&& outcome.min_offset == read->Ok_0.pull_result.min_offset
            &&& outcome.max_offset == read->Ok_0.pull_result.max_offset
            &&& outcome.msg_found_list is Some
            &&& outcome.msg_found_list->0@.len() == 0
            &&& header.next_begin_offset >= 0 ==> outcome.next_begin_offset
                == header.next_begin_offset
        }),
        r is Decode <==> response.code == 0,
        r matches PullStep::Decode { pull, binary } ==> {
            &&& pull.message_binary is None
            &&& pull.offset_delta == header.offset_delta
            &&& pull.suggest_which_broker_id == header.suggest_which_broker_id
            &&& response.body is Some ==> binary@ == response.body->0@
            &&& response.body is None ==> binary@.len() == 0
        },
        r matches PullStep::Done((result, description, failed)) ==> {
            &&& result is Some
            &&& description == PullDescription::<E>::Status(read->Ok_0.pull_result.pull_status)
            &&& !failed
        },
{
}

/// A pull whose messages are decoded is reported with its outcome as it is, under its
/// status. Its messages come out as they are stamped for the broker and the queue that
/// it was sent to.
pub proof fn lemma_decoded_pull_reported<E>(
    pending: &PendingPull,
    pull: PullResultExt,
    list: Vec<MessageExt>,
    r: (PullReport<E>, Vec<MessageExt>),
    i: int,
)
    requires
        call_ensures(PendingPull::finish::<E>, (pending, pull, list), r),
    ensures
        r.0.0 == Some(pull.pull_result),
        r.0.1 == PullDescription::<E>::Status(pull.pull_result.pull_status),
        !r.0.2,
        pull.pull_result.pull_status != PullStatus::Found ==> r.1@ == list@,
        r.1@.len() == list@.len(),
        pull.pull_result.pull_status == PullStatus::Found && 0 <= i < list@.len() ==> {
            &&& r.1@[i].broker_name@ == pending.broker_name@
            &&& r.1@[i].queue_id == pending.queue_id
            &&& pull.offset_delta is Some ==> r.1@[i].queue_offset == list@[i].queue_offset
                + pull.offset_delta->0
            &&& pull.offset_delta is None ==> r.1@[i].queue_offset == list@[i].queue_offset
            &&& r.1@[i].topic@ == list@[i].topic@
            &&& r.1@[i].flag == list@[i].flag
            &&& r.1@[i].sys_flag == list@[i].sys_flag
            &&& r.1@[i].born_timestamp == list@[i].born_timestamp
            &&& r.1@[i].reconsume_times == list@[i].reconsume_times
        },
{
}

/// The messages that a pull ends with say what stamping alone makes them say.
pub proof fn lemma_decoded_pull_stamps<E>(
    pending: &PendingPull,
    broker_name: &str,
    pull: PullResultExt,
    list: Vec<MessageExt>,
    r: (PullReport<E>, Vec<MessageExt>),
    messages: Vec<MessageExt>,
    i: int,
)
    requires
        call_ensures(PendingPull::finish::<E>, (pending, pull, list), r),
        broker_name@ == pending.broker_name@,
        call_ensures(process_pull_result, (&pull, broker_name, pending.queue_id, list), messages),
        0 <= i < list@.len(),
    ensures
        r.1@.len() == messages@.len(),
        r.1@[i].properties@ == messages@[i].properties@,
        r.1@[i].transaction_id is Some <==> messages@[i].transaction_id is Some,
        r.1@[i].transaction_id is Some ==> r.1@[i].transaction_id->0@
            == messages@[i].transaction_id->0@,
{
}

} // verus!
