use broker_outer_api::api::BrokerOuterAPI;
use broker_outer_api::codes::{as_signed, as_unsigned, build_sys_flag, RequestCode, ResponseCode};
use broker_outer_api::command::{
    Invocation, PullMessageRequestHeader, RemotingCommand, RemotingRequest, RequestBody,
    RequestHeader, RocketmqError, RpcRequestHeader, SendMessageRequestHeader, TopicRequestHeader,
};
use broker_outer_api::message::{MessageExt, MessageQueue};
use broker_outer_api::properties::PropertyMap;
use broker_outer_api::pull::{
    offset_in_range, process_pull_response, process_pull_result, pull_status_of,
    take_message_binary, PendingPull, PullDescription, PullMessageResponseHeader, PullReport,
    PullResult, PullResultExt, PullStatus, PullStep,
};
use broker_outer_api::send::{
    build_send_message_request, process_send_response, send_status_of, PendingSend,
    SendMessageResponseHeader, SendResult, SendStatus,
};

fn text(s: &str) -> String {
    s.to_string()
}

fn properties(pairs: &[(&str, &str)]) -> PropertyMap {
    let mut map = PropertyMap::new();
    for (name, value) in pairs {
        map.put(text(name), text(value));
    }
    map
}

fn message(pairs: &[(&str, &str)]) -> MessageExt {
    MessageExt {
        topic: text("orders"),
        flag: 5,
        properties: properties(pairs),
        transaction_id: None,
        broker_name: text("old"),
        queue_id: 2,
        queue_offset: 100,
        sys_flag: 7,
        born_timestamp: 1234,
        reconsume_times: 3,
    }
}

fn response(code: i32, remark: Option<&str>, fields: Option<PropertyMap>) -> RemotingCommand {
    RemotingCommand { code, remark: remark.map(text), ext_fields: fields, body: None }
}

fn send_header(queue_id: i32, transaction_id: Option<&str>) -> SendMessageResponseHeader {
    SendMessageResponseHeader {
        msg_id: text("broker-id"),
        queue_id,
        transaction_id: transaction_id.map(text),
    }
}

fn pull_header(offset_delta: Option<i64>) -> PullMessageResponseHeader {
    PullMessageResponseHeader {
        suggest_which_broker_id: 1,
        next_begin_offset: 42,
        min_offset: 0,
        max_offset: -1,
        offset_delta,
    }
}

fn found(offset_delta: Option<i64>) -> PullResultExt {
    PullResultExt {
        pull_result: PullResult {
            pull_status: PullStatus::Found,
            next_begin_offset: 42,
            min_offset: 10,
            max_offset: 907,
            msg_found_list: Some(Vec::new()),
        },
        suggest_which_broker_id: 1,
        message_binary: Some(vec![1, 2, 3]),
        offset_delta,
    }
}

fn send(
    code: i32,
    fields: Option<PropertyMap>,
    header: Result<SendMessageResponseHeader, u8>,
) -> Result<SendResult, RocketmqError<u8>> {
    process_send_response(
        "broker-a",
        text("client-id"),
        2,
        text("orders"),
        &response(code, Some("busy"), fields),
        send_status_of(code).map(|_| header),
    )
}

#[test]
fn response_codes_are_told_apart() {
    assert_eq!(ResponseCode::from_code(0), ResponseCode::Success);
    assert_eq!(ResponseCode::from_code(10), ResponseCode::FlushDiskTimeout);
    assert_eq!(ResponseCode::from_code(11), ResponseCode::SlaveNotAvailable);
    assert_eq!(ResponseCode::from_code(12), ResponseCode::FlushSlaveTimeout);
    assert_eq!(ResponseCode::from_code(17), ResponseCode::TopicNotExist);
    assert_eq!(ResponseCode::from_code(19), ResponseCode::PullNotFound);
    assert_eq!(ResponseCode::from_code(20), ResponseCode::PullRetryImmediately);
    assert_eq!(ResponseCode::from_code(21), ResponseCode::PullOffsetMoved);
    assert_eq!(ResponseCode::from_code(1), ResponseCode::Other);
    assert_eq!(ResponseCode::from_code(-1), ResponseCode::Other);
}

#[test]
fn flags_and_bit_patterns() {
    assert_eq!(build_sys_flag(false, false, true, false), 4);
    assert_eq!(build_sys_flag(true, true, true, true), 15);
    assert_eq!(build_sys_flag(false, false, false, false), 0);
    assert_eq!(as_unsigned(-1), u64::MAX);
    assert_eq!(as_unsigned(i64::MIN), 1 << 63);
    assert_eq!(as_unsigned(7), 7);
    assert_eq!(as_signed(u64::MAX), -1);
    assert_eq!(as_signed(1 << 63), i64::MIN);
    assert_eq!(as_signed(7), 7);
}

#[test]
fn properties_hold_the_last_value() {
    let mut map = properties(&[("a", "1"), ("b", "2"), ("a", "3")]);
    assert_eq!(map.get("a"), Some(text("3")));
    assert_eq!(map.get("b"), Some(text("2")));
    assert_eq!(map.get("c"), None);
    map.put(text("c"), text(""));
    assert_eq!(map.get("c"), Some(text("")));
    assert_eq!(map.get("a"), Some(text("3")));
}

#[test]
fn taken_message_in_a_region() {
    let fields = properties(&[("MSG_REGION", "north")]);
    let result = send(0, Some(fields), Ok(send_header(9, Some("tx")))).unwrap();
    assert_eq!(
        result,
        SendResult {
            send_status: SendStatus::SendOk,
            msg_id: Some(text("client-id")),
            offset_msg_id: Some(text("broker-id")),
            message_queue: Some(MessageQueue {
                topic: text("orders"),
                broker_name: text("broker-a"),
                queue_id: 2,
            }),
            queue_offset: 9,
            transaction_id: Some(text("tx")),
            region_id: Some(text("north")),
            trace_on: false,
        }
    );
}

#[test]
fn taken_message_without_a_region() {
    let result = send(12, Some(PropertyMap::new()), Ok(send_header(-1, None))).unwrap();
    assert_eq!(result.send_status, SendStatus::FlushSlaveTimeout);
    assert_eq!(result.region_id, Some(text("DefaultRegion")));
    assert!(!result.trace_on);
    assert_eq!(result.transaction_id, Some(String::new()));
    assert_eq!(result.queue_offset, u64::MAX);
}

#[test]
fn tracing_follows_the_region() {
    let fields = properties(&[("MSG_REGION", "true")]);
    let result = send(10, Some(fields), Ok(send_header(0, None))).unwrap();
    assert_eq!(result.send_status, SendStatus::FlushDiskTimeout);
    assert_eq!(result.region_id, Some(text("true")));
    assert!(result.trace_on);
}

#[test]
fn refused_message() {
    for code in [1, 2, 17, 21, -5] {
        assert_eq!(
            send(code, None, Ok(send_header(0, None))),
            Err(RocketmqError::MQBrokerError(code, String::new(), text("busy")))
        );
    }
}

#[test]
fn unreadable_send_header() {
    assert_eq!(send(11, None, Err(9)), Err(RocketmqError::Remoting(9)));
    assert_eq!(
        send(1, None, Err(9)),
        Err(RocketmqError::MQBrokerError(1, String::new(), text("busy")))
    );
}

#[test]
fn send_request_of_a_message() {
    let request = build_send_message_request(&message(&[]), text("group"), text("k\u{1}v\u{2}"));
    assert_eq!(
        request,
        RemotingRequest {
            code: RequestCode::SendMessage,
            header: RequestHeader::SendMessageV2(SendMessageRequestHeader {
                producer_group: text("group"),
                topic: text("orders"),
                default_topic: text("TBW102"),
                default_topic_queue_nums: 8,
                queue_id: 2,
                sys_flag: 7,
                born_timestamp: 1234,
                flag: 5,
                properties: Some(text("k\u{1}v\u{2}")),
                reconsume_times: Some(3),
                batch: Some(false),
            }),
            body: RequestBody::Empty,
        }
    );
}

#[test]
fn send_from_request_to_result() {
    let api = BrokerOuterAPI::new();
    let (invocation, pending) = api.send_message_to_specific_broker(
        "1.2.3.4:10911",
        "broker-a",
        message(&[("UNIQ_KEY", "client-id")]),
        text("group"),
        3000,
        text("p"),
    );
    match invocation {
        Invocation::Async { addr, request, timeout_millis } => {
            assert_eq!(addr, Some(text("1.2.3.4:10911")));
            assert_eq!(request.code, RequestCode::SendMessage);
            assert_eq!(timeout_millis, 3000);
        }
        Invocation::Oneway { .. } => panic!("a send waits for its response"),
    }
    let header = Some(Ok::<_, u8>(send_header(4, None)));
    let taken = (response(0, None, Some(PropertyMap::new())), header);
    let result = pending.complete(Ok(taken)).unwrap();
    assert_eq!(result.msg_id, Some(text("client-id")));
    assert_eq!(result.message_queue.unwrap().queue_id, 2);
    assert_eq!(result.queue_offset, 4);
}

#[test]
fn send_without_client_id_or_transport() {
    let api = BrokerOuterAPI::new();
    let (_, pending) =
        api.send_message_to_specific_broker("a", "b", message(&[]), text("g"), 1, text(""));
    assert_eq!(
        pending,
        PendingSend {
            broker_name: text("b"),
            uniq_msg_id: String::new(),
            queue_id: 2,
            topic: text("orders"),
        }
    );
    assert_eq!(pending.complete(Err(8u8)), Err(RocketmqError::Remoting(8)));
}

#[test]
fn pull_request_of_a_queue() {
    let api = BrokerOuterAPI::new();
    let (invocation, pending) = api.pull_message_from_specific_broker_async(
        "broker-a", "1.2.3.4:10911", "group", "orders", 3, 77, 32, 5000, 1700000000000,
    );
    assert_eq!(
        invocation,
        Invocation::Async {
            addr: Some(text("1.2.3.4:10911")),
            request: RemotingRequest {
                code: RequestCode::PullMessage,
                header: RequestHeader::PullMessage(PullMessageRequestHeader {
                    consumer_group: text("group"),
                    topic: text("orders"),
                    queue_id: 3,
                    queue_offset: 77,
                    max_msg_nums: 32,
                    sys_flag: 4,
                    commit_offset: 0,
                    suspend_timeout_millis: 0,
                    subscription: Some(text("*")),
                    sub_version: 1700000000000,
                    expression_type: Some(text("TAG")),
                    max_msg_bytes: Some(i32::MAX),
                    topic_request: Some(TopicRequestHeader {
                        lo: None,
                        rpc: Some(RpcRequestHeader { broker_name: Some(text("broker-a")) }),
                    }),
                }),
                body: RequestBody::Empty,
            },
            timeout_millis: 5000,
        }
    );
    assert_eq!(
        pending,
        PendingPull {
            broker_addr: text("1.2.3.4:10911"),
            broker_name: text("broker-a"),
            queue_id: 3,
        }
    );
}

#[test]
fn pull_statuses_by_code() {
    let expected = [
        (0, PullStatus::Found),
        (19, PullStatus::NoNewMsg),
        (20, PullStatus::NoMatchedMsg),
        (21, PullStatus::OffsetIllegal),
    ];
    for (code, status) in expected {
        let mut answer = response(code, None, None);
        answer.body = Some(vec![7]);
        let pull = process_pull_response::<u8>(answer, "addr", Some(Ok(pull_header(Some(5))))).unwrap();
        assert_eq!(pull.pull_result.pull_status, status);
        assert_eq!(pull.pull_result.next_begin_offset, 42);
        assert_eq!(pull.pull_result.min_offset, 0);
        assert_eq!(pull.pull_result.max_offset, u64::MAX);
        assert!(pull.pull_result.msg_found_list.unwrap().is_empty());
        assert_eq!(pull.suggest_which_broker_id, 1);
        assert_eq!(pull.message_binary, Some(vec![7]));
        assert_eq!(pull.offset_delta, Some(5));
    }
}

#[test]
fn refused_or_unreadable_pull() {
    let refused = process_pull_response::<u8>(response(3, Some("no"), None), "addr", None);
    assert_eq!(refused.unwrap_err(), RocketmqError::MQBrokerError(3, text("no"), text("addr")));
    let silent = process_pull_response::<u8>(response(10, None, None), "addr", Some(Err(1)));
    assert_eq!(silent.unwrap_err(), RocketmqError::MQBrokerError(10, text(""), text("addr")));
    let unreadable = process_pull_response::<u8>(response(19, None, None), "addr", Some(Err(1)));
    assert_eq!(unreadable.unwrap_err(), RocketmqError::Remoting(1));
}

#[test]
fn binary_is_taken_from_found_pulls_alone() {
    let mut pull = found(None);
    assert_eq!(take_message_binary(&mut pull), Some(vec![1, 2, 3]));
    assert_eq!(pull.message_binary, None);
    assert_eq!(take_message_binary(&mut pull), Some(Vec::new()));
    let mut other = found(None);
    other.pull_result.pull_status = PullStatus::NoNewMsg;
    assert_eq!(take_message_binary(&mut other), None);
    assert_eq!(other.message_binary, Some(vec![1, 2, 3]));
}

#[test]
fn pulled_messages_are_stamped() {
    let list = vec![
        message(&[("TRAN_MSG", "true"), ("UNIQ_KEY", "id-1"), ("MIN_OFFSET", "x")]),
        message(&[("TRAN_MSG", "false"), ("UNIQ_KEY", "id-2")]),
        message(&[("TRAN_MSG", "true")]),
    ];
    let stamped = process_pull_result(&found(Some(-30)), "broker-b", 6, list);
    assert_eq!(stamped.len(), 3);
    for m in &stamped {
        assert_eq!(m.properties.get("MIN_OFFSET"), Some(text("10")));
        assert_eq!(m.properties.get("MAX_OFFSET"), Some(text("907")));
        assert_eq!(m.broker_name, "broker-b");
        assert_eq!(m.queue_id, 6);
        assert_eq!(m.queue_offset, 70);
        assert_eq!(m.topic, "orders");
        assert_eq!(m.reconsume_times, 3);
    }
    assert_eq!(stamped[0].transaction_id, Some(text("id-1")));
    assert_eq!(stamped[1].transaction_id, None);
    assert_eq!(stamped[2].transaction_id, None);
    assert_eq!(stamped[1].properties.get("UNIQ_KEY"), Some(text("id-2")));
}

#[test]
fn stamping_twice_changes_nothing() {
    let pull = found(None);
    let once = process_pull_result(&pull, "b", 1, vec![message(&[("TRAN_MSG", "true"), ("UNIQ_KEY", "u")])]);
    let twice = process_pull_result(&pull, "b", 1, once);
    assert_eq!(twice[0].queue_offset, 100);
    assert_eq!(twice[0].transaction_id, Some(text("u")));
    assert_eq!(twice[0].properties.get("MAX_OFFSET"), Some(text("907")));
}

#[test]
fn messages_of_other_pulls_stay_as_they_are() {
    let mut pull = found(Some(1));
    pull.pull_result.pull_status = PullStatus::OffsetIllegal;
    let list = process_pull_result(&pull, "b", 1, vec![message(&[])]);
    assert_eq!(list[0].broker_name, "old");
    assert_eq!(list[0].queue_offset, 100);
    assert_eq!(list[0].properties.get("MIN_OFFSET"), None);
}

#[test]
fn properties_are_listed() {
    assert!(PropertyMap::new().names().is_empty());
    let mut map = properties(&[("KEYS", "k"), ("TAGS", "a"), ("WAIT", "true")]);
    map.put(text("TAGS"), text("b"));
    let mut names = map.names();
    names.sort();
    assert_eq!(names, vec![text("KEYS"), text("TAGS"), text("WAIT")]);
    assert_eq!(map.get("TAGS"), Some(text("b")));
}

#[test]
fn codes_with_a_status() {
    assert_eq!(send_status_of(0), Some(SendStatus::SendOk));
    assert_eq!(send_status_of(10), Some(SendStatus::FlushDiskTimeout));
    assert_eq!(send_status_of(11), Some(SendStatus::SlaveNotAvailable));
    assert_eq!(send_status_of(12), Some(SendStatus::FlushSlaveTimeout));
    assert_eq!(send_status_of(1), None);
    assert_eq!(send_status_of(19), None);
    assert_eq!(pull_status_of(0), Some(PullStatus::Found));
    assert_eq!(pull_status_of(19), Some(PullStatus::NoNewMsg));
    assert_eq!(pull_status_of(20), Some(PullStatus::NoMatchedMsg));
    assert_eq!(pull_status_of(21), Some(PullStatus::OffsetIllegal));
    assert_eq!(pull_status_of(10), None);
    assert_eq!(pull_status_of(-1), None);
}

#[test]
fn offsets_that_cannot_be_moved() {
    let mut m = message(&[]);
    assert!(offset_in_range(&m, Some(i64::MAX - 100)));
    assert!(!offset_in_range(&m, Some(i64::MAX - 99)));
    assert!(offset_in_range(&m, None));
    m.queue_offset = -1;
    assert!(!offset_in_range(&m, Some(i64::MIN)));
    assert!(offset_in_range(&m, Some(i64::MAX)));
}

fn pending_pull() -> PendingPull {
    PendingPull { broker_addr: text("addr"), broker_name: text("broker-b"), queue_id: 6 }
}

fn done(step: PullStep<u8>) -> PullReport<u8> {
    match step {
        PullStep::Done(report) => report,
        PullStep::Decode { .. } => panic!("nothing is to be decoded"),
    }
}

#[test]
fn pull_failures_are_reported() {
    let (result, description, failed) = done(pending_pull().answer(Err(4)));
    assert!(result.is_none() && failed);
    assert_eq!(description, PullDescription::Failure(4));
    let (result, description, failed) =
        done(pending_pull().answer(Ok((response(-12, Some("x"), None), None))));
    assert!(result.is_none() && failed);
    assert_eq!(description, PullDescription::Text(text("Response Code:-12")));
    let (result, description, failed) =
        done(pending_pull().answer(Ok((response(0, None, None), Some(Err(4))))));
    assert!(result.is_none() && failed);
    assert_eq!(description, PullDescription::Text(text("Response Code:0")));
}

#[test]
fn pull_without_messages_is_over() {
    let (result, description, failed) =
        done(pending_pull().answer(Ok((response(19, None, None), Some(Ok(pull_header(None)))))));
    assert_eq!(result.unwrap().next_begin_offset, 42);
    assert_eq!(description, PullDescription::Status(PullStatus::NoNewMsg));
    assert!(!failed);
}

#[test]
fn found_messages_are_decoded_and_stamped() {
    let mut answer = response(0, None, None);
    answer.body = Some(vec![9, 9]);
    let step = pending_pull().answer::<u8>(Ok((answer, Some(Ok(pull_header(Some(1)))))));
    let (pull, binary) = match step {
        PullStep::Decode { pull, binary } => (pull, binary),
        PullStep::Done(_) => panic!("there are messages"),
    };
    assert_eq!(binary, vec![9, 9]);
    assert_eq!(pull.message_binary, None);
    let ((result, description, failed), stamped) =
        pending_pull().finish::<u8>(pull, vec![message(&[])]);
    let result = result.unwrap();
    assert_eq!(result.pull_status, PullStatus::Found);
    assert!(result.msg_found_list.unwrap().is_empty());
    assert_eq!(description, PullDescription::Status(PullStatus::Found));
    assert!(!failed);
    assert_eq!(stamped[0].queue_offset, 101);
    assert_eq!(stamped[0].properties.get("MAX_OFFSET"), Some(u64::MAX.to_string()));
}
