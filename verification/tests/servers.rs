use broker_outer_api::api::BrokerOuterAPI;
use broker_outer_api::codes::RequestCode;
use broker_outer_api::command::{
    Invocation, QueueData, RegisterBrokerRequestHeader, RemotingCommand, RemotingRequest,
    RequestBody, RequestHeader, RocketmqError, UnRegisterBrokerRequestHeader,
};
use broker_outer_api::queue_lock::LockStep;
use broker_outer_api::registration::{
    RegisterBrokerResponseHeader, RegisterBrokerResult, TopicConfig,
};

fn text(s: &str) -> String {
    s.to_string()
}

fn servers() -> Vec<String> {
    vec![text("ns1:9876"), text("ns2:9876")]
}

fn response(code: i32, remark: Option<&str>, body: Option<Vec<u8>>) -> RemotingCommand {
    RemotingCommand { code, remark: remark.map(text), ext_fields: None, body }
}

fn register(oneway: bool, list: &Vec<String>) -> Vec<Invocation> {
    BrokerOuterAPI::new().register_broker_all(
        list,
        text("cluster"),
        text("addr"),
        text("broker"),
        7,
        text("ha"),
        &vec![1, 2],
        99,
        oneway,
        6000,
        true,
        Some(10),
    )
}

fn register_request() -> RemotingRequest {
    RemotingRequest {
        code: RequestCode::RegisterBroker,
        header: RequestHeader::RegisterBroker(RegisterBrokerRequestHeader {
            broker_addr: text("addr"),
            broker_id: 7,
            broker_name: text("broker"),
            cluster_name: text("cluster"),
            ha_server_addr: text("ha"),
            enable_acting_master: Some(true),
            compressed: false,
            heartbeat_timeout_millis: Some(10),
            body_crc32: 99,
        }),
        body: RequestBody::Bytes(vec![1, 2]),
    }
}

#[test]
fn registration_goes_to_every_server() {
    assert_eq!(
        register(false, &servers()),
        vec![
            Invocation::Async {
                addr: Some(text("ns1:9876")),
                request: register_request(),
                timeout_millis: 6000,
            },
            Invocation::Async {
                addr: Some(text("ns2:9876")),
                request: register_request(),
                timeout_millis: 6000,
            },
        ]
    );
    assert!(register(false, &Vec::new()).is_empty());
}

#[test]
fn oneway_registration() {
    assert_eq!(
        register(true, &servers())[0],
        Invocation::Oneway {
            namesrv_addr: text("ns1:9876"),
            request: register_request(),
            timeout_millis: 6000,
        }
    );
    let api = BrokerOuterAPI::new();
    assert_eq!(api.register_broker_response::<u32, u8>(None, 77), None);
    let outcomes = register(true, &servers())
        .iter()
        .map(|_| api.register_broker_response::<u32, u8>(None, 77))
        .collect();
    assert!(api.register_broker_results(outcomes).is_empty());
}

#[test]
fn registration_answers() {
    let api = BrokerOuterAPI::new();
    let header = RegisterBrokerResponseHeader {
        ha_server_addr: Some(text("ha2")),
        master_addr: None,
    };
    let full = api.register_broker_response::<u32, u8>(
        Some(Ok((response(0, None, Some(vec![1])), Some(Ok(header)), Some(55)))),
        77,
    );
    assert_eq!(
        full,
        Some(RegisterBrokerResult {
            ha_server_addr: text("ha2"),
            master_addr: text(""),
            kv_table: 55,
        })
    );
    let bare = api.register_broker_response::<u32, u8>(
        Some(Ok((response(0, None, None), Some(Err(3)), Some(55)))),
        77,
    );
    assert_eq!(
        bare,
        Some(RegisterBrokerResult {
            ha_server_addr: text(""),
            master_addr: text(""),
            kv_table: 77,
        })
    );
    let refused =
        api.register_broker_response::<u32, u8>(Some(Ok((response(1, None, None), None, None))), 77);
    assert_eq!(refused, None);
    assert_eq!(api.register_broker_response::<u32, u8>(Some(Err(3)), 77), None);
}

fn result(name: &str) -> Option<RegisterBrokerResult<u8>> {
    Some(RegisterBrokerResult {
        ha_server_addr: text(name),
        master_addr: text(""),
        kv_table: 0,
    })
}

#[test]
fn registration_results_come_last_server_first() {
    let api = BrokerOuterAPI::new();
    let results = api.register_broker_results(vec![result("a"), None, result("b"), None, result("c")]);
    let names: Vec<String> = results.into_iter().map(|r| r.ha_server_addr).collect();
    assert_eq!(names, vec![text("c"), text("b"), text("a")]);
    assert!(api.register_broker_results::<u8>(vec![None, None]).is_empty());
    assert!(api.register_broker_results::<u8>(Vec::new()).is_empty());
}

fn config() -> TopicConfig {
    TopicConfig {
        topic_name: Some(text("orders")),
        read_queue_nums: 8,
        write_queue_nums: 4,
        perm: 6,
        topic_sys_flag: 1,
    }
}

#[test]
fn topic_request_lists_the_queues() {
    assert_eq!(
        BrokerOuterAPI::create_request(text("broker"), &config()),
        RemotingRequest {
            code: RequestCode::RegisterTopicInNamesrv,
            header: RequestHeader::RegisterTopic { topic: text("orders") },
            body: RequestBody::TopicRoute {
                queue_datas: vec![QueueData {
                    broker_name: text("broker"),
                    read_queue_nums: 8,
                    write_queue_nums: 4,
                    perm: 6,
                    topic_sys_flag: 1,
                }],
            },
        }
    );
}

#[test]
fn topic_goes_to_every_server() {
    let api = BrokerOuterAPI::new();
    let plan = api.register_single_topic_all(&servers(), "broker", &config(), 500);
    assert_eq!(plan.len(), 2);
    for (invocation, server) in plan.iter().zip(servers()) {
        assert_eq!(
            *invocation,
            Invocation::Async {
                addr: Some(server),
                request: BrokerOuterAPI::create_request(text("broker"), &config()),
                timeout_millis: 500,
            }
        );
    }
}

#[test]
fn withdrawal_goes_to_every_server() {
    let api = BrokerOuterAPI::new();
    let plan = api.unregister_broker_all(&servers(), "cluster", "broker", "addr", 7);
    assert_eq!(plan.len(), 2);
    for (invocation, server) in plan.iter().zip(servers()) {
        assert_eq!(
            *invocation,
            Invocation::Async {
                addr: Some(server),
                request: RemotingRequest {
                    code: RequestCode::UnregisterBroker,
                    header: RequestHeader::UnregisterBroker(UnRegisterBrokerRequestHeader {
                        broker_name: text("broker"),
                        broker_addr: text("addr"),
                        cluster_name: text("cluster"),
                        broker_id: 7,
                    }),
                    body: RequestBody::Empty,
                },
                timeout_millis: 3000,
            }
        );
    }
}

#[test]
fn withdrawal_answers() {
    let api = BrokerOuterAPI::new();
    assert_eq!(api.unregister_broker_response::<u8>("addr", Ok(response(0, None, None))), Ok(()));
    assert_eq!(
        api.unregister_broker_response::<u8>("addr", Ok(response(1, Some("no"), None))),
        Err(RocketmqError::MQBrokerError(1, text("no"), text("addr")))
    );
    assert_eq!(
        api.unregister_broker_response::<u8>("addr", Ok(response(1, None, None))),
        Err(RocketmqError::MQBrokerError(1, text(""), text("addr")))
    );
    assert_eq!(
        api.unregister_broker_response::<u8>("addr", Err(2)),
        Err(RocketmqError::Remoting(2))
    );
}

#[test]
fn lock_and_unlock_requests() {
    let api = BrokerOuterAPI::new();
    assert_eq!(
        api.lock_batch_mq_async("addr", vec![5], 100),
        Invocation::Async {
            addr: Some(text("addr")),
            request: RemotingRequest {
                code: RequestCode::LockBatchMq,
                header: RequestHeader::LockBatchMq,
                body: RequestBody::Bytes(vec![5]),
            },
            timeout_millis: 100,
        }
    );
    assert_eq!(
        api.unlock_batch_mq_async("addr", vec![6], 200),
        Invocation::Async {
            addr: Some(text("addr")),
            request: RemotingRequest {
                code: RequestCode::UnlockBatchMq,
                header: RequestHeader::UnlockBatchMq,
                body: RequestBody::Bytes(vec![6]),
            },
            timeout_millis: 200,
        }
    );
}

#[test]
fn lock_answers() {
    let api = BrokerOuterAPI::new();
    assert_eq!(
        api.lock_batch_mq_response::<u32, u8>(Ok((response(0, None, Some(vec![1])), Some(11)))),
        LockStep::Done(Ok(11))
    );
    assert_eq!(
        api.lock_batch_mq_response::<u32, u8>(Ok((response(2, Some("busy"), None), Some(11)))),
        LockStep::EncodeRemark { code: 2, remark: text("busy") }
    );
    assert_eq!(
        api.lock_batch_mq_response::<u32, u8>(Ok((response(2, None, None), None))),
        LockStep::EncodeRemark { code: 2, remark: text("") }
    );
    assert_eq!(
        api.lock_batch_mq_response::<u32, u8>(Err(6)),
        LockStep::Done(Err(RocketmqError::Remoting(6)))
    );
    assert_eq!(
        api.lock_batch_mq_refused::<u8>(2, text("\"busy\"")),
        RocketmqError::MQBrokerError(2, text("\"busy\""), text(""))
    );
}

#[test]
fn unlock_answers() {
    let api = BrokerOuterAPI::new();
    assert_eq!(api.unlock_batch_mq_response::<u8>(Ok(response(0, None, None))), Ok(()));
    assert_eq!(
        api.unlock_batch_mq_response::<u8>(Ok(response(2, Some("busy"), None))),
        Err(RocketmqError::MQBrokerError(2, text("busy"), text("")))
    );
    assert_eq!(
        api.unlock_batch_mq_response::<u8>(Err(6)),
        Err(RocketmqError::Remoting(6))
    );
}

#[test]
fn route_request_leaves_the_server_open() {
    let api = BrokerOuterAPI::new();
    assert_eq!(
        api.get_topic_route_info_from_name_server("orders", 900),
        Invocation::Async {
            addr: None,
            request: RemotingRequest {
                code: RequestCode::GetRouteinfoByTopic,
                header: RequestHeader::GetRouteInfo { topic: text("orders") },
                body: RequestBody::Empty,
            },
            timeout_millis: 900,
        }
    );
}

#[test]
fn route_answers() {
    let api = BrokerOuterAPI::new();
    assert_eq!(
        api.topic_route_info_response::<u32, u8>(Ok((response(0, None, Some(vec![1])), Some(3)))),
        Ok(3)
    );
    assert_eq!(
        api.topic_route_info_response::<u32, u8>(Ok((response(0, Some("odd"), None), None))),
        Err(RocketmqError::MQBrokerError(0, text("odd"), text("")))
    );
    assert_eq!(
        api.topic_route_info_response::<u32, u8>(Ok((response(17, Some("none"), None), None))),
        Err(RocketmqError::MQBrokerError(17, text("none"), text("")))
    );
    assert_eq!(
        api.topic_route_info_response::<u32, u8>(Err(5)),
        Err(RocketmqError::Remoting(5))
    );
}

#[test]
fn bodies_of_successes_are_decoded() {
    let api = BrokerOuterAPI::new();
    let full = response(0, None, Some(vec![4, 5]));
    assert_eq!(api.lock_body_to_decode(&full), Some(&vec![4, 5]));
    assert_eq!(api.route_body_to_decode(&full), Some(&vec![4, 5]));
    assert_eq!(api.register_body_to_decode(&full), Some(&vec![4, 5]));
    let bare = response(0, None, None);
    assert_eq!(api.route_body_to_decode(&bare), None);
    assert_eq!(api.register_body_to_decode(&bare), None);
    let refused = response(2, None, Some(vec![4, 5]));
    assert_eq!(api.lock_body_to_decode(&refused), None);
    assert_eq!(api.route_body_to_decode(&refused), None);
    assert_eq!(api.register_body_to_decode(&refused), None);
    assert!(full.is_success() && !refused.is_success());
}

#[test]
fn unknown_topics_are_warned_of() {
    let api = BrokerOuterAPI::new();
    assert!(api.warns_of_unknown_topic(&response(17, None, None), true));
    assert!(!api.warns_of_unknown_topic(&response(17, None, None), false));
    assert!(!api.warns_of_unknown_topic(&response(0, None, None), true));
}
