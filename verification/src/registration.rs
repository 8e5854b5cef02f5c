//! Registration of brokers and topics with the name servers.
use crate::api::BrokerOuterAPI;
use crate::codes::response_code;
use crate::codes::{RequestCode, ResponseCode};
use crate::command::{
    invocation_views, opt_text, BodyView, HeaderView, InvocationView, QueueDataView, RequestView,
};
use crate::command::{
    Invocation, QueueData, RegisterBrokerRequestHeader, RemotingCommand, RemotingRequest,
    RequestBody, RequestHeader, RocketmqError, UnRegisterBrokerRequestHeader,
};
use crate::message::or_empty;
use crate::text::texts;
use vstd::prelude::*;

verus! {

/// How long a name server may take to withdraw a broker.
pub const UNREGISTER_TIMEOUT_MILLIS: u64 = 3000;

/// What a name server says in answer to a registration.
#[derive(Debug, PartialEq, Eq)]
pub struct RegisterBrokerResponseHeader {
    pub ha_server_addr: Option<String>,
    pub master_addr: Option<String>,
}

/// What a broker learns by registering, with tables of type `K`.
#[derive(Debug, PartialEq, Eq)]
pub struct RegisterBrokerResult<K> {
    pub ha_server_addr: String,
    pub master_addr: String,
    pub kv_table: K,
}

/// The configuration of a topic.
#[derive(Debug, PartialEq, Eq)]
pub struct TopicConfig {
    pub topic_name: Option<String>,
    pub read_queue_nums: u32,
    pub write_queue_nums: u32,
    pub perm: u32,
    pub topic_sys_flag: u32,
}

/// The invocation that registers a broker with one name server.
pub open spec fn register_invocation(
    namesrv_addr: Seq<char>,
    oneway: bool,
    timeout_millis: u64,
    header: HeaderView,
    body: Seq<u8>,
) -> InvocationView {
    let request = RequestView {
        code: RequestCode::RegisterBroker,
        header,
        body: BodyView::Bytes(body),
    };
    if oneway {
        InvocationView::Oneway { namesrv_addr, request, timeout_millis }
    } else {
        InvocationView::Async { addr: Some(namesrv_addr), request, timeout_millis }
    }
}

/// What a name server's reply to a registration consists of: the response, what its
/// header decodes to, and the table that its body decodes to. Of a refusal nothing is
/// decoded.
pub type RegisterReply<K, E> = (
    RemotingCommand,
    Option<Result<RegisterBrokerResponseHeader, E>>,
    Option<K>,
);

/// Whether a response holds a table: it is a success and has a body.
pub open spec fn has_table(response: RemotingCommand) -> bool {
    response_code(response.code) == ResponseCode::Success && response.body is Some
}

/// Whether `r` is what a broker learns from a reply. Without a reply it learns
/// nothing, nor from a failure or a refusal. Addresses that the name server does not
/// give, or gives in a header that cannot be read, are empty. The table of a response
/// without a body is the default one.
pub open spec fn register_answer<K, E>(
    r: Option<RegisterBrokerResult<K>>,
    reply: Option<Result<RegisterReply<K, E>, E>>,
    default_table: K,
) -> bool {
    match reply {
        Some(Ok((response, header, table))) => if response_code(response.code)
            == ResponseCode::Success {
            &&& r matches Some(result)
            &&& result.ha_server_addr@ == (match header {
                Some(Ok(h)) => or_empty(opt_text(h.ha_server_addr)),
                _ => seq![],
            })
            &&& result.master_addr@ == (match header {
                Some(Ok(h)) => or_empty(opt_text(h.master_addr)),
                _ => seq![],
            })
            &&& result.kv_table == (if response.body is Some {
                table->0
            } else {
                default_table
            })
        } else {
            r is None
        },
        _ => r is None,
    }
}

/// The text, or the empty text where there is none.
fn unwrap_or_empty(s: Option<String>) -> (r: String)
    ensures
        r@ == or_empty(opt_text(s)),
{
    match s {
        Some(t) => t,
        None => String::new(),
    }
}

/// What a request to register one topic says: its name, and its queues on the broker.
pub open spec fn topic_request(broker_name: Seq<char>, config: TopicConfig) -> RequestView {
    RequestView {
        code: RequestCode::RegisterTopicInNamesrv,
        header: HeaderView::RegisterTopic { topic: config.topic_name->0@ },
        body: BodyView::TopicRoute {
            queue_datas: seq![
                QueueDataView {
                    broker_name,
                    read_queue_nums: config.read_queue_nums,
                    write_queue_nums: config.write_queue_nums,
                    perm: config.perm,
                    topic_sys_flag: config.topic_sys_flag,
                },
            ],
        },
    }
}

/// The invocation that withdraws a broker from one name server.
pub open spec fn unregister_invocation(
    namesrv_addr: Seq<char>,
    cluster_name: Seq<char>,
    broker_addr: Seq<char>,
    broker_name: Seq<char>,
    broker_id: u64,
) -> InvocationView {
    InvocationView::Async {
        addr: Some(namesrv_addr),
        request: RequestView {
            code: RequestCode::UnregisterBroker,
            header: HeaderView::UnregisterBroker {
                broker_name,
                broker_addr,
                cluster_name,
                broker_id,
            },
            body: BodyView::Empty,
        },
        timeout_millis: UNREGISTER_TIMEOUT_MILLIS,
    }
}

impl BrokerOuterAPI {
    /// Registers a broker with every name server, where `body` is the encoded body
    /// and `body_crc32` its checksum. The header declares the body as not compressed,
    /// however it was encoded.
    pub fn register_broker_all(
        &self,
        name_server_address_list: &Vec<String>,
        cluster_name: String,
        broker_addr: String,
        broker_name: String,
        broker_id: u64,
        ha_server_addr: String,
        body: &Vec<u8>,
        body_crc32: u32,
        oneway: bool,
        timeout_mills: u64,
        enable_acting_master: bool,
        heartbeat_timeout_millis: Option<i64>,
    ) -> (r: Vec<Invocation>)
        ensures
            invocation_views(r@) == texts(name_server_address_list@).map_values(
                |addr: Seq<char>|
                    register_invocation(
                        addr,
                        oneway,
                        timeout_mills,
                        HeaderView::RegisterBroker {
                            broker_addr: broker_addr@,
                            broker_id,
                            broker_name: broker_name@,
                            cluster_name: cluster_name@,
                            ha_server_addr: ha_server_addr@,
                            enable_acting_master: Some(enable_acting_master),
                            compressed: false,
                            heartbeat_timeout_millis,
                            body_crc32,
                        },
                        body@,
                    ),
            ),
    {
        let request_header = RegisterBrokerRequestHeader {
            broker_addr,
            broker_id,
            broker_name,
            cluster_name,
            ha_server_addr,
            enable_acting_master: Some(enable_acting_master),
            compressed: false,
            heartbeat_timeout_millis,
            body_crc32,
        };
        let ghost expected = |addr: Seq<char>|
            register_invocation(addr, oneway, timeout_mills, request_header@, body@);
        let mut invocations: Vec<Invocation> = Vec::new();
        let mut i: usize = 0;
        while i < name_server_address_list.len()
            invariant
                i <= name_server_address_list@.len(),
                invocations@.len() == i,
                expected == (|addr: Seq<char>|
                    register_invocation(addr, oneway, timeout_mills, request_header@, body@)),
                forall|j: int|
                    0 <= j < i ==> (#[trigger] invocations@[j])@ == expected(
                        name_server_address_list@[j]@,
                    ),
            decreases name_server_address_list@.len() - i,
        {
            let invocation = self.register_broker(
                name_server_address_list[i].as_str(),
                oneway,
                timeout_mills,
                request_header.clone(),
                body.clone(),
            );
            invocations.push(invocation);
            i = i + 1;
        }
        assert(invocation_views(invocations@) =~= texts(name_server_address_list@).map_values(
            expected,
        ));
        invocations
    }

    /// Registers a broker with one name server.
    pub fn register_broker(
        &self,
        namesrv_addr: &str,
        oneway: bool,
        timeout_mills: u64,
        request_header: RegisterBrokerRequestHeader,
        body: Vec<u8>,
    ) -> (r: Invocation)
        ensures
            r@ == register_invocation(
                namesrv_addr@,
                oneway,
                timeout_mills,
                request_header@,
                body@,
            ),
    {
        let request = RemotingRequest {
            code: RequestCode::RegisterBroker,
            header: RequestHeader::RegisterBroker(request_header),
            body: RequestBody::Bytes(body),
        };
        if oneway {
            Invocation::Oneway {
                namesrv_addr: namesrv_addr.to_owned(),
                request,
                timeout_millis: timeout_mills,
            }
        } else {
            Invocation::Async {
                addr: Some(namesrv_addr.to_owned()),
                request,
                timeout_millis: timeout_mills,
            }
        }
    }

    /// The bytes of a response that are to be decoded into a table: the body of a
    /// success, where it has one. Of any other response nothing is decoded.
    pub fn register_body_to_decode<'a>(&self, response: &'a RemotingCommand) -> (r: Option<
        &'a Vec<u8>,
    >)
        ensures
            r is Some <==> has_table(*response),
            has_table(*response) ==> r->0@ == response.body->0@,
    {
        if response.is_success() {
            response.body.as_ref()
        } else {
            None
        }
    }

    /// Reads the reply to a registration. There is none when it was sent one way.
    /// The header of a successful response is decoded, and may not be readable; its
    /// body has to decode, where there is one.
    pub fn register_broker_response<K, E>(
        &self,
        reply: Option<Result<RegisterReply<K, E>, E>>,
        default_table: K,
    ) -> (r: Option<RegisterBrokerResult<K>>)
        requires
            reply is Some && reply->0 is Ok && response_code(reply->0->Ok_0.0.code)
                == ResponseCode::Success ==> reply->0->Ok_0.1 is Some,
            reply is Some && reply->0 is Ok && has_table(reply->0->Ok_0.0)
                ==> reply->0->Ok_0.2 is Some,
        ensures
            register_answer(r, reply, default_table),
    {
        let (response, header, table) = match reply {
            Some(Ok(parts)) => parts,
            _ => {
                return None;
            },
        };
        match ResponseCode::from_code(response.code) {
            ResponseCode::Success => {
                let (ha_server_addr, master_addr) = match header {
                    Some(Ok(h)) => (
                        unwrap_or_empty(h.ha_server_addr),
                        unwrap_or_empty(h.master_addr),
                    ),
                    _ => (String::new(), String::new()),
                };
                let kv_table = match (response.body.is_some(), table) {
                    (true, Some(t)) => t,
                    _ => default_table,
                };
                Some(RegisterBrokerResult { ha_server_addr, master_addr, kv_table })
            },
            _ => None,
        }
    }

    /// Collects what a broker learned from each name server, where `outcomes` follows
    /// the order of the name servers: last server first, without those that gave
    /// nothing.
    pub fn register_broker_results<K>(&self, outcomes: Vec<Option<RegisterBrokerResult<K>>>) -> (r:
        Vec<RegisterBrokerResult<K>>)
        ensures
            r@ == outcomes@.reverse().filter_map(|o: Option<RegisterBrokerResult<K>>| o),
    {
        let ghost f = |o: Option<RegisterBrokerResult<K>>| o;
        let ghost reversed = outcomes@.reverse();
        let mut handles = outcomes;
        let mut results: Vec<RegisterBrokerResult<K>> = Vec::new();
        assert(reversed.take(0).filter_map(f) =~= results@);
        while handles.len() > 0
            invariant
                f == (|o: Option<RegisterBrokerResult<K>>| o),
                reversed == outcomes@.reverse(),
                handles@.len() <= outcomes@.len(),
                handles@ == outcomes@.take(handles@.len() as int),
                results@ == reversed.take(outcomes@.len() - handles@.len()).filter_map(f),
            decreases handles@.len(),
        {
            let ghost k = outcomes@.len() - handles@.len();
            let ghost before = results@;
            proof {
                reversed.lemma_filter_map_take_succ(f, k);
                assert(reversed[k] == handles@[handles@.len() - 1]);
            }
            match handles.pop() {
                Some(Some(v)) => {
                    results.push(v);
                    assert(results@ =~= before + seq![v]);
                },
                _ => {
                    assert(results@ =~= before + Seq::<RegisterBrokerResult<K>>::empty());
                },
            }
            assert(handles@ =~= outcomes@.take(handles@.len() as int));
        }
        assert(reversed.take(outcomes@.len() as int) =~= reversed);
        results
    }

    /// Builds the request that registers one topic.
    pub fn create_request(broker_name: String, topic_config: &TopicConfig) -> (r: RemotingRequest)
        requires
            topic_config.topic_name is Some,
        ensures
            r@ == topic_request(broker_name@, *topic_config),
    {
        let topic = match &topic_config.topic_name {
            Some(name) => name.clone(),
            None => String::new(),
        };
        let queue_data = QueueData {
            broker_name,
            read_queue_nums: topic_config.read_queue_nums,
            write_queue_nums: topic_config.write_queue_nums,
            perm: topic_config.perm,
            topic_sys_flag: topic_config.topic_sys_flag,
        };
        let mut queue_datas: Vec<QueueData> = Vec::new();
        queue_datas.push(queue_data);
        let request = RemotingRequest {
            code: RequestCode::RegisterTopicInNamesrv,
            header: RequestHeader::RegisterTopic { topic },
            body: RequestBody::TopicRoute { queue_datas },
        };
        assert(request@.body->queue_datas =~= topic_request(
            broker_name@,
            *topic_config,
        ).body->queue_datas);
        request
    }

    /// Registers one topic with every name server. The responses are not looked at.
    pub fn register_single_topic_all(
        &self,
        name_server_address_list: &Vec<String>,
        broker_name: &str,
        topic_config: &TopicConfig,
        timeout_mills: u64,
    ) -> (r: Vec<Invocation>)
        requires
            topic_config.topic_name is Some,
        ensures
            invocation_views(r@) == texts(name_server_address_list@).map_values(
                |addr: Seq<char>|
                    InvocationView::Async {
                        addr: Some(addr),
                        request: topic_request(broker_name@, *topic_config),
                        timeout_millis: timeout_mills,
                    },
            ),
    {
        let ghost expected = |addr: Seq<char>|
            InvocationView::Async {
                addr: Some(addr),
                request: topic_request(broker_name@, *topic_config),
                timeout_millis: timeout_mills,
            };
        let mut invocations: Vec<Invocation> = Vec::new();
        let mut i: usize = 0;
        while i < name_server_address_list.len()
            invariant
                i <= name_server_address_list@.len(),
                invocations@.len() == i,
                topic_config.topic_name is Some,
                expected == (|addr: Seq<char>|
                    InvocationView::Async {
                        addr: Some(addr),
                        request: topic_request(broker_name@, *topic_config),
                        timeout_millis: timeout_mills,
                    }),
                forall|j: int|
                    0 <= j < i ==> (#[trigger] invocations@[j])@ == expected(
                        name_server_address_list@[j]@,
                    ),
            decreases name_server_address_list@.len() - i,
        {
            invocations.push(
                Invocation::Async {
                    addr: Some(name_server_address_list[i].clone()),
                    request: BrokerOuterAPI::create_request(broker_name.to_owned(), topic_config),
                    timeout_millis: timeout_mills,
                },
            );
            i = i + 1;
        }
        assert(invocation_views(invocations@) =~= texts(name_server_address_list@).map_values(
            expected,
        ));
        invocations
    }

    /// Withdraws a broker from every name server, one after the other. A name server
    /// that fails or refuses does not keep the next ones from being asked.
    pub fn unregister_broker_all(
        &self,
        name_server_address_list: &Vec<String>,
        cluster_name: &str,
        broker_name: &str,
        broker_addr: &str,
        broker_id: u64,
    ) -> (r: Vec<Invocation>)
        ensures
            invocation_views(r@) == texts(name_server_address_list@).map_values(
                |addr: Seq<char>|
                    unregister_invocation(
                        addr,
                        cluster_name@,
                        broker_addr@,
                        broker_name@,
                        broker_id,
                    ),
            ),
    {
        let ghost expected = |addr: Seq<char>|
            unregister_invocation(addr, cluster_name@, broker_addr@, broker_name@, broker_id);
        let mut invocations: Vec<Invocation> = Vec::new();
        let mut i: usize = 0;
        while i < name_server_address_list.len()
            invariant
                i <= name_server_address_list@.len(),
                invocations@.len() == i,
                expected == (|addr: Seq<char>|
                    unregister_invocation(
                        addr,
                        cluster_name@,
                        broker_addr@,
                        broker_name@,
                        broker_id,
                    )),
                forall|j: int|
                    0 <= j < i ==> (#[trigger] invocations@[j])@ == expected(
                        name_server_address_list@[j]@,
                    ),
            decreases name_server_address_list@.len() - i,
        {
            invocations.push(
                self.unregister_broker(
                    name_server_address_list[i].as_str(),
                    cluster_name,
                    broker_addr,
                    broker_name,
                    broker_id,
                ),
            );
            i = i + 1;
        }
        assert(invocation_views(invocations@) =~= texts(name_server_address_list@).map_values(
            expected,
        ));
        invocations
    }

    /// Withdraws a broker from one name server.
    pub fn unregister_broker(
        &self,
        namesrv_addr: &str,
        cluster_name: &str,
        broker_addr: &str,
        broker_name: &str,
        broker_id: u64,
    ) -> (r: Invocation)
        ensures
            r@ == unregister_invocation(
                namesrv_addr@,
                cluster_name@,
                broker_addr@,
                broker_name@,
                broker_id,
            ),
    {
        Invocation::Async {
            addr: Some(namesrv_addr.to_owned()),
            request: RemotingRequest {
                code: RequestCode::UnregisterBroker,
                header: RequestHeader::UnregisterBroker(
                    UnRegisterBrokerRequestHeader {
                        broker_name: broker_name.to_owned(),
                        broker_addr: broker_addr.to_owned(),
                        cluster_name: cluster_name.to_owned(),
                        broker_id,
                    },
                ),
                body: RequestBody::Empty,
            },
            timeout_millis: UNREGISTER_TIMEOUT_MILLIS,
        }
    }

    /// Reads the reply to a withdrawal of the broker at `broker_addr`.
    pub fn unregister_broker_response<E>(
        &self,
        broker_addr: &str,
        reply: Result<RemotingCommand, E>,
    ) -> (r: Result<(), RocketmqError<E>>)
        ensures
            match reply {
                Err(e) => r == Err::<(), RocketmqError<E>>(RocketmqError::Remoting(e)),
                Ok(response) => if response_code(response.code) == ResponseCode::Success {
                    r is Ok
                } else {
                    r is Err && r->Err_0.is_broker_error(
                        response.code,
                        response.remark_text(),
                        broker_addr@,
                    )
                },
            },
    {
        match reply {
            Ok(response) => match ResponseCode::from_code(response.code) {
                ResponseCode::Success => Ok(()),
                _ => Err(
                    RocketmqError::MQBrokerError(
                        response.code,
                        response.remark_or_empty(),
                        broker_addr.to_owned(),
                    ),
                ),
            },
            Err(e) => Err(RocketmqError::Remoting(e)),
        }
    }
}

/// What a broker learned comes from the name servers that gave something, each once:
/// there are no more results than name servers, and no other results.
pub proof fn lemma_results_come_from_servers<K>(outcomes: Seq<Option<RegisterBrokerResult<K>>>)
    ensures
        ({
            let results = outcomes.reverse().filter_map(|o: Option<RegisterBrokerResult<K>>| o);
            &&& results.len() == outcomes.filter(
                |o: Option<RegisterBrokerResult<K>>| o is Some,
            ).len()
            &&& results.len() <= outcomes.len()
            &&& forall|r: RegisterBrokerResult<K>|
                results.contains(r) <==> #[trigger] outcomes.contains(Some(r))
        }),
    decreases outcomes.len(),
{
    let f = |o: Option<RegisterBrokerResult<K>>| o;
    let some = |o: Option<RegisterBrokerResult<K>>| o is Some;
    let results = outcomes.reverse().filter_map(f);
    if outcomes.len() > 0 {
        let first = outcomes[0];
        let rest = outcomes.skip(1);
        lemma_results_come_from_servers(rest);
        assert(outcomes.reverse().drop_last() =~= rest.reverse());
        assert(outcomes.reverse().last() == first);
        let rest_results = rest.reverse().filter_map(f);
        assert(outcomes =~= seq![first] + rest);
        Seq::filter_distributes_over_add(seq![first], rest, some);
        assert(seq![first].filter(some) =~= if first is Some {
            seq![first]
        } else {
            seq![]
        }) by {
            reveal_with_fuel(Seq::filter, 2);
        }
        assert forall|r: RegisterBrokerResult<K>|
            results.contains(r) <==> #[trigger] outcomes.contains(Some(r)) by {
            if results.contains(r) {
                let i = choose|i: int| 0 <= i < results.len() && results[i] == r;
                if i < rest_results.len() {
                    assert(rest_results.contains(r));
                    assert(rest.contains(Some(r)));
                    let j = choose|j: int| 0 <= j < rest.len() && rest[j] == Some(r);
                    assert(outcomes[j + 1] == Some(r));
                } else {
                    assert(outcomes[0] == Some(r));
                }
            }
            if outcomes.contains(Some(r)) {
                let j = choose|j: int| 0 <= j < outcomes.len() && outcomes[j] == Some(r);
                if j > 0 {
                    assert(rest[j - 1] == Some(r));
                    assert(rest.contains(Some(r)));
                    let i = choose|i: int| 0 <= i < rest_results.len() && rest_results[i] == r;
                    assert(results[i] == r);
                } else {
                    assert(results[results.len() - 1] == r);
                }
            }
        }
    } else {
        assert(outcomes.reverse() =~= seq![]);
        reveal_with_fuel(Seq::filter, 1);
    }
}

/// Where every name server gave something, the results stand in the reverse order of
/// the name servers.
pub proof fn lemma_results_in_reverse<K>(outcomes: Seq<Option<RegisterBrokerResult<K>>>)
    requires
        forall|i: int| 0 <= i < outcomes.len() ==> #[trigger] outcomes[i] is Some,
    ensures
        ({
            let results = outcomes.reverse().filter_map(|o: Option<RegisterBrokerResult<K>>| o);
            &&& results.len() == outcomes.len()
            &&& forall|i: int|
                0 <= i < results.len() ==> Some(#[trigger] results[i]) == outcomes[outcomes.len()
                    - 1 - i]
        }),
    decreases outcomes.len(),
{
    let f = |o: Option<RegisterBrokerResult<K>>| o;
    if outcomes.len() > 0 {
        let rest = outcomes.skip(1);
        assert forall|i: int| 0 <= i < rest.len() implies #[trigger] rest[i] is Some by {
            assert(rest[i] == outcomes[i + 1]);
        }
        lemma_results_in_reverse(rest);
        assert(outcomes.reverse().drop_last() =~= rest.reverse());
        assert(outcomes.reverse().last() == outcomes[0]);
        let results = outcomes.reverse().filter_map(f);
        let rest_results = rest.reverse().filter_map(f);
        assert forall|i: int| 0 <= i < results.len() implies Some(#[trigger] results[i])
            == outcomes[outcomes.len() - 1 - i] by {
            if i < rest_results.len() {
                assert(results[i] == rest_results[i]);
                assert(rest[rest.len() - 1 - i] == outcomes[outcomes.len() - 1 - i]);
            }
        }
    } else {
        assert(outcomes.reverse() =~= seq![]);
    }
}

/// Where no name server replied, a broker learns nothing.
pub proof fn lemma_no_replies_teach_nothing<K, E>(
    outcomes: Seq<Option<RegisterBrokerResult<K>>>,
    default_table: K,
)
    requires
        forall|i: int|
            0 <= i < outcomes.len() ==> register_answer::<K, E>(
                #[trigger] outcomes[i],
                None,
                default_table,
            ),
    ensures
        outcomes.reverse().filter_map(|o: Option<RegisterBrokerResult<K>>| o).len() == 0,
    decreases outcomes.len(),
{
    if outcomes.len() > 0 {
        let rest = outcomes.skip(1);
        assert forall|i: int| 0 <= i < rest.len() implies register_answer::<K, E>(
            #[trigger] rest[i],
            None,
            default_table,
        ) by {
            assert(rest[i] == outcomes[i + 1]);
        }
        lemma_no_replies_teach_nothing::<K, E>(rest, default_table);
        assert(outcomes.reverse().drop_last() =~= rest.reverse());
        assert(outcomes.reverse().last() == outcomes[0]);
    } else {
        assert(outcomes.reverse() =~= seq![]);
    }
}

/// A broker that registers one way learns nothing, however many name servers it
/// registers with: its invocations have no replies.
pub proof fn lemma_oneway_teaches_nothing<K, E>(
    name_servers: Seq<Seq<char>>,
    timeout_millis: u64,
    header: HeaderView,
    body: Seq<u8>,
    replies: Seq<Option<Result<RegisterReply<K, E>, E>>>,
    outcomes: Seq<Option<RegisterBrokerResult<K>>>,
    default_table: K,
)
    requires
        replies.len() == name_servers.len(),
        outcomes.len() == name_servers.len(),
        forall|i: int|
            0 <= i < replies.len() && (#[trigger] replies[i]) is Some ==> register_invocation(
                name_servers[i],
                true,
                timeout_millis,
                header,
                body,
            ).has_reply(),
        forall|i: int|
            0 <= i < outcomes.len() ==> register_answer(
                #[trigger] outcomes[i],
                replies[i],
                default_table,
            ),
    ensures
        outcomes.reverse().filter_map(|o: Option<RegisterBrokerResult<K>>| o).len() == 0,
{
    assert forall|i: int| 0 <= i < outcomes.len() implies register_answer::<K, E>(
        #[trigger] outcomes[i],
        None,
        default_table,
    ) by {
        assert(replies[i] is None);
    }
    lemma_no_replies_teach_nothing::<K, E>(outcomes, default_table);
}

} // verus!
