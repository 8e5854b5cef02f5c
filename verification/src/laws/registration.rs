//! What brokers and topics tell the name servers, and what the answers mean.
use crate::api::BrokerOuterAPI;
use crate::codes::RequestCode;
use crate::command::invocation_views;
use crate::command::{
    Invocation, RegisterBrokerRequestHeader, RemotingCommand, RemotingRequest, RequestBody,
    RequestHeader, RocketmqError,
};
use crate::registration::topic_request;
use crate::registration::{
    RegisterBrokerResponseHeader, RegisterBrokerResult, RegisterReply, TopicConfig,
};
use crate::text::texts;
use vstd::prelude::*;

verus! {

/// Registering with one name server sends it the header and the body as they are, in
/// the time that is given; the broker waits for an answer unless it goes one way.
pub proof fn lemma_register_with_one(
    api: &BrokerOuterAPI,
    server: &str,
    oneway: bool,
    timeout: u64,
    header: RegisterBrokerRequestHeader,
    body: Vec<u8>,
    r: Invocation,
)
    requires
        call_ensures(
            BrokerOuterAPI::register_broker,
            (api, server, oneway, timeout, header, body),
            r,
        ),
    ensures
        ({
            let (addr, request, timeout_millis) = match r {
                Invocation::Async { addr, request, timeout_millis } => (
                    addr->0,
                    request,
                    timeout_millis,
                ),
                Invocation::Oneway { namesrv_addr, request, timeout_millis } => (
                    namesrv_addr,
                    request,
                    timeout_millis,
                ),
            };
            &&& r is Oneway <==> oneway
            &&& r is Async ==> r->addr is Some
            &&& addr@ == server@
            &&& timeout_millis == timeout
            &&& request.code == RequestCode::RegisterBroker
            &&& request.body is Bytes
            &&& request.body->Bytes_0@ == body@
            &&& request.header matches RequestHeader::RegisterBroker(h)
            &&& h.broker_addr@ == header.broker_addr@
            &&& h.broker_id == header.broker_id
            &&& h.broker_name@ == header.broker_name@
            &&& h.cluster_name@ == header.cluster_name@
            &&& h.ha_server_addr@ == header.ha_server_addr@
            &&& h.enable_acting_master == header.enable_acting_master
            &&& h.compressed == header.compressed
            &&& h.heartbeat_timeout_millis == header.heartbeat_timeout_millis
            &&& h.body_crc32 == header.body_crc32
        }),
{
}

/// Registering with all name servers asks each of them once, in their order. All of
/// them learn the broker by its own name, id, addresses and cluster, with the checksum
/// that is given for the body, which is always announced as not compressed.
pub proof fn lemma_register_with_all(
    api: &BrokerOuterAPI,
    servers: &Vec<String>,
    cluster_name: String,
    broker_addr: String,
    broker_name: String,
    broker_id: u64,
    ha_server_addr: String,
    body: &Vec<u8>,
    body_crc32: u32,
    oneway: bool,
    timeout: u64,
    enable_acting_master: bool,
    heartbeat_timeout_millis: Option<i64>,
    r: Vec<Invocation>,
    i: int,
)
    requires
        call_ensures(
            BrokerOuterAPI::register_broker_all,
            (
                api,
                servers,
                cluster_name,
                broker_addr,
                broker_name,
                broker_id,
                ha_server_addr,
                body,
                body_crc32,
                oneway,
                timeout,
                enable_acting_master,
                heartbeat_timeout_millis,
            ),
            r,
        ),
    ensures
        r@.len() == servers@.len(),
        0 <= i < servers@.len() ==> {
            let (addr, request, timeout_millis) = match r@[i] {
                Invocation::Async { addr, request, timeout_millis } => (
                    addr->0,
                    request,
                    timeout_millis,
                ),
                Invocation::Oneway { namesrv_addr, request, timeout_millis } => (
                    namesrv_addr,
                    request,
                    timeout_millis,
                ),
            };
            &&& r@[i] is Oneway <==> oneway
            &&& r@[i] is Async ==> r@[i]->addr is Some
            &&& addr@ == servers@[i]@
            &&& timeout_millis == timeout
            &&& request.code == RequestCode::RegisterBroker
            &&& request.body is Bytes
            &&& request.body->Bytes_0@ == body@
            &&& request.header matches RequestHeader::RegisterBroker(h)
            &&& h.broker_addr@ == broker_addr@
            &&& h.broker_id == broker_id
            &&& h.broker_name@ == broker_name@
            &&& h.cluster_name@ == cluster_name@
            &&& h.ha_server_addr@ == ha_server_addr@
            &&& h.enable_acting_master == Some(enable_acting_master)
            &&& !h.compressed
            &&& h.heartbeat_timeout_millis == heartbeat_timeout_millis
            &&& h.body_crc32 == body_crc32
        },
{
    assert(invocation_views(r@).len() == r@.len());
    assert(texts(servers@).len() == servers@.len());
    if 0 <= i < servers@.len() {
        assert(invocation_views(r@)[i] == r@[i]@);
        assert(texts(servers@)[i] == servers@[i]@);
    }
}

/// The body of a success is decoded, as it is, where there is one; of another response
/// nothing is.
pub proof fn lemma_table_to_decode<'a>(
    api: &BrokerOuterAPI,
    response: &'a RemotingCommand,
    r: Option<&'a Vec<u8>>,
)
    requires
        call_ensures(BrokerOuterAPI::register_body_to_decode, (api, response), r),
    ensures
        r is Some <==> response.code == 0 && response.body is Some,
        r is Some ==> r->0@ == response.body->0@,
{
}

/// Every reply to a registration can be read, with whatever its header and its body
/// decode to where it is a success.
pub proof fn lemma_registrations_can_be_read<K, E>(
    api: &BrokerOuterAPI,
    response: RemotingCommand,
    header: Option<Result<RegisterBrokerResponseHeader, E>>,
    table: Option<K>,
    failure: E,
    default_table: K,
)
    requires
        response.code == 0 ==> header is Some,
        response.code == 0 && response.body is Some ==> table is Some,
    ensures
        call_requires(
            BrokerOuterAPI::register_broker_response::<K, E>,
            (api, Some(Ok((response, header, table))), default_table),
        ),
        call_requires(
            BrokerOuterAPI::register_broker_response::<K, E>,
            (api, Some(Err(failure)), default_table),
        ),
        call_requires(
            BrokerOuterAPI::register_broker_response::<K, E>,
            (api, None, default_table),
        ),
{
}

/// A broker learns from a success alone, and then the addresses that the name server
/// gives, each in its own place, with an empty text for one that is not given; and the
/// table of the body, or the default one where there is no body.
pub proof fn lemma_broker_learns<K, E>(
    api: &BrokerOuterAPI,
    response: RemotingCommand,
    header: RegisterBrokerResponseHeader,
    table: Option<K>,
    default_table: K,
    r: Option<RegisterBrokerResult<K>>,
)
    requires
        call_ensures(
            BrokerOuterAPI::register_broker_response::<K, E>,
            (api, Some(Ok((response, Some(Ok(header)), table))), default_table),
            r,
        ),
        response.code == 0 && response.body is Some ==> table is Some,
    ensures
        r is Some <==> response.code == 0,
        r is Some ==> {
            &&& header.ha_server_addr is Some ==> r->0.ha_server_addr@ == header.ha_server_addr->0@
            &&& header.ha_server_addr is None ==> r->0.ha_server_addr@.len() == 0
            &&& header.master_addr is Some ==> r->0.master_addr@ == header.master_addr->0@
            &&& header.master_addr is None ==> r->0.master_addr@.len() == 0
            &&& response.body is Some ==> Some(r->0.kv_table) == table
            &&& response.body is None ==> r->0.kv_table == default_table
        },
{
}

/// A header that cannot be read costs a broker the addresses, not the table.
pub proof fn lemma_broker_learns_without_header<K, E>(
    api: &BrokerOuterAPI,
    response: RemotingCommand,
    failure: E,
    table: Option<K>,
    default_table: K,
    r: Option<RegisterBrokerResult<K>>,
)
    requires
        call_ensures(
            BrokerOuterAPI::register_broker_response::<K, E>,
            (api, Some(Ok((response, Some(Err(failure)), table))), default_table),
            r,
        ),
        response.code == 0 && response.body is Some ==> table is Some,
    ensures
        r is Some <==> response.code == 0,
        r is Some ==> {
            &&& r->0.ha_server_addr@.len() == 0
            &&& r->0.master_addr@.len() == 0
            &&& response.body is Some ==> Some(r->0.kv_table) == table
            &&& response.body is None ==> r->0.kv_table == default_table
        },
{
}

/// A broker learns nothing from a refusal, from a failure of the transport, or where
/// there is no reply.
pub proof fn lemma_broker_learns_nothing<K, E>(
    api: &BrokerOuterAPI,
    reply: Option<Result<RegisterReply<K, E>, E>>,
    default_table: K,
    r: Option<RegisterBrokerResult<K>>,
)
    requires
        call_ensures(
            BrokerOuterAPI::register_broker_response::<K, E>,
            (api, reply, default_table),
            r,
        ),
        reply is Some && reply->0 is Ok ==> reply->0->Ok_0.0.code != 0,
    ensures
        r is None,
{
}

/// Two name servers that give different master addresses teach different ones, and so
/// with the addresses for high availability.
pub proof fn lemma_addresses_told_apart<K, E>(
    api: &BrokerOuterAPI,
    response_a: RemotingCommand,
    response_b: RemotingCommand,
    header_a: RegisterBrokerResponseHeader,
    header_b: RegisterBrokerResponseHeader,
    table_a: Option<K>,
    table_b: Option<K>,
    default_table: K,
    a: Option<RegisterBrokerResult<K>>,
    b: Option<RegisterBrokerResult<K>>,
)
    requires
        call_ensures(
            BrokerOuterAPI::register_broker_response::<K, E>,
            (api, Some(Ok((response_a, Some(Ok(header_a)), table_a))), default_table),
            a,
        ),
        call_ensures(
            BrokerOuterAPI::register_broker_response::<K, E>,
            (api, Some(Ok((response_b, Some(Ok(header_b)), table_b))), default_table),
            b,
        ),
        a is Some,
        b is Some,
    ensures
        header_a.master_addr is Some && header_b.master_addr is Some ==> (a->0.master_addr@
            == b->0.master_addr@ <==> header_a.master_addr->0@ == header_b.master_addr->0@),
        header_a.ha_server_addr is Some && header_b.ha_server_addr is Some ==> (
        a->0.ha_server_addr@ == b->0.ha_server_addr@ <==> header_a.ha_server_addr->0@
            == header_b.ha_server_addr->0@),
{
}

/// What one more name server gives is listed before what the ones before it gave;
/// without any name server the list is empty.
pub proof fn lemma_results_of_one_more_server<K>(
    api: &BrokerOuterAPI,
    outcomes: Vec<Option<RegisterBrokerResult<K>>>,
    fewer: Vec<Option<RegisterBrokerResult<K>>>,
    r: Vec<RegisterBrokerResult<K>>,
    rest: Vec<RegisterBrokerResult<K>>,
)
    requires
        call_ensures(BrokerOuterAPI::register_broker_results::<K>, (api, outcomes), r),
        call_ensures(BrokerOuterAPI::register_broker_results::<K>, (api, fewer), rest),
        outcomes@.len() > 0 ==> fewer@ == outcomes@.drop_last(),
    ensures
        outcomes@.len() == 0 ==> r@.len() == 0,
        outcomes@.len() > 0 && outcomes@.last() is Some ==> r@ == seq![outcomes@.last()->0]
            + rest@,
        outcomes@.len() > 0 && outcomes@.last() is None ==> r@ == rest@,
{
    let f = |o: Option<RegisterBrokerResult<K>>| o;
    assert(r@ == outcomes@.reverse().filter_map(f));
    assert(rest@ == fewer@.reverse().filter_map(f));
    if outcomes@.len() > 0 {
        let last = seq![outcomes@.last()];
        assert(outcomes@.reverse() =~= last + fewer@.reverse());
        lemma_filter_map_of_sum(last, fewer@.reverse(), f);
        reveal_with_fuel(Seq::filter_map, 2);
        assert(last.drop_last() =~= seq![]);
    } else {
        assert(outcomes@.reverse() =~= seq![]);
    }
}

/// What is kept of two lists, one behind the other, is what is kept of each.
proof fn lemma_filter_map_of_sum<A, B>(a: Seq<A>, b: Seq<A>, f: spec_fn(A) -> Option<B>)
    ensures
        (a + b).filter_map(f) == a.filter_map(f) + b.filter_map(f),
    decreases b.len(),
{
    if b.len() == 0 {
        assert(a + b =~= a);
        assert(a.filter_map(f) + b.filter_map(f) =~= a.filter_map(f));
    } else {
        lemma_filter_map_of_sum(a, b.drop_last(), f);
        assert((a + b).drop_last() =~= a + b.drop_last());
        assert((a + b).filter_map(f) =~= a.filter_map(f) + b.filter_map(f));
    }
}

/// A topic with a name can be registered, whatever else its configuration says.
pub proof fn lemma_topics_can_be_registered(
    api: &BrokerOuterAPI,
    servers: &Vec<String>,
    broker_name: String,
    name: &str,
    config: &TopicConfig,
    timeout: u64,
)
    requires
        config.topic_name is Some,
    ensures
        call_requires(BrokerOuterAPI::create_request, (broker_name, config)),
        call_requires(
            BrokerOuterAPI::register_single_topic_all,
            (api, servers, name, config, timeout),
        ),
{
}

/// The request that registers a topic names it, and lists one set of queues: those of
/// the broker, as many and with the permissions and flags that the configuration
/// itself says.
pub proof fn lemma_topic_request(
    broker_name: String,
    config: &TopicConfig,
    r: RemotingRequest,
)
    requires
        config.topic_name is Some,
        call_ensures(BrokerOuterAPI::create_request, (broker_name, config), r),
    ensures
        r.code == RequestCode::RegisterTopicInNamesrv,
        r.header is RegisterTopic,
        r.header->RegisterTopic_topic@ == config.topic_name->0@,
        r.body matches RequestBody::TopicRoute { queue_datas } && {
            &&& queue_datas@.len() == 1
            &&& queue_datas@[0].broker_name@ == broker_name@
            &&& queue_datas@[0].read_queue_nums == config.read_queue_nums
            &&& queue_datas@[0].write_queue_nums == config.write_queue_nums
            &&& queue_datas@[0].perm == config.perm
            &&& queue_datas@[0].topic_sys_flag == config.topic_sys_flag
        },
{
    let queues = r@.body->queue_datas;
    assert(r@ == topic_request(broker_name@, *config));
    assert(queues.len() == 1);
    assert(queues[0] == r.body->queue_datas@[0]@);
}

/// Topics that are configured differently are registered differently: where two
/// requests of one broker are the same, so is what the configurations say.
pub proof fn lemma_topics_told_apart(
    broker_name: String,
    config_a: &TopicConfig,
    config_b: &TopicConfig,
    a: RemotingRequest,
    b: RemotingRequest,
)
    requires
        config_a.topic_name is Some,
        config_b.topic_name is Some,
        call_ensures(BrokerOuterAPI::create_request, (broker_name, config_a), a),
        call_ensures(BrokerOuterAPI::create_request, (broker_name, config_b), b),
        a == b,
    ensures
        config_a.topic_name->0@ == config_b.topic_name->0@,
        config_a.read_queue_nums == config_b.read_queue_nums,
        config_a.write_queue_nums == config_b.write_queue_nums,
        config_a.perm == config_b.perm,
        config_a.topic_sys_flag == config_b.topic_sys_flag,
{
    lemma_topic_request(broker_name, config_a, a);
    lemma_topic_request(broker_name, config_b, b);
}

/// A topic is registered with each name server once, in their order, in the time that
/// is given; each of them learns the same of it.
pub proof fn lemma_topic_with_all(
    api: &BrokerOuterAPI,
    servers: &Vec<String>,
    broker_name: &str,
    config: &TopicConfig,
    timeout: u64,
    r: Vec<Invocation>,
    i: int,
)
    requires
        config.topic_name is Some,
        call_ensures(
            BrokerOuterAPI::register_single_topic_all,
            (api, servers, broker_name, config, timeout),
            r,
        ),
    ensures
        r@.len() == servers@.len(),
        0 <= i < servers@.len() ==> (r@[i] matches Invocation::Async {
            addr,
            request,
            timeout_millis,
        } && {
            &&& addr is Some
            &&& addr->0@ == servers@[i]@
            &&& timeout_millis == timeout
            &&& request.code == RequestCode::RegisterTopicInNamesrv
            &&& request.header is RegisterTopic
            &&& request.header->RegisterTopic_topic@ == config.topic_name->0@
            &&& request.body matches RequestBody::TopicRoute { queue_datas }
            &&& queue_datas@.len() == 1
            &&& queue_datas@[0].broker_name@ == broker_name@
            &&& queue_datas@[0].read_queue_nums == config.read_queue_nums
            &&& queue_datas@[0].write_queue_nums == config.write_queue_nums
            &&& queue_datas@[0].perm == config.perm
            &&& queue_datas@[0].topic_sys_flag == config.topic_sys_flag
        }),
{
    assert(invocation_views(r@).len() == r@.len());
    assert(texts(servers@).len() == servers@.len());
    if 0 <= i < servers@.len() {
        assert(invocation_views(r@)[i] == r@[i]@);
        assert(texts(servers@)[i] == servers@[i]@);
        let request = r@[i]->Async_request;
        assert(request@ == topic_request(broker_name@, *config));
        assert(request@.body->queue_datas.len() == 1);
        assert(request@.body->queue_datas[0] == request.body->queue_datas@[0]@);
    }
}

/// A withdrawal names exactly the broker that is withdrawn, by its name, address,
/// cluster and id, and goes to the name server that is given. It waits three seconds
/// for the answer.
pub proof fn lemma_withdraw_from_one(
    api: &BrokerOuterAPI,
    server: &str,
    cluster_name: &str,
    broker_addr: &str,
    broker_name: &str,
    broker_id: u64,
    r: Invocation,
)
    requires
        call_ensures(
            BrokerOuterAPI::unregister_broker,
            (api, server, cluster_name, broker_addr, broker_name, broker_id),
            r,
        ),
    ensures
        r matches Invocation::Async { addr, request, timeout_millis } && {
            &&& addr is Some
            &&& addr->0@ == server@
            &&& timeout_millis == 3000
            &&& request.code == RequestCode::UnregisterBroker
            &&& request.body is Empty
            &&& request.header matches RequestHeader::UnregisterBroker(h)
            &&& h.broker_name@ == broker_name@
            &&& h.broker_addr@ == broker_addr@
            &&& h.cluster_name@ == cluster_name@
            &&& h.broker_id == broker_id
        },
{
}

/// Withdrawals of two brokers are two requests: where they are one, the brokers have
/// one id, name, address and cluster, and the name servers are one too.
pub proof fn lemma_withdrawals_told_apart(
    api: &BrokerOuterAPI,
    server_a: &str,
    server_b: &str,
    cluster_a: &str,
    cluster_b: &str,
    addr_a: &str,
    addr_b: &str,
    name_a: &str,
    name_b: &str,
    id_a: u64,
    id_b: u64,
    a: Invocation,
    b: Invocation,
)
    requires
        call_ensures(
            BrokerOuterAPI::unregister_broker,
            (api, server_a, cluster_a, addr_a, name_a, id_a),
            a,
        ),
        call_ensures(
            BrokerOuterAPI::unregister_broker,
            (api, server_b, cluster_b, addr_b, name_b, id_b),
            b,
        ),
        a == b,
    ensures
        server_a@ == server_b@,
        cluster_a@ == cluster_b@,
        addr_a@ == addr_b@,
        name_a@ == name_b@,
        id_a == id_b,
{
}

/// A broker withdraws from each name server once, in their order.
pub proof fn lemma_withdraw_from_all(
    api: &BrokerOuterAPI,
    servers: &Vec<String>,
    cluster_name: &str,
    broker_name: &str,
    broker_addr: &str,
    broker_id: u64,
    r: Vec<Invocation>,
    i: int,
)
    requires
        call_ensures(
            BrokerOuterAPI::unregister_broker_all,
            (api, servers, cluster_name, broker_name, broker_addr, broker_id),
            r,
        ),
    ensures
        r@.len() == servers@.len(),
        0 <= i < servers@.len() ==> (r@[i] matches Invocation::Async {
            addr,
            request,
            timeout_millis,
        } && {
            &&& addr is Some
            &&& addr->0@ == servers@[i]@
            &&& timeout_millis == 3000
            &&& request.code == RequestCode::UnregisterBroker
            &&& request.body is Empty
            &&& request.header matches RequestHeader::UnregisterBroker(h)
            &&& h.broker_name@ == broker_name@
            &&& h.broker_addr@ == broker_addr@
            &&& h.cluster_name@ == cluster_name@
            &&& h.broker_id == broker_id
        }),
{
    assert(invocation_views(r@).len() == r@.len());
    assert(texts(servers@).len() == servers@.len());
    if 0 <= i < servers@.len() {
        assert(invocation_views(r@)[i] == r@[i]@);
        assert(texts(servers@)[i] == servers@[i]@);
    }
}

/// A withdrawal succeeds on a success alone. A refusal carries its code, the remark,
/// and the address of the broker; a failure of the transport is handed on.
pub proof fn lemma_withdrawal_answer<E>(
    api: &BrokerOuterAPI,
    broker_addr: &str,
    response: RemotingCommand,
    failure: E,
    answered: Result<(), RocketmqError<E>>,
    failed: Result<(), RocketmqError<E>>,
)
    requires
        call_ensures(
            BrokerOuterAPI::unregister_broker_response::<E>,
            (api, broker_addr, Ok(response)),
            answered,
        ),
        call_ensures(
            BrokerOuterAPI::unregister_broker_response::<E>,
            (api, broker_addr, Err(failure)),
            failed,
        ),
    ensures
        failed == Err::<(), RocketmqError<E>>(RocketmqError::Remoting(failure)),
        answered is Ok <==> response.code == 0,
        answered is Err ==> (answered->Err_0 matches RocketmqError::MQBrokerError(
            code,
            message,
            address,
        ) && {
            &&& code == response.code
            &&& response.remark is Some ==> message@ == response.remark->0@
            &&& response.remark is None ==> message@.len() == 0
            &&& address@ == broker_addr@
        }),
{
}

} // verus!
