//! What holds of the requests as a whole; the modules below say what holds of each
//! operation, over what goes into its calls and what comes out of them.
pub mod basics;
pub mod name_servers;
pub mod pull;
pub mod queues;
pub mod registration;
pub mod send;

use crate::command::{BodyView, HeaderView, InvocationView};
use crate::message::MessageExt;
use crate::pull::pull_request;
use crate::queue_lock::{lock_request, unlock_request};
use crate::registration::{
    register_invocation, topic_request, unregister_invocation, TopicConfig,
};
use crate::route::route_request;
use crate::send::send_request;
use vstd::prelude::*;

verus! {

/// Registrations and withdrawals carry the header that belongs to their code, and
/// reach the name server that they are built for.
pub proof fn lemma_registration_requests(
    namesrv_addr: Seq<char>,
    oneway: bool,
    timeout_millis: u64,
    header: HeaderView,
    body: Seq<u8>,
    cluster_name: Seq<char>,
    broker_addr: Seq<char>,
    broker_name: Seq<char>,
    broker_id: u64,
    config: TopicConfig,
)
    requires
        header is RegisterBroker,
    ensures
        ({
            let register = register_invocation(
                namesrv_addr,
                oneway,
                timeout_millis,
                header,
                body,
            );
            let unregister = unregister_invocation(
                namesrv_addr,
                cluster_name,
                broker_addr,
                broker_name,
                broker_id,
            );
            &&& register.request().coherent()
            &&& register.target() == Some(namesrv_addr)
            &&& register is Oneway <==> oneway
            &&& unregister.request().coherent()
            &&& unregister.target() == Some(namesrv_addr)
            &&& topic_request(broker_name, config).coherent()
        }),
{
}

/// Requests to send and to pull carry the header that belongs to their code. Neither
/// has a body, so the content of a message is not sent along.
pub proof fn lemma_message_requests(
    msg: MessageExt,
    group: Seq<char>,
    properties: Seq<char>,
    broker_name: Seq<char>,
    topic: Seq<char>,
    queue_id: i32,
    offset: i64,
    max_nums: i32,
    now_millis: u64,
)
    ensures
        send_request(msg, group, properties).coherent(),
        send_request(msg, group, properties).body is Empty,
        pull_request(broker_name, group, topic, queue_id, offset, max_nums, now_millis).coherent(),
        pull_request(
            broker_name,
            group,
            topic,
            queue_id,
            offset,
            max_nums,
            now_millis,
        ).body is Empty,
{
}

/// Requests to lock and unlock queues and to look up a route carry the header that
/// belongs to their code. What is to be locked or unlocked goes along as it is given.
pub proof fn lemma_queue_requests(body: Seq<u8>, topic: Seq<char>)
    ensures
        lock_request(body).coherent(),
        lock_request(body).body == BodyView::Bytes(body),
        unlock_request(body).coherent(),
        unlock_request(body).body == BodyView::Bytes(body),
        route_request(topic).coherent(),
{
}

/// A broker asks every name server once, in their order, and tells each the same: when
/// it registers, when it registers a topic, and when it withdraws.
pub proof fn lemma_every_server_asked_once(
    servers: Seq<Seq<char>>,
    oneway: bool,
    timeout_millis: u64,
    header: HeaderView,
    body: Seq<u8>,
    cluster_name: Seq<char>,
    broker_addr: Seq<char>,
    broker_name: Seq<char>,
    broker_id: u64,
    config: TopicConfig,
    i: int,
    j: int,
)
    requires
        0 <= i < servers.len(),
        0 <= j < servers.len(),
    ensures
        ({
            let registers = servers.map_values(
                |a: Seq<char>| register_invocation(a, oneway, timeout_millis, header, body),
            );
            let topics = servers.map_values(
                |a: Seq<char>|
                    InvocationView::Async {
                        addr: Some(a),
                        request: topic_request(broker_name, config),
                        timeout_millis,
                    },
            );
            let unregisters = servers.map_values(
                |a: Seq<char>|
                    unregister_invocation(a, cluster_name, broker_addr, broker_name, broker_id),
            );
            &&& registers.len() == servers.len()
            &&& registers[i].target() == Some(servers[i])
            &&& registers[i].request() == registers[j].request()
            &&& topics.len() == servers.len()
            &&& topics[i].target() == Some(servers[i])
            &&& topics[i].request() == topics[j].request()
            &&& unregisters.len() == servers.len()
            &&& unregisters[i].target() == Some(servers[i])
            &&& unregisters[i].request() == unregisters[j].request()
        }),
{
}

} // verus!
