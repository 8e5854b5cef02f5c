//! Commands: the requests that the broker sends, the responses that it gets, and
//! the errors that come of them.
use crate::codes::response_code;
use crate::codes::{RequestCode, ResponseCode};
use crate::properties::PropertyMap;
use vstd::prelude::*;

verus! {

/// What an optional text spells.
pub open spec fn opt_text(s: Option<String>) -> Option<Seq<char>> {
    match s {
        Some(t) => Some(t@),
        None => None,
    }
}

/// Announces a broker to a name server.
#[derive(Debug, PartialEq, Eq)]
pub struct RegisterBrokerRequestHeader {
    pub broker_addr: String,
    pub broker_id: u64,
    pub broker_name: String,
    pub cluster_name: String,
    pub ha_server_addr: String,
    pub enable_acting_master: Option<bool>,
    pub compressed: bool,
    pub heartbeat_timeout_millis: Option<i64>,
    pub body_crc32: u32,
}

impl Clone for RegisterBrokerRequestHeader {
    fn clone(&self) -> (r: RegisterBrokerRequestHeader)
        ensures
            r == *self,
    {
        RegisterBrokerRequestHeader {
            broker_addr: self.broker_addr.clone(),
            broker_id: self.broker_id,
            broker_name: self.broker_name.clone(),
            cluster_name: self.cluster_name.clone(),
            ha_server_addr: self.ha_server_addr.clone(),
            enable_acting_master: self.enable_acting_master,
            compressed: self.compressed,
            heartbeat_timeout_millis: self.heartbeat_timeout_millis,
            body_crc32: self.body_crc32,
        }
    }
}

/// Withdraws a broker from a name server.
#[derive(Debug, PartialEq, Eq)]
pub struct UnRegisterBrokerRequestHeader {
    pub broker_name: String,
    pub broker_addr: String,
    pub cluster_name: String,
    pub broker_id: u64,
}

/// Sends a message; fields that are not listed keep their defaults. On the wire the
/// fields go under the one-letter names of the second header version.
#[derive(Debug, PartialEq, Eq)]
pub struct SendMessageRequestHeader {
    pub producer_group: String,
    pub topic: String,
    pub default_topic: String,
    pub default_topic_queue_nums: i32,
    pub queue_id: i32,
    pub sys_flag: i32,
    pub born_timestamp: i64,
    pub flag: i32,
    pub properties: Option<String>,
    pub reconsume_times: Option<i32>,
    pub batch: Option<bool>,
}

/// Which broker a routed request is meant for; other routing fields keep their
/// defaults.
#[derive(Debug, PartialEq, Eq)]
pub struct RpcRequestHeader {
    pub broker_name: Option<String>,
}

/// Routing part of a request about a topic.
#[derive(Debug, PartialEq, Eq)]
pub struct TopicRequestHeader {
    pub lo: Option<bool>,
    pub rpc: Option<RpcRequestHeader>,
}

/// Pulls messages from a queue; fields that are not listed keep their defaults.
#[derive(Debug, PartialEq, Eq)]
pub struct PullMessageRequestHeader {
    pub consumer_group: String,
    pub topic: String,
    pub queue_id: i32,
    pub queue_offset: i64,
    pub max_msg_nums: i32,
    pub sys_flag: i32,
    pub commit_offset: i64,
    pub suspend_timeout_millis: u64,
    pub subscription: Option<String>,
    pub sub_version: i64,
    pub expression_type: Option<String>,
    pub max_msg_bytes: Option<i32>,
    pub topic_request: Option<TopicRequestHeader>,
}

/// The header of a request.
#[derive(Debug, PartialEq, Eq)]
pub enum RequestHeader {
    RegisterBroker(RegisterBrokerRequestHeader),
    UnregisterBroker(UnRegisterBrokerRequestHeader),
    RegisterTopic { topic: String },
    GetRouteInfo { topic: String },
    LockBatchMq,
    UnlockBatchMq,
    SendMessageV2(SendMessageRequestHeader),
    PullMessage(PullMessageRequestHeader),
}

/// What a request header says.
pub enum HeaderView {
    RegisterBroker {
        broker_addr: Seq<char>,
        broker_id: u64,
        broker_name: Seq<char>,
        cluster_name: Seq<char>,
        ha_server_addr: Seq<char>,
        enable_acting_master: Option<bool>,
        compressed: bool,
        heartbeat_timeout_millis: Option<i64>,
        body_crc32: u32,
    },
    UnregisterBroker {
        broker_name: Seq<char>,
        broker_addr: Seq<char>,
        cluster_name: Seq<char>,
        broker_id: u64,
    },
    RegisterTopic { topic: Seq<char> },
    GetRouteInfo { topic: Seq<char> },
    LockBatchMq,
    UnlockBatchMq,
    SendMessageV2 {
        producer_group: Seq<char>,
        topic: Seq<char>,
        default_topic: Seq<char>,
        default_topic_queue_nums: i32,
        queue_id: i32,
        sys_flag: i32,
        born_timestamp: i64,
        flag: i32,
        properties: Option<Seq<char>>,
        reconsume_times: Option<i32>,
        batch: Option<bool>,
    },
    PullMessage {
        consumer_group: Seq<char>,
        topic: Seq<char>,
        queue_id: i32,
        queue_offset: i64,
        max_msg_nums: i32,
        sys_flag: i32,
        commit_offset: i64,
        suspend_timeout_millis: u64,
        subscription: Option<Seq<char>>,
        sub_version: int,
        expression_type: Option<Seq<char>>,
        max_msg_bytes: Option<i32>,
        topic_request: Option<TopicRequestView>,
    },
}

/// What the routing part of a request says: its `lo` flag, and the broker that its
/// routing header, where there is one, names.
pub struct TopicRequestView {
    pub lo: Option<bool>,
    pub rpc: Option<Option<Seq<char>>>,
}

/// What a routing part says.
pub open spec fn topic_request_view(t: Option<TopicRequestHeader>) -> Option<TopicRequestView> {
    match t {
        Some(h) => Some(
            TopicRequestView {
                lo: h.lo,
                rpc: match h.rpc {
                    Some(rpc) => Some(opt_text(rpc.broker_name)),
                    None => None,
                },
            },
        ),
        None => None,
    }
}

impl View for RegisterBrokerRequestHeader {
    type V = HeaderView;

    open spec fn view(&self) -> HeaderView {
        HeaderView::RegisterBroker {
            broker_addr: self.broker_addr@,
            broker_id: self.broker_id,
            broker_name: self.broker_name@,
            cluster_name: self.cluster_name@,
            ha_server_addr: self.ha_server_addr@,
            enable_acting_master: self.enable_acting_master,
            compressed: self.compressed,
            heartbeat_timeout_millis: self.heartbeat_timeout_millis,
            body_crc32: self.body_crc32,
        }
    }
}

impl View for UnRegisterBrokerRequestHeader {
    type V = HeaderView;

    open spec fn view(&self) -> HeaderView {
        HeaderView::UnregisterBroker {
            broker_name: self.broker_name@,
            broker_addr: self.broker_addr@,
            cluster_name: self.cluster_name@,
            broker_id: self.broker_id,
        }
    }
}

impl View for SendMessageRequestHeader {
    type V = HeaderView;

    open spec fn view(&self) -> HeaderView {
        HeaderView::SendMessageV2 {
            producer_group: self.producer_group@,
            topic: self.topic@,
            default_topic: self.default_topic@,
            default_topic_queue_nums: self.default_topic_queue_nums,
            queue_id: self.queue_id,
            sys_flag: self.sys_flag,
            born_timestamp: self.born_timestamp,
            flag: self.flag,
            properties: opt_text(self.properties),
            reconsume_times: self.reconsume_times,
            batch: self.batch,
        }
    }
}

impl View for PullMessageRequestHeader {
    type V = HeaderView;

    open spec fn view(&self) -> HeaderView {
        HeaderView::PullMessage {
            consumer_group: self.consumer_group@,
            topic: self.topic@,
            queue_id: self.queue_id,
            queue_offset: self.queue_offset,
            max_msg_nums: self.max_msg_nums,
            sys_flag: self.sys_flag,
            commit_offset: self.commit_offset,
            suspend_timeout_millis: self.suspend_timeout_millis,
            subscription: opt_text(self.subscription),
            sub_version: self.sub_version as int,
            expression_type: opt_text(self.expression_type),
            max_msg_bytes: self.max_msg_bytes,
            topic_request: topic_request_view(self.topic_request),
        }
    }
}

impl View for RequestHeader {
    type V = HeaderView;

    open spec fn view(&self) -> HeaderView {
        match self {
            RequestHeader::RegisterBroker(h) => h@,
            RequestHeader::UnregisterBroker(h) => h@,
            RequestHeader::RegisterTopic { topic } => HeaderView::RegisterTopic { topic: topic@ },
            RequestHeader::GetRouteInfo { topic } => HeaderView::GetRouteInfo { topic: topic@ },
            RequestHeader::LockBatchMq => HeaderView::LockBatchMq,
            RequestHeader::UnlockBatchMq => HeaderView::UnlockBatchMq,
            RequestHeader::SendMessageV2(h) => h@,
            RequestHeader::PullMessage(h) => h@,
        }
    }
}

/// The queues of one topic on one broker.
#[derive(Debug, PartialEq, Eq)]
pub struct QueueData {
    pub broker_name: String,
    pub read_queue_nums: u32,
    pub write_queue_nums: u32,
    pub perm: u32,
    pub topic_sys_flag: u32,
}

/// What queue data says.
pub struct QueueDataView {
    pub broker_name: Seq<char>,
    pub read_queue_nums: u32,
    pub write_queue_nums: u32,
    pub perm: u32,
    pub topic_sys_flag: u32,
}

impl View for QueueData {
    type V = QueueDataView;

    open spec fn view(&self) -> QueueDataView {
        QueueDataView {
            broker_name: self.broker_name@,
            read_queue_nums: self.read_queue_nums,
            write_queue_nums: self.write_queue_nums,
            perm: self.perm,
            topic_sys_flag: self.topic_sys_flag,
        }
    }
}

/// The body of a request: bytes as they go on the wire, or route data that lists
/// queues and nothing else, which the transport encodes.
#[derive(Debug, PartialEq, Eq)]
pub enum RequestBody {
    Empty,
    Bytes(Vec<u8>),
    TopicRoute { queue_datas: Vec<QueueData> },
}

/// What a request body holds.
pub enum BodyView {
    Empty,
    Bytes(Seq<u8>),
    TopicRoute { queue_datas: Seq<QueueDataView> },
}

impl View for RequestBody {
    type V = BodyView;

    open spec fn view(&self) -> BodyView {
        match self {
            RequestBody::Empty => BodyView::Empty,
            RequestBody::Bytes(b) => BodyView::Bytes(b@),
            RequestBody::TopicRoute { queue_datas } => BodyView::TopicRoute {
                queue_datas: queue_datas@.map_values(|q: QueueData| q@),
            },
        }
    }
}

/// A request.
#[derive(Debug, PartialEq, Eq)]
pub struct RemotingRequest {
    pub code: RequestCode,
    pub header: RequestHeader,
    pub body: RequestBody,
}

/// What a request says.
pub struct RequestView {
    pub code: RequestCode,
    pub header: HeaderView,
    pub body: BodyView,
}

impl View for RemotingRequest {
    type V = RequestView;

    open spec fn view(&self) -> RequestView {
        RequestView { code: self.code, header: self.header@, body: self.body@ }
    }
}

impl RequestView {
    /// Whether the header is the one that belongs to the code.
    pub open spec fn coherent(self) -> bool {
        match self.code {
            RequestCode::RegisterBroker => self.header is RegisterBroker,
            RequestCode::UnregisterBroker => self.header is UnregisterBroker,
            RequestCode::RegisterTopicInNamesrv => self.header is RegisterTopic,
            RequestCode::GetRouteinfoByTopic => self.header is GetRouteInfo,
            RequestCode::LockBatchMq => self.header is LockBatchMq,
            RequestCode::UnlockBatchMq => self.header is UnlockBatchMq,
            RequestCode::SendMessage => self.header is SendMessageV2,
            RequestCode::PullMessage => self.header is PullMessage,
        }
    }
}

/// One use of the remoting client.
#[derive(Debug, PartialEq, Eq)]
pub enum Invocation {
    /// Sends the request and waits for the response. Without an address the client
    /// picks a name server.
    Async { addr: Option<String>, request: RemotingRequest, timeout_millis: u64 },
    /// Sends the request; there is no response.
    Oneway { namesrv_addr: String, request: RemotingRequest, timeout_millis: u64 },
}

/// What an invocation does.
pub enum InvocationView {
    Async { addr: Option<Seq<char>>, request: RequestView, timeout_millis: u64 },
    Oneway { namesrv_addr: Seq<char>, request: RequestView, timeout_millis: u64 },
}

impl View for Invocation {
    type V = InvocationView;

    open spec fn view(&self) -> InvocationView {
        match self {
            Invocation::Async { addr, request, timeout_millis } => InvocationView::Async {
                addr: opt_text(*addr),
                request: request@,
                timeout_millis: *timeout_millis,
            },
            Invocation::Oneway {
                namesrv_addr,
                request,
                timeout_millis,
            } => InvocationView::Oneway {
                namesrv_addr: namesrv_addr@,
                request: request@,
                timeout_millis: *timeout_millis,
            },
        }
    }
}

/// What a list of invocations does.
pub open spec fn invocation_views(v: Seq<Invocation>) -> Seq<InvocationView> {
    v.map_values(|i: Invocation| i@)
}

impl InvocationView {
    /// Whether there is a reply to the invocation: a one-way request has none.
    pub open spec fn has_reply(self) -> bool {
        self is Async
    }

    /// The request that is sent.
    pub open spec fn request(self) -> RequestView {
        match self {
            InvocationView::Async { request, .. } => request,
            InvocationView::Oneway { request, .. } => request,
        }
    }

    /// The address that the request is sent to, if it is fixed.
    pub open spec fn target(self) -> Option<Seq<char>> {
        match self {
            InvocationView::Async { addr, .. } => addr,
            InvocationView::Oneway { namesrv_addr, .. } => Some(namesrv_addr),
        }
    }
}

/// A response.
#[derive(Debug)]
pub struct RemotingCommand {
    pub code: i32,
    pub remark: Option<String>,
    pub ext_fields: Option<PropertyMap>,
    pub body: Option<Vec<u8>>,
}

impl RemotingCommand {
    /// The remark of the response, empty where it has none.
    pub open spec fn remark_text(self) -> Seq<char> {
        match self.remark {
            Some(s) => s@,
            None => seq![],
        }
    }

    /// Whether the response is a success.
    pub fn is_success(&self) -> (r: bool)
        ensures
            r == (response_code(self.code) == ResponseCode::Success),
    {
        match ResponseCode::from_code(self.code) {
            ResponseCode::Success => true,
            _ => false,
        }
    }

    /// The remark of the response, empty where it has none.
    pub fn remark_or_empty(&self) -> (r: String)
        ensures
            r@ == self.remark_text(),
    {
        match &self.remark {
            Some(s) => s.clone(),
            None => String::new(),
        }
    }
}

/// Why an operation failed: the broker or name server refused it, or the transport
/// failed with an error `E`.
#[derive(Debug, PartialEq, Eq)]
pub enum RocketmqError<E> {
    /// A response code with two texts, a message and the address of the broker.
    MQBrokerError(i32, String, String),
    /// A failure of the transport, as it came.
    Remoting(E),
}

impl<E> RocketmqError<E> {
    /// Whether this is the refusal with that code and those two texts.
    pub open spec fn is_broker_error(
        self,
        code: i32,
        message: Seq<char>,
        broker_addr: Seq<char>,
    ) -> bool {
        match self {
            RocketmqError::MQBrokerError(c, m, a) => c == code && m@ == message && a@
                == broker_addr,
            RocketmqError::Remoting(_) => false,
        }
    }
}

} // verus!
