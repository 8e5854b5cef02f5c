//! Looking up the route of a topic.
use crate::api::BrokerOuterAPI;
use crate::codes::response_code;
use crate::codes::{RequestCode, ResponseCode};
use crate::command::{BodyView, HeaderView, InvocationView, RequestView};
use crate::command::{
    Invocation, RemotingCommand, RemotingRequest, RequestBody, RequestHeader, RocketmqError,
};
use vstd::prelude::*;

verus! {

/// What a route lookup says.
pub open spec fn route_request(topic: Seq<char>) -> RequestView {
    RequestView {
        code: RequestCode::GetRouteinfoByTopic,
        header: HeaderView::GetRouteInfo { topic },
        body: BodyView::Empty,
    }
}

/// Whether a response holds the route of a topic: it is a success and has a body.
pub open spec fn has_route(response: RemotingCommand) -> bool {
    response_code(response.code) == ResponseCode::Success && response.body is Some
}

impl BrokerOuterAPI {
    /// Asks a name server, whichever the transport picks, for the route of a topic.
    pub fn get_topic_route_info_from_name_server(&self, topic: &str, timeout_millis: u64) -> (r:
        Invocation)
        ensures
            r@ == (InvocationView::Async {
                addr: None,
                request: route_request(topic@),
                timeout_millis,
            }),
    {
        Invocation::Async {
            addr: None,
            request: RemotingRequest {
                code: RequestCode::GetRouteinfoByTopic,
                header: RequestHeader::GetRouteInfo { topic: topic.to_owned() },
                body: RequestBody::Empty,
            },
            timeout_millis,
        }
    }

    /// Whether an unknown topic is worth a warning: only to a caller that allows the
    /// topic not to exist. The lookup fails either way.
    pub fn warns_of_unknown_topic(&self, response: &RemotingCommand, allow_topic_not_exist: bool) -> (r:
        bool)
        ensures
            r == (response_code(response.code) == ResponseCode::TopicNotExist
                && allow_topic_not_exist),
    {
        match ResponseCode::from_code(response.code) {
            ResponseCode::TopicNotExist => allow_topic_not_exist,
            _ => false,
        }
    }

    /// The bytes of a response that are to be decoded into a route: the body of a
    /// success, where it has one. Of any other response nothing is decoded.
    pub fn route_body_to_decode<'a>(&self, response: &'a RemotingCommand) -> (r: Option<&'a Vec<u8>>)
        ensures
            r is Some <==> has_route(*response),
            has_route(*response) ==> r->0@ == response.body->0@,
    {
        if response.is_success() {
            response.body.as_ref()
        } else {
            None
        }
    }

    /// Reads the reply to a route lookup: the response, beside the route that its body
    /// decodes to, or the failure of the transport. The body of a successful response
    /// has to decode, where there is one; a success without a body is a failure.
    pub fn topic_route_info_response<T, E>(
        &self,
        reply: Result<(RemotingCommand, Option<T>), E>,
    ) -> (r: Result<T, RocketmqError<E>>)
        requires
            reply is Ok && has_route(reply->Ok_0.0) ==> reply->Ok_0.1 is Some,
        ensures
            match reply {
                Err(e) => r == Err::<T, RocketmqError<E>>(RocketmqError::Remoting(e)),
                Ok((response, route)) => if has_route(response) {
                    r is Ok && Some(r->Ok_0) == route
                } else {
                    r is Err && r->Err_0.is_broker_error(
                        response.code,
                        response.remark_text(),
                        seq![],
                    )
                },
            },
    {
        let (response, route) = match reply {
            Ok(pair) => pair,
            Err(e) => {
                return Err(RocketmqError::Remoting(e));
            },
        };
        match (ResponseCode::from_code(response.code), response.body.is_some(), route) {
            (ResponseCode::Success, true, Some(data)) => Ok(data),
            _ => Err(
                RocketmqError::MQBrokerError(
                    response.code,
                    response.remark_or_empty(),
                    String::new(),
                ),
            ),
        }
    }
}

} // verus!
