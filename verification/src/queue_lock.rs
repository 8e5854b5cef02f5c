//! Locking and unlocking message queues on a broker.
use crate::api::BrokerOuterAPI;
use crate::codes::response_code;
use crate::codes::{RequestCode, ResponseCode};
use crate::command::{BodyView, HeaderView, InvocationView, RequestView};
use crate::command::{
    Invocation, RemotingCommand, RemotingRequest, RequestBody, RequestHeader, RocketmqError,
};
use vstd::prelude::*;

verus! {

/// What a lock request says.
pub open spec fn lock_request(body: Seq<u8>) -> RequestView {
    RequestView {
        code: RequestCode::LockBatchMq,
        header: HeaderView::LockBatchMq,
        body: BodyView::Bytes(body),
    }
}

/// What an unlock request says.
pub open spec fn unlock_request(body: Seq<u8>) -> RequestView {
    RequestView {
        code: RequestCode::UnlockBatchMq,
        header: HeaderView::UnlockBatchMq,
        body: BodyView::Bytes(body),
    }
}

/// What is to be done with a reply to a lock request.
#[derive(Debug, PartialEq, Eq)]
pub enum LockStep<S, E> {
    /// Nothing: the request is over, with the set of locked queues or an error.
    Done(Result<S, RocketmqError<E>>),
    /// The request was refused; the remark is to be encoded as JSON text.
    EncodeRemark { code: i32, remark: String },
}

/// Whether `step` is what the reply to a lock request calls for.
pub open spec fn lock_step<S, E>(
    step: LockStep<S, E>,
    reply: Result<(RemotingCommand, Option<S>), E>,
) -> bool {
    match reply {
        Err(e) => step == LockStep::Done(Err::<S, RocketmqError<E>>(RocketmqError::Remoting(e))),
        Ok((response, locked)) => if response_code(response.code) == ResponseCode::Success {
            step == LockStep::Done(Ok::<S, RocketmqError<E>>(locked->0))
        } else {
            &&& step matches LockStep::EncodeRemark { code, remark }
            &&& code == response.code
            &&& remark@ == response.remark_text()
        },
    }
}

impl BrokerOuterAPI {
    /// Locks the queues that `request_body` lists.
    pub fn lock_batch_mq_async(&self, addr: &str, request_body: Vec<u8>, timeout_millis: u64) -> (r:
        Invocation)
        ensures
            r@ == (InvocationView::Async {
                addr: Some(addr@),
                request: lock_request(request_body@),
                timeout_millis,
            }),
    {
        Invocation::Async {
            addr: Some(addr.to_owned()),
            request: RemotingRequest {
                code: RequestCode::LockBatchMq,
                header: RequestHeader::LockBatchMq,
                body: RequestBody::Bytes(request_body),
            },
            timeout_millis,
        }
    }

    /// The bytes of a response that are to be decoded into the set of locked queues:
    /// the body of a success, which has one. Of a refusal nothing is decoded.
    pub fn lock_body_to_decode<'a>(&self, response: &'a RemotingCommand) -> (r: Option<&'a Vec<u8>>)
        requires
            response_code(response.code) == ResponseCode::Success ==> response.body is Some,
        ensures
            response_code(response.code) == ResponseCode::Success ==> r is Some && r->0@
                == response.body->0@,
            response_code(response.code) != ResponseCode::Success ==> r is None,
    {
        if response.is_success() {
            response.body.as_ref()
        } else {
            None
        }
    }

    /// Reads the reply to a lock request: the response, beside the set of locked
    /// queues that its body decodes to, or the failure of the transport. A successful
    /// response has a body that decodes.
    pub fn lock_batch_mq_response<S, E>(
        &self,
        reply: Result<(RemotingCommand, Option<S>), E>,
    ) -> (r: LockStep<S, E>)
        requires
            reply is Ok && response_code(reply->Ok_0.0.code) == ResponseCode::Success
                ==> reply->Ok_0.0.body is Some && reply->Ok_0.1 is Some,
        ensures
            lock_step(r, reply),
    {
        match reply {
            Ok((response, locked)) => match (ResponseCode::from_code(response.code), locked) {
                (ResponseCode::Success, Some(set)) => LockStep::Done(Ok(set)),
                _ => LockStep::EncodeRemark {
                    code: response.code,
                    remark: response.remark_or_empty(),
                },
            },
            Err(e) => LockStep::Done(Err(RocketmqError::Remoting(e))),
        }
    }

    /// Ends a lock request that was refused with `code`, where `remark_json` is the
    /// remark as JSON text. The error names no address.
    pub fn lock_batch_mq_refused<E>(&self, code: i32, remark_json: String) -> (r: RocketmqError<E>)
        ensures
            r.is_broker_error(code, remark_json@, seq![]),
    {
        RocketmqError::MQBrokerError(code, remark_json, String::new())
    }

    /// Unlocks the queues that `request_body` lists.
    pub fn unlock_batch_mq_async(
        &self,
        addr: &str,
        request_body: Vec<u8>,
        timeout_millis: u64,
    ) -> (r: Invocation)
        ensures
            r@ == (InvocationView::Async {
                addr: Some(addr@),
                request: unlock_request(request_body@),
                timeout_millis,
            }),
    {
        Invocation::Async {
            addr: Some(addr.to_owned()),
            request: RemotingRequest {
                code: RequestCode::UnlockBatchMq,
                header: RequestHeader::UnlockBatchMq,
                body: RequestBody::Bytes(request_body),
            },
            timeout_millis,
        }
    }

    /// Reads the reply to an unlock request. A refusal carries the remark as it is,
    /// and no address.
    pub fn unlock_batch_mq_response<E>(&self, reply: Result<RemotingCommand, E>) -> (r: Result<
        (),
        RocketmqError<E>,
    >)
        ensures
            match reply {
                Err(e) => r == Err::<(), RocketmqError<E>>(RocketmqError::Remoting(e)),
                Ok(response) => if response_code(response.code) == ResponseCode::Success {
                    r is Ok
                } else {
                    r is Err && r->Err_0.is_broker_error(
                        response.code,
                        response.remark_text(),
                        seq![],
                    )
                },
            },
    {
        match reply {
            Ok(response) => match ResponseCode::from_code(response.code) {
                ResponseCode::Success => Ok(()),
                _ => Err(
                    RocketmqError::MQBrokerError(
                        response.code,
                        response.remark_or_empty(),
                        String::new(),
                    ),
                ),
            },
            Err(e) => Err(RocketmqError::Remoting(e)),
        }
    }
}

} // verus!
