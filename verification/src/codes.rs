//! Codes, flags and names of the remoting protocol.
use vstd::prelude::*;

verus! {

/// The topic under which a broker creates topics that it does not know yet.
pub const AUTO_CREATE_TOPIC_KEY_TOPIC: &'static str = "TBW102";

/// Subscribes to every message of a topic.
pub const SUB_ALL: &'static str = "*";

/// The expression type of subscriptions by tag.
pub const EXPRESSION_TYPE_TAG: &'static str = "TAG";

/// Set to "true" on the prepared half of a transactional message.
pub const PROPERTY_TRANSACTION_PREPARED: &'static str = "TRAN_MSG";

/// Holds the message id that the client gave.
pub const PROPERTY_UNIQ_CLIENT_MESSAGE_ID_KEYIDX: &'static str = "UNIQ_KEY";

/// Holds the smallest offset of the queue at the time of a pull.
pub const PROPERTY_MIN_OFFSET: &'static str = "MIN_OFFSET";

/// Holds the largest offset of the queue at the time of a pull.
pub const PROPERTY_MAX_OFFSET: &'static str = "MAX_OFFSET";

/// Holds the region of the broker that answered.
pub const PROPERTY_MSG_REGION: &'static str = "MSG_REGION";

/// The region where a broker names none.
pub const DEFAULT_TRACE_REGION_ID: &'static str = "DefaultRegion";

/// What a request asks for.
#[derive(Clone, Copy, Debug, PartialEq, Eq, Structural)]
pub enum RequestCode {
    SendMessage,
    PullMessage,
    LockBatchMq,
    UnlockBatchMq,
    RegisterBroker,
    UnregisterBroker,
    GetRouteinfoByTopic,
    RegisterTopicInNamesrv,
}

/// The answers that are told apart; all others count as `Other`.
#[derive(Clone, Copy, Debug, PartialEq, Eq, Structural)]
pub enum ResponseCode {
    Success,
    FlushDiskTimeout,
    SlaveNotAvailable,
    FlushSlaveTimeout,
    TopicNotExist,
    PullNotFound,
    PullRetryImmediately,
    PullOffsetMoved,
    Other,
}

/// The answer that a code on the wire stands for.
pub open spec fn response_code(code: i32) -> ResponseCode {
    if code == 0 {
        ResponseCode::Success
    } else if code == 10 {
        ResponseCode::FlushDiskTimeout
    } else if code == 11 {
        ResponseCode::SlaveNotAvailable
    } else if code == 12 {
        ResponseCode::FlushSlaveTimeout
    } else if code == 17 {
        ResponseCode::TopicNotExist
    } else if code == 19 {
        ResponseCode::PullNotFound
    } else if code == 20 {
        ResponseCode::PullRetryImmediately
    } else if code == 21 {
        ResponseCode::PullOffsetMoved
    } else {
        ResponseCode::Other
    }
}

impl ResponseCode {
    /// Reads a code off the wire.
    pub fn from_code(code: i32) -> (r: ResponseCode)
        ensures
            r == response_code(code),
    {
        match code {
            0 => ResponseCode::Success,
            10 => ResponseCode::FlushDiskTimeout,
            11 => ResponseCode::SlaveNotAvailable,
            12 => ResponseCode::FlushSlaveTimeout,
            17 => ResponseCode::TopicNotExist,
            19 => ResponseCode::PullNotFound,
            20 => ResponseCode::PullRetryImmediately,
            21 => ResponseCode::PullOffsetMoved,
            _ => ResponseCode::Other,
        }
    }
}

/// The flag bits of a pull request: 1 to commit an offset, 2 to wait for messages,
/// 4 when the request carries a subscription, 8 for a class filter.
pub open spec fn pull_sys_flag(
    commit_offset: bool,
    suspend: bool,
    subscription: bool,
    class_filter: bool,
) -> int {
    (if commit_offset { 1int } else { 0 }) + (if suspend { 2int } else { 0 }) + (if subscription {
        4int
    } else {
        0
    }) + (if class_filter { 8int } else { 0 })
}

/// Computes the flag bits of a pull request.
pub fn build_sys_flag(
    commit_offset: bool,
    suspend: bool,
    subscription: bool,
    class_filter: bool,
) -> (r: i32)
    ensures
        r == pull_sys_flag(commit_offset, suspend, subscription, class_filter),
{
    let mut flag: i32 = 0;
    if commit_offset {
        flag = flag + 1;
    }
    if suspend {
        flag = flag + 2;
    }
    if subscription {
        flag = flag + 4;
    }
    if class_filter {
        flag = flag + 8;
    }
    flag
}

/// A signed number read as an unsigned one of 64 bits: negative numbers count down
/// from the top of the range.
pub open spec fn unsigned_bits(n: int) -> int {
    if n < 0 {
        n + 0x1_0000_0000_0000_0000
    } else {
        n
    }
}

/// Reads the bits of a signed number as an unsigned one.
pub fn as_unsigned(n: i64) -> (r: u64)
    ensures
        r == unsigned_bits(n as int),
{
    assert(n < 0 ==> n as u64 == n + 0x1_0000_0000_0000_0000) by (bit_vector);
    n as u64
}

/// An unsigned number of 64 bits read as a signed one: the upper half of the range
/// counts as negative.
pub open spec fn signed_bits(n: int) -> int {
    if n >= 0x8000_0000_0000_0000 {
        n - 0x1_0000_0000_0000_0000
    } else {
        n
    }
}

/// Reads the bits of an unsigned number as a signed one.
pub fn as_signed(n: u64) -> (r: i64)
    ensures
        r == signed_bits(n as int),
{
    assert(n >= 0x8000_0000_0000_0000 ==> n as i64 == n - 0x1_0000_0000_0000_0000) by (bit_vector);
    assert(n < 0x8000_0000_0000_0000 ==> n as i64 == n) by (bit_vector);
    n as i64
}

} // verus!
