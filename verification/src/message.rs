//! Messages and the queues that they stand in.
use crate::codes::PROPERTY_UNIQ_CLIENT_MESSAGE_ID_KEYIDX;
use crate::properties::PropertyMap;
use vstd::prelude::*;

verus! {

/// A message with what a broker knows of it.
#[derive(Debug)]
pub struct MessageExt {
    pub topic: String,
    pub flag: i32,
    pub properties: PropertyMap,
    pub transaction_id: Option<String>,
    pub broker_name: String,
    pub queue_id: i32,
    pub queue_offset: i64,
    pub sys_flag: i32,
    pub born_timestamp: i64,
    pub reconsume_times: i32,
}

/// A queue of a topic on a broker.
#[derive(Debug, PartialEq, Eq)]
pub struct MessageQueue {
    pub topic: String,
    pub broker_name: String,
    pub queue_id: i32,
}

/// The value of a property, if it is set.
pub open spec fn property(properties: Map<Seq<char>, Seq<char>>, name: Seq<char>) -> Option<
    Seq<char>,
> {
    if properties.contains_key(name) {
        Some(properties[name])
    } else {
        None
    }
}

/// The text, or the empty text where there is none.
pub open spec fn or_empty(s: Option<Seq<char>>) -> Seq<char> {
    match s {
        Some(t) => t,
        None => seq![],
    }
}

impl MessageExt {
    /// The message id that the client gave, if it gave one.
    pub open spec fn uniq_id_text(self) -> Option<Seq<char>> {
        property(self.properties@, PROPERTY_UNIQ_CLIENT_MESSAGE_ID_KEYIDX@)
    }

    /// The message id that the client gave, if it gave one.
    pub fn uniq_id(&self) -> (r: Option<String>)
        ensures
            match r {
                Some(id) => self.uniq_id_text() == Some(id@),
                None => self.uniq_id_text() is None,
            },
    {
        self.properties.get(PROPERTY_UNIQ_CLIENT_MESSAGE_ID_KEYIDX)
    }
}

} // verus!
