//! The message that travels through the queues, and its header.

use std::time::{Duration, SystemTime, SystemTimeError, UNIX_EPOCH};
use vstd::prelude::*;

verus! {

/// A point in time as the system clock gives it, `std::time::SystemTime`.
/// Nothing of what it holds is visible to the proofs.
#[verifier::external_type_specification]
#[verifier::external_body]
pub struct ExSystemTime(std::time::SystemTime);

/// The error of `SystemTime::duration_since`, `std::time::SystemTimeError`,
/// which it gives where the instant taken for the earlier one is the later.
#[verifier::external_type_specification]
#[verifier::external_body]
pub struct ExSystemTimeError(std::time::SystemTimeError);

/// Gives `std::time::UNIX_EPOCH`, the instant from which timestamps are
/// counted. A point in time is opaque to the proofs, so nothing is claimed
/// of it.
#[verifier::external_body]
fn unix_epoch() -> (epoch: SystemTime) {
    UNIX_EPOCH
}

/// `SystemTime::now` reads the system clock. The reading depends on when
/// the call is made, so nothing is claimed of it.
pub assume_specification[ SystemTime::now ]() -> (reading: SystemTime)
;

/// `SystemTime::duration_since` gives the time that passed from `earlier`
/// to `reading`, or an error where `earlier` is the later of the two.
/// Nothing is claimed of which it is.
pub assume_specification[ SystemTime::duration_since ](
    reading: &SystemTime,
    earlier: SystemTime,
) -> (elapsed: Result<Duration, SystemTimeError>)
;

/// `Duration::as_nanos` gives the whole duration in nanoseconds. A duration
/// is opaque to the proofs, so nothing is claimed of the number.
pub assume_specification[ Duration::as_nanos ](duration: &Duration) -> (nanos: u128)
;

/// What a message asks of its receiver.
#[derive(Debug, PartialEq, Eq, Clone, Copy, Structural)]
pub enum MessageType {
    /// A request to take messages off a topic.
    Consume,
    /// A request to put a message on a topic.
    Produce,
    /// The answer to an earlier request.
    Response,
}

/// The header of a message: when it was made, and of what kind it is.
#[derive(Debug, PartialEq, Eq, Clone, Copy, Structural)]
pub struct Header {
    time: u128,
    message_type: MessageType,
}

impl Header {
    /// The creation time, in nanoseconds since the Unix epoch.
    pub closed spec fn time(self) -> u128 {
        self.time
    }

    /// The kind of the message.
    pub closed spec fn message_type(self) -> MessageType {
        self.message_type
    }

    /// Creates a header with the given creation time and kind.
    pub fn new(time: u128, message_type: MessageType) -> (h: Header)
        ensures
            h.time() == time,
            h.message_type() == message_type,
    {
        Header { time, message_type }
    }

    /// The creation time, in nanoseconds since the Unix epoch.
    pub fn get_time(&self) -> (time: u128)
        ensures
            time == self.time(),
    {
        self.time
    }

    /// The kind of the message.
    pub fn get_message_type(&self) -> (message_type: MessageType)
        ensures
            message_type == self.message_type(),
    {
        self.message_type
    }

    /// Creates a header of the given kind, stamped with the system clock's
    /// reading in nanoseconds since the Unix epoch. A clock that reads
    /// earlier than the epoch gives the time zero.
    pub fn new_current_time(message_type: MessageType) -> (h: Header)
        ensures
            h.message_type() == message_type,
    {
        let current_time: u128 = match SystemTime::now().duration_since(unix_epoch()) {
            Ok(elapsed) => elapsed.as_nanos(),
            Err(_) => 0,
        };
        Header::new(current_time, message_type)
    }
}

/// What a message is, with its texts as sequences of characters.
pub struct MessageView {
    /// The header.
    pub header: Header,
    /// The topic that the message belongs to.
    pub topic: Seq<char>,
    /// The payload.
    pub data: Seq<char>,
}

/// A message: a header, the topic it belongs to, and its payload.
#[derive(Debug, PartialEq, Eq)]
pub struct Message {
    header: Header,
    topic: String,
    data: String,
}

impl View for Message {
    type V = MessageView;

    closed spec fn view(&self) -> MessageView {
        MessageView { header: self.header, topic: self.topic@, data: self.data@ }
    }
}

impl Clone for Message {
    /// A clone is the same message.
    fn clone(&self) -> (m: Message)
        ensures
            m == *self,
    {
        Message { header: self.header, topic: self.topic.clone(), data: self.data.clone() }
    }
}

impl Message {
    /// Creates a message with the given header, payload and topic.
    pub fn new(header: Header, data: &str, topic: &str) -> (m: Message)
        ensures
            m@ == (MessageView { header, topic: topic@, data: data@ }),
    {
        Message { header, data: data.to_string(), topic: topic.to_string() }
    }

    /// The payload.
    pub fn get_data(&self) -> (data: &str)
        ensures
            data@ == self@.data,
    {
        self.data.as_str()
    }

    /// The topic.
    pub fn get_topic(&self) -> (topic: &str)
        ensures
            topic@ == self@.topic,
    {
        self.topic.as_str()
    }

    /// The header.
    pub fn get_header(&self) -> (h: Header)
        ensures
            h == self@.header,
    {
        self.header
    }
}

} // verus!
