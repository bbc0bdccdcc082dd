//! The queue side: what is asked of the queue service, and how a received
//! message becomes an item.

use crate::dictionary::{Dictionary, StringMap};
use crate::item::Item;
use vstd::prelude::*;
use vstd::string::StringExecFns;
use vstd::string::StringSliceAdditionalSpecFns;

verus! {

/// Why a queue operation failed.
#[derive(Debug)]
pub enum Error {
    /// The service refused or failed a receive; the text says how.
    SqsReceiveMessageError(String),
    /// The service refused or failed a delete; the text says how.
    SqsDeleteMessageError(String),
    /// A received message carries no identifier.
    MissingMessageId,
    /// A received message, or an item, carries no receipt handle.
    MissingReceiptHandle,
}

/// The text that describes an error.
pub open spec fn error_text(error: Error) -> Seq<char> {
    match error {
        Error::SqsReceiveMessageError(_) => "SQS ReceiveMessage API call failed"@,
        Error::SqsDeleteMessageError(_) => "SQS DeleteMessage API call failed"@,
        Error::MissingMessageId => "invalid message model received: missing MessageId"@,
        Error::MissingReceiptHandle => "invalid message model received: missing ReceiptHandle"@,
    }
}

/// The text that describes an error together with its cause.
pub open spec fn error_chain(error: Error) -> Seq<char> {
    match error {
        Error::SqsReceiveMessageError(cause) => "SQS ReceiveMessage API call failed: "@ + cause@,
        Error::SqsDeleteMessageError(cause) => "SQS DeleteMessage API call failed: "@ + cause@,
        _ => error_text(error),
    }
}

impl Error {
    /// Describes the error and its cause in words.
    pub fn describe(&self) -> (text: String)
        ensures
            text@ == error_chain(*self),
    {
        match self {
            Error::SqsReceiveMessageError(cause) => String::from_str(
                "SQS ReceiveMessage API call failed: ",
            ).concat(cause.as_str()),
            Error::SqsDeleteMessageError(cause) => String::from_str(
                "SQS DeleteMessage API call failed: ",
            ).concat(cause.as_str()),
            _ => self.message(),
        }
    }

    /// Describes the error in words.
    pub fn message(&self) -> (text: String)
        ensures
            text@ == error_text(*self),
    {
        match self {
            Error::SqsReceiveMessageError(_) => String::from_str(
                "SQS ReceiveMessage API call failed",
            ),
            Error::SqsDeleteMessageError(_) => String::from_str(
                "SQS DeleteMessage API call failed",
            ),
            Error::MissingMessageId => String::from_str(
                "invalid message model received: missing MessageId",
            ),
            Error::MissingReceiptHandle => String::from_str(
                "invalid message model received: missing ReceiptHandle",
            ),
        }
    }
}

/// An attribute that the sender gave a message. Only a string value is
/// kept; an attribute of another kind has none.
#[derive(Debug)]
pub struct MessageAttribute {
    pub name: String,
    pub string_value: Option<String>,
}

/// An attribute that the service gave a message.
#[derive(Debug)]
pub struct SystemAttribute {
    pub name: String,
    pub value: String,
}

/// A message as the service delivers it.
#[derive(Debug)]
pub struct Message {
    pub message_id: Option<String>,
    pub receipt_handle: Option<String>,
    pub body: Option<String>,
    pub message_attributes: Vec<MessageAttribute>,
    pub attributes: Vec<SystemAttribute>,
}

/// An attribute as a name and the string it carries, if any.
pub type AttributeView = (Seq<char>, Option<Seq<char>>);

/// The sender's attributes of a list, each taken by its view.
pub open spec fn message_attribute_views(attributes: Seq<MessageAttribute>) -> Seq<AttributeView> {
    attributes.map_values(
        |a: MessageAttribute|
            (
                a.name@,
                match a.string_value {
                    Some(value) => Some(value@),
                    None => None,
                },
            ),
    )
}

/// The service's attributes of a list, each taken by its view.
pub open spec fn system_attribute_views(attributes: Seq<SystemAttribute>) -> Seq<AttributeView> {
    attributes.map_values(|a: SystemAttribute| (a.name@, Some(a.value@)))
}

/// `base` after the attributes were written into it one after the other:
/// an attribute with a string sets the entry of its name, one without
/// changes nothing.
pub open spec fn with_attributes(
    base: Map<Seq<char>, Seq<char>>,
    attributes: Seq<AttributeView>,
) -> Map<Seq<char>, Seq<char>>
    decreases attributes.len(),
{
    if attributes.len() == 0 {
        base
    } else {
        let before = with_attributes(base, attributes.drop_last());
        match attributes.last().1 {
            Some(value) => before.insert(attributes.last().0, value),
            None => before,
        }
    }
}

/// The metadata of the item that a message becomes: the receipt handle
/// under `receipt_handle`, then the sender's string attributes, then the
/// service's attributes, where a later entry replaces an earlier one of the
/// same name.
pub open spec fn message_metadata(
    receipt_handle: Seq<char>,
    message_attributes: Seq<AttributeView>,
    attributes: Seq<AttributeView>,
) -> Map<Seq<char>, Seq<char>> {
    with_attributes(
        with_attributes(
            Map::<Seq<char>, Seq<char>>::empty().insert("receipt_handle"@, receipt_handle),
            message_attributes,
        ),
        attributes,
    )
}

/// The bytes of a message's body; none where it has no body.
pub open spec fn body_bytes(body: Option<String>) -> Seq<u8> {
    match body {
        Some(text) => vstd::utf8::encode_utf8(text@),
        None => Seq::empty(),
    }
}

/// `made` is the item that `message` becomes, or the reason why it becomes
/// none: a message without identifier is refused for that, and one with an
/// identifier but without receipt handle for this.
pub open spec fn is_item_of(made: Result<Item, Error>, message: Message) -> bool {
    match made {
        Ok(item) => match (message.message_id, message.receipt_handle) {
            (Some(id), Some(receipt_handle)) => {
                &&& item.id@ == id@
                &&& item.data@ == body_bytes(message.body)
                &&& item.metadata@ == message_metadata(
                    receipt_handle@,
                    message_attribute_views(message.message_attributes@),
                    system_attribute_views(message.attributes@),
                )
            },
            _ => false,
        },
        Err(Error::MissingMessageId) => message.message_id is None,
        Err(Error::MissingReceiptHandle) => message.message_id is Some
            && message.receipt_handle is None,
        Err(_) => false,
    }
}

impl Item {
    /// Makes an item of a received message.
    pub fn try_from(value: Message) -> (made: Result<Item, Error>)
        ensures
            is_item_of(made, value),
    {
        let ghost user = message_attribute_views(value.message_attributes@);
        let ghost system = system_attribute_views(value.attributes@);
        let id = match &value.message_id {
            Some(id) => id.clone(),
            None => {
                return Err(Error::MissingMessageId);
            },
        };
        let receipt_handle = match &value.receipt_handle {
            Some(receipt_handle) => receipt_handle.clone(),
            None => {
                return Err(Error::MissingReceiptHandle);
            },
        };
        let mut metadata: StringMap = Dictionary::new();
        metadata.insert("receipt_handle".to_string(), receipt_handle);
        let data = match &value.body {
            Some(body) => vstd::slice::slice_to_vec(body.as_str().as_bytes()),
            None => Vec::new(),
        };
        let ghost base = metadata@;
        let mut i: usize = 0;
        assert(user.take(0) =~= Seq::empty());
        while i < value.message_attributes.len()
            invariant
                i <= value.message_attributes.len(),
                user == message_attribute_views(value.message_attributes@),
                metadata@ == with_attributes(base, user.take(i as int)),
            decreases value.message_attributes.len() - i,
        {
            assert(user.take(i + 1).drop_last() =~= user.take(i as int));
            if let Some(text) = &value.message_attributes[i].string_value {
                metadata.insert(value.message_attributes[i].name.clone(), text.clone());
            }
            i += 1;
        }
        assert(user.take(value.message_attributes.len() as int) =~= user);
        let ghost middle = metadata@;
        let mut j: usize = 0;
        assert(system.take(0) =~= Seq::empty());
        while j < value.attributes.len()
            invariant
                j <= value.attributes.len(),
                system == system_attribute_views(value.attributes@),
                metadata@ == with_attributes(middle, system.take(j as int)),
            decreases value.attributes.len() - j,
        {
            assert(system.take(j + 1).drop_last() =~= system.take(j as int));
            metadata.insert(value.attributes[j].name.clone(), value.attributes[j].value.clone());
            j += 1;
        }
        assert(system.take(value.attributes.len() as int) =~= system);
        Ok(Item { id, data, metadata })
    }
}

/// A request to receive messages.
#[derive(Debug)]
pub struct ReceiveRequest {
    pub queue_url: String,
    /// How many messages may come at most.
    pub max_number_of_messages: i32,
    /// Seconds for which the service may hold the request back while the
    /// queue is empty.
    pub wait_time_seconds: i32,
    /// Seconds for which a message that comes stays hidden from others.
    pub visibility_timeout: i32,
    /// Which of the sender's attributes are wanted.
    pub message_attribute_names: String,
    /// Which of the service's attributes are wanted.
    pub message_system_attribute_names: String,
}

/// A request to delete a received message.
#[derive(Debug)]
pub struct DeleteRequest {
    pub queue_url: String,
    pub receipt_handle: String,
}

/// A queue of the service.
#[derive(Debug)]
pub struct Queue {
    queue_url: String,
    visibility_timeout: i32,
}

/// What a queue is made of.
pub struct QueueView {
    pub queue_url: Seq<char>,
    pub visibility_timeout: i32,
}

impl View for Queue {
    type V = QueueView;

    closed spec fn view(&self) -> QueueView {
        QueueView { queue_url: self.queue_url@, visibility_timeout: self.visibility_timeout }
    }
}

/// `outcome` is what a receive that brought `messages` yields: nothing for
/// no messages, else the item that the first message becomes, or the
/// reason why it becomes none.
pub open spec fn is_received(outcome: Result<Option<Item>, Error>, messages: Seq<Message>) -> bool {
    if messages.len() == 0 {
        outcome matches Ok(None)
    } else {
        match outcome {
            Ok(Some(item)) => is_item_of(Ok(item), messages[0]),
            Ok(None) => false,
            Err(error) => is_item_of(Err(error), messages[0]),
        }
    }
}

/// `asked` is the request that acknowledges an item with this metadata at
/// the queue `queue_url`, or the refusal of an item without receipt handle.
pub open spec fn is_acknowledgement(
    asked: Result<DeleteRequest, Error>,
    queue_url: Seq<char>,
    metadata: Map<Seq<char>, Seq<char>>,
) -> bool {
    match asked {
        Ok(request) => {
            &&& metadata.contains_key("receipt_handle"@)
            &&& request.queue_url@ == queue_url
            &&& request.receipt_handle@ == metadata["receipt_handle"@]
        },
        Err(Error::MissingReceiptHandle) => !metadata.contains_key("receipt_handle"@),
        Err(_) => false,
    }
}

impl Queue {
    /// The queue at `queue_url`, whose messages stay hidden for
    /// `visibility_timeout` seconds once received.
    pub fn new(queue_url: String, visibility_timeout: i32) -> (queue: Queue)
        ensures
            queue@ == (QueueView { queue_url: queue_url@, visibility_timeout }),
    {
        Queue { queue_url, visibility_timeout }
    }

    /// The request for the next message: at most one message, with all
    /// attributes of both kinds, waiting up to `wait_seconds` seconds.
    pub fn receive_request(&self, wait_seconds: u64) -> (request: ReceiveRequest)
        ensures
            request.queue_url@ == self@.queue_url,
            request.max_number_of_messages == 1,
            request.wait_time_seconds == wait_seconds as i32,
            request.visibility_timeout == self@.visibility_timeout,
            request.message_attribute_names@ == "All"@,
            request.message_system_attribute_names@ == "All"@,
    {
        ReceiveRequest {
            queue_url: self.queue_url.clone(),
            max_number_of_messages: 1,
            wait_time_seconds: #[verifier::truncate] (wait_seconds as i32),
            visibility_timeout: self.visibility_timeout,
            message_attribute_names: "All".to_string(),
            message_system_attribute_names: "All".to_string(),
        }
    }

    /// What a receive that brought `messages` yields.
    pub fn received(messages: Vec<Message>) -> (outcome: Result<Option<Item>, Error>)
        ensures
            is_received(outcome, messages@),
    {
        let mut messages = messages;
        if messages.len() == 0 {
            return Ok(None);
        }
        let first = messages.remove(0);
        match Item::try_from(first) {
            Ok(item) => Ok(Some(item)),
            Err(error) => Err(error),
        }
    }

    /// The request that acknowledges `item`, so that the queue drops it for
    /// good.
    pub fn acknowledge_request(&self, item: &Item) -> (asked: Result<DeleteRequest, Error>)
        ensures
            is_acknowledgement(asked, self@.queue_url, item.metadata@),
    {
        match item.metadata.get("receipt_handle") {
            Some(receipt_handle) => Ok(
                DeleteRequest {
                    queue_url: self.queue_url.clone(),
                    receipt_handle: receipt_handle.clone(),
                },
            ),
            None => Err(Error::MissingReceiptHandle),
        }
    }
}

} // verus!
