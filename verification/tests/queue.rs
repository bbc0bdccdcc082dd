use fcgiq::dictionary::{Dictionary, StringMap};
use fcgiq::item::Item;
use fcgiq::queue::{Error, Message, MessageAttribute, Queue, SystemAttribute};

fn some(s: &str) -> Option<String> {
    Some(s.to_string())
}

fn user(name: &str, value: Option<&str>) -> MessageAttribute {
    MessageAttribute { name: name.to_string(), string_value: value.map(|v| v.to_string()) }
}

fn system(name: &str, value: &str) -> SystemAttribute {
    SystemAttribute { name: name.to_string(), value: value.to_string() }
}

fn message() -> Message {
    Message {
        message_id: some("m1"),
        receipt_handle: some("r1"),
        body: some("{}"),
        message_attributes: Vec::new(),
        attributes: Vec::new(),
    }
}

fn get<'a>(map: &'a StringMap, key: &str) -> Option<&'a str> {
    map.get(key).map(|v| v.as_str())
}

#[test]
fn item_from_plain_message() {
    let item = Item::try_from(message()).unwrap();
    assert_eq!(item.id, "m1");
    assert_eq!(item.data, b"{}".to_vec());
    assert_eq!(item.metadata.len(), 1);
    assert_eq!(get(&item.metadata, "receipt_handle"), Some("r1"));
}

#[test]
fn item_from_message_without_body_has_no_data() {
    let item = Item::try_from(Message { body: None, ..message() }).unwrap();
    assert!(item.data.is_empty());
}

#[test]
fn item_data_is_the_body_in_utf8() {
    let item = Item::try_from(Message { body: some("héllo"), ..message() }).unwrap();
    assert_eq!(item.data, vec![0x68, 0xc3, 0xa9, 0x6c, 0x6c, 0x6f]);
}

#[test]
fn item_from_message_without_id_is_refused() {
    let made = Item::try_from(Message { message_id: None, ..message() });
    assert!(matches!(made, Err(Error::MissingMessageId)));
    let made = Item::try_from(Message { message_id: None, receipt_handle: None, ..message() });
    assert!(matches!(made, Err(Error::MissingMessageId)));
}

#[test]
fn item_from_message_without_receipt_handle_is_refused() {
    let made = Item::try_from(Message { receipt_handle: None, ..message() });
    assert!(matches!(made, Err(Error::MissingReceiptHandle)));
}

#[test]
fn item_metadata_takes_string_attributes_only() {
    let made = Item::try_from(Message {
        message_attributes: vec![
            user("trace_id", Some("t-7")),
            user("blob", None),
            user("tenant", Some("acme")),
        ],
        ..message()
    });
    let item = made.unwrap();
    assert_eq!(item.metadata.len(), 3);
    assert_eq!(get(&item.metadata, "trace_id"), Some("t-7"));
    assert_eq!(get(&item.metadata, "tenant"), Some("acme"));
    assert_eq!(get(&item.metadata, "blob"), None);
    assert_eq!(get(&item.metadata, "receipt_handle"), Some("r1"));
}

#[test]
fn item_metadata_takes_all_system_attributes() {
    let made = Item::try_from(Message {
        attributes: vec![
            system("ApproximateReceiveCount", "2"),
            system("SentTimestamp", "1700000000000"),
        ],
        ..message()
    });
    let item = made.unwrap();
    assert_eq!(item.metadata.len(), 3);
    assert_eq!(get(&item.metadata, "ApproximateReceiveCount"), Some("2"));
    assert_eq!(get(&item.metadata, "SentTimestamp"), Some("1700000000000"));
}

#[test]
fn later_layers_of_metadata_replace_earlier_ones() {
    let made = Item::try_from(Message {
        message_attributes: vec![user("receipt_handle", Some("forged")), user("SenderId", Some("u"))],
        attributes: vec![system("SenderId", "s")],
        ..message()
    });
    let item = made.unwrap();
    assert_eq!(item.metadata.len(), 2);
    assert_eq!(get(&item.metadata, "receipt_handle"), Some("forged"));
    assert_eq!(get(&item.metadata, "SenderId"), Some("s"));
}

#[test]
fn receive_request_asks_for_one_message_with_all_attributes() {
    let queue = Queue::new("https://sqs.example/q".to_string(), 30);
    let request = queue.receive_request(20);
    assert_eq!(request.queue_url, "https://sqs.example/q");
    assert_eq!(request.max_number_of_messages, 1);
    assert_eq!(request.wait_time_seconds, 20);
    assert_eq!(request.visibility_timeout, 30);
    assert_eq!(request.message_attribute_names, "All");
    assert_eq!(request.message_system_attribute_names, "All");
}

#[test]
fn receive_request_wait_is_cut_to_32_bits() {
    let queue = Queue::new("q".to_string(), 0);
    assert_eq!(queue.receive_request(0).wait_time_seconds, 0);
    assert_eq!(queue.receive_request(i32::MAX as u64).wait_time_seconds, i32::MAX);
    assert_eq!(queue.receive_request((1u64 << 32) + 5).wait_time_seconds, 5);
    assert_eq!(queue.receive_request(u32::MAX as u64).wait_time_seconds, -1);
}

#[test]
fn received_nothing() {
    assert!(matches!(Queue::received(Vec::new()), Ok(None)));
}

#[test]
fn received_takes_the_first_message() {
    let second = Message { message_id: some("m2"), ..message() };
    let outcome = Queue::received(vec![message(), second]);
    match outcome {
        Ok(Some(item)) => assert_eq!(item.id, "m1"),
        other => panic!("unexpected: {:?}", other),
    }
}

#[test]
fn received_a_message_that_is_refused() {
    let outcome = Queue::received(vec![Message { message_id: None, ..message() }]);
    assert!(matches!(outcome, Err(Error::MissingMessageId)));
    let outcome = Queue::received(vec![Message { receipt_handle: None, ..message() }]);
    assert!(matches!(outcome, Err(Error::MissingReceiptHandle)));
}

#[test]
fn acknowledge_request_carries_the_receipt_handle() {
    let queue = Queue::new("https://sqs.example/q".to_string(), 30);
    let item = Item::try_from(message()).unwrap();
    let request = queue.acknowledge_request(&item).unwrap();
    assert_eq!(request.queue_url, "https://sqs.example/q");
    assert_eq!(request.receipt_handle, "r1");
}

#[test]
fn acknowledge_request_without_receipt_handle_is_refused() {
    let queue = Queue::new("q".to_string(), 30);
    let mut metadata: StringMap = Dictionary::new();
    metadata.insert("trace_id".to_string(), "t".to_string());
    let item = Item { id: "m1".to_string(), data: Vec::new(), metadata };
    assert!(matches!(queue.acknowledge_request(&item), Err(Error::MissingReceiptHandle)));
}

#[test]
fn queue_error_messages() {
    assert_eq!(
        Error::SqsReceiveMessageError("throttled".to_string()).message(),
        "SQS ReceiveMessage API call failed"
    );
    assert_eq!(
        Error::SqsDeleteMessageError("gone".to_string()).message(),
        "SQS DeleteMessage API call failed"
    );
    assert_eq!(
        Error::MissingMessageId.message(),
        "invalid message model received: missing MessageId"
    );
    assert_eq!(
        Error::MissingReceiptHandle.message(),
        "invalid message model received: missing ReceiptHandle"
    );
}

#[test]
fn queue_error_descriptions_name_the_cause() {
    assert_eq!(
        Error::SqsReceiveMessageError("throttled".to_string()).describe(),
        "SQS ReceiveMessage API call failed: throttled"
    );
    assert_eq!(
        Error::SqsDeleteMessageError("gone".to_string()).describe(),
        "SQS DeleteMessage API call failed: gone"
    );
    assert_eq!(
        Error::MissingReceiptHandle.describe(),
        "invalid message model received: missing ReceiptHandle"
    );
}
