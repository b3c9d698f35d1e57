use response_getter::data::{Data, NameType};
use response_getter::errors::CoreError;
use response_getter::message_queue::MessageQueue;

fn name_with_last(byte: u8) -> NameType {
    let mut id = [0u8; 64];
    id[63] = byte;
    NameType::new(id)
}

fn bytes(text: &str) -> Data {
    Data::new(text.as_bytes().to_vec())
}

#[test]
fn new_queue_holds_nothing() {
    let queue = MessageQueue::new();
    assert_eq!(queue.get_response(&name_with_last(0)), Err(CoreError::NotFound));
    assert_eq!(queue.local_cache_get(&name_with_last(0)), Err(CoreError::NotFound));
}

#[test]
fn regions_are_separate() {
    let name = name_with_last(1);
    let mut queue = MessageQueue::new();
    queue.insert_response(name, bytes("delivered"));
    assert_eq!(queue.get_response(&name), Ok(bytes("delivered")));
    assert_eq!(queue.local_cache_get(&name), Err(CoreError::NotFound));

    queue.local_cache_insert(name, bytes("cached"));
    assert_eq!(queue.get_response(&name), Ok(bytes("delivered")));
    assert_eq!(queue.local_cache_get(&name), Ok(bytes("cached")));
}

#[test]
fn cache_insert_twice_is_cache_insert_once() {
    let name = name_with_last(2);
    let other = name_with_last(3);
    let mut once = MessageQueue::new();
    once.local_cache_insert(other, bytes("other"));
    once.local_cache_insert(name, bytes("same"));
    let mut twice = MessageQueue::new();
    twice.local_cache_insert(other, bytes("other"));
    twice.local_cache_insert(name, bytes("same"));
    twice.local_cache_insert(name, bytes("same"));

    for asked in [name, other, name_with_last(4)] {
        assert_eq!(twice.local_cache_get(&asked), once.local_cache_get(&asked));
    }
    assert_eq!(twice.local_cache_get(&name), Ok(bytes("same")));
    assert_eq!(twice.local_cache_get(&other), Ok(bytes("other")));
}

#[test]
fn later_insert_replaces_the_earlier_one() {
    let name = name_with_last(5);
    let mut queue = MessageQueue::new();
    queue.local_cache_insert(name, bytes("first"));
    queue.local_cache_insert(name_with_last(6), bytes("bystander"));
    queue.local_cache_insert(name, bytes("second"));
    assert_eq!(queue.local_cache_get(&name), Ok(bytes("second")));
    assert_eq!(queue.local_cache_get(&name_with_last(6)), Ok(bytes("bystander")));

    queue.insert_response(name, bytes("one"));
    queue.insert_response(name, bytes("two"));
    assert_eq!(queue.get_response(&name), Ok(bytes("two")));
}

#[test]
fn lookup_does_not_consume_the_entry() {
    let name = name_with_last(7);
    let mut queue = MessageQueue::new();
    queue.insert_response(name, bytes("still here"));
    assert_eq!(queue.get_response(&name), Ok(bytes("still here")));
    assert_eq!(queue.get_response(&name), Ok(bytes("still here")));
}

#[test]
fn names_differing_in_one_byte_are_different_keys() {
    let mut first = [7u8; 64];
    let mut last = [7u8; 64];
    first[0] = 8;
    last[63] = 8;
    let mut queue = MessageQueue::new();
    queue.local_cache_insert(NameType::new([7u8; 64]), bytes("plain"));
    queue.local_cache_insert(NameType::new(first), bytes("first"));
    queue.local_cache_insert(NameType::new(last), bytes("last"));
    assert_eq!(queue.local_cache_get(&NameType::new([7u8; 64])), Ok(bytes("plain")));
    assert_eq!(queue.local_cache_get(&NameType::new(first)), Ok(bytes("first")));
    assert_eq!(queue.local_cache_get(&NameType::new(last)), Ok(bytes("last")));
}

#[test]
fn empty_payload_is_a_payload() {
    let name = name_with_last(9);
    let mut queue = MessageQueue::new();
    queue.insert_response(name, Data::new(Vec::new()));
    assert_eq!(queue.get_response(&name), Ok(Data::new(vec![])));
}
