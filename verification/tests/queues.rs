use message_queue::queue::error::QueueError;
use message_queue::queue::queues::{CircularBuffer, IsQueue, Queue};
use message_queue::types::message::{Header, Message, MessageType};

fn new_message(id: i32) -> Message {
    let h: Header = Header::new_current_time(MessageType::Consume);
    Message::new(h, &format!("{}", id), "topic")
}

#[test]
fn test_queue() {
    let mut q: Queue<Message> = Queue::new();

    q.add(new_message(1)).unwrap();
    q.add(new_message(2)).unwrap();

    let msg = q.remove().unwrap();
    assert_eq!(msg.get_data(), "1");

    let msg = q.remove().unwrap();
    assert_eq!(msg.get_data(), "2");
}

#[test]
fn test_circular_queue() {
    let mut q: CircularBuffer<Message> = CircularBuffer::new(10);

    q.add(new_message(1)).unwrap();
    q.add(new_message(2)).unwrap();

    let msg = q.remove().unwrap();
    assert_eq!(msg.get_data(), "1");

    let msg = q.remove().unwrap();
    assert_eq!(msg.get_data(), "2");
}

#[test]
fn queue_hands_out_in_order_then_reports_empty() {
    let mut q: Queue<i32> = Queue::new();
    assert_eq!(q.add(1), Ok(None));
    assert_eq!(q.add(2), Ok(None));
    assert_eq!(q.remove(), Ok(1));
    assert_eq!(q.remove(), Ok(2));
    assert_eq!(q.remove(), Err(QueueError::Empty));
}

#[test]
fn new_queue_is_empty() {
    let mut q: Queue<u8> = Queue::new();
    assert_eq!(q.size(), 0);
    assert_eq!(q.peek(), Err(QueueError::Empty));
    assert_eq!(q.remove(), Err(QueueError::Empty));
    assert_eq!(q.size(), 0);
}

#[test]
fn default_queue_is_empty() {
    let mut q: Queue<u8> = Queue::default();
    assert_eq!(q.size(), 0);
    assert_eq!(q.remove(), Err(QueueError::Empty));
}

#[test]
fn queue_is_first_in_first_out() {
    let mut q: Queue<u32> = Queue::new();
    for i in 0..100u32 {
        assert_eq!(q.add(i * 7), Ok(None));
    }
    for i in 0..100u32 {
        assert_eq!(q.remove(), Ok(i * 7));
    }
    assert_eq!(q.remove(), Err(QueueError::Empty));
}

#[test]
fn queue_size_is_adds_less_removals() {
    let mut q: Queue<usize> = Queue::new();
    for i in 0..10 {
        q.add(i).unwrap();
        assert_eq!(q.size(), i + 1);
    }
    for i in 0..4 {
        q.remove().unwrap();
        assert_eq!(q.size(), 10 - (i + 1));
    }
    assert_eq!(q.size(), 6);
}

#[test]
fn queue_keeps_order_when_adds_and_removals_mix() {
    let mut q: Queue<i32> = Queue::new();
    let mut out: Vec<i32> = Vec::new();
    assert_eq!(q.remove(), Err(QueueError::Empty));
    q.add(1).unwrap();
    q.add(2).unwrap();
    out.push(q.remove().unwrap());
    q.add(3).unwrap();
    out.push(q.remove().unwrap());
    out.push(q.remove().unwrap());
    assert_eq!(q.remove(), Err(QueueError::Empty));
    q.add(4).unwrap();
    q.add(5).unwrap();
    out.push(q.remove().unwrap());
    assert_eq!(out, vec![1, 2, 3, 4]);
    assert_eq!(q.size(), 5 - 4);
    assert_eq!(q.peek(), Ok(5));
}

#[test]
fn failed_removal_leaves_queue_usable() {
    let mut q: Queue<char> = Queue::new();
    assert_eq!(q.remove(), Err(QueueError::Empty));
    assert_eq!(q.add('a'), Ok(None));
    assert_eq!(q.size(), 1);
    assert_eq!(q.remove(), Ok('a'));
}

#[test]
fn queue_from_elements_removes_first_listed_first() {
    let mut q: Queue<&str> = Queue::from_elements(vec!["a", "b", "c"]);
    assert_eq!(q.size(), 3);
    assert_eq!(q.peek(), Ok("a"));
    assert_eq!(q.add("d"), Ok(None));
    assert_eq!(q.remove(), Ok("a"));
    assert_eq!(q.remove(), Ok("b"));
    assert_eq!(q.remove(), Ok("c"));
    assert_eq!(q.remove(), Ok("d"));
    assert_eq!(q.remove(), Err(QueueError::Empty));
}

#[test]
fn queue_from_no_elements_is_empty() {
    let mut q: Queue<i64> = Queue::from_elements(Vec::new());
    assert_eq!(q.size(), 0);
    assert_eq!(q.remove(), Err(QueueError::Empty));
}

#[test]
fn queue_peek_leaves_size_and_matches_removal() {
    let mut q: Queue<String> = Queue::new();
    q.add(String::from("first")).unwrap();
    q.add(String::from("second")).unwrap();
    let before = q.size();
    let peeked = q.peek().unwrap();
    assert_eq!(q.size(), before);
    assert_eq!(q.peek().unwrap(), peeked);
    assert_eq!(q.remove().unwrap(), peeked);
    assert_eq!(q.peek(), Ok(String::from("second")));
}

#[test]
fn peeked_value_is_a_copy_of_its_own() {
    let mut q: Queue<Vec<u8>> = Queue::new();
    q.add(vec![1, 2, 3]).unwrap();
    let mut peeked = q.peek().unwrap();
    peeked.push(4);
    assert_eq!(q.remove(), Ok(vec![1, 2, 3]));
}

#[test]
fn plain_buffer_overwrites_oldest() {
    let mut b: CircularBuffer<i32> = CircularBuffer::new(2);
    assert_eq!(b.add(1), Ok(None));
    assert_eq!(b.add(2), Ok(None));
    assert_eq!(b.add(3), Ok(Some(1)));
    assert_eq!(b.peek(), Ok(2));
    assert_eq!(b.size(), 2);
}

#[test]
fn new_buffer_is_empty() {
    let mut b: CircularBuffer<u16> = CircularBuffer::new(4);
    assert_eq!(b.capacity(), 4);
    assert_eq!(b.size(), 0);
    assert_eq!(b.peek(), Err(QueueError::Empty));
    assert_eq!(b.remove(), Err(QueueError::Empty));
    assert_eq!(b.size(), 0);
}

#[test]
fn plain_buffer_fills_then_evicts_in_order() {
    let capacity = 5usize;
    let mut b: CircularBuffer<usize> = CircularBuffer::new(capacity);
    for i in 0..capacity {
        assert_eq!(b.add(100 + i), Ok(None));
        assert_eq!(b.size(), i + 1);
    }
    assert_eq!(b.size(), capacity);
    assert_eq!(b.add(200), Ok(Some(100)));
    assert_eq!(b.size(), capacity);
    for i in 1..capacity {
        assert_eq!(b.add(200 + i), Ok(Some(100 + i)));
        assert_eq!(b.size(), capacity);
    }
    assert_eq!(b.add(300), Ok(Some(200)));
    assert_eq!(b.capacity(), capacity);
}

#[test]
fn plain_buffer_shrinks_on_removal() {
    let mut b: CircularBuffer<u8> = CircularBuffer::new(3);
    b.add(1).unwrap();
    b.add(2).unwrap();
    b.add(3).unwrap();
    assert_eq!(b.remove(), Ok(1));
    assert_eq!(b.size(), 2);
    assert_eq!(b.add(4), Ok(None));
    assert_eq!(b.size(), 3);
    assert_eq!(b.add(5), Ok(Some(2)));
    assert_eq!(b.remove(), Ok(3));
    assert_eq!(b.remove(), Ok(4));
    assert_eq!(b.remove(), Ok(5));
    assert_eq!(b.remove(), Err(QueueError::Empty));
    assert_eq!(b.size(), 0);
    assert_eq!(b.capacity(), 3);
}

#[test]
fn buffer_of_capacity_one_keeps_the_newest() {
    let mut b: CircularBuffer<char> = CircularBuffer::new(1);
    assert_eq!(b.add('a'), Ok(None));
    assert_eq!(b.add('b'), Ok(Some('a')));
    assert_eq!(b.add('c'), Ok(Some('b')));
    assert_eq!(b.size(), 1);
    assert_eq!(b.remove(), Ok('c'));
    assert_eq!(b.remove(), Err(QueueError::Empty));
}

#[test]
fn buffer_of_capacity_zero_hands_every_element_back() {
    let mut b: CircularBuffer<i32> = CircularBuffer::new(0);
    assert_eq!(b.size(), 0);
    assert_eq!(b.add(7), Ok(Some(7)));
    assert_eq!(b.size(), 0);
    assert_eq!(b.peek(), Err(QueueError::Empty));
    assert_eq!(b.remove(), Err(QueueError::Empty));
}

#[test]
fn buffer_with_default_starts_full_and_stays_full() {
    let mut b: CircularBuffer<i32> = CircularBuffer::with_default(3, 0);
    assert_eq!(b.size(), 3);
    assert_eq!(b.capacity(), 3);
    assert_eq!(b.remove(), Ok(0));
    assert_eq!(b.size(), 3);
    assert_eq!(b.remove(), Ok(0));
    assert_eq!(b.remove(), Ok(0));
    assert_eq!(b.remove(), Ok(0));
    assert_eq!(b.size(), 3);
}

#[test]
fn buffer_with_default_holds_only_the_default() {
    let capacity = 4usize;
    let mut b: CircularBuffer<String> = CircularBuffer::with_default(capacity, String::from("idle"));
    assert_eq!(b.size(), capacity);
    for _ in 0..3 * capacity {
        assert_eq!(b.peek(), Ok(String::from("idle")));
        assert_eq!(b.remove(), Ok(String::from("idle")));
        assert_eq!(b.size(), capacity);
    }
}

#[test]
fn buffer_with_default_refills_before_the_head_leaves() {
    let mut b: CircularBuffer<i32> = CircularBuffer::with_default(2, 0);
    assert_eq!(b.add(1), Ok(Some(0)));
    assert_eq!(b.add(2), Ok(Some(0)));
    assert_eq!(b.size(), 2);
    assert_eq!(b.remove(), Ok(1));
    assert_eq!(b.size(), 2);
    assert_eq!(b.remove(), Ok(2));
    assert_eq!(b.remove(), Ok(0));
    assert_eq!(b.remove(), Ok(0));
    assert_eq!(b.size(), 2);
}

#[test]
fn buffer_with_default_of_capacity_zero_is_empty() {
    let mut b: CircularBuffer<i32> = CircularBuffer::with_default(0, 9);
    assert_eq!(b.size(), 0);
    assert_eq!(b.capacity(), 0);
    assert_eq!(b.remove(), Err(QueueError::Empty));
    assert_eq!(b.peek(), Err(QueueError::Empty));
    assert_eq!(b.add(1), Ok(Some(1)));
    assert_eq!(b.size(), 0);
}

#[test]
fn buffer_peek_leaves_size_and_matches_removal() {
    let mut b: CircularBuffer<u64> = CircularBuffer::new(3);
    b.add(10).unwrap();
    b.add(20).unwrap();
    let before = b.size();
    let peeked = b.peek().unwrap();
    assert_eq!(peeked, 10);
    assert_eq!(b.size(), before);
    assert_eq!(b.remove(), Ok(peeked));
    assert_eq!(b.peek(), Ok(20));
}

fn drain<Q: IsQueue<u32>>(q: &mut Q) -> Vec<u32> {
    let mut out = Vec::new();
    while let Ok(v) = q.remove() {
        out.push(v);
    }
    out
}

#[test]
fn both_containers_serve_through_the_trait() {
    let mut q: Queue<u32> = Queue::new();
    let mut b: CircularBuffer<u32> = CircularBuffer::new(3);
    for i in 1..=5u32 {
        q.add(i).unwrap();
        b.add(i).unwrap();
    }
    assert_eq!(drain(&mut q), vec![1, 2, 3, 4, 5]);
    assert_eq!(drain(&mut b), vec![3, 4, 5]);
}

#[test]
fn empty_error_has_a_message() {
    assert_eq!(QueueError::Empty.message(), "the queue is empty");
    assert_eq!(format!("{:?}", QueueError::Empty), "Empty");
}
