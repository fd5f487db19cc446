use enqueue::producer::VecProducer;
use enqueue::{queue_iter, IteratorExt, Producer, QueueIter};

fn drain<T>(q: &mut QueueIter<VecProducer<T>, T>) -> Vec<T> {
    let mut out: Vec<T> = Vec::new();
    while let Some(item) = q.produce_next() {
        out.push(item);
    }
    out
}

#[test]
fn test() {
    let init: Vec<i32> = (0..10).collect();
    let mut numbers = VecProducer::new(init).queue_iter();
    let mut sum: i32 = 0;

    while let Some(n) = numbers.produce_next() {
        sum += n;
        if n < 5 {
            numbers.enqueue(20);
        }
    }

    // The sum of 0..10 is 45 and we enqueue 5 times 20, i.e. get another 100: 45 + 100.
    assert_eq!(sum, 145);

    numbers.enqueue(42);
    assert_eq!(numbers.produce_next(), Some(42));
}

#[test]
fn single_element_then_enqueue() {
    let i = VecProducer::new(vec![666]);
    let mut i = i.queue_iter();

    i.enqueue(42);
    assert_eq!(i.produce_next(), Some(666));
    assert_eq!(i.produce_next(), Some(42));
    assert_eq!(i.produce_next(), None);
}

#[test]
fn enqueue_after_none_resumes() {
    let i = VecProducer::new(vec![666]);
    let mut i = queue_iter(i);

    i.enqueue(42);
    assert_eq!(i.produce_next(), Some(666));
    assert_eq!(i.produce_next(), Some(42));
    assert_eq!(i.produce_next(), None);

    i.enqueue(42);
    assert_eq!(i.produce_next(), Some(42));
}

#[test]
fn empty_source_is_immediately_unavailable() {
    let mut q = queue_iter(VecProducer::<u32>::empty());
    assert_eq!(q.produce_next(), None);
    assert_eq!(q.produce_next(), None);
}

#[test]
fn no_enqueues_yields_source_then_nothing() {
    let mut q = queue_iter(VecProducer::new(vec![1, 2, 3]));
    assert_eq!(q.produce_next(), Some(1));
    assert_eq!(q.produce_next(), Some(2));
    assert_eq!(q.produce_next(), Some(3));
    assert_eq!(q.produce_next(), None);
    assert_eq!(q.produce_next(), None);
}

#[test]
fn enqueued_item_surfaces_unchanged() {
    let mut q = queue_iter(VecProducer::new(vec![10, 11, 12]));
    q.enqueue(99);
    let mut surfaced = None;
    while let Some(item) = q.produce_next() {
        surfaced = Some(item);
        if item == 99 {
            break;
        }
    }
    assert_eq!(surfaced, Some(99));
    assert_eq!(q.produce_next(), None);
}

#[test]
fn resumption_after_exhaustion() {
    let mut q = queue_iter(VecProducer::new(vec![7, 8]));
    assert_eq!(drain(&mut q), vec![7, 8]);
    assert_eq!(q.produce_next(), None);

    q.enqueue(5);
    assert_eq!(q.produce_next(), Some(5));
    assert_eq!(q.produce_next(), None);
}

#[test]
fn interleaved_enqueues_keep_order() {
    let mut q = queue_iter(VecProducer::new(vec![1, 2, 3]));
    q.enqueue(100);
    assert_eq!(q.produce_next(), Some(1));
    q.enqueue(200);
    assert_eq!(q.produce_next(), Some(2));
    assert_eq!(q.produce_next(), Some(3));
    q.enqueue(300);
    assert_eq!(drain(&mut q), vec![100, 200, 300]);
    assert_eq!(q.produce_next(), None);
}

#[test]
fn string_elements() {
    let words = vec![String::from("alpha"), String::from("beta")];
    let mut q = queue_iter(VecProducer::new(words));
    q.enqueue(String::from("gamma"));
    assert_eq!(q.produce_next(), Some(String::from("alpha")));
    assert_eq!(q.produce_next(), Some(String::from("beta")));
    assert_eq!(q.produce_next(), Some(String::from("gamma")));
    assert_eq!(q.produce_next(), None);
}

#[test]
fn vec_producer_yields_in_order() {
    let mut p = VecProducer::new(vec![4, 5]);
    assert_eq!(p.produce_next(), Some(4));
    assert_eq!(p.produce_next(), Some(5));
    assert_eq!(p.produce_next(), None);
    assert_eq!(p.produce_next(), None);
}
