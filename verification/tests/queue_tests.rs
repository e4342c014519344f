use rtplot::{ComplexSampleQueue, SampleQueue};

#[test]
fn new_queue_is_empty() {
    let q = SampleQueue::new(4);
    assert_eq!(q.len(), 0);
    assert_eq!(q.capacity(), 4);
    assert_eq!(q.iter(), Vec::<i32>::new());
}

#[test]
fn push_within_capacity_keeps_all() {
    let mut q = SampleQueue::new(5);
    q.push_batch(&[1, 2, 3]);
    assert_eq!(q.len(), 3);
    assert_eq!(q.iter(), vec![1, 2, 3]);
}

#[test]
fn push_batch_evicts_oldest() {
    let mut q = SampleQueue::new(3);
    q.push_batch(&[1, 2, 3, 4, 5]);
    assert_eq!(q.iter(), vec![3, 4, 5]);
}

#[test]
fn batches_in_sequence_keep_recent_window() {
    let mut q = SampleQueue::new(4);
    let batches: [&[i32]; 3] = [&[1, 2], &[3], &[4, 5, 6]];
    let mut total: usize = 0;
    for b in batches {
        q.push_batch(b);
        total += b.len();
        assert_eq!(q.len(), total.min(4));
    }
    assert_eq!(q.iter(), vec![3, 4, 5, 6]);
}

#[test]
fn batch_larger_than_capacity_keeps_tail() {
    let mut q = SampleQueue::new(2);
    q.push_batch(&[7, 8]);
    q.push_batch(&[1, 2, 3, 4, 5, 6]);
    assert_eq!(q.iter(), vec![5, 6]);
}

#[test]
fn zero_capacity_queue_stays_empty() {
    let mut q = SampleQueue::new(0);
    q.push_batch(&[1, 2, 3]);
    assert_eq!(q.len(), 0);
    assert_eq!(q.iter(), Vec::<i32>::new());
}

#[test]
fn complex_queue_evicts_oldest() {
    let mut q = ComplexSampleQueue::new(2);
    q.push_batch(&[(1, 10), (2, 20), (3, 30)]);
    assert_eq!(q.len(), 2);
    assert_eq!(q.iter(), vec![(2, 20), (3, 30)]);
}

#[test]
fn complex_queue_orders_batches() {
    let mut q = ComplexSampleQueue::new(4);
    q.push_batch(&[(1, -1)]);
    q.push_batch(&[(2, -2), (3, -3)]);
    assert_eq!(q.iter(), vec![(1, -1), (2, -2), (3, -3)]);
    assert_eq!(q.capacity(), 4);
}
