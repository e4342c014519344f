use vstd::prelude::*;

use slice_deque::SliceDeque;

verus! {

#[verifier::external_type_specification]
#[verifier::external_body]
#[verifier::reject_recursive_types(T)]
pub struct ExSliceDeque<T>(SliceDeque<T>);

/// The samples a real-valued deque holds, oldest first.
pub uninterp spec fn real_samples(q: SliceDeque<i32>) -> Seq<i32>;

/// The samples a complex-valued deque holds, oldest first, as (re, im).
pub uninterp spec fn complex_samples(q: SliceDeque<(i32, i32)>) -> Seq<(i32, i32)>;

/// Relies on slice_deque::SliceDeque::new: a freshly created deque is empty.
#[verifier::external_body]
fn sdq_new_real() -> (q: SliceDeque<i32>)
    ensures
        real_samples(q) == Seq::<i32>::empty(),
{
    SliceDeque::new()
}

/// Relies on slice_deque::SliceDeque::len: the number of elements held.
#[verifier::external_body]
fn sdq_len_real(q: &SliceDeque<i32>) -> (n: usize)
    ensures
        n == real_samples(*q).len(),
{
    q.len()
}

/// Relies on slice_deque::SliceDeque::push_back: appends one element at the
/// back, keeping the rest.
#[verifier::external_body]
fn sdq_push_back_real(q: &mut SliceDeque<i32>, v: i32)
    ensures
        real_samples(*final(q)) == real_samples(*old(q)).push(v),
{
    q.push_back(v)
}

/// Relies on slice_deque::SliceDeque::pop_front: removes and returns the
/// front (oldest) element, or None when empty.
#[verifier::external_body]
fn sdq_pop_front_real(q: &mut SliceDeque<i32>) -> (r: Option<i32>)
    ensures
        match r {
            Some(v) => real_samples(*old(q)).len() > 0 && v == real_samples(*old(q))[0]
                && real_samples(*final(q)) == real_samples(*old(q)).drop_first(),
            None => real_samples(*old(q)).len() == 0 && real_samples(*final(q)) == real_samples(
                *old(q),
            ),
        },
{
    q.pop_front()
}

/// Relies on slice_deque::SliceDeque::as_slice (through the deque's deref to
/// a slice): the elements in order, front to back.
#[verifier::external_body]
fn sdq_contents_real(q: &SliceDeque<i32>) -> (v: Vec<i32>)
    ensures
        v@ == real_samples(*q),
{
    q.as_slice().to_vec()
}

/// Relies on slice_deque::SliceDeque::new: a freshly created deque is empty.
#[verifier::external_body]
fn sdq_new_complex() -> (q: SliceDeque<(i32, i32)>)
    ensures
        complex_samples(q) == Seq::<(i32, i32)>::empty(),
{
    SliceDeque::new()
}

/// Relies on slice_deque::SliceDeque::len: the number of elements held.
#[verifier::external_body]
fn sdq_len_complex(q: &SliceDeque<(i32, i32)>) -> (n: usize)
    ensures
        n == complex_samples(*q).len(),
{
    q.len()
}

/// Relies on slice_deque::SliceDeque::push_back: appends one element at the
/// back, keeping the rest.
#[verifier::external_body]
fn sdq_push_back_complex(q: &mut SliceDeque<(i32, i32)>, v: (i32, i32))
    ensures
        complex_samples(*final(q)) == complex_samples(*old(q)).push(v),
{
    q.push_back(v)
}

/// Relies on slice_deque::SliceDeque::pop_front: removes and returns the
/// front (oldest) element, or None when empty.
#[verifier::external_body]
fn sdq_pop_front_complex(q: &mut SliceDeque<(i32, i32)>) -> (r: Option<(i32, i32)>)
    ensures
        match r {
            Some(v) => complex_samples(*old(q)).len() > 0 && v == complex_samples(*old(q))[0]
                && complex_samples(*final(q)) == complex_samples(*old(q)).drop_first(),
            None => complex_samples(*old(q)).len() == 0 && complex_samples(*final(q))
                == complex_samples(*old(q)),
        },
{
    q.pop_front()
}

/// Relies on slice_deque::SliceDeque::as_slice (through the deque's deref to
/// a slice): the elements in order, front to back.
#[verifier::external_body]
fn sdq_contents_complex(q: &SliceDeque<(i32, i32)>) -> (v: Vec<(i32, i32)>)
    ensures
        v@ == complex_samples(*q),
{
    q.as_slice().to_vec()
}

/// The window a bounded queue settles on: the whole history while it fits,
/// afterwards the most recent `cap` values.
pub open spec fn last_window<T>(cap: nat, s: Seq<T>) -> Seq<T> {
    if s.len() <= cap {
        s
    } else {
        s.skip(s.len() - cap)
    }
}

/// The window holds `min(cap, total)` values.
pub proof fn lemma_last_window_len<T>(cap: nat, s: Seq<T>)
    ensures
        last_window(cap, s).len() == if s.len() <= cap {
            s.len()
        } else {
            cap
        },
{
}

/// Law: pushing batch after batch from an empty queue always leaves the most
/// recent window of the whole history. One step: a queue that holds the
/// window of `history` holds, after appending `batch` and evicting overflow
/// from the front, the window of `history + batch`.
pub proof fn lemma_stream_window<T>(cap: nat, history: Seq<T>, batch: Seq<T>)
    ensures
        last_window(cap, last_window(cap, history) + batch) == last_window(cap, history + batch),
{
    let h = history.len();
    let b = batch.len();
    if h <= cap {
        assert(last_window(cap, history) + batch =~= history + batch);
    } else {
        let w = history.skip(h - cap);
        assert(last_window(cap, history) == w);
        assert(last_window(cap, w + batch) =~= last_window(cap, history + batch));
    }
}

/// The queue contents after a whole history of batches is pushed in order,
/// starting from empty: each step appends a batch and keeps the window.
pub open spec fn stream_fold(cap: nat, batches: Seq<Seq<i32>>) -> Seq<i32>
    decreases batches.len(),
{
    if batches.len() == 0 {
        Seq::empty()
    } else {
        last_window(cap, stream_fold(cap, batches.drop_last()) + batches.last())
    }
}

/// Law: for every capacity and every sequence of batches pushed in order,
/// the queue ends up holding exactly the most recent `min(cap, total)` of
/// all values ever pushed, in arrival order.
pub proof fn lemma_stream_fold(cap: nat, batches: Seq<Seq<i32>>)
    ensures
        stream_fold(cap, batches) == last_window(cap, batches.flatten()),
        stream_fold(cap, batches).len() == if batches.flatten().len() <= cap {
            batches.flatten().len()
        } else {
            cap
        },
    decreases batches.len(),
{
    batches.lemma_flatten_and_flatten_alt_are_equivalent();
    if batches.len() == 0 {
        assert(batches.flatten() =~= Seq::<i32>::empty());
    } else {
        lemma_stream_fold(cap, batches.drop_last());
        batches.drop_last().lemma_flatten_and_flatten_alt_are_equivalent();
        lemma_stream_window(cap, batches.drop_last().flatten(), batches.last());
    }
    lemma_last_window_len(cap, batches.flatten());
}

/// A bounded queue of real samples: new values append at the back and the
/// oldest are evicted once the capacity is exceeded.
pub struct SampleQueue {
    buf: SliceDeque<i32>,
    capacity: usize,
}

impl View for SampleQueue {
    type V = Seq<i32>;

    /// The samples held, oldest first.
    closed spec fn view(&self) -> Seq<i32> {
        real_samples(self.buf)
    }
}

impl SampleQueue {
    /// The fixed number of samples the queue retains.
    pub closed spec fn spec_capacity(&self) -> nat {
        self.capacity as nat
    }

    /// A queue never holds more than its capacity.
    pub open spec fn wf(&self) -> bool {
        self@.len() <= self.spec_capacity()
    }

    /// An empty queue with the given fixed capacity. Capacity 0 is legal and
    /// means no streaming buffering at all.
    pub fn new(capacity: usize) -> (q: SampleQueue)
        ensures
            q@ == Seq::<i32>::empty(),
            q.spec_capacity() == capacity as nat,
            q.wf(),
    {
        SampleQueue { buf: sdq_new_real(), capacity }
    }

    /// How many samples are held right now.
    pub fn len(&self) -> (n: usize)
        ensures
            n == self@.len(),
    {
        sdq_len_real(&self.buf)
    }

    /// The configured capacity.
    pub fn capacity(&self) -> (c: usize)
        ensures
            c as nat == self.spec_capacity(),
    {
        self.capacity
    }

    /// The samples in arrival order, oldest first.
    pub fn iter(&self) -> (v: Vec<i32>)
        ensures
            v@ == self@,
    {
        sdq_contents_real(&self.buf)
    }

    /// Appends the whole batch in order, then evicts from the front, one at
    /// a time, until the queue fits its capacity again.
    pub fn push_batch(&mut self, values: &[i32])
        requires
            old(self).wf(),
        ensures
            final(self)@ == last_window(old(self).spec_capacity(), old(self)@ + values@),
            final(self).spec_capacity() == old(self).spec_capacity(),
            final(self).wf(),
    {
        let ghost orig: Seq<i32> = self@;
        let ghost full: Seq<i32> = orig + values@;
        let n: usize = values.len();
        let mut j: usize = 0;
        proof {
            assert(orig + values@.take(0) =~= orig);
        }
        while j < n
            invariant
                0 <= j <= n,
                n == values@.len(),
                self@ == orig + values@.take(j as int),
                self.capacity == old(self).capacity,
            decreases n - j,
        {
            sdq_push_back_real(&mut self.buf, values[j]);
            proof {
                assert(orig + values@.take(j as int + 1) =~= (orig + values@.take(j as int)).push(
                    values@[j as int],
                ));
            }
            j = j + 1;
        }
        proof {
            assert(values@.take(n as int) =~= values@);
        }
        let ghost mut dropped: int = 0;
        proof {
            assert(full.skip(0) =~= full);
        }
        while sdq_len_real(&self.buf) > self.capacity
            invariant
                0 <= dropped <= full.len(),
                self@ == full.skip(dropped),
                self.capacity == old(self).capacity,
                dropped > 0 ==> full.len() - dropped >= self.capacity,
            decreases full.len() - dropped,
        {
            let _popped = sdq_pop_front_real(&mut self.buf);
            proof {
                assert(full.skip(dropped).drop_first() =~= full.skip(dropped + 1));
                dropped = dropped + 1;
            }
        }
        proof {
            if dropped > 0 {
                assert(self@.len() == full.len() - dropped);
                assert(self@ =~= last_window(old(self).spec_capacity(), full));
            } else {
                assert(self@ =~= last_window(old(self).spec_capacity(), full));
            }
        }
    }
}

/// A bounded queue of complex samples, each held as (re, im); the streaming
/// twin of [`SampleQueue`] for complex-valued plots.
pub struct ComplexSampleQueue {
    buf: SliceDeque<(i32, i32)>,
    capacity: usize,
}

impl View for ComplexSampleQueue {
    type V = Seq<(i32, i32)>;

    /// The samples held, oldest first.
    closed spec fn view(&self) -> Seq<(i32, i32)> {
        complex_samples(self.buf)
    }
}

impl ComplexSampleQueue {
    /// The fixed number of samples the queue retains.
    pub closed spec fn spec_capacity(&self) -> nat {
        self.capacity as nat
    }

    /// A queue never holds more than its capacity.
    pub open spec fn wf(&self) -> bool {
        self@.len() <= self.spec_capacity()
    }

    /// An empty queue with the given fixed capacity.
    pub fn new(capacity: usize) -> (q: ComplexSampleQueue)
        ensures
            q@ == Seq::<(i32, i32)>::empty(),
            q.spec_capacity() == capacity as nat,
            q.wf(),
    {
        ComplexSampleQueue { buf: sdq_new_complex(), capacity }
    }

    /// How many samples are held right now.
    pub fn len(&self) -> (n: usize)
        ensures
            n == self@.len(),
    {
        sdq_len_complex(&self.buf)
    }

    /// The configured capacity.
    pub fn capacity(&self) -> (c: usize)
        ensures
            c as nat == self.spec_capacity(),
    {
        self.capacity
    }

    /// The samples in arrival order, oldest first.
    pub fn iter(&self) -> (v: Vec<(i32, i32)>)
        ensures
            v@ == self@,
    {
        sdq_contents_complex(&self.buf)
    }

    /// Appends the whole batch in order, then evicts from the front, one at
    /// a time, until the queue fits its capacity again.
    pub fn push_batch(&mut self, values: &[(i32, i32)])
        requires
            old(self).wf(),
        ensures
            final(self)@ == last_window(old(self).spec_capacity(), old(self)@ + values@),
            final(self).spec_capacity() == old(self).spec_capacity(),
            final(self).wf(),
    {
        let ghost orig: Seq<(i32, i32)> = self@;
        let ghost full: Seq<(i32, i32)> = orig + values@;
        let n: usize = values.len();
        let mut j: usize = 0;
        proof {
            assert(orig + values@.take(0) =~= orig);
        }
        while j < n
            invariant
                0 <= j <= n,
                n == values@.len(),
                self@ == orig + values@.take(j as int),
                self.capacity == old(self).capacity,
            decreases n - j,
        {
            sdq_push_back_complex(&mut self.buf, values[j]);
            proof {
                assert(orig + values@.take(j as int + 1) =~= (orig + values@.take(j as int)).push(
                    values@[j as int],
                ));
            }
            j = j + 1;
        }
        proof {
            assert(values@.take(n as int) =~= values@);
        }
        let ghost mut dropped: int = 0;
        proof {
            assert(full.skip(0) =~= full);
        }
        while sdq_len_complex(&self.buf) > self.capacity
            invariant
                0 <= dropped <= full.len(),
                self@ == full.skip(dropped),
                self.capacity == old(self).capacity,
                dropped > 0 ==> full.len() - dropped >= self.capacity,
            decreases full.len() - dropped,
        {
            let _popped = sdq_pop_front_complex(&mut self.buf);
            proof {
                assert(full.skip(dropped).drop_first() =~= full.skip(dropped + 1));
                dropped = dropped + 1;
            }
        }
        proof {
            if dropped > 0 {
                assert(self@.len() == full.len() - dropped);
                assert(self@ =~= last_window(old(self).spec_capacity(), full));
            } else {
                assert(self@ =~= last_window(old(self).spec_capacity(), full));
            }
        }
    }
}

} // verus!
