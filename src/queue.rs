//! A bounded FIFO queue with a one-way `close`.
//!
//! The queue is owned by one party at a time; a caller that shares it between
//! threads puts it behind its own lock and waits on its own condition
//! variables. The blocking operations therefore require that they would not
//! have to wait.
use std::collections::VecDeque;
use vstd::prelude::*;

verus! {

/// Mathematical state of a queue: its items, front first, its capacity and
/// whether it was closed.
pub ghost struct QueueModel<T> {
    pub items: Seq<T>,
    pub capacity: nat,
    pub closed: bool,
}

pub enum TryPushError<T> {
    Full(T),
    Closed(T),
    Poisoned(T),
}

pub enum TryPopError {
    Empty,
    Closed,
    Poisoned,
}

impl<T> QueueModel<T> {
    pub open spec fn empty(capacity: nat) -> QueueModel<T> {
        QueueModel { items: Seq::empty(), capacity, closed: false }
    }

    pub open spec fn is_full(self) -> bool {
        self.items.len() >= self.capacity
    }

    /// State after a non-blocking push.
    pub open spec fn try_push_next(self, v: T) -> QueueModel<T> {
        if self.closed || self.is_full() {
            self
        } else {
            QueueModel { items: self.items.push(v), ..self }
        }
    }

    /// Outcome of a non-blocking push: a closed queue refuses before a full one.
    pub open spec fn try_push_result(self, v: T) -> Result<(), TryPushError<T>> {
        if self.closed {
            Err(TryPushError::Closed(v))
        } else if self.is_full() {
            Err(TryPushError::Full(v))
        } else {
            Ok(())
        }
    }

    /// State after a non-blocking pop.
    pub open spec fn try_pop_next(self) -> QueueModel<T> {
        if self.items.len() > 0 {
            QueueModel { items: self.items.drop_first(), ..self }
        } else {
            self
        }
    }

    /// Outcome of a non-blocking pop: buffered items come out even after `close`.
    pub open spec fn try_pop_result(self) -> Result<T, TryPopError> {
        if self.items.len() > 0 {
            Ok(self.items[0])
        } else if self.closed {
            Err(TryPopError::Closed)
        } else {
            Err(TryPopError::Empty)
        }
    }

    /// Outcome of a blocking push that did not have to wait.
    pub open spec fn push_result(self, v: T) -> Result<(), T> {
        if self.closed {
            Err(v)
        } else {
            Ok(())
        }
    }

    pub open spec fn close_next(self) -> QueueModel<T> {
        QueueModel { closed: true, ..self }
    }

    /// The state reached by pushing each of `xs` in turn without blocking.
    pub open spec fn push_each(self, xs: Seq<T>) -> QueueModel<T>
        decreases xs.len(),
    {
        if xs.len() == 0 {
            self
        } else {
            self.try_push_next(xs[0]).push_each(xs.drop_first())
        }
    }

    /// Whether every push of `xs`, made in turn, succeeds.
    pub open spec fn push_each_succeeds(self, xs: Seq<T>) -> bool
        decreases xs.len(),
    {
        if xs.len() == 0 {
            true
        } else {
            self.try_push_result(xs[0]) is Ok && self.try_push_next(xs[0]).push_each_succeeds(
                xs.drop_first(),
            )
        }
    }

    /// The state after `k` non-blocking pops.
    pub open spec fn after_pops(self, k: nat) -> QueueModel<T>
        decreases k,
    {
        if k == 0 {
            self
        } else {
            self.try_pop_next().after_pops((k - 1) as nat)
        }
    }

    /// The items that `k` non-blocking pops hand out, in order.
    pub open spec fn pop_k(self, k: nat) -> Seq<T>
        decreases k,
    {
        if k == 0 {
            Seq::empty()
        } else {
            match self.try_pop_result() {
                Ok(v) => seq![v] + self.try_pop_next().pop_k((k - 1) as nat),
                Err(_) => Seq::empty(),
            }
        }
    }
}

proof fn lemma_push_each<T>(q: QueueModel<T>, xs: Seq<T>)
    requires
        !q.closed,
        q.items.len() + xs.len() <= q.capacity,
    ensures
        q.push_each_succeeds(xs),
        q.push_each(xs) == (QueueModel { items: q.items + xs, ..q }),
    decreases xs.len(),
{
    if xs.len() > 0 {
        let q1 = q.try_push_next(xs[0]);
        lemma_push_each(q1, xs.drop_first());
        assert(q.items.push(xs[0]) + xs.drop_first() =~= q.items + xs);
    } else {
        assert(q.items + xs =~= q.items);
    }
}

proof fn lemma_pop_k<T>(q: QueueModel<T>, k: nat)
    requires
        k <= q.items.len(),
    ensures
        q.pop_k(k) == q.items.subrange(0, k as int),
        q.after_pops(k) == (QueueModel { items: q.items.subrange(k as int, q.items.len() as int), ..q }),
    decreases k,
{
    if k == 0 {
        assert(q.items.subrange(0, q.items.len() as int) =~= q.items);
    } else {
        let q1 = q.try_pop_next();
        lemma_pop_k(q1, (k - 1) as nat);
        assert(seq![q.items[0]] + q1.items.subrange(0, k - 1) =~= q.items.subrange(0, k as int));
        assert(q1.items.subrange(k - 1, q1.items.len() as int) =~= q.items.subrange(
            k as int,
            q.items.len() as int,
        ));
    }
}

/// A queue of capacity `n` (at least one), filled from empty, admits exactly
/// `n` items: each of `n` pushes succeeds and the next one is refused as full.
/// Popping then hands the items back in the order they were pushed.
pub proof fn lemma_capacity_admits_exactly<T>(n: nat, xs: Seq<T>, extra: T)
    requires
        n >= 1,
        xs.len() == n,
    ensures
        QueueModel::<T>::empty(n).push_each_succeeds(xs),
        QueueModel::<T>::empty(n).push_each(xs).try_push_result(extra) == Err::<(), TryPushError<T>>(
            TryPushError::Full(extra),
        ),
        QueueModel::<T>::empty(n).push_each(xs).pop_k(n) == xs,
{
    let q0 = QueueModel::<T>::empty(n);
    lemma_push_each(q0, xs);
    assert(q0.items + xs =~= xs);
    lemma_pop_k(q0.push_each(xs), n);
    assert(xs.subrange(0, n as int) =~= xs);
}

/// After `close`: a non-blocking push is refused as closed and changes
/// nothing, a blocking push hands its item back, the items buffered before
/// remain and come out in order, and a non-blocking pop on the drained queue
/// reports it closed.
pub proof fn lemma_close_refuses_and_drains<T>(q: QueueModel<T>, v: T)
    ensures
        q.close_next().try_push_result(v) == Err::<(), TryPushError<T>>(TryPushError::Closed(v)),
        q.close_next().try_push_next(v) == q.close_next(),
        q.close_next().push_result(v) == Err::<(), T>(v),
        q.close_next().items == q.items,
        q.close_next().pop_k(q.items.len()) == q.items,
        q.close_next().after_pops(q.items.len()).try_pop_result() == Err::<T, TryPopError>(
            TryPopError::Closed,
        ),
{
    let c = q.close_next();
    lemma_pop_k(c, q.items.len());
    assert(q.items.subrange(0, q.items.len() as int) =~= q.items);
    assert(c.after_pops(q.items.len()).items.len() == 0);
}

pub struct Queue<T> {
    buf: VecDeque<T>,
    capacity: usize,
    closed: bool,
}

impl<T> View for Queue<T> {
    type V = QueueModel<T>;

    closed spec fn view(&self) -> QueueModel<T> {
        QueueModel { items: self.buf@, capacity: self.capacity as nat, closed: self.closed }
    }
}

impl<T> Queue<T> {
    /// Holds of every queue: a positive capacity that bounds the items.
    pub open spec fn wf(&self) -> bool {
        &&& 0 < self@.capacity
        &&& self@.items.len() <= self@.capacity
    }

    pub fn bounded(capacity: usize) -> (r: Self)
        requires
            capacity > 0,
        ensures
            r.wf(),
            r@ == QueueModel::<T>::empty(capacity as nat),
    {
        Queue { buf: VecDeque::with_capacity(capacity), capacity, closed: false }
    }

    /// Pushes `value` unless the queue is closed, in which case it comes back.
    /// A push onto a full open queue would wait for a pop; the caller
    /// arranges that it does not.
    pub fn push(&mut self, value: T) -> (r: Result<(), T>)
        requires
            old(self).wf(),
            old(self)@.closed || !old(self)@.is_full(),
        ensures
            final(self).wf(),
            r == old(self)@.push_result(value),
            final(self)@ == old(self)@.try_push_next(value),
    {
        if self.closed {
            return Err(value);
        }
        self.buf.push_back(value);
        Ok(())
    }

    /// Takes the front item; `None` once the queue is closed and drained.
    /// A pop from an empty open queue would wait for a push; the caller
    /// arranges that it does not.
    pub fn pop(&mut self) -> (r: Option<T>)
        requires
            old(self).wf(),
            old(self)@.closed || old(self)@.items.len() > 0,
        ensures
            final(self).wf(),
            final(self)@ == old(self)@.try_pop_next(),
            old(self)@.items.len() > 0 ==> r == Some(old(self)@.items[0]),
            old(self)@.items.len() == 0 ==> r is None,
    {
        self.buf.pop_front()
    }

    pub fn try_push(&mut self, value: T) -> (r: Result<(), TryPushError<T>>)
        requires
            old(self).wf(),
        ensures
            final(self).wf(),
            final(self)@ == old(self)@.try_push_next(value),
            r == old(self)@.try_push_result(value),
    {
        if self.closed {
            return Err(TryPushError::Closed(value));
        }
        if self.buf.len() == self.capacity {
            return Err(TryPushError::Full(value));
        }
        self.buf.push_back(value);
        Ok(())
    }

    pub fn try_pop(&mut self) -> (r: Result<T, TryPopError>)
        requires
            old(self).wf(),
        ensures
            final(self).wf(),
            final(self)@ == old(self)@.try_pop_next(),
            r == old(self)@.try_pop_result(),
    {
        match self.buf.pop_front() {
            Some(v) => Ok(v),
            None => {
                if self.closed {
                    Err(TryPopError::Closed)
                } else {
                    Err(TryPopError::Empty)
                }
            },
        }
    }

    /// Closes the queue; closing twice changes nothing more.
    pub fn close(&mut self)
        requires
            old(self).wf(),
        ensures
            final(self).wf(),
            final(self)@ == old(self)@.close_next(),
    {
        self.closed = true;
    }

    pub fn capacity(&self) -> (r: usize)
        ensures
            r == self@.capacity,
    {
        self.capacity
    }

    pub fn is_closed(&self) -> (r: bool)
        ensures
            r == self@.closed,
    {
        self.closed
    }

    pub fn len(&self) -> (r: usize)
        ensures
            r == self@.items.len(),
    {
        self.buf.len()
    }

    pub fn is_empty(&self) -> (r: bool)
        ensures
            r == (self@.items.len() == 0),
    {
        self.len() == 0
    }
}

} // verus!
