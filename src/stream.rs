use vstd::prelude::*;

use crate::repos::texts;

verus! {

/// The producer side of a streaming search: it hands out one result per
/// requested item, in order, until the items run out or the receiver goes away.
#[derive(Debug)]
pub struct SearchProducer {
    items: Vec<String>,
    next: usize,
    closed: bool,
}

/// A producer as a value: the items, how many were handed out, and whether
/// the receiving end has closed.
pub struct ProducerView {
    pub items: Seq<Seq<char>>,
    pub next: nat,
    pub closed: bool,
}

/// One production step: the next item while the receiver is open.
pub open spec fn produce(v: ProducerView) -> (ProducerView, Option<Seq<char>>) {
    if !v.closed && v.next < v.items.len() {
        (ProducerView { next: v.next + 1, ..v }, Some(v.items[v.next as int]))
    } else {
        (v, None)
    }
}

/// What `n` production steps hand out, in order.
pub open spec fn produced(v: ProducerView, n: nat) -> Seq<Seq<char>>
    decreases n,
{
    if n == 0 {
        Seq::empty()
    } else {
        let (w, o) = produce(v);
        match o {
            Some(x) => seq![x] + produced(w, (n - 1) as nat),
            None => produced(w, (n - 1) as nat),
        }
    }
}

/// A producer that has handed nothing out yet.
pub open spec fn fresh(items: Seq<Seq<char>>) -> ProducerView {
    ProducerView { items, next: 0, closed: false }
}

impl View for SearchProducer {
    type V = ProducerView;

    closed spec fn view(&self) -> ProducerView {
        ProducerView { items: texts(self.items@), next: self.next as nat, closed: self.closed }
    }
}

impl SearchProducer {
    /// The count handed out never passes the items.
    pub closed spec fn wf(&self) -> bool {
        self.next <= self.items@.len()
    }

    /// A producer for the items of one search request.
    pub fn new(items: Vec<String>) -> (r: SearchProducer)
        ensures
            r.wf(),
            r@ == fresh(texts(items@)),
    {
        SearchProducer { items, next: 0, closed: false }
    }

    /// The next result to send, or `None` once all were sent or the receiver
    /// has gone away.
    pub fn next_item(&mut self) -> (r: Option<String>)
        requires
            old(self).wf(),
        ensures
            final(self).wf(),
            (final(self)@, match r {
                Some(s) => Some(s@),
                None => None,
            }) == produce(old(self)@),
    {
        if !self.closed && self.next < self.items.len() {
            let s = self.items[self.next].clone();
            assert(texts(self.items@)[self.next as int] == self.items@[self.next as int]@);
            self.next = self.next + 1;
            Some(s)
        } else {
            None
        }
    }

    /// Records that a send failed because the receiver went away: nothing more
    /// is produced.
    pub fn receiver_closed(&mut self)
        requires
            old(self).wf(),
        ensures
            final(self).wf(),
            final(self)@ == (ProducerView { closed: true, ..old(self)@ }),
    {
        self.closed = true;
    }
}

proof fn lemma_produced_from(v: ProducerView, n: nat)
    requires
        !v.closed,
        v.next <= v.items.len(),
    ensures
        produced(v, n) == v.items.subrange(
            v.next as int,
            if v.next + n <= v.items.len() {
                (v.next + n) as int
            } else {
                v.items.len() as int
            },
        ),
    decreases n,
{
    if n > 0 {
        let (w, o) = produce(v);
        lemma_produced_from(w, (n - 1) as nat);
        if v.next < v.items.len() {
            assert(produced(v, n) =~= v.items.subrange(
                v.next as int,
                if v.next + n <= v.items.len() {
                    (v.next + n) as int
                } else {
                    v.items.len() as int
                },
            ));
        } else {
            assert(produced(v, n) =~= Seq::<Seq<char>>::empty());
        }
    } else {
        assert(produced(v, n) =~= Seq::<Seq<char>>::empty());
    }
}

/// A search hands out exactly its items, in the order requested: after `n`
/// steps the first `n` of them, and all of them once `n` reaches their count.
pub proof fn lemma_search_yields_in_order(items: Seq<Seq<char>>, n: nat)
    ensures
        n <= items.len() ==> produced(fresh(items), n) == items.take(n as int),
        n >= items.len() ==> produced(fresh(items), n) == items,
{
    lemma_produced_from(fresh(items), n);
    if n >= items.len() {
        assert(items.subrange(0, items.len() as int) =~= items);
    }
}

/// Once the receiver has gone away, no further result is produced.
pub proof fn lemma_cancel_stops_production(v: ProducerView, n: nat)
    requires
        v.closed,
    ensures
        produced(v, n) == Seq::<Seq<char>>::empty(),
    decreases n,
{
    if n > 0 {
        lemma_cancel_stops_production(v, (n - 1) as nat);
    }
}

} // verus!
