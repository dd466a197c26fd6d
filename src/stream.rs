use vstd::prelude::*;
use crate::graph::{Edge, Graph, Receiver, Sink, SignalShared, Stream};

verus! {

/// What a sample of a channel-fed signal does with the items that are queued.
#[derive(Clone, Copy, Debug, PartialEq, Eq, Structural)]
pub enum Intake {
    /// The cell is written only by a stream subscription.
    Pushed,
    /// Keeps the last queued item.
    Last,
    /// Folds the queued items onto the cell with `folds[op]`.
    Folded { op: usize },
}

/// `after` is what sending one copy of `item` into node `n` may leave of `before`.
pub open spec fn sent_one<T: Clone, F: Fn(&T) -> Option<T>, G: Fn(T, &T) -> T, H: Fn(&T) -> Vec<T>>(
    before: &Graph<T, F, G, H>,
    after: &Graph<T, F, G, H>,
    n: int,
    item: T,
) -> bool {
    exists|c: T| cloned(item, c) && #[trigger] before.deliver_rel(after, n, c, before.num_nodes())
}

/// The states a feed of `items` into node `n` passes through: one send per
/// item, in order.
pub open spec fn fed_steps<T: Clone, F: Fn(&T) -> Option<T>, G: Fn(T, &T) -> T, H: Fn(&T) -> Vec<T>>(
    before: &Graph<T, F, G, H>,
    after: &Graph<T, F, G, H>,
    n: int,
    items: Seq<T>,
    st: Seq<Graph<T, F, G, H>>,
) -> bool {
    &&& st.len() == items.len() + 1
    &&& st[0] == *before
    &&& st[items.len() as int] == *after
    &&& forall|k: int| #![trigger st[k]] 0 <= k < items.len() ==> sent_one(&st[k], &st[k + 1], n, items[k])
}

/// `after` is what feeding `items` into node `n` may leave of `before`: the
/// same as sending them one after the other.
pub open spec fn fed<T: Clone, F: Fn(&T) -> Option<T>, G: Fn(T, &T) -> T, H: Fn(&T) -> Vec<T>>(
    before: &Graph<T, F, G, H>,
    after: &Graph<T, F, G, H>,
    n: int,
    items: Seq<T>,
) -> bool {
    exists|st: Seq<Graph<T, F, G, H>>| #![trigger st.len()] fed_steps(before, after, n, items, st)
}

impl Sink {
    pub open spec fn handle_ok<T: Clone, F: Fn(&T) -> Option<T>, G: Fn(T, &T) -> T, H: Fn(&T) -> Vec<T>>(&self, g: &Graph<T, F, G, H>) -> bool {
        g.wf() && self.id < g.num_nodes()
    }

    /// Creates a new sink: a node with no subscriptions, held by the handle.
    pub fn new<T: Clone, F: Fn(&T) -> Option<T>, G: Fn(T, &T) -> T, H: Fn(&T) -> Vec<T>>(g: &mut Graph<T, F, G, H>) -> (r: Sink)
        requires
            old(g).wf(),
            old(g).num_nodes() < usize::MAX,
        ensures
            final(g).wf(),
            r.id == old(g).num_nodes(),
            final(g).num_nodes() == old(g).num_nodes() + 1,
            final(g).alive(r.id as int),
            final(g).edges@[r.id as int]@.len() == 0,
            final(g).sources@[r.id as int]@.len() == 0,
            forall|i: int| 0 <= i < old(g).num_nodes() ==> final(g).edges@[i] == old(g).edges@[i],
            forall|i: int| 0 <= i < old(g).num_nodes() ==> final(g).sources@[i] == old(g).sources@[i],
            final(g).refs@ == old(g).refs@.push(1),
            final(g).generation@ == old(g).generation@.push(0),
            final(g).fns@ == old(g).fns@,
            final(g).expands@ == old(g).expands@,
            final(g).folds@ == old(g).folds@,
            final(g).cells@ == old(g).cells@,
            final(g).cell_live@ == old(g).cell_live@,
            final(g).queues@ == old(g).queues@,
            final(g).queue_live@ == old(g).queue_live@,
    {
        let id = g.add_node(Vec::new());
        Sink { id }
    }

    /// Creates a stream that receives the events sent to this sink. The stream
    /// is a second handle on the sink's node, so it outlives a released sink.
    pub fn stream<T: Clone, F: Fn(&T) -> Option<T>, G: Fn(T, &T) -> T, H: Fn(&T) -> Vec<T>>(&self, g: &mut Graph<T, F, G, H>) -> (r: Stream)
        requires
            self.handle_ok(old(g)),
        ensures
            final(g).wf(),
            r.id == self.id,
            final(g).edges@ == old(g).edges@,
            final(g).refs@ == old(g).refs@.update(self.id as int, crate::graph::sat_inc(old(g).refs@[self.id as int])),
            final(g).alive(r.id as int) || !old(g).alive(r.id as int),
            final(g).sources@ == old(g).sources@,
            final(g).generation@ == old(g).generation@,
            final(g).fns@ == old(g).fns@,
            final(g).expands@ == old(g).expands@,
            final(g).folds@ == old(g).folds@,
            final(g).cells@ == old(g).cells@,
            final(g).cell_live@ == old(g).cell_live@,
            final(g).queues@ == old(g).queues@,
            final(g).queue_live@ == old(g).queue_live@,
    {
        g.retain(self.id);
        Stream { id: self.id }
    }

    /// Sends a value into the sink: every live subscription of the sink's node
    /// runs, in registration order, each passing the event on synchronously
    /// before the next one runs, and the dead ones are pruned. The walk goes at
    /// most as many levels deep as the graph has nodes, which every path of an
    /// acyclic graph respects.
    pub fn send<T: Clone, F: Fn(&T) -> Option<T>, G: Fn(T, &T) -> T, H: Fn(&T) -> Vec<T>>(&self, g: &mut Graph<T, F, G, H>, val: T)
        requires
            self.handle_ok(old(g)),
        ensures
            final(g).wf(),
            final(g).same_shape(old(g)),
            final(g).generation@ == old(g).generation@,
            old(g).deliver_rel(final(g), self.id as int, val, old(g).num_nodes()),
            final(g).edges@[self.id as int]@ == old(g).edges@[self.id as int]@.filter(|e: Edge| old(g).edge_live(e)),
            forall|q: usize| #[trigger] old(g).feeds_queue(self.id as int, q) ==> old(g).appended(final(g), q as int, val),
            forall|q: usize| #[trigger] old(g).feeds_queue(self.id as int, q) ==> old(g).same_registries(final(g)),
            forall|e: Edge, q: usize| old(g).edges@[self.id as int]@.len() == 1 && old(g).edges@[self.id as int]@[0] == e
                && !(e is Snapshot) && old(g).alive(Graph::<T, F, G, H>::target(e)) && old(g).edge_live(e)
                && #[trigger] old(g).feeds_queue(Graph::<T, F, G, H>::target(e), q) ==> old(g).same_registries(final(g)),
            forall|e: Edge, q: usize| old(g).edges@[self.id as int]@.len() == 1 && old(g).edges@[self.id as int]@[0] == e
                && old(g).alive(Graph::<T, F, G, H>::target(e)) && #[trigger] old(g).feeds_queue(Graph::<T, F, G, H>::target(e), q)
                ==> old(g).passes_one(final(g), e, val, q as int),
            forall|e: Edge| old(g).edges@[self.id as int]@.len() == 1 && old(g).edges@[self.id as int]@[0] == e
                && #[trigger] old(g).edge_live(e) ==> old(g).stored(final(g), e, val),
            old(g).none_live(self.id as int) ==> final(g).queues@ == old(g).queues@ && final(g).cells@ == old(g).cells@,
    {
        let depth = g.edges.len();
        g.deliver(self.id, &val, depth);
    }

    /// Sends each value of `items` into the sink, in order.
    pub fn feed<T: Clone, F: Fn(&T) -> Option<T>, G: Fn(T, &T) -> T, H: Fn(&T) -> Vec<T>>(&self, g: &mut Graph<T, F, G, H>, items: Vec<T>)
        requires
            self.handle_ok(old(g)),
        ensures
            final(g).wf(),
            final(g).same_shape(old(g)),
            final(g).generation@ == old(g).generation@,
            items@.len() > 0 ==> final(g).edges@[self.id as int]@ == old(g).edges@[self.id as int]@.filter(|e: Edge| old(g).edge_live(e)),
            fed(old(g), final(g), self.id as int, items@),
    {
        let ghost mut st: Seq<Graph<T, F, G, H>> = seq![*old(g)];
        let mut i: usize = 0;
        while i < items.len()
            invariant
                self.handle_ok(g),
                g.same_shape(old(g)),
                g.generation@ == old(g).generation@,
                0 <= i <= items@.len(),
                i == 0 ==> g.edges@ == old(g).edges@,
                i > 0 ==> g.edges@[self.id as int]@ == old(g).edges@[self.id as int]@.filter(|e: Edge| old(g).edge_live(e)),
                st.len() == i + 1,
                st[0] == *old(g),
                st[i as int] == *g,
                forall|k: int| #![trigger st[k]] 0 <= k < i ==> sent_one(&st[k], &st[k + 1], self.id as int, items@[k]),
            decreases items@.len() - i,
        {
            let ghost before = g.edges@[self.id as int]@;
            let ghost mid = *g;
            let item = items[i].clone();
            self.send(g, item);
            proof {
                assert(sent_one(&mid, g, self.id as int, items@[i as int]));
                st = st.push(*g);
                assert forall|e: Edge| mid.edge_live(e) == old(g).edge_live(e) by {}
                assert((|e: Edge| mid.edge_live(e)) =~= (|e: Edge| old(g).edge_live(e)));
                if i > 0 {
                    lemma_filter_idempotent(old(g).edges@[self.id as int]@, |e: Edge| old(g).edge_live(e));
                }
                assert(g.edges@[self.id as int]@ == before.filter(|e: Edge| old(g).edge_live(e)));
            }
            i = i + 1;
        }
        proof {
            assert(st.len() == items@.len() + 1);
            assert(fed_steps(old(g), g, self.id as int, items@, st));
        }
    }

    /// Sends the stream `inner` into this sink, read as a stream of streams:
    /// every switch built on it starts following `inner`.
    pub fn send_stream<T: Clone, F: Fn(&T) -> Option<T>, G: Fn(T, &T) -> T, H: Fn(&T) -> Vec<T>>(&self, g: &mut Graph<T, F, G, H>, inner: &Stream)
        requires
            self.handle_ok(old(g)),
            inner.id < old(g).num_nodes(),
        ensures
            final(g).wf(),
            final(g).same_shape(old(g)),
            inner.id != self.id ==> final(g).edges@[self.id as int]@ == old(g).edges@[self.id as int]@.filter(
                |e: Edge| old(g).outer_kept(e)),
            forall|k: int| 0 <= k < old(g).edges@[self.id as int]@.len() ==>
                old(g).advances(final(g), #[trigger] old(g).edges@[self.id as int]@[k]),
            forall|o: int| 0 <= o < final(g).num_nodes() ==>
                #[trigger] final(g).generation@[o] >= old(g).generation@[o],
            final(g).generation@ == old(g).switch_installs(old(g).edges@[self.id as int]@).1,
            inner.id != self.id ==> final(g).edges@[inner.id as int]@
                == old(g).edges@[inner.id as int]@ + old(g).switch_installs(old(g).edges@[self.id as int]@).0,
            inner.id == self.id ==> final(g).edges@[self.id as int]@ == old(g).edges@[self.id as int]@.filter(
                |e: Edge| old(g).outer_kept(e)) + old(g).switch_installs(old(g).edges@[self.id as int]@).0,
            forall|m: int| 0 <= m < old(g).num_nodes() && m != self.id && m != inner.id ==> final(g).edges@[m] == old(g).edges@[m],
            final(g).cells@ == old(g).cells@,
            final(g).queues@ == old(g).queues@,
    {
        g.deliver_stream(self.id, inner.id);
    }

    /// Gives up this handle.
    pub fn release<T: Clone, F: Fn(&T) -> Option<T>, G: Fn(T, &T) -> T, H: Fn(&T) -> Vec<T>>(self, g: &mut Graph<T, F, G, H>)
        requires
            self.handle_ok(old(g)),
        ensures
            final(g).wf(),
            final(g).edges@ == old(g).edges@,
            old(g).refs@[self.id as int] > 0 ==> final(g).refs@[self.id as int] == old(g).refs@[self.id as int] - 1,
            crate::graph::release_refs(old(g).sources@, old(g).refs@, final(g).refs@, self.id as int),
            final(g).sources@ == old(g).sources@,
            final(g).generation@ == old(g).generation@,
            final(g).fns@ == old(g).fns@,
            final(g).expands@ == old(g).expands@,
            final(g).folds@ == old(g).folds@,
            final(g).cells@ == old(g).cells@,
            final(g).cell_live@ == old(g).cell_live@,
            final(g).queues@ == old(g).queues@,
            final(g).queue_live@ == old(g).queue_live@,
    {
        g.release(self.id);
    }
}


impl Stream {
    pub open spec fn handle_ok<T: Clone, F: Fn(&T) -> Option<T>, G: Fn(T, &T) -> T, H: Fn(&T) -> Vec<T>>(&self, g: &Graph<T, F, G, H>) -> bool {
        g.wf() && self.id < g.num_nodes()
    }

    /// What every combinator that derives one node from this one ensures: a
    /// fresh live node owned by the result, derived from this node alone, and
    /// `e` appended to this node's registry.
    pub open spec fn derived<T: Clone, F: Fn(&T) -> Option<T>, G: Fn(T, &T) -> T, H: Fn(&T) -> Vec<T>>(
        &self,
        before: &Graph<T, F, G, H>,
        after: &Graph<T, F, G, H>,
        r: Stream,
        e: Edge,
    ) -> bool {
        &&& after.wf()
        &&& r.id == before.num_nodes()
        &&& after.num_nodes() == before.num_nodes() + 1
        &&& after.alive(r.id as int)
        &&& after.alive(self.id as int)
        &&& after.sources@[r.id as int]@ == seq![self.id]
        &&& after.edges@[r.id as int]@.len() == 0
        &&& after.edges@[self.id as int]@ == before.edges@[self.id as int]@.push(e)
        &&& forall|i: int| 0 <= i < before.num_nodes() && i != self.id ==> after.edges@[i] == before.edges@[i]
        &&& after.refs@ == before.refs@.update(self.id as int, crate::graph::sat_inc(before.refs@[self.id as int])).push(1)
        &&& forall|i: int| 0 <= i < before.num_nodes() ==> after.sources@[i] == before.sources@[i]
        &&& after.generation@ == before.generation@.push(0)
        &&& after.cells@ == before.cells@
        &&& after.cell_live@ == before.cell_live@
        &&& after.queues@ == before.queues@
        &&& after.queue_live@ == before.queue_live@
    }

    /// Appends a node derived from this one alone.
    fn output<T: Clone, F: Fn(&T) -> Option<T>, G: Fn(T, &T) -> T, H: Fn(&T) -> Vec<T>>(&self, g: &mut Graph<T, F, G, H>) -> (out: usize)
        requires
            self.handle_ok(old(g)),
            old(g).num_nodes() < usize::MAX,
        ensures
            final(g).wf(),
            out == old(g).num_nodes(),
            final(g).num_nodes() == out + 1,
            forall|i: int| 0 <= i < out ==> final(g).edges@[i] == old(g).edges@[i],
            final(g).edges@[out as int]@.len() == 0,
            final(g).alive(out as int),
            final(g).alive(self.id as int),
            final(g).sources@[out as int]@ == seq![self.id],
            final(g).generation@[out as int] == 0,
            final(g).generation@ == old(g).generation@.push(0),
            final(g).refs@ == old(g).refs@.update(self.id as int, crate::graph::sat_inc(old(g).refs@[self.id as int])).push(1),
            forall|i: int| 0 <= i < out ==> final(g).generation@[i] == old(g).generation@[i],
            forall|i: int| 0 <= i < out ==> final(g).sources@[i] == old(g).sources@[i],
            forall|i: int| 0 <= i < out && i != self.id ==> final(g).refs@[i] == old(g).refs@[i],
            final(g).fns@ == old(g).fns@,
            final(g).expands@ == old(g).expands@,
            final(g).folds@ == old(g).folds@,
            final(g).cells@ == old(g).cells@,
            final(g).cell_live@ == old(g).cell_live@,
            final(g).queues@ == old(g).queues@,
            final(g).queue_live@ == old(g).queue_live@,
    {
        let mut srcs: Vec<usize> = Vec::new();
        srcs.push(self.id);
        proof {
            assert(srcs@[0] == self.id);
        }
        let out = g.add_node(srcs);
        assert(srcs@ =~= seq![self.id]);
        proof {
            reveal_with_fuel(crate::graph::bumped, 2);
            assert(seq![self.id].drop_last() =~= Seq::<usize>::empty());
        }
        assert forall|i: int| 0 <= i < out && i != self.id implies g.refs@[i] == old(g).refs@[i] by {
            assert(!srcs@.contains(i as usize));
        }
        out
    }

    /// Maps this stream through `f`, which yields a value for every event.
    pub fn map<T: Clone, F: Fn(&T) -> Option<T>, G: Fn(T, &T) -> T, H: Fn(&T) -> Vec<T>>(&self, g: &mut Graph<T, F, G, H>, f: F) -> (r: Stream)
        requires
            self.handle_ok(old(g)),
            old(g).num_nodes() < usize::MAX,
            forall|x: &T| f.requires((x,)),
            forall|x: &T, y: Option<T>| f.ensures((x,), y) ==> y is Some,
        ensures
            self.derived(old(g), final(g), r, Edge::Transform { to: r.id, op: old(g).fns@.len() as usize }),
            final(g).fns@ == old(g).fns@.push(f),
            final(g).expands@ == old(g).expands@,
            final(g).folds@ == old(g).folds@,
    {
        self.filter_map(g, f)
    }

    /// Creates a stream with the events for which `pred` yields `Some`; the
    /// events themselves are forwarded unchanged.
    pub fn filter<T: Clone, F: Fn(&T) -> Option<T>, G: Fn(T, &T) -> T, H: Fn(&T) -> Vec<T>>(&self, g: &mut Graph<T, F, G, H>, pred: F) -> (r: Stream)
        requires
            self.handle_ok(old(g)),
            old(g).num_nodes() < usize::MAX,
            forall|x: &T| pred.requires((x,)),
        ensures
            self.derived(old(g), final(g), r, Edge::Filter { to: r.id, op: old(g).fns@.len() as usize }),
            final(g).fns@ == old(g).fns@.push(pred),
            final(g).expands@ == old(g).expands@,
            final(g).folds@ == old(g).folds@,
    {
        let op = g.add_fn(pred);
        let out = self.output(g);
        g.subscribe(self.id, Edge::Filter { to: out, op });
        Stream { id: out }
    }

    /// Filters and maps at once: forwards `f(v)` when it is `Some`.
    pub fn filter_map<T: Clone, F: Fn(&T) -> Option<T>, G: Fn(T, &T) -> T, H: Fn(&T) -> Vec<T>>(&self, g: &mut Graph<T, F, G, H>, f: F) -> (r: Stream)
        requires
            self.handle_ok(old(g)),
            old(g).num_nodes() < usize::MAX,
            forall|x: &T| f.requires((x,)),
        ensures
            self.derived(old(g), final(g), r, Edge::Transform { to: r.id, op: old(g).fns@.len() as usize }),
            final(g).fns@ == old(g).fns@.push(f),
            final(g).expands@ == old(g).expands@,
            final(g).folds@ == old(g).folds@,
    {
        let op = g.add_fn(f);
        let out = self.output(g);
        g.subscribe(self.id, Edge::Transform { to: out, op });
        Stream { id: out }
    }

    /// Keeps the values of the first variant of a two-variant payload;
    /// `first` extracts it, yielding `None` on the second variant.
    pub fn filter_first<T: Clone, F: Fn(&T) -> Option<T>, G: Fn(T, &T) -> T, H: Fn(&T) -> Vec<T>>(&self, g: &mut Graph<T, F, G, H>, first: F) -> (r: Stream)
        requires
            self.handle_ok(old(g)),
            old(g).num_nodes() < usize::MAX,
            forall|x: &T| first.requires((x,)),
        ensures
            self.derived(old(g), final(g), r, Edge::Transform { to: r.id, op: old(g).fns@.len() as usize }),
            final(g).fns@ == old(g).fns@.push(first),
            final(g).expands@ == old(g).expands@,
            final(g).folds@ == old(g).folds@,
    {
        self.filter_map(g, first)
    }

    /// Keeps the values of the second variant of a two-variant payload;
    /// `second` extracts it, yielding `None` on the first variant.
    pub fn filter_second<T: Clone, F: Fn(&T) -> Option<T>, G: Fn(T, &T) -> T, H: Fn(&T) -> Vec<T>>(&self, g: &mut Graph<T, F, G, H>, second: F) -> (r: Stream)
        requires
            self.handle_ok(old(g)),
            old(g).num_nodes() < usize::MAX,
            forall|x: &T| second.requires((x,)),
        ensures
            self.derived(old(g), final(g), r, Edge::Transform { to: r.id, op: old(g).fns@.len() as usize }),
            final(g).fns@ == old(g).fns@.push(second),
            final(g).expands@ == old(g).expands@,
            final(g).folds@ == old(g).folds@,
    {
        self.filter_map(g, second)
    }

    /// Keeps the present values of an optional payload; `unwrap` yields the
    /// value when there is one.
    pub fn filter_some<T: Clone, F: Fn(&T) -> Option<T>, G: Fn(T, &T) -> T, H: Fn(&T) -> Vec<T>>(&self, g: &mut Graph<T, F, G, H>, unwrap: F) -> (r: Stream)
        requires
            self.handle_ok(old(g)),
            old(g).num_nodes() < usize::MAX,
            forall|x: &T| unwrap.requires((x,)),
        ensures
            self.derived(old(g), final(g), r, Edge::Transform { to: r.id, op: old(g).fns@.len() as usize }),
            final(g).fns@ == old(g).fns@.push(unwrap),
            final(g).expands@ == old(g).expands@,
            final(g).folds@ == old(g).folds@,
    {
        self.filter_first(g, unwrap)
    }

    /// Creates a stream that fires with the events of both streams. The
    /// result owns both inputs; each input's subscription is pruned on its
    /// own once the result is gone.
    pub fn merge<T: Clone, F: Fn(&T) -> Option<T>, G: Fn(T, &T) -> T, H: Fn(&T) -> Vec<T>>(&self, g: &mut Graph<T, F, G, H>, other: &Stream) -> (r: Stream)
        requires
            self.handle_ok(old(g)),
            other.id < old(g).num_nodes(),
            old(g).num_nodes() < usize::MAX,
        ensures
            final(g).wf(),
            r.id == old(g).num_nodes(),
            final(g).num_nodes() == old(g).num_nodes() + 1,
            final(g).alive(r.id as int),
            final(g).alive(self.id as int),
            final(g).alive(other.id as int),
            final(g).sources@[r.id as int]@ == seq![self.id, other.id],
            self.id != other.id ==> final(g).edges@[self.id as int]@ == old(g).edges@[self.id as int]@.push(Edge::Forward { to: r.id }),
            self.id != other.id ==> final(g).edges@[other.id as int]@ == old(g).edges@[other.id as int]@.push(Edge::Forward { to: r.id }),
            self.id == other.id ==> final(g).edges@[self.id as int]@ == old(g).edges@[self.id as int]@.push(
                Edge::Forward { to: r.id }).push(Edge::Forward { to: r.id }),
            final(g).edges@[r.id as int]@.len() == 0,
            final(g).fns@ == old(g).fns@,
            final(g).expands@ == old(g).expands@,
            forall|i: int| 0 <= i < old(g).num_nodes() ==> final(g).sources@[i] == old(g).sources@[i],
            forall|i: int| 0 <= i < old(g).num_nodes() && i != self.id && i != other.id ==> final(g).edges@[i] == old(g).edges@[i],
            final(g).refs@ == crate::graph::bumped(old(g).refs@, seq![self.id, other.id]).push(1),
            final(g).generation@ == old(g).generation@.push(0),
            final(g).folds@ == old(g).folds@,
            final(g).cells@ == old(g).cells@,
            final(g).cell_live@ == old(g).cell_live@,
            final(g).queues@ == old(g).queues@,
            final(g).queue_live@ == old(g).queue_live@,
    {
        let mut srcs: Vec<usize> = Vec::new();
        srcs.push(self.id);
        srcs.push(other.id);
        proof {
            assert(srcs@[0] == self.id && srcs@[1] == other.id);
        }
        let out = g.add_node(srcs);
        assert(srcs@ =~= seq![self.id, other.id]);
        g.subscribe(self.id, Edge::Forward { to: out });
        g.subscribe(other.id, Edge::Forward { to: out });
        Stream { id: out }
    }

    /// Merges two streams, telling the sides apart: an event of this stream
    /// reaches the result as `left(v)`, one of `other` as `right(v)`, each
    /// only when the function yields a value.
    pub fn merge_with<T: Clone, F: Fn(&T) -> Option<T>, G: Fn(T, &T) -> T, H: Fn(&T) -> Vec<T>>(&self, g: &mut Graph<T, F, G, H>, other: &Stream, left: F, right: F) -> (r: Stream)
        requires
            self.handle_ok(old(g)),
            other.id < old(g).num_nodes(),
            old(g).num_nodes() < usize::MAX,
            forall|x: &T| left.requires((x,)),
            forall|x: &T| right.requires((x,)),
        ensures
            final(g).wf(),
            r.id == old(g).num_nodes(),
            final(g).num_nodes() == old(g).num_nodes() + 1,
            final(g).alive(r.id as int),
            final(g).alive(self.id as int),
            final(g).alive(other.id as int),
            final(g).sources@[r.id as int]@ == seq![self.id, other.id],
            final(g).fns@ == old(g).fns@.push(left).push(right),
            final(g).expands@ == old(g).expands@,
            self.id != other.id ==> final(g).edges@[self.id as int]@ == old(g).edges@[self.id as int]@.push(
                Edge::Transform { to: r.id, op: old(g).fns@.len() as usize }),
            self.id != other.id ==> final(g).edges@[other.id as int]@ == old(g).edges@[other.id as int]@.push(
                Edge::Transform { to: r.id, op: (old(g).fns@.len() + 1) as usize }),
            self.id == other.id ==> final(g).edges@[self.id as int]@ == old(g).edges@[self.id as int]@.push(
                Edge::Transform { to: r.id, op: old(g).fns@.len() as usize }).push(
                Edge::Transform { to: r.id, op: (old(g).fns@.len() + 1) as usize }),
            final(g).edges@[r.id as int]@.len() == 0,
            forall|i: int| 0 <= i < old(g).num_nodes() ==> final(g).sources@[i] == old(g).sources@[i],
            forall|i: int| 0 <= i < old(g).num_nodes() && i != self.id && i != other.id ==> final(g).edges@[i] == old(g).edges@[i],
            final(g).refs@ == crate::graph::bumped(old(g).refs@, seq![self.id, other.id]).push(1),
            final(g).generation@ == old(g).generation@.push(0),
            final(g).folds@ == old(g).folds@,
            final(g).cells@ == old(g).cells@,
            final(g).cell_live@ == old(g).cell_live@,
            final(g).queues@ == old(g).queues@,
            final(g).queue_live@ == old(g).queue_live@,
    {
        let op_left = g.add_fn(left);
        let op_right = g.add_fn(right);
        let mut srcs: Vec<usize> = Vec::new();
        srcs.push(self.id);
        srcs.push(other.id);
        proof {
            assert(srcs@[0] == self.id && srcs@[1] == other.id);
        }
        let out = g.add_node(srcs);
        assert(srcs@ =~= seq![self.id, other.id]);
        g.subscribe(self.id, Edge::Transform { to: out, op: op_left });
        g.subscribe(other.id, Edge::Transform { to: out, op: op_right });
        Stream { id: out }
    }

    /// Maps each event to zero or more outputs: `f(v)` lists them, and each
    /// is delivered to the result, in order, before the next subscription of
    /// this stream runs.
    pub fn map_n<T: Clone, F: Fn(&T) -> Option<T>, G: Fn(T, &T) -> T, H: Fn(&T) -> Vec<T>>(&self, g: &mut Graph<T, F, G, H>, f: H) -> (r: Stream)
        requires
            self.handle_ok(old(g)),
            old(g).num_nodes() < usize::MAX,
            forall|x: &T| f.requires((x,)),
        ensures
            self.derived(old(g), final(g), r, Edge::Expand { to: r.id, op: old(g).expands@.len() as usize }),
            final(g).expands@ == old(g).expands@.push(f),
            final(g).fns@ == old(g).fns@,
            final(g).folds@ == old(g).folds@,
    {
        let op = g.add_expand(f);
        let out = self.output(g);
        g.subscribe(self.id, Edge::Expand { to: out, op });
        Stream { id: out }
    }

    /// Runs `f` on every event for its side effects; the stream is returned
    /// as it is and the subscription is never removed.
    pub fn inspect<T: Clone, F: Fn(&T) -> Option<T>, G: Fn(T, &T) -> T, H: Fn(&T) -> Vec<T>>(self, g: &mut Graph<T, F, G, H>, f: F) -> (r: Stream)
        requires
            self.handle_ok(old(g)),
            forall|x: &T| f.requires((x,)),
        ensures
            final(g).wf(),
            r == self,
            final(g).num_nodes() == old(g).num_nodes(),
            final(g).refs@ == old(g).refs@,
            final(g).fns@ == old(g).fns@.push(f),
            final(g).expands@ == old(g).expands@,
            final(g).edges@[self.id as int]@ == old(g).edges@[self.id as int]@.push(Edge::Inspect { op: old(g).fns@.len() as usize }),
    {
        let op = g.add_fn(f);
        g.subscribe(self.id, Edge::Inspect { op });
        self
    }

    /// Creates a queue that receives a copy of every event of this stream.
    pub fn channel<T: Clone, F: Fn(&T) -> Option<T>, G: Fn(T, &T) -> T, H: Fn(&T) -> Vec<T>>(&self, g: &mut Graph<T, F, G, H>) -> (r: Receiver)
        requires
            self.handle_ok(old(g)),
        ensures
            final(g).wf(),
            r.queue == old(g).queues@.len(),
            final(g).queues@.len() == old(g).queues@.len() + 1,
            final(g).queues@[r.queue as int]@.len() == 0,
            final(g).queue_live@[r.queue as int],
            final(g).num_nodes() == old(g).num_nodes(),
            final(g).refs@ == old(g).refs@,
            final(g).edges@[self.id as int]@ == old(g).edges@[self.id as int]@.push(Edge::Queue { queue: r.queue }),
            forall|i: int| 0 <= i < old(g).num_nodes() && i != self.id ==> final(g).edges@[i] == old(g).edges@[i],
            forall|i: int| 0 <= i < old(g).queues@.len() ==> final(g).queues@[i] == old(g).queues@[i],
            final(g).queue_live@ == old(g).queue_live@.push(true),
            final(g).sources@ == old(g).sources@,
            final(g).generation@ == old(g).generation@,
            final(g).fns@ == old(g).fns@,
            final(g).expands@ == old(g).expands@,
            final(g).folds@ == old(g).folds@,
            final(g).cells@ == old(g).cells@,
            final(g).cell_live@ == old(g).cell_live@,
    {
        let q = g.add_queue();
        g.subscribe(self.id, Edge::Queue { queue: q });
        Receiver { queue: q }
    }

    /// Creates a signal that holds the last event of this stream.
    pub fn hold<T: Clone, F: Fn(&T) -> Option<T>, G: Fn(T, &T) -> T, H: Fn(&T) -> Vec<T>>(&self, g: &mut Graph<T, F, G, H>, initial: T) -> (r: SignalShared)
        requires
            self.handle_ok(old(g)),
        ensures
            final(g).wf(),
            r.cell == old(g).cells@.len(),
            r.source == Some(self.id),
            r.intake == Intake::Pushed,
            r.queue.is_none(),
            r.handle_ok(final(g)),
            final(g).num_nodes() == old(g).num_nodes(),
            forall|i: int| 0 <= i < old(g).num_nodes() && i != self.id ==> final(g).edges@[i] == old(g).edges@[i],
            final(g).cells@ == old(g).cells@.push(initial),
            final(g).cell_live@[r.cell as int],
            final(g).alive(self.id as int),
            final(g).edges@[self.id as int]@ == old(g).edges@[self.id as int]@.push(Edge::Hold { cell: r.cell, op: None }),
            final(g).fns@ == old(g).fns@,
            final(g).expands@ == old(g).expands@,
            final(g).folds@ == old(g).folds@,
            final(g).refs@ == old(g).refs@.update(self.id as int, crate::graph::sat_inc(old(g).refs@[self.id as int])),
            final(g).cell_live@ == old(g).cell_live@.push(true),
            final(g).sources@ == old(g).sources@,
            final(g).generation@ == old(g).generation@,
            final(g).queues@ == old(g).queues@,
            final(g).queue_live@ == old(g).queue_live@,
    {
        let cell = g.add_cell(initial);
        g.subscribe(self.id, Edge::Hold { cell, op: None });
        g.retain(self.id);
        SignalShared { cell, source: Some(self.id), queue: None, intake: Intake::Pushed }
    }

    /// Holds the last event of this stream for which `pred` yields `Some`.
    pub fn hold_if<T: Clone, F: Fn(&T) -> Option<T>, G: Fn(T, &T) -> T, H: Fn(&T) -> Vec<T>>(&self, g: &mut Graph<T, F, G, H>, initial: T, pred: F) -> (r: SignalShared)
        requires
            self.handle_ok(old(g)),
            forall|x: &T| pred.requires((x,)),
        ensures
            final(g).wf(),
            r.cell == old(g).cells@.len(),
            r.source == Some(self.id),
            r.intake == Intake::Pushed,
            r.queue.is_none(),
            r.handle_ok(final(g)),
            final(g).num_nodes() == old(g).num_nodes(),
            forall|i: int| 0 <= i < old(g).num_nodes() && i != self.id ==> final(g).edges@[i] == old(g).edges@[i],
            final(g).cells@ == old(g).cells@.push(initial),
            final(g).cell_live@[r.cell as int],
            final(g).alive(self.id as int),
            final(g).fns@ == old(g).fns@.push(pred),
            final(g).expands@ == old(g).expands@,
            final(g).edges@[self.id as int]@ == old(g).edges@[self.id as int]@.push(
                Edge::Hold { cell: r.cell, op: Some(old(g).fns@.len() as usize) }),
            final(g).folds@ == old(g).folds@,
            final(g).refs@ == old(g).refs@.update(self.id as int, crate::graph::sat_inc(old(g).refs@[self.id as int])),
            final(g).cell_live@ == old(g).cell_live@.push(true),
            final(g).sources@ == old(g).sources@,
            final(g).generation@ == old(g).generation@,
            final(g).queues@ == old(g).queues@,
            final(g).queue_live@ == old(g).queue_live@,
    {
        let op = g.add_fn(pred);
        let cell = g.add_cell(initial);
        g.subscribe(self.id, Edge::Hold { cell, op: Some(op) });
        g.retain(self.id);
        SignalShared { cell, source: Some(self.id), queue: None, intake: Intake::Pushed }
    }

    /// Accumulates the events of this stream: each event replaces the held
    /// value `acc` with `f(acc, event)`.
    pub fn fold<T: Clone, F: Fn(&T) -> Option<T>, G: Fn(T, &T) -> T, H: Fn(&T) -> Vec<T>>(&self, g: &mut Graph<T, F, G, H>, initial: T, f: G) -> (r: SignalShared)
        requires
            self.handle_ok(old(g)),
            forall|a: T, x: &T| f.requires((a, x)),
        ensures
            final(g).wf(),
            r.cell == old(g).cells@.len(),
            r.source == Some(self.id),
            r.intake == Intake::Pushed,
            r.queue.is_none(),
            r.handle_ok(final(g)),
            final(g).num_nodes() == old(g).num_nodes(),
            forall|i: int| 0 <= i < old(g).num_nodes() && i != self.id ==> final(g).edges@[i] == old(g).edges@[i],
            final(g).cells@ == old(g).cells@.push(initial),
            final(g).cell_live@[r.cell as int],
            final(g).alive(self.id as int),
            final(g).folds@ == old(g).folds@.push(f),
            final(g).edges@[self.id as int]@ == old(g).edges@[self.id as int]@.push(
                Edge::Fold { cell: r.cell, op: old(g).folds@.len() as usize }),
            final(g).fns@ == old(g).fns@,
            final(g).expands@ == old(g).expands@,
            final(g).refs@ == old(g).refs@.update(self.id as int, crate::graph::sat_inc(old(g).refs@[self.id as int])),
            final(g).cell_live@ == old(g).cell_live@.push(true),
            final(g).sources@ == old(g).sources@,
            final(g).generation@ == old(g).generation@,
            final(g).queues@ == old(g).queues@,
            final(g).queue_live@ == old(g).queue_live@,
    {
        let op = g.add_fold(f);
        let cell = g.add_cell(initial);
        g.subscribe(self.id, Edge::Fold { cell, op });
        g.retain(self.id);
        SignalShared { cell, source: Some(self.id), queue: None, intake: Intake::Pushed }
    }

    /// Splits a two-variant payload into two streams: `first` extracts the
    /// first variant (`None` on the second), `second` the second. One shared
    /// subscription serves both outputs and is dropped only once both are gone.
    pub fn split<T: Clone, F: Fn(&T) -> Option<T>, G: Fn(T, &T) -> T, H: Fn(&T) -> Vec<T>>(&self, g: &mut Graph<T, F, G, H>, first: F, second: F) -> (r: (Stream, Stream))
        requires
            self.handle_ok(old(g)),
            old(g).num_nodes() < usize::MAX - 1,
            forall|x: &T| first.requires((x,)),
            forall|x: &T| second.requires((x,)),
        ensures
            final(g).wf(),
            r.0.id == old(g).num_nodes(),
            r.1.id == old(g).num_nodes() + 1,
            final(g).num_nodes() == old(g).num_nodes() + 2,
            final(g).alive(r.0.id as int),
            final(g).alive(r.1.id as int),
            final(g).alive(self.id as int),
            final(g).sources@[r.0.id as int]@ == seq![self.id],
            final(g).sources@[r.1.id as int]@ == seq![self.id],
            final(g).fns@ == old(g).fns@.push(first).push(second),
            final(g).expands@ == old(g).expands@,
            final(g).edges@[self.id as int]@ == old(g).edges@[self.id as int]@.push(Edge::Split {
                first: r.0.id,
                second: r.1.id,
                first_op: old(g).fns@.len() as usize,
                second_op: (old(g).fns@.len() + 1) as usize,
            }),
            forall|i: int| 0 <= i < old(g).num_nodes() && i != self.id ==> final(g).edges@[i] == old(g).edges@[i],
            final(g).edges@[r.0.id as int]@.len() == 0,
            final(g).edges@[r.1.id as int]@.len() == 0,
            final(g).refs@ == old(g).refs@.update(self.id as int,
                crate::graph::sat_inc(crate::graph::sat_inc(old(g).refs@[self.id as int]))).push(1).push(1),
            forall|i: int| 0 <= i < old(g).num_nodes() ==> final(g).sources@[i] == old(g).sources@[i],
            final(g).generation@ == old(g).generation@.push(0).push(0),
            final(g).folds@ == old(g).folds@,
            final(g).cells@ == old(g).cells@,
            final(g).cell_live@ == old(g).cell_live@,
            final(g).queues@ == old(g).queues@,
            final(g).queue_live@ == old(g).queue_live@,
    {
        let op1 = g.add_fn(first);
        let op2 = g.add_fn(second);
        let out1 = self.output(g);
        let out2 = self.output(g);
        g.subscribe(self.id, Edge::Split { first: out1, second: out2, first_op: op1, second_op: op2 });
        (Stream { id: out1 }, Stream { id: out2 })
    }

    /// Follows the latest inner stream sent to this stream of streams: only
    /// the events of the inner stream delivered last reach the result.
    pub fn switch<T: Clone, F: Fn(&T) -> Option<T>, G: Fn(T, &T) -> T, H: Fn(&T) -> Vec<T>>(&self, g: &mut Graph<T, F, G, H>) -> (r: Stream)
        requires
            self.handle_ok(old(g)),
            old(g).num_nodes() < usize::MAX,
        ensures
            self.derived(old(g), final(g), r, Edge::SwitchOuter { out: r.id }),
            final(g).generation@[r.id as int] == 0,
            final(g).fns@ == old(g).fns@,
            final(g).expands@ == old(g).expands@,
            final(g).folds@ == old(g).folds@,
    {
        let out = self.output(g);
        g.subscribe(self.id, Edge::SwitchOuter { out });
        Stream { id: out }
    }

    /// Gives up this handle; a node left without handles or live derived
    /// nodes releases the nodes it was built from.
    pub fn release<T: Clone, F: Fn(&T) -> Option<T>, G: Fn(T, &T) -> T, H: Fn(&T) -> Vec<T>>(self, g: &mut Graph<T, F, G, H>)
        requires
            self.handle_ok(old(g)),
        ensures
            final(g).wf(),
            final(g).edges@ == old(g).edges@,
            old(g).refs@[self.id as int] > 0 ==> final(g).refs@[self.id as int] == old(g).refs@[self.id as int] - 1,
            crate::graph::release_refs(old(g).sources@, old(g).refs@, final(g).refs@, self.id as int),
            final(g).sources@ == old(g).sources@,
            final(g).generation@ == old(g).generation@,
            final(g).fns@ == old(g).fns@,
            final(g).expands@ == old(g).expands@,
            final(g).folds@ == old(g).folds@,
            final(g).cells@ == old(g).cells@,
            final(g).cell_live@ == old(g).cell_live@,
            final(g).queues@ == old(g).queues@,
            final(g).queue_live@ == old(g).queue_live@,
    {
        g.release(self.id);
    }
}


/// `r` is what folding `items` onto `acc` with `f`, left to right, may give.
pub open spec fn folded<T, G: Fn(T, &T) -> T>(f: G, acc: T, items: Seq<T>, r: T) -> bool
    decreases items.len(),
{
    if items.len() == 0 {
        r == acc
    } else {
        exists|mid: T| folded(f, acc, items.drop_last(), mid) && #[trigger] f.ensures((mid, &items.last()), r)
    }
}

/// Takes the queued items of `sig` into its cell and returns a copy of the
/// cell's value; see `SignalShared::sampled`.
pub(crate) fn take_in<T: Clone, F: Fn(&T) -> Option<T>, G: Fn(T, &T) -> T, H: Fn(&T) -> Vec<T>>(sig: SignalShared, g: &mut Graph<T, F, G, H>) -> (r: T)
    requires
        old(g).wf(),
        sig.signal_ok(old(g)),
    ensures
        sig.sampled(old(g), final(g), r),
    {
    match sig.queue {
        None => {},
        Some(q) => {
            match sig.intake {
                Intake::Pushed => {
                    assert(g.cells@ =~= old(g).cells@.update(sig.cell as int, g.cells@[sig.cell as int]));
                },
                Intake::Last => {
                    let mut items = g.drain_queue(q);
                    let n = items.len();
                    if n > 0 {
                        let last = items.swap_remove(n - 1);
                        let _ = g.swap_cell(sig.cell, last);
                    } else {
                        assert(g.cells@ =~= old(g).cells@.update(sig.cell as int, g.cells@[sig.cell as int]));
                    }
                },
                Intake::Folded { op } => {
                    let items = g.drain_queue(q);
                    let held = g.cells[sig.cell].clone();
                    let mut acc = g.swap_cell(sig.cell, held);
                    let ghost g1 = *g;
                    let mut i: usize = 0;
                    while i < items.len()
                        invariant
                            g.wf(),
                            old(g).wf(),
                            sig.signal_ok(old(g)),
                            sig.queue == Some(q),
                            *g == g1,
                            op < g.folds@.len(),
                            g.folds@ == old(g).folds@,
                            0 <= i <= items@.len(),
                            items@ == old(g).queues@[q as int]@,
                            folded(old(g).folds@[op as int], old(g).cells@[sig.cell as int], items@.take(i as int), acc),
                        decreases items@.len() - i,
                    {
                        let ghost prev = acc;
                        acc = (g.folds[op])(acc, &items[i]);
                        proof {
                            let t = items@.take(i + 1);
                            assert(t.drop_last() =~= items@.take(i as int));
                            assert(t.last() == items@[i as int]);
                            assert(old(g).folds@[op as int].ensures((prev, &t.last()), acc));
                        }
                        i = i + 1;
                    }
                    assert(items@.take(items@.len() as int) =~= items@);
                    let _ = g.swap_cell(sig.cell, acc);
                },
            }
        },
    }
    if sig.queue.is_none() {
        assert(g.cells@ =~= old(g).cells@.update(sig.cell as int, g.cells@[sig.cell as int]));
    }
    let r = g.cells[sig.cell].clone();
    assert(g.same_shape(old(g)));
    assert(g.edges@ == old(g).edges@);
    assert(g.generation@ == old(g).generation@);
    assert(sig.taken_in(old(g), g.cells@[sig.cell as int]));
    assert(g.cells@ == old(g).cells@.update(sig.cell as int, g.cells@[sig.cell as int]));
    assert(cloned(g.cells@[sig.cell as int], r));
    assert(g.wf());
    r
}

impl Receiver {
    pub open spec fn handle_ok<T: Clone, F: Fn(&T) -> Option<T>, G: Fn(T, &T) -> T, H: Fn(&T) -> Vec<T>>(&self, g: &Graph<T, F, G, H>) -> bool {
        g.wf() && self.queue < g.queues@.len()
    }

    /// Takes every item queued so far, oldest first, without waiting.
    pub fn try_iter<T: Clone, F: Fn(&T) -> Option<T>, G: Fn(T, &T) -> T, H: Fn(&T) -> Vec<T>>(&self, g: &mut Graph<T, F, G, H>) -> (r: Vec<T>)
        requires
            self.handle_ok(old(g)),
        ensures
            final(g).wf(),
            final(g).same_shape(old(g)),
            final(g).edges@ == old(g).edges@,
            final(g).cells@ == old(g).cells@,
            r@ == old(g).queues@[self.queue as int]@,
            final(g).queues@[self.queue as int]@.len() == 0,
            final(g).queues@ == old(g).queues@.update(self.queue as int, final(g).queues@[self.queue as int]),
            final(g).generation@ == old(g).generation@,
    {
        g.drain_queue(self.queue)
    }

    /// Closes the queue: the stream's subscription to it is pruned at the
    /// stream's next event.
    pub fn close<T: Clone, F: Fn(&T) -> Option<T>, G: Fn(T, &T) -> T, H: Fn(&T) -> Vec<T>>(self, g: &mut Graph<T, F, G, H>)
        requires
            self.handle_ok(old(g)),
        ensures
            final(g).wf(),
            final(g).edges@ == old(g).edges@,
            !final(g).queue_live@[self.queue as int],
            final(g).queue_live@ == old(g).queue_live@.update(self.queue as int, false),
            final(g).refs@ == old(g).refs@,
            final(g).sources@ == old(g).sources@,
            final(g).generation@ == old(g).generation@,
            final(g).fns@ == old(g).fns@,
            final(g).expands@ == old(g).expands@,
            final(g).folds@ == old(g).folds@,
            final(g).cells@ == old(g).cells@,
            final(g).cell_live@ == old(g).cell_live@,
            final(g).queues@ == old(g).queues@,
    {
        g.close_queue(self.queue);
    }
}

impl SignalShared {
    pub open spec fn handle_ok<T: Clone, F: Fn(&T) -> Option<T>, G: Fn(T, &T) -> T, H: Fn(&T) -> Vec<T>>(&self, g: &Graph<T, F, G, H>) -> bool {
        &&& g.wf()
        &&& self.signal_ok(g)
        &&& match self.source {
            Some(s) => s < g.num_nodes(),
            None => true,
        }
    }

    /// The signal's cell, queue and accumulating function exist in `g`.
    pub open spec fn signal_ok<T: Clone, F: Fn(&T) -> Option<T>, G: Fn(T, &T) -> T, H: Fn(&T) -> Vec<T>>(&self, g: &Graph<T, F, G, H>) -> bool {
        &&& self.cell < g.cells@.len()
        &&& match self.queue {
            Some(q) => q < g.queues@.len() && self.intake != Intake::Pushed,
            None => self.intake == Intake::Pushed,
        }
        &&& match self.intake {
            Intake::Folded { op } => op < g.folds@.len(),
            _ => true,
        }
    }

    /// The value the cell holds after a sample has taken in the queued items.
    pub open spec fn taken_in<T: Clone, F: Fn(&T) -> Option<T>, G: Fn(T, &T) -> T, H: Fn(&T) -> Vec<T>>(
        &self,
        before: &Graph<T, F, G, H>,
        v: T,
    ) -> bool {
        let held = before.cells@[self.cell as int];
        match self.queue {
            None => v == held,
            Some(q) => {
                let items = before.queues@[q as int]@;
                match self.intake {
                    Intake::Pushed => v == held,
                    Intake::Last => v == (if items.len() == 0 { held } else { items.last() }),
                    Intake::Folded { op } => folded(before.folds@[op as int], held, items, v),
                }
            },
        }
    }

    /// What one sample returning `r` does, taking the graph from `before` to
    /// `after`: the queued items are taken in, the cell holds the result, the
    /// queue is empty, and nothing else changes.
    pub open spec fn sampled<T: Clone, F: Fn(&T) -> Option<T>, G: Fn(T, &T) -> T, H: Fn(&T) -> Vec<T>>(
        &self,
        before: &Graph<T, F, G, H>,
        after: &Graph<T, F, G, H>,
        r: T,
    ) -> bool {
        &&& after.wf()
        &&& after.same_shape(before)
        &&& after.edges@ == before.edges@
        &&& after.generation@ == before.generation@
        &&& after.cells@ == before.cells@.update(self.cell as int, after.cells@[self.cell as int])
        &&& self.taken_in(before, after.cells@[self.cell as int])
        &&& cloned(after.cells@[self.cell as int], r)
        &&& match self.queue {
            Some(q) => after.queues@ == before.queues@.update(q as int, after.queues@[q as int])
                && after.queues@[q as int]@.len() == 0,
            None => after.queues@ == before.queues@,
        }
    }

    /// Samples the signal. A channel-fed signal first takes in, without
    /// waiting, every item queued since the last sample: it keeps the last one
    /// (`from_channel`) or folds them onto the held value (`fold_channel`).
    /// With nothing queued the held value is returned unchanged.
    pub fn sample<T: Clone, F: Fn(&T) -> Option<T>, G: Fn(T, &T) -> T, H: Fn(&T) -> Vec<T>>(&self, g: &mut Graph<T, F, G, H>) -> (r: T)
        requires
            self.handle_ok(old(g)),
        ensures
            self.sampled(old(g), final(g), r),
            final(g).wf(),
            final(g).same_shape(old(g)),
            final(g).edges@ == old(g).edges@,
            final(g).cells@ == old(g).cells@.update(self.cell as int, final(g).cells@[self.cell as int]),
            self.taken_in(old(g), final(g).cells@[self.cell as int]),
            cloned(final(g).cells@[self.cell as int], r),
            match self.queue {
                Some(q) => final(g).queues@[q as int]@.len() == 0,
                None => final(g).queues@ == old(g).queues@,
            },
    {
        take_in(*self, g)
    }

    /// Samples the signal and hands the value to `cb`, returning its result.
    pub fn sample_with<T: Clone, F: Fn(&T) -> Option<T>, G: Fn(T, &T) -> T, H: Fn(&T) -> Vec<T>, R, C: FnOnce(&T) -> R>(
        &self,
        g: &mut Graph<T, F, G, H>,
        cb: C,
    ) -> (r: R)
        requires
            self.handle_ok(old(g)),
            forall|x: &T| cb.requires((x,)),
        ensures
            exists|x: T| self.sampled(old(g), final(g), x) && cb.ensures((&x,), r),
    {
        let x = self.sample(g);
        cb(&x)
    }

    /// Maps this signal through `f`; nothing is cached, every sample of the
    /// result samples this signal again.
    pub fn map<M>(&self, f: M) -> (r: SharedMap<M>)
        ensures
            r.signal == *self,
            r.f == f,
    {
        SharedMap { signal: *self, f }
    }

    /// Samples the signal every time `trigger` fires: the result carries
    /// `f(sample, event)`, where the sample is taken at the moment of the
    /// event, after taking in what the signal's channel queued by then.
    pub fn snapshot<T: Clone, F: Fn(&T) -> Option<T>, G: Fn(T, &T) -> T, H: Fn(&T) -> Vec<T>>(&self, g: &mut Graph<T, F, G, H>, trigger: &Stream, f: G) -> (r: Stream)
        requires
            self.handle_ok(old(g)),
            trigger.handle_ok(old(g)),
            old(g).num_nodes() < usize::MAX,
            forall|a: T, x: &T| f.requires((a, x)),
        ensures
            trigger.derived(old(g), final(g), r, Edge::Snapshot { to: r.id, signal: *self, op: old(g).folds@.len() as usize }),
            final(g).folds@ == old(g).folds@.push(f),
            final(g).fns@ == old(g).fns@,
            final(g).expands@ == old(g).expands@,
    {
        let op = g.add_fold(f);
        let out = trigger.output(g);
        g.subscribe(trigger.id, Edge::Snapshot { to: out, signal: *self, op });
        Stream { id: out }
    }

    /// Returns the index of the storage cell and drops the signal's hold on
    /// the stream that writes it, which may release that chain.
    pub fn into_inner<T: Clone, F: Fn(&T) -> Option<T>, G: Fn(T, &T) -> T, H: Fn(&T) -> Vec<T>>(self, g: &mut Graph<T, F, G, H>) -> (r: usize)
        requires
            self.handle_ok(old(g)),
        ensures
            final(g).wf(),
            r == self.cell,
            final(g).edges@ == old(g).edges@,
            final(g).cells@ == old(g).cells@,
            final(g).cell_live@ == old(g).cell_live@,
            final(g).queues@ == old(g).queues@,
            final(g).queue_live@ == old(g).queue_live@,
            match self.source {
                Some(s) => crate::graph::release_refs(old(g).sources@, old(g).refs@, final(g).refs@, s as int),
                None => final(g).refs@ == old(g).refs@,
            },
    {
        if let Some(s) = self.source {
            g.release(s);
        }
        self.cell
    }

    /// Drops the signal: the subscription that writes its cell is pruned at
    /// the stream's next event, and the hold on that stream is given up.
    pub fn release<T: Clone, F: Fn(&T) -> Option<T>, G: Fn(T, &T) -> T, H: Fn(&T) -> Vec<T>>(self, g: &mut Graph<T, F, G, H>)
        requires
            self.handle_ok(old(g)),
        ensures
            final(g).wf(),
            final(g).edges@ == old(g).edges@,
            final(g).cells@ == old(g).cells@,
            !final(g).cell_live@[self.cell as int],
            final(g).cell_live@ == old(g).cell_live@.update(self.cell as int, false),
            final(g).queues@ == old(g).queues@,
            final(g).queue_live@ == old(g).queue_live@,
            match self.source {
                Some(s) => crate::graph::release_refs(old(g).sources@, old(g).refs@, final(g).refs@, s as int),
                None => final(g).refs@ == old(g).refs@,
            },
    {
        g.close_cell(self.cell);
        if let Some(s) = self.source {
            g.release(s);
        }
    }
}

/// A signal of the graph read through a function.
pub struct SharedMap<M> {
    pub signal: SignalShared,
    pub f: M,
}

impl<M> SharedMap<M> {
    /// Samples the underlying signal and applies `f` to the value.
    pub fn sample<T: Clone, F: Fn(&T) -> Option<T>, G: Fn(T, &T) -> T, H: Fn(&T) -> Vec<T>, R>(&self, g: &mut Graph<T, F, G, H>) -> (r: R)
        where M: Fn(&T) -> R,
        requires
            self.signal.handle_ok(old(g)),
            forall|x: &T| self.f.requires((x,)),
        ensures
            exists|x: T| self.signal.sampled(old(g), final(g), x) && self.f.ensures((&x,), r),
    {
        let x = self.signal.sample(g);
        (self.f)(&x)
    }
}

/// Filtering twice by the same predicate is filtering once.
pub proof fn lemma_filter_idempotent<A>(s: Seq<A>, p: spec_fn(A) -> bool)
    ensures
        s.filter(p).filter(p) == s.filter(p),
    decreases s.len(),
{
    reveal(Seq::filter);
    if s.len() > 0 {
        lemma_filter_idempotent(s.drop_last(), p);
        let f = s.drop_last().filter(p);
        if p(s.last()) {
            assert(s.filter(p).drop_last() =~= f);
        } else {
        }
    }
}

} // verus!
