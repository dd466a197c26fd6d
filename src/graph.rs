use vstd::prelude::*;
use crate::route::{accepts_generation, split_route, SplitAction};

verus! {

/// One subscription registered on a node: what happens to each event that
/// reaches the node.
#[allow(inconsistent_fields)]
#[derive(Clone, Copy, Debug, PartialEq, Eq, Structural)]
pub enum Edge {
    /// Forwards `fns[op](v)` to `to` when it is `Some`.
    Transform { to: usize, op: usize },
    /// Forwards `v` itself to `to` when `fns[op](v)` is `Some`.
    Filter { to: usize, op: usize },
    /// Forwards `v` unchanged (one side of a merge).
    Forward { to: usize },
    /// Sends `fns[first_op](v)` to `first` when it is `Some`, else
    /// `fns[second_op](v)` to `second`.
    Split { first: usize, second: usize, first_op: usize, second_op: usize },
    /// On a stream of streams: registers the inner stream on `out`.
    SwitchOuter { out: usize },
    /// On an inner stream of a switch: forwards to `out` while `generation`
    /// is the switch's current one.
    SwitchInner { out: usize, generation: u64 },
    /// Overwrites `cells[cell]` with `v`, when `fns[op](v)` is `Some` if `op` is given.
    Hold { cell: usize, op: Option<usize> },
    /// Replaces `cells[cell]` with `folds[op](cells[cell], v)`.
    Fold { cell: usize, op: usize },
    /// Appends `v` to `queues[queue]`.
    Queue { queue: usize },
    /// Forwards each value of `expands[op](v)` to `to`, in order.
    Expand { to: usize, op: usize },
    /// Calls `fns[op](v)` for its side effects only; never removed.
    Inspect { op: usize },
    /// Samples `signal` when the event fires and forwards
    /// `folds[op](sample, v)` to `to`.
    Snapshot { to: usize, signal: SignalShared, op: usize },
}

/// The propagation graph: every node's registry and liveness count, the
/// functions the combinators were built with, and the storage cells and queues
/// that signals and receivers read.
pub struct Graph<T, F, G, H> {
    pub edges: Vec<Vec<Edge>>,
    pub refs: Vec<u64>,
    pub sources: Vec<Vec<usize>>,
    pub generation: Vec<u64>,
    pub fns: Vec<F>,
    pub folds: Vec<G>,
    pub expands: Vec<H>,
    pub cells: Vec<T>,
    pub cell_live: Vec<bool>,
    pub queues: Vec<Vec<T>>,
    pub queue_live: Vec<bool>,
}

/// The entry point of a chain of streams.
#[derive(Clone, Copy, Debug, PartialEq, Eq, Structural)]
pub struct Sink {
    pub id: usize,
}

/// A handle on a node of the graph.
#[derive(Clone, Copy, Debug, PartialEq, Eq, Structural)]
pub struct Stream {
    pub id: usize,
}

/// The reading end of a stream's queue.
#[derive(Clone, Copy, Debug, PartialEq, Eq, Structural)]
pub struct Receiver {
    pub queue: usize,
}

/// A signal that reads a storage cell kept up to date by a stream.
#[derive(Clone, Copy, Debug, PartialEq, Eq, Structural)]
pub struct SignalShared {
    pub cell: usize,
    pub source: Option<usize>,
    pub queue: Option<usize>,
    pub intake: crate::stream::Intake,
}

impl<T: Clone, F: Fn(&T) -> Option<T>, G: Fn(T, &T) -> T, H: Fn(&T) -> Vec<T>> Graph<T, F, G, H> {
    pub open spec fn num_nodes(&self) -> nat {
        self.edges@.len()
    }

    /// A node is alive while some handle or some live derived node holds it.
    pub open spec fn alive(&self, n: int) -> bool {
        0 <= n < self.refs@.len() && self.refs@[n] > 0
    }

    pub open spec fn edge_ok(&self, e: Edge) -> bool {
        let n = self.num_nodes();
        match e {
            Edge::Transform { to, op } => to < n && op < self.fns@.len(),
            Edge::Filter { to, op } => to < n && op < self.fns@.len(),
            Edge::Forward { to } => to < n,
            Edge::Split { first, second, first_op, second_op } => first < n && second < n
                && first_op < self.fns@.len() && second_op < self.fns@.len(),
            Edge::SwitchOuter { out } => out < n,
            Edge::SwitchInner { out, generation } => out < n,
            Edge::Hold { cell, op } => cell < self.cells@.len() && match op {
                Some(o) => o < self.fns@.len(),
                None => true,
            },
            Edge::Fold { cell, op } => cell < self.cells@.len() && op < self.folds@.len(),
            Edge::Queue { queue } => queue < self.queues@.len(),
            Edge::Inspect { op } => op < self.fns@.len(),
            Edge::Expand { to, op } => to < n && op < self.expands@.len(),
            Edge::Snapshot { to, signal, op } => to < n && signal.signal_ok(self) && op < self.folds@.len(),
        }
    }

    /// Whether a subscription still has somewhere to deliver.
    pub open spec fn edge_live(&self, e: Edge) -> bool {
        match e {
            Edge::Transform { to, op } => self.alive(to as int),
            Edge::Filter { to, op } => self.alive(to as int),
            Edge::Forward { to } => self.alive(to as int),
            Edge::Split { first, second, first_op, second_op } =>
                self.alive(first as int) || self.alive(second as int),
            Edge::SwitchOuter { out } => self.alive(out as int),
            Edge::SwitchInner { out, generation } =>
                self.alive(out as int) && generation == self.generation@[out as int],
            Edge::Hold { cell, op } => self.cell_live@[cell as int],
            Edge::Fold { cell, op } => self.cell_live@[cell as int],
            Edge::Queue { queue } => self.queue_live@[queue as int],
            Edge::Inspect { op } => true,
            Edge::Expand { to, op } => self.alive(to as int),
            Edge::Snapshot { to, signal, op } => self.alive(to as int),
        }
    }

    /// Whether a subscription survives the delivery of an inner stream.
    pub open spec fn outer_kept(&self, e: Edge) -> bool {
        match e {
            Edge::SwitchOuter { out } => self.alive(out as int),
            _ => true,
        }
    }

    pub open spec fn fns_total(&self) -> bool {
        forall|i: int, x: &T| 0 <= i < self.fns@.len() ==> #[trigger] self.fns@[i].requires((x,))
    }

    pub open spec fn expands_total(&self) -> bool {
        forall|i: int, x: &T| 0 <= i < self.expands@.len() ==> #[trigger] self.expands@[i].requires((x,))
    }

    pub open spec fn folds_total(&self) -> bool {
        forall|i: int, a: T, x: &T| 0 <= i < self.folds@.len() ==> #[trigger] self.folds@[i].requires((a, x))
    }

    pub open spec fn wf(&self) -> bool {
        let n = self.num_nodes();
        &&& self.refs@.len() == n
        &&& self.sources@.len() == n
        &&& self.generation@.len() == n
        &&& self.cells@.len() == self.cell_live@.len()
        &&& self.queues@.len() == self.queue_live@.len()
        &&& forall|i: int, k: int| 0 <= i < n && 0 <= k < self.sources@[i]@.len()
            ==> #[trigger] self.sources@[i]@[k] < i
        &&& forall|i: int, k: int| 0 <= i < n && 0 <= k < self.edges@[i]@.len()
            ==> self.edge_ok(#[trigger] self.edges@[i]@[k])
        &&& self.fns_total()
        &&& self.folds_total()
        &&& self.expands_total()
    }

    /// Node `n`'s registry is a single subscription, to queue `q`, which is open.
    pub open spec fn feeds_queue(&self, n: int, q: usize) -> bool {
        &&& 0 <= n < self.num_nodes()
        &&& q < self.queues@.len()
        &&& self.edges@[n]@.len() == 1
        &&& self.edges@[n]@[0] == Edge::Queue { queue: q }
        &&& self.queue_live@[q as int]
    }

    /// What taking in an inner stream does for the subscriptions `es` of a
    /// stream of streams, in order: each live switch moves its output to the
    /// next generation and contributes one subscription of that generation to
    /// the inner stream. Returns those subscriptions and the new generations.
    pub open spec fn switch_installs(&self, es: Seq<Edge>) -> (Seq<Edge>, Seq<u64>)
        decreases es.len(),
    {
        if es.len() == 0 {
            (Seq::empty(), self.generation@)
        } else {
            let prev = self.switch_installs(es.drop_last());
            match es.last() {
                Edge::SwitchOuter { out } => if self.alive(out as int) {
                    let ng = sat_inc(prev.1[out as int]);
                    (prev.0.push(Edge::SwitchInner { out, generation: ng }), prev.1.update(out as int, ng))
                } else {
                    prev
                },
                _ => prev,
            }
        }
    }

    /// A live switch moves its output to a newer generation.
    pub open spec fn advances(&self, after: &Self, e: Edge) -> bool {
        match e {
            Edge::SwitchOuter { out } => self.alive(out as int) && self.generation@[out as int] < u64::MAX
                ==> after.generation@[out as int] > self.generation@[out as int],
            _ => true,
        }
    }

    /// What one firing of a live `Hold` or `Fold` subscription on `v` does to
    /// its cell: a hold overwrites it with `v` (when the predicate, if any,
    /// accepts `v`), a fold replaces it with the accumulating function applied
    /// to the old value and `v`. Other cells and every queue stay as they were.
    pub open spec fn stored(&self, after: &Self, e: Edge, v: T) -> bool {
        match e {
            Edge::Hold { cell, op } => {
                &&& after.queues@ == self.queues@
                &&& after.cells@.len() == self.cells@.len()
                &&& forall|c: int| 0 <= c < self.cells@.len() && c != cell ==> after.cells@[c] == self.cells@[c]
                &&& match op {
                    None => cloned(v, after.cells@[cell as int]),
                    Some(o) => exists|r: Option<T>| #[trigger] self.fns@[o as int].ensures((&v,), r) && match r {
                        Some(x) => cloned(v, after.cells@[cell as int]),
                        None => after.cells@[cell as int] == self.cells@[cell as int],
                    },
                }
            },
            Edge::Fold { cell, op } => {
                &&& after.queues@ == self.queues@
                &&& after.cells@.len() == self.cells@.len()
                &&& forall|c: int| 0 <= c < self.cells@.len() && c != cell ==> after.cells@[c] == self.cells@[c]
                &&& self.folds@[op as int].ensures((self.cells@[cell as int], &v), after.cells@[cell as int])
            },
            _ => true,
        }
    }

    /// Every registry of `after` holds the same subscriptions as in `self`.
    pub open spec fn same_registries(&self, after: &Self) -> bool {
        &&& after.edges@.len() == self.edges@.len()
        &&& forall|m: int| 0 <= m < self.edges@.len() ==> #[trigger] after.edges@[m]@ == self.edges@[m]@
    }

    /// No subscription registered on node `n` has a live target.
    pub open spec fn none_live(&self, n: int) -> bool {
        forall|k: int| 0 <= k < self.edges@[n]@.len() ==> !self.edge_live(#[trigger] self.edges@[n]@[k])
    }

    /// `after` is `before` with one copy of `v` appended to queue `q`, and
    /// every other queue and every cell as they were.
    pub open spec fn appended(&self, after: &Self, q: int, v: T) -> bool {
        &&& after.queues@.len() == self.queues@.len()
        &&& after.queues@[q]@.len() == self.queues@[q]@.len() + 1
        &&& after.queues@[q]@.drop_last() == self.queues@[q]@
        &&& cloned(v, after.queues@[q]@.last())
        &&& forall|p: int| 0 <= p < self.queues@.len() && p != q ==> after.queues@[p] == self.queues@[p]
        &&& after.cells@ == self.cells@
    }

    /// What one firing of a live forwarding subscription on `v` does when its
    /// target feeds queue `q` alone: a `Transform` queues the function's
    /// result if there is one, a `Filter` queues `v` if the function accepts
    /// it, and a `Forward` queues `v`. (The general case, every kind of
    /// subscription at any depth, is `fire_rel`.)
    pub open spec fn passes_one(&self, after: &Self, e: Edge, v: T, q: int) -> bool {
        match e {
            Edge::Transform { to, op } => exists|r: Option<T>| #[trigger] self.fns@[op as int].ensures((&v,), r) && match r {
                Some(x) => self.appended(after, q, x),
                None => after.queues@ == self.queues@ && after.cells@ == self.cells@,
            },
            Edge::Filter { to, op } => exists|r: Option<T>| #[trigger] self.fns@[op as int].ensures((&v,), r) && match r {
                Some(x) => self.appended(after, q, v),
                None => after.queues@ == self.queues@ && after.cells@ == self.cells@,
            },
            Edge::Forward { to } => self.appended(after, q, v),
            _ => true,
        }
    }

    /// The target node of a subscription that forwards to one node.
    pub open spec fn target(e: Edge) -> int {
        match e {
            Edge::Transform { to, op } => to as int,
            Edge::Filter { to, op } => to as int,
            Edge::Forward { to } => to as int,
            Edge::SwitchOuter { out } => out as int,
            Edge::SwitchInner { out, generation } => out as int,
            Edge::Snapshot { to, signal, op } => to as int,
            _ => -1,
        }
    }

    /// `after` agrees with `self` everywhere but in the registries.
    pub open spec fn same_but_edges(&self, after: &Self) -> bool {
        &&& after.refs@ == self.refs@
        &&& after.sources@ == self.sources@
        &&& after.generation@ == self.generation@
        &&& after.fns@ == self.fns@
        &&& after.folds@ == self.folds@
        &&& after.expands@ == self.expands@
        &&& after.cells@ == self.cells@
        &&& after.cell_live@ == self.cell_live@
        &&& after.queues@ == self.queues@
        &&& after.queue_live@ == self.queue_live@
    }

    /// `after` agrees with `self` everywhere but in the storage cells.
    pub open spec fn same_but_cells(&self, after: &Self) -> bool {
        &&& after.edges@ == self.edges@
        &&& after.refs@ == self.refs@
        &&& after.sources@ == self.sources@
        &&& after.generation@ == self.generation@
        &&& after.fns@ == self.fns@
        &&& after.folds@ == self.folds@
        &&& after.expands@ == self.expands@
        &&& after.cell_live@ == self.cell_live@
        &&& after.queues@ == self.queues@
        &&& after.queue_live@ == self.queue_live@
    }

    /// `after` agrees with `self` everywhere but in the queues.
    pub open spec fn same_but_queues(&self, after: &Self) -> bool {
        &&& after.edges@ == self.edges@
        &&& after.refs@ == self.refs@
        &&& after.sources@ == self.sources@
        &&& after.generation@ == self.generation@
        &&& after.fns@ == self.fns@
        &&& after.folds@ == self.folds@
        &&& after.expands@ == self.expands@
        &&& after.cells@ == self.cells@
        &&& after.cell_live@ == self.cell_live@
        &&& after.queue_live@ == self.queue_live@
    }

    /// What firing subscription `e` on event `v` may do, taking the graph from
    /// `self` to `after`. A subscription without a live target does nothing.
    /// A live one computes its function once and passes the result on by a
    /// delivery to its target (`deliver_rel`), or writes its cell or queue.
    pub open spec fn fire_rel(&self, after: &Self, e: Edge, v: T, fuel: nat) -> bool
        decreases fuel, 3nat,
    {
        if !self.edge_live(e) {
            *after == *self
        } else {
            match e {
                Edge::Transform { to, op } => exists|r: Option<T>| #[trigger] self.fns@[op as int].ensures((&v,), r)
                    && match r {
                        Some(x) => self.deliver_rel(after, to as int, x, fuel),
                        None => *after == *self,
                    },
                Edge::Filter { to, op } => exists|r: Option<T>| #[trigger] self.fns@[op as int].ensures((&v,), r)
                    && match r {
                        Some(x) => self.deliver_rel(after, to as int, v, fuel),
                        None => *after == *self,
                    },
                Edge::Forward { to } => self.deliver_rel(after, to as int, v, fuel),
                Edge::Split { first, second, first_op, second_op } =>
                    exists|r: Option<T>| #[trigger] self.fns@[first_op as int].ensures((&v,), r) && match r {
                        Some(x) => if self.alive(first as int) {
                            self.deliver_rel(after, first as int, x, fuel)
                        } else {
                            *after == *self
                        },
                        None => if self.alive(second as int) {
                            exists|r2: Option<T>| #[trigger] self.fns@[second_op as int].ensures((&v,), r2) && match r2 {
                                Some(y) => self.deliver_rel(after, second as int, y, fuel),
                                None => *after == *self,
                            }
                        } else {
                            *after == *self
                        },
                    },
                Edge::SwitchOuter { out } => *after == *self,
                Edge::SwitchInner { out, generation } => self.deliver_rel(after, out as int, v, fuel),
                Edge::Hold { cell, op } => self.stored(after, e, v) && self.same_but_cells(after),
                Edge::Fold { cell, op } => self.stored(after, e, v) && self.same_but_cells(after),
                Edge::Queue { queue } => self.appended(after, queue as int, v) && self.same_but_queues(after),
                Edge::Inspect { op } => *after == *self,
                Edge::Expand { to, op } => exists|outs: Vec<T>| #[trigger] self.expands@[op as int].ensures((&v,), outs)
                    && exists|st: Seq<Self>| #![trigger st.len()] self.expand_steps(after, to as int, outs@, fuel, st),
                Edge::Snapshot { to, signal, op } => exists|mid: Self, c: T, r: T| #![trigger signal.sampled(self, &mid, c), self.folds@[op as int].ensures((c, &v), r)]
                    signal.sampled(self, &mid, c) && self.folds@[op as int].ensures((c, &v), r)
                    && mid.deliver_rel(after, to as int, r, fuel),
            }
        }
    }

    /// What delivering `v` to node `n` may do, taking the graph from `self` to
    /// `after`: the node's subscriptions fire one after the other, in
    /// registration order, each on the graph the previous one left (with the
    /// node's own registry set aside meanwhile); then the registry holds
    /// exactly the subscriptions that had a live target, in the same order.
    /// With no fuel left nothing happens.
    pub open spec fn deliver_rel(&self, after: &Self, n: int, v: T, fuel: nat) -> bool
        decreases fuel, 1nat,
    {
        if fuel == 0 {
            *after == *self
        } else {
            &&& 0 <= n < self.num_nodes()
            &&& exists|st: Seq<Self>| #![trigger st.len()] self.delivery_steps(after, n, v, fuel, st)
        }
    }

    /// The states `st` that delivering each of `outs` to node `to`, in order,
    /// passes through.
    pub open spec fn expand_steps(&self, after: &Self, to: int, outs: Seq<T>, fuel: nat, st: Seq<Self>) -> bool
        decreases fuel, 2nat,
    {
        &&& st.len() == outs.len() + 1
        &&& st[0] == *self
        &&& st[outs.len() as int] == *after
        &&& forall|k: int| #![trigger st[k]] 0 <= k < outs.len() ==> st[k].deliver_rel(&st[k + 1], to, outs[k], fuel)
    }

    /// The states `st` that a delivery of `v` to node `n` passes through, one
    /// per subscription fired; see `deliver_rel`.
    pub open spec fn delivery_steps(&self, after: &Self, n: int, v: T, fuel: nat, st: Seq<Self>) -> bool
        decreases fuel, 0nat,
    {
        let es = self.edges@[n]@;
        &&& fuel > 0
        &&& st.len() == es.len() + 1
        &&& st[0].edges@ == self.edges@.update(n, st[0].edges@[n])
        &&& st[0].edges@[n]@.len() == 0
        &&& self.same_but_edges(&st[0])
        &&& forall|k: int| #![trigger st[k]] 0 <= k < es.len() ==> st[k].fire_rel(&st[k + 1], es[k], v, (fuel - 1) as nat)
        &&& after.edges@ == st[es.len() as int].edges@.update(n, after.edges@[n])
        &&& after.edges@[n]@ == es.filter(|e: Edge| self.edge_live(e))
        &&& st[es.len() as int].same_but_edges(after)
    }

    /// The parts of the graph that propagation leaves as they are.
    pub open spec fn same_shape(&self, other: &Self) -> bool {
        &&& self.edges@.len() == other.edges@.len()
        &&& self.refs@ == other.refs@
        &&& self.sources@ == other.sources@
        &&& self.fns@ == other.fns@
        &&& self.folds@ == other.folds@
        &&& self.expands@ == other.expands@
        &&& self.cells@.len() == other.cells@.len()
        &&& self.cell_live@ == other.cell_live@
        &&& self.queues@.len() == other.queues@.len()
        &&& self.queue_live@ == other.queue_live@
    }

    /// Creates an empty graph.
    pub fn new() -> (g: Self)
        ensures
            g.wf(),
            g.num_nodes() == 0,
            g.fns@.len() == 0,
            g.folds@.len() == 0,
            g.cells@.len() == 0,
            g.queues@.len() == 0,
    {
        Graph {
            edges: Vec::new(),
            refs: Vec::new(),
            sources: Vec::new(),
            generation: Vec::new(),
            fns: Vec::new(),
            folds: Vec::new(),
            expands: Vec::new(),
            cells: Vec::new(),
            cell_live: Vec::new(),
            queues: Vec::new(),
            queue_live: Vec::new(),
        }
    }

    /// Whether node `n` is alive.
    pub fn is_alive(&self, n: usize) -> (r: bool)
        requires
            self.wf(),
        ensures
            r == self.alive(n as int),
    {
        n < self.refs.len() && self.refs[n] > 0
    }

    /// Adds one reference to node `n`.
    pub(crate) fn retain(&mut self, n: usize)
        requires
            old(self).wf(),
            n < old(self).num_nodes(),
        ensures
            final(self).wf(),
            final(self).edges@ == old(self).edges@,
            final(self).sources@ == old(self).sources@,
            final(self).generation@ == old(self).generation@,
            final(self).fns@ == old(self).fns@,
            final(self).expands@ == old(self).expands@,
            final(self).folds@ == old(self).folds@,
            final(self).cells@ == old(self).cells@,
            final(self).cell_live@ == old(self).cell_live@,
            final(self).queues@ == old(self).queues@,
            final(self).queue_live@ == old(self).queue_live@,
            final(self).refs@ == old(self).refs@.update(n as int, sat_inc(old(self).refs@[n as int])),
    {
        let c = self.refs[n];
        self.refs.set(n, c.saturating_add(1));
        assert(self.edge_ok_all_kept(old(self)));
    }

    pub open spec fn edge_ok_all_kept(&self, before: &Self) -> bool {
        forall|i: int, k: int| 0 <= i < before.num_nodes() && 0 <= k < before.edges@[i]@.len()
            ==> self.edge_ok(#[trigger] before.edges@[i]@[k])
    }

    /// Appends a node that holds the nodes in `srcs`, with one reference for
    /// the handle that the caller gets.
    pub(crate) fn add_node(&mut self, srcs: Vec<usize>) -> (id: usize)
        requires
            old(self).wf(),
            old(self).num_nodes() < usize::MAX,
            forall|k: int| 0 <= k < srcs@.len() ==> #[trigger] srcs@[k] < old(self).num_nodes(),
        ensures
            final(self).wf(),
            id == old(self).num_nodes(),
            final(self).num_nodes() == id + 1,
            final(self).edges@.len() == id + 1,
            forall|i: int| 0 <= i < id ==> final(self).edges@[i] == old(self).edges@[i],
            final(self).edges@[id as int]@.len() == 0,
            final(self).refs@[id as int] == 1,
            final(self).refs@ == bumped(old(self).refs@, srcs@).push(1),
            final(self).generation@ == old(self).generation@.push(0),
            final(self).sources@[id as int]@ == srcs@,
            final(self).generation@[id as int] == 0,
            forall|i: int| 0 <= i < id && !srcs@.contains(i as usize) ==> final(self).refs@[i] == old(self).refs@[i],
            forall|j: int| 0 <= j < srcs@.len() ==> final(self).refs@[#[trigger] srcs@[j] as int] > 0,
            forall|i: int| 0 <= i < id ==> final(self).generation@[i] == old(self).generation@[i],
            forall|i: int| 0 <= i < id ==> final(self).sources@[i] == old(self).sources@[i],
            final(self).fns@ == old(self).fns@,
            final(self).expands@ == old(self).expands@,
            final(self).folds@ == old(self).folds@,
            final(self).cells@ == old(self).cells@,
            final(self).cell_live@ == old(self).cell_live@,
            final(self).queues@ == old(self).queues@,
            final(self).queue_live@ == old(self).queue_live@,
    {
        let id = self.edges.len();
        let mut k: usize = 0;
        while k < srcs.len()
            invariant
                self.wf(),
                id == self.num_nodes(),
                id == old(self).num_nodes(),
                0 <= k <= srcs@.len(),
                forall|j: int| 0 <= j < srcs@.len() ==> #[trigger] srcs@[j] < id,
                self.edges@ == old(self).edges@,
                self.sources@ == old(self).sources@,
                self.generation@ == old(self).generation@,
                self.fns@ == old(self).fns@,
                self.folds@ == old(self).folds@,
                self.expands@ == old(self).expands@,
                self.cells@ == old(self).cells@,
                self.cell_live@ == old(self).cell_live@,
                self.queues@ == old(self).queues@,
                self.queue_live@ == old(self).queue_live@,
                forall|i: int| 0 <= i < id && !srcs@.contains(i as usize) ==> self.refs@[i] == old(self).refs@[i],
                forall|j: int| 0 <= j < k ==> self.refs@[#[trigger] srcs@[j] as int] > 0,
                self.refs@ == bumped(old(self).refs@, srcs@.take(k as int)),
            decreases srcs@.len() - k,
        {
            let s = srcs[k];
            self.retain(s);
            assert(srcs@.contains(s));
            assert(srcs@.take(k + 1).drop_last() =~= srcs@.take(k as int));
            k = k + 1;
        }
        assert(srcs@.take(srcs@.len() as int) =~= srcs@);
        self.edges.push(Vec::new());
        self.refs.push(1);
        self.sources.push(srcs);
        self.generation.push(0);
        assert forall|i: int, k: int| 0 <= i < self.num_nodes() && 0 <= k < self.edges@[i]@.len()
            implies self.edge_ok(#[trigger] self.edges@[i]@[k]) by {
            assert(i < id);
            assert(old(self).edge_ok(old(self).edges@[i]@[k]));
        }
        id
    }

    /// Drops one reference to node `n`; a node whose count reaches zero drops
    /// its references to the nodes it was derived from.
    pub fn release(&mut self, n: usize)
        requires
            old(self).wf(),
            n < old(self).num_nodes(),
        ensures
            final(self).wf(),
            final(self).edges@ == old(self).edges@,
            final(self).sources@ == old(self).sources@,
            final(self).generation@ == old(self).generation@,
            final(self).fns@ == old(self).fns@,
            final(self).expands@ == old(self).expands@,
            final(self).folds@ == old(self).folds@,
            final(self).cells@ == old(self).cells@,
            final(self).cell_live@ == old(self).cell_live@,
            final(self).queues@ == old(self).queues@,
            final(self).queue_live@ == old(self).queue_live@,
            old(self).refs@[n as int] > 0 ==> final(self).refs@[n as int] == old(self).refs@[n as int] - 1,
            forall|i: int| n < i < old(self).num_nodes() ==> final(self).refs@[i] == old(self).refs@[i],
            forall|i: int| 0 <= i < old(self).num_nodes() ==> final(self).refs@[i] <= old(self).refs@[i],
            release_refs(old(self).sources@, old(self).refs@, final(self).refs@, n as int),
        decreases n,
    {
        let c = self.refs[n];
        if c == 0 {
            return;
        }
        self.refs.set(n, c - 1);
        assert(self.edge_ok_all_kept(old(self)));
        if c == 1 {
            let mut k: usize = 0;
            let len = self.sources[n].len();
            let ghost mut st: Seq<Seq<u64>> = seq![self.refs@];
            while k < len
                invariant
                    0 <= k <= len,
                    st.len() == k + 1,
                    st[0] == old(self).refs@.update(n as int, 0),
                    st[k as int] == self.refs@,
                    forall|j: int| #![trigger st[j]] 0 <= j < k ==> 0 <= self.sources@[n as int]@[j] < n
                        && release_refs(old(self).sources@, st[j], st[j + 1], self.sources@[n as int]@[j] as int),
                    self.wf(),
                    n < self.num_nodes(),
                    len == self.sources@[n as int]@.len(),
                    self.edges@ == old(self).edges@,
                    self.sources@ == old(self).sources@,
                    self.generation@ == old(self).generation@,
                    self.fns@ == old(self).fns@,
                    self.folds@ == old(self).folds@,
                    self.expands@ == old(self).expands@,
                    self.cells@ == old(self).cells@,
                    self.cell_live@ == old(self).cell_live@,
                    self.queues@ == old(self).queues@,
                    self.queue_live@ == old(self).queue_live@,
                    self.refs@[n as int] == c - 1,
                    forall|i: int| n <= i < old(self).num_nodes() && i != n ==> self.refs@[i] == old(self).refs@[i],
                    forall|i: int| 0 <= i < old(self).num_nodes() && i != n ==> self.refs@[i] <= old(self).refs@[i],
                decreases len - k,
            {
                let s = self.sources[n][k];
                assert(s < n);
                self.release(s);
                proof {
                    st = st.push(self.refs@);
                }
                k = k + 1;
            }
            proof {
                let srcs = old(self).sources@[n as int]@;
                assert(self.sources@ == old(self).sources@);
                assert(st.len() == srcs.len() + 1);
                assert(st[srcs.len() as int] == self.refs@);
                assert(forall|j: int| #![trigger st[j]] 0 <= j < srcs.len() ==> 0 <= srcs[j] < n
                    && release_refs(old(self).sources@, st[j], st[j + 1], srcs[j] as int));
                assert(release_steps(old(self).sources@, old(self).refs@, self.refs@, n as int, st));
            }
        }
    }

    /// Takes the registry of node `n` out of the graph, leaving it empty.
    fn take_edges(&mut self, n: usize) -> (r: Vec<Edge>)
        requires
            old(self).wf(),
            n < old(self).num_nodes(),
        ensures
            final(self).wf(),
            final(self).same_shape(old(self)),
            final(self).generation@ == old(self).generation@,
            final(self).cells@ == old(self).cells@,
            final(self).queues@ == old(self).queues@,
            r@ == old(self).edges@[n as int]@,
            final(self).edges@ == old(self).edges@.update(n as int, final(self).edges@[n as int]),
            final(self).edges@[n as int]@.len() == 0,
    {
        let mut r: Vec<Edge> = Vec::new();
        self.edges.set_and_swap(n, &mut r);
        assert forall|i: int, k: int| 0 <= i < self.num_nodes() && 0 <= k < self.edges@[i]@.len()
            implies self.edge_ok(#[trigger] self.edges@[i]@[k]) by {
            assert(old(self).edge_ok(old(self).edges@[i]@[k]));
        }
        r
    }

    /// Puts `es` back as the registry of node `n`.
    fn put_edges(&mut self, n: usize, es: Vec<Edge>)
        requires
            old(self).wf(),
            n < old(self).num_nodes(),
            forall|k: int| 0 <= k < es@.len() ==> old(self).edge_ok(#[trigger] es@[k]),
        ensures
            final(self).wf(),
            final(self).same_shape(old(self)),
            final(self).generation@ == old(self).generation@,
            final(self).cells@ == old(self).cells@,
            final(self).queues@ == old(self).queues@,
            final(self).edges@ == old(self).edges@.update(n as int, es),
    {
        self.edges.set(n, es);
        assert forall|i: int, k: int| 0 <= i < self.num_nodes() && 0 <= k < self.edges@[i]@.len()
            implies self.edge_ok(#[trigger] self.edges@[i]@[k]) by {
            if i != n {
                assert(old(self).edge_ok(old(self).edges@[i]@[k]));
            }
        }
    }

    /// Overwrites storage cell `cell` with a copy of `v`.
    fn write_cell(&mut self, cell: usize, v: &T)
        requires
            old(self).wf(),
            cell < old(self).cells@.len(),
        ensures
            final(self).wf(),
            final(self).same_shape(old(self)),
            final(self).edges@ == old(self).edges@,
            final(self).generation@ == old(self).generation@,
            final(self).queues@ == old(self).queues@,
            final(self).cells@.len() == old(self).cells@.len(),
            cloned(*v, final(self).cells@[cell as int]),
            forall|c: int| 0 <= c < final(self).cells@.len() && c != cell ==> final(self).cells@[c] == old(self).cells@[c],
    {
        self.cells.set(cell, v.clone());
        assert(self.edge_ok_all_kept(old(self)));
    }

    /// Replaces storage cell `cell` with `folds[op](cell, v)`; the old
    /// accumulator is moved into the function, not copied.
    fn fold_cell(&mut self, cell: usize, op: usize, v: &T)
        requires
            old(self).wf(),
            cell < old(self).cells@.len(),
            op < old(self).folds@.len(),
        ensures
            final(self).wf(),
            final(self).same_shape(old(self)),
            final(self).edges@ == old(self).edges@,
            final(self).generation@ == old(self).generation@,
            final(self).queues@ == old(self).queues@,
            final(self).cells@.len() == old(self).cells@.len(),
            old(self).folds@[op as int].ensures((old(self).cells@[cell as int], v), final(self).cells@[cell as int]),
            forall|c: int| 0 <= c < final(self).cells@.len() && c != cell ==> final(self).cells@[c] == old(self).cells@[c],
    {
        let mut acc = v.clone();
        self.cells.set_and_swap(cell, &mut acc);
        let next = (self.folds[op])(acc, v);
        self.cells.set(cell, next);
        assert(self.edge_ok_all_kept(old(self)));
    }

    /// Appends a copy of `v` to queue `q`.
    fn enqueue(&mut self, q: usize, v: &T)
        requires
            old(self).wf(),
            q < old(self).queues@.len(),
        ensures
            final(self).wf(),
            final(self).same_shape(old(self)),
            final(self).edges@ == old(self).edges@,
            final(self).generation@ == old(self).generation@,
            final(self).cells@ == old(self).cells@,
            final(self).queues@[q as int]@.len() == old(self).queues@[q as int]@.len() + 1,
            final(self).queues@[q as int]@.drop_last() == old(self).queues@[q as int]@,
            cloned(*v, final(self).queues@[q as int]@.last()),
            forall|c: int| 0 <= c < final(self).queues@.len() && c != q ==> final(self).queues@[c] == old(self).queues@[c],
    {
        let mut items: Vec<T> = Vec::new();
        self.queues.set_and_swap(q, &mut items);
        items.push(v.clone());
        self.queues.set(q, items);
        assert(self.edge_ok_all_kept(old(self)));
    }


    /// Registers `e` at the end of node `n`'s registry.
    pub(crate) fn subscribe(&mut self, n: usize, e: Edge)
        requires
            old(self).wf(),
            n < old(self).num_nodes(),
            old(self).edge_ok(e),
        ensures
            final(self).wf(),
            final(self).same_shape(old(self)),
            final(self).generation@ == old(self).generation@,
            final(self).cells@ == old(self).cells@,
            final(self).queues@ == old(self).queues@,
            final(self).edges@ == old(self).edges@.update(n as int, final(self).edges@[n as int]),
            final(self).edges@[n as int]@ == old(self).edges@[n as int]@.push(e),
    {
        let mut es = self.take_edges(n);
        es.push(e);
        self.put_edges(n, es);
    }

    /// Stores a function for the combinators to use; returns its index.
    pub(crate) fn add_fn(&mut self, f: F) -> (op: usize)
        requires
            old(self).wf(),
            forall|x: &T| f.requires((x,)),
        ensures
            final(self).wf(),
            op == old(self).fns@.len(),
            final(self).fns@ == old(self).fns@.push(f),
            final(self).expands@ == old(self).expands@,
            final(self).edges@ == old(self).edges@,
            final(self).refs@ == old(self).refs@,
            final(self).sources@ == old(self).sources@,
            final(self).generation@ == old(self).generation@,
            final(self).folds@ == old(self).folds@,
            final(self).cells@ == old(self).cells@,
            final(self).cell_live@ == old(self).cell_live@,
            final(self).queues@ == old(self).queues@,
            final(self).queue_live@ == old(self).queue_live@,
    {
        let op = self.fns.len();
        self.fns.push(f);
        assert(self.edge_ok_all_kept(old(self)));
        assert forall|i: int, x: &T| 0 <= i < self.fns@.len() implies #[trigger] self.fns@[i].requires((x,)) by {
            if i < op {
                assert(old(self).fns@[i] == self.fns@[i]);
            }
        }
        op
    }

    /// Stores an accumulating function; returns its index.
    pub(crate) fn add_fold(&mut self, f: G) -> (op: usize)
        requires
            old(self).wf(),
            forall|a: T, x: &T| f.requires((a, x)),
        ensures
            final(self).wf(),
            op == old(self).folds@.len(),
            final(self).folds@ == old(self).folds@.push(f),
            final(self).edges@ == old(self).edges@,
            final(self).refs@ == old(self).refs@,
            final(self).sources@ == old(self).sources@,
            final(self).generation@ == old(self).generation@,
            final(self).fns@ == old(self).fns@,
            final(self).expands@ == old(self).expands@,
            final(self).cells@ == old(self).cells@,
            final(self).cell_live@ == old(self).cell_live@,
            final(self).queues@ == old(self).queues@,
            final(self).queue_live@ == old(self).queue_live@,
    {
        let op = self.folds.len();
        self.folds.push(f);
        assert(self.edge_ok_all_kept(old(self)));
        assert forall|i: int, a: T, x: &T| 0 <= i < self.folds@.len() implies #[trigger] self.folds@[i].requires((a, x)) by {
            if i < op {
                assert(old(self).folds@[i] == self.folds@[i]);
            }
        }
        op
    }

    /// Stores an expanding function; returns its index.
    pub(crate) fn add_expand(&mut self, f: H) -> (op: usize)
        requires
            old(self).wf(),
            forall|x: &T| f.requires((x,)),
        ensures
            final(self).wf(),
            op == old(self).expands@.len(),
            final(self).expands@ == old(self).expands@.push(f),
            final(self).edges@ == old(self).edges@,
            final(self).refs@ == old(self).refs@,
            final(self).sources@ == old(self).sources@,
            final(self).generation@ == old(self).generation@,
            final(self).fns@ == old(self).fns@,
            final(self).folds@ == old(self).folds@,
            final(self).cells@ == old(self).cells@,
            final(self).cell_live@ == old(self).cell_live@,
            final(self).queues@ == old(self).queues@,
            final(self).queue_live@ == old(self).queue_live@,
    {
        let op = self.expands.len();
        self.expands.push(f);
        assert(self.edge_ok_all_kept(old(self)));
        assert forall|i: int, x: &T| 0 <= i < self.expands@.len() implies #[trigger] self.expands@[i].requires((x,)) by {
            if i < op {
                assert(old(self).expands@[i] == self.expands@[i]);
            }
        }
        op
    }

    /// Adds a live storage cell holding `initial`; returns its index.
    pub(crate) fn add_cell(&mut self, initial: T) -> (cell: usize)
        requires
            old(self).wf(),
        ensures
            final(self).wf(),
            cell == old(self).cells@.len(),
            final(self).cells@ == old(self).cells@.push(initial),
            final(self).cell_live@ == old(self).cell_live@.push(true),
            final(self).edges@ == old(self).edges@,
            final(self).refs@ == old(self).refs@,
            final(self).sources@ == old(self).sources@,
            final(self).generation@ == old(self).generation@,
            final(self).fns@ == old(self).fns@,
            final(self).expands@ == old(self).expands@,
            final(self).folds@ == old(self).folds@,
            final(self).queues@ == old(self).queues@,
            final(self).queue_live@ == old(self).queue_live@,
    {
        let cell = self.cells.len();
        self.cells.push(initial);
        self.cell_live.push(true);
        assert(self.edge_ok_all_kept(old(self)));
        cell
    }

    /// Adds an empty open queue; returns its index.
    pub(crate) fn add_queue(&mut self) -> (q: usize)
        requires
            old(self).wf(),
        ensures
            final(self).wf(),
            q == old(self).queues@.len(),
            final(self).queues@.len() == q + 1,
            final(self).queues@[q as int]@.len() == 0,
            forall|i: int| 0 <= i < q ==> final(self).queues@[i] == old(self).queues@[i],
            final(self).queue_live@ == old(self).queue_live@.push(true),
            final(self).edges@ == old(self).edges@,
            final(self).refs@ == old(self).refs@,
            final(self).sources@ == old(self).sources@,
            final(self).generation@ == old(self).generation@,
            final(self).fns@ == old(self).fns@,
            final(self).expands@ == old(self).expands@,
            final(self).folds@ == old(self).folds@,
            final(self).cells@ == old(self).cells@,
            final(self).cell_live@ == old(self).cell_live@,
    {
        let q = self.queues.len();
        self.queues.push(Vec::new());
        self.queue_live.push(true);
        assert(self.edge_ok_all_kept(old(self)));
        q
    }

    /// Delivers inner stream `inner` to every switch registered on node `n`:
    /// each live switch moves to a new generation and registers on `inner` a
    /// subscription of that generation; a switch whose output is gone is
    /// dropped. Other subscriptions of `n` are left as they are.
    pub fn deliver_stream(&mut self, n: usize, inner: usize)
        requires
            old(self).wf(),
            n < old(self).num_nodes(),
            inner < old(self).num_nodes(),
        ensures
            final(self).wf(),
            final(self).same_shape(old(self)),
            final(self).cells@ == old(self).cells@,
            final(self).queues@ == old(self).queues@,
            inner != n ==> final(self).edges@[n as int]@ == old(self).edges@[n as int]@.filter(
                |e: Edge| old(self).outer_kept(e)),
            forall|o: int| 0 <= o < final(self).num_nodes() ==>
                #[trigger] final(self).generation@[o] >= old(self).generation@[o],
            forall|k: int| 0 <= k < old(self).edges@[n as int]@.len() ==>
                old(self).advances(final(self), #[trigger] old(self).edges@[n as int]@[k]),
            final(self).generation@ == old(self).switch_installs(old(self).edges@[n as int]@).1,
            inner != n ==> final(self).edges@[inner as int]@
                == old(self).edges@[inner as int]@ + old(self).switch_installs(old(self).edges@[n as int]@).0,
            inner == n ==> final(self).edges@[n as int]@ == old(self).edges@[n as int]@.filter(
                |e: Edge| old(self).outer_kept(e)) + old(self).switch_installs(old(self).edges@[n as int]@).0,
            forall|m: int| 0 <= m < old(self).num_nodes() && m != n && m != inner ==> final(self).edges@[m] == old(self).edges@[m],
    {
        let es = self.take_edges(n);
        let ghost taken = *self;
        let ghost keep_pred = |e: Edge| old(self).outer_kept(e);
        let mut kept: Vec<Edge> = Vec::new();
        let mut added: Vec<Edge> = Vec::new();
        let mut i: usize = 0;
        while i < es.len()
            invariant
                old(self).wf(),
                self.wf(),
                self.same_shape(old(self)),
                self.cells@ == old(self).cells@,
                self.queues@ == old(self).queues@,
                n < self.num_nodes(),
                inner < self.num_nodes(),
                0 <= i <= es@.len(),
                es@ == old(self).edges@[n as int]@,
                keep_pred == (|e: Edge| old(self).outer_kept(e)),
                kept@ == es@.take(i as int).filter(keep_pred),
                forall|k: int| 0 <= k < kept@.len() ==> old(self).edge_ok(#[trigger] kept@[k]),
                forall|k: int| 0 <= k < added@.len() ==> old(self).edge_ok(#[trigger] added@[k]),
                forall|o: int| 0 <= o < self.num_nodes() ==>
                    #[trigger] self.generation@[o] >= old(self).generation@[o],
                forall|k: int| 0 <= k < i ==> old(self).advances(self, #[trigger] es@[k]),
                added@ == old(self).switch_installs(es@.take(i as int)).0,
                self.generation@ == old(self).switch_installs(es@.take(i as int)).1,
                self.edges@ == taken.edges@,
                taken.edges@ == old(self).edges@.update(n as int, taken.edges@[n as int]),
                taken.edges@[n as int]@.len() == 0,
            decreases es@.len() - i,
        {
            let e = es[i];
            assert(es@[i as int] == old(self).edges@[n as int]@[i as int]);
            assert(old(self).edge_ok(e));
            let ghost mid = *self;
            let keep = match e {
                Edge::SwitchOuter { out } => {
                    if self.is_alive(out) {
                        let g = self.generation[out].saturating_add(1);
                        self.generation.set(out, g);
                        assert(self.edge_ok_all_kept(old(self)));
                        added.push(Edge::SwitchInner { out, generation: g });
                        true
                    } else {
                        false
                    }
                },
                _ => true,
            };
            proof {
                reveal(Seq::filter);
                assert(es@.take(i + 1).drop_last() =~= es@.take(i as int));
                assert(es@.take(i + 1).last() == e);
                assert forall|k: int| 0 <= k < i + 1 implies old(self).advances(self, #[trigger] es@[k]) by {
                    assert(old(self).edge_ok(es@[k]));
                    if k < i {
                        assert(old(self).advances(&mid, es@[k]));
                    }
                }
            }
            if keep {
                kept.push(e);
            }
            i = i + 1;
        }
        assert(es@.take(es@.len() as int) =~= es@);
        self.put_edges(n, kept);
        let ghost installs = old(self).switch_installs(es@);
        let mut j: usize = 0;
        while j < added.len()
            invariant
                old(self).wf(),
                self.wf(),
                self.same_shape(old(self)),
                self.cells@ == old(self).cells@,
                self.queues@ == old(self).queues@,
                n < self.num_nodes(),
                inner < self.num_nodes(),
                0 <= j <= added@.len(),
                forall|k: int| 0 <= k < added@.len() ==> old(self).edge_ok(#[trigger] added@[k]),
                inner != n ==> self.edges@[n as int]@ == old(self).edges@[n as int]@.filter(keep_pred),
                inner == n ==> self.edges@[n as int]@ == old(self).edges@[n as int]@.filter(keep_pred) + added@.take(j as int),
                forall|k: int| 0 <= k < es@.len() ==> old(self).advances(self, #[trigger] es@[k]),
                es@ == old(self).edges@[n as int]@,
                keep_pred == (|e: Edge| old(self).outer_kept(e)),
                forall|o: int| 0 <= o < self.num_nodes() ==>
                    #[trigger] self.generation@[o] >= old(self).generation@[o],
                added@ == installs.0,
                self.generation@ == installs.1,
                inner != n ==> self.edges@[inner as int]@ == old(self).edges@[inner as int]@ + added@.take(j as int),
                forall|m: int| 0 <= m < old(self).num_nodes() && m != n && m != inner ==> self.edges@[m] == old(self).edges@[m],
            decreases added@.len() - j,
        {
            let e = added[j];
            self.subscribe(inner, e);
            proof {
                assert(added@.take(j + 1) =~= added@.take(j as int).push(e));
                assert((old(self).edges@[inner as int]@ + added@.take(j as int)).push(e)
                    =~= old(self).edges@[inner as int]@ + added@.take(j + 1));
            }
            j = j + 1;
        }
        assert(added@.take(added@.len() as int) =~= added@);
        assert(old(self).edges@[inner as int]@ + Seq::<Edge>::empty() =~= old(self).edges@[inner as int]@);
    }


    /// Empties queue `q`, returning what it held.
    pub(crate) fn drain_queue(&mut self, q: usize) -> (r: Vec<T>)
        requires
            old(self).wf(),
            q < old(self).queues@.len(),
        ensures
            final(self).wf(),
            final(self).same_shape(old(self)),
            final(self).edges@ == old(self).edges@,
            final(self).generation@ == old(self).generation@,
            final(self).cells@ == old(self).cells@,
            r@ == old(self).queues@[q as int]@,
            final(self).queues@ == old(self).queues@.update(q as int, final(self).queues@[q as int]),
            final(self).queues@[q as int]@.len() == 0,
    {
        let mut items: Vec<T> = Vec::new();
        self.queues.set_and_swap(q, &mut items);
        assert(self.edge_ok_all_kept(old(self)));
        items
    }

    /// Replaces the value of storage cell `cell` with `v`, returning the old one.
    pub(crate) fn swap_cell(&mut self, cell: usize, v: T) -> (prev: T)
        requires
            old(self).wf(),
            cell < old(self).cells@.len(),
        ensures
            final(self).wf(),
            final(self).same_shape(old(self)),
            final(self).edges@ == old(self).edges@,
            final(self).generation@ == old(self).generation@,
            final(self).queues@ == old(self).queues@,
            prev == old(self).cells@[cell as int],
            final(self).cells@ == old(self).cells@.update(cell as int, v),
    {
        let mut x = v;
        self.cells.set_and_swap(cell, &mut x);
        assert(self.edge_ok_all_kept(old(self)));
        x
    }

    /// Marks storage cell `cell` as no longer read: the subscriptions that
    /// write it are pruned at their next event.
    pub(crate) fn close_cell(&mut self, cell: usize)
        requires
            old(self).wf(),
            cell < old(self).cells@.len(),
        ensures
            final(self).wf(),
            final(self).edges@ == old(self).edges@,
            final(self).refs@ == old(self).refs@,
            final(self).generation@ == old(self).generation@,
            final(self).cells@ == old(self).cells@,
            final(self).queues@ == old(self).queues@,
            final(self).queue_live@ == old(self).queue_live@,
            final(self).cell_live@ == old(self).cell_live@.update(cell as int, false),
            final(self).sources@ == old(self).sources@,
            final(self).fns@ == old(self).fns@,
            final(self).expands@ == old(self).expands@,
            final(self).folds@ == old(self).folds@,
    {
        self.cell_live.set(cell, false);
        assert(self.edge_ok_all_kept(old(self)));
    }

    /// Marks queue `q` as no longer read.
    pub(crate) fn close_queue(&mut self, q: usize)
        requires
            old(self).wf(),
            q < old(self).queues@.len(),
        ensures
            final(self).wf(),
            final(self).edges@ == old(self).edges@,
            final(self).refs@ == old(self).refs@,
            final(self).generation@ == old(self).generation@,
            final(self).cells@ == old(self).cells@,
            final(self).queues@ == old(self).queues@,
            final(self).cell_live@ == old(self).cell_live@,
            final(self).queue_live@ == old(self).queue_live@.update(q as int, false),
            final(self).sources@ == old(self).sources@,
            final(self).fns@ == old(self).fns@,
            final(self).expands@ == old(self).expands@,
            final(self).folds@ == old(self).folds@,
    {
        self.queue_live.set(q, false);
        assert(self.edge_ok_all_kept(old(self)));
    }

    /// Delivers `v` to every subscription registered on node `n`, in
    /// registration order, and keeps exactly the subscriptions that still had
    /// a live target. Each delivery recurses into the target's own registry;
    /// `fuel` bounds the depth of that walk.
    pub fn deliver(&mut self, n: usize, v: &T, fuel: usize)
        requires
            old(self).wf(),
            n < old(self).num_nodes(),
        ensures
            final(self).wf(),
            final(self).same_shape(old(self)),
            final(self).generation@ == old(self).generation@,
            old(self).deliver_rel(final(self), n as int, *v, fuel as nat),
            fuel == 0 ==> final(self).edges@ == old(self).edges@,
            fuel > 0 ==> final(self).edges@[n as int]@ == old(self).edges@[n as int]@.filter(|e: Edge| old(self).edge_live(e)),
            forall|q: usize| fuel > 0 && #[trigger] old(self).feeds_queue(n as int, q) ==> old(self).appended(final(self), q as int, *v),
            forall|q: usize| fuel > 0 && #[trigger] old(self).feeds_queue(n as int, q) ==> old(self).same_registries(final(self)),
            forall|e: Edge, q: usize| fuel > 1 && old(self).edges@[n as int]@.len() == 1 && old(self).edges@[n as int]@[0] == e
                && !(e is Snapshot) && old(self).alive(Self::target(e)) && old(self).edge_live(e)
                && #[trigger] old(self).feeds_queue(Self::target(e), q) ==> old(self).same_registries(final(self)),
            forall|e: Edge| fuel > 0 && old(self).edges@[n as int]@.len() == 1 && old(self).edges@[n as int]@[0] == e
                && #[trigger] old(self).edge_live(e) ==> old(self).stored(final(self), e, *v),
            fuel > 0 && old(self).none_live(n as int) ==> final(self).queues@ == old(self).queues@
                && final(self).cells@ == old(self).cells@
                && final(self).edges@ == old(self).edges@.update(n as int, final(self).edges@[n as int]),
            forall|e: Edge, q: usize| fuel > 1 && old(self).edges@[n as int]@.len() == 1 && old(self).edges@[n as int]@[0] == e && old(self).alive(Self::target(e))
                && #[trigger] old(self).feeds_queue(Self::target(e), q) ==> old(self).passes_one(final(self), e, *v, q as int),
        decreases fuel, 0nat,
    {
        if fuel == 0 {
            return;
        }
        let es = self.take_edges(n);
        let ghost taken = *self;
        let ghost live = |e: Edge| old(self).edge_live(e);
        let ghost mut st: Seq<Self> = seq![taken];
        let mut kept: Vec<Edge> = Vec::new();
        let mut i: usize = 0;
        while i < es.len()
            invariant
                old(self).wf(),
                self.wf(),
                self.same_shape(old(self)),
                self.generation@ == old(self).generation@,
                n < self.num_nodes(),
                n < old(self).num_nodes(),
                fuel > 0,
                live == (|e: Edge| old(self).edge_live(e)),
                0 <= i <= es@.len(),
                es@ == old(self).edges@[n as int]@,
                kept@ == es@.take(i as int).filter(live),
                forall|k: int| 0 <= k < kept@.len() ==> old(self).edge_ok(#[trigger] kept@[k]),
                i == 0 ==> *self == taken,
                st.len() == i + 1,
                st[0] == taken,
                st[i as int] == *self,
                forall|k: int| 0 <= k < i ==> #[trigger] st[k].fire_rel(&st[k + 1], es@[k], *v, (fuel - 1) as nat),
                old(self).none_live(n as int) ==> *self == taken,
                forall|e1: Edge| i == 1 && es@.len() == 1 && es@[0] == e1 && #[trigger] old(self).edge_live(e1)
                    ==> old(self).stored(self, e1, *v),
                taken.queues@ == old(self).queues@,
                taken.cells@ == old(self).cells@,
                taken.queue_live@ == old(self).queue_live@,
                taken.edges@ == old(self).edges@.update(n as int, taken.edges@[n as int]),
                forall|q: usize| i == 1 && es@.len() == 1 && #[trigger] old(self).feeds_queue(n as int, q)
                    ==> old(self).appended(self, q as int, *v),
                forall|q: usize| i == 1 && es@.len() == 1 && #[trigger] old(self).feeds_queue(n as int, q)
                    ==> taken.same_registries(self),
                forall|e1: Edge, q: usize| i == 1 && fuel > 1 && es@.len() == 1 && es@[0] == e1 && !(e1 is Snapshot)
                    && old(self).alive(Self::target(e1))
                    && #[trigger] old(self).feeds_queue(Self::target(e1), q) ==> taken.same_registries(self),
                forall|e1: Edge, q: usize| i == 1 && fuel > 1 && es@.len() == 1 && es@[0] == e1 && old(self).alive(Self::target(e1))
                    && #[trigger] old(self).feeds_queue(Self::target(e1), q) ==> old(self).passes_one(self, e1, *v, q as int),
            decreases es@.len() - i,
        {
            let e = es[i];
            assert(e == es@[i as int]);
            let ghost before = *self;
            assert(es@[i as int] == old(self).edges@[n as int]@[i as int]);
            assert(old(self).edge_ok(e));
            let keep = self.fire(e, v, fuel - 1);
            assert(keep == live(e));
            proof {
                if i == 0 {
                    assert(before.queues@ == old(self).queues@);
                    assert forall|e1: Edge, q: usize| fuel > 1 && es@.len() == 1 && es@[0] == e1 && old(self).alive(Self::target(e1))
                        && #[trigger] old(self).feeds_queue(Self::target(e1), q) implies old(self).passes_one(self, e1, *v, q as int) by {
                        assert(e1 == es@[0]);
                        assert(Self::target(e1) != n);
                        assert(before.edges@[Self::target(e1)] == old(self).edges@[Self::target(e1)]);
                        assert(before.feeds_queue(Self::target(e1), q));
                    }
                    assert forall|e1: Edge, q: usize| fuel > 1 && es@.len() == 1 && es@[0] == e1 && !(e1 is Snapshot)
                        && old(self).alive(Self::target(e1))
                        && #[trigger] old(self).feeds_queue(Self::target(e1), q) implies taken.same_registries(self) by {
                        assert(e1 == es@[0]);
                        assert(Self::target(e1) != n);
                        assert(before.edges@[Self::target(e1)] == old(self).edges@[Self::target(e1)]);
                        assert(before.feeds_queue(Self::target(e1), q));
                    }
                    assert forall|e1: Edge| es@.len() == 1 && es@[0] == e1 && #[trigger] old(self).edge_live(e1)
                        implies old(self).stored(self, e1, *v) by {
                        assert(e1 == e);
                        assert(before.cells@ == old(self).cells@);
                        assert(before.fns@ == old(self).fns@);
                        assert(before.folds@ == old(self).folds@);
                        assert(before.stored(self, e1, *v));
                    }
                    assert forall|q: usize| es@.len() == 1 && #[trigger] old(self).feeds_queue(n as int, q)
                        implies old(self).appended(self, q as int, *v) by {
                        assert(es@[0] == Edge::Queue { queue: q });
                        assert(e == Edge::Queue { queue: q });
                        assert(before.queue_live@[q as int]);
                        assert(before.appended(self, q as int, *v));
                        assert(before.cells@ == old(self).cells@);
                    }
                }
            }
            proof {
                reveal(Seq::filter);
                assert(es@.take(i + 1).drop_last() =~= es@.take(i as int));
                assert(es@.take(i + 1).last() == e);
            }
            proof {
                st = st.push(*self);
            }
            if keep {
                kept.push(e);
            }
            i = i + 1;
        }
        assert(es@.take(es@.len() as int) =~= es@);
        let ghost last = *self;
        self.put_edges(n, kept);
        proof {
            let es_s = old(self).edges@[n as int]@;
            assert(old(self).edges@[n as int]@ == es@);
            assert(st[es@.len() as int] == last);
            assert(st.len() == es_s.len() + 1);
            assert(st[0].edges@ == old(self).edges@.update(n as int, st[0].edges@[n as int]));
            assert(st[0].edges@[n as int]@.len() == 0);
            assert(old(self).same_but_edges(&st[0]));
            assert(forall|k: int| 0 <= k < es_s.len() ==> #[trigger] st[k].fire_rel(&st[k + 1], es_s[k], *v, (fuel - 1) as nat));
            assert(self.edges@ == st[es_s.len() as int].edges@.update(n as int, self.edges@[n as int]));
            assert(self.edges@[n as int]@ == es_s.filter(|e: Edge| old(self).edge_live(e)));
            assert(st[es_s.len() as int].same_but_edges(self));
            assert(0 <= n < old(self).num_nodes());
            let fl = fuel as nat;
            let nn = n as int;
            assert(fl > 0);
            assert(((fl - 1) as nat) == ((fuel - 1) as nat));
            assert(forall|k: int| #![trigger st[k]] 0 <= k < es_s.len() ==> st[k].fire_rel(&st[k + 1], es_s[k], *v, (fl - 1) as nat));
            assert(self.edges@[nn]@ == es_s.filter(|e: Edge| old(self).edge_live(e)));
            assert(old(self).delivery_steps(self, n as int, *v, fuel as nat, st));
            if es_s.len() == 1 && old(self).edge_live(es_s[0]) {
                reveal(Seq::filter);
                assert(es_s.drop_last() =~= Seq::<Edge>::empty());
                assert(self.edges@[n as int]@ =~= es_s);
                if taken.same_registries(&last) {
                    assert forall|m: int| 0 <= m < old(self).edges@.len() implies
                        #[trigger] self.edges@[m]@ == old(self).edges@[m]@ by {
                        if m != n {
                            assert(last.edges@[m]@ == taken.edges@[m]@);
                        }
                    }
                    assert(old(self).same_registries(self));
                }
            }
        }
    }

    /// Runs one subscription on event `v`; returns whether it stays registered.
    fn fire(&mut self, e: Edge, v: &T, fuel: usize) -> (keep: bool)
        requires
            old(self).wf(),
            old(self).edge_ok(e),
        ensures
            final(self).wf(),
            final(self).same_shape(old(self)),
            final(self).generation@ == old(self).generation@,
            keep == old(self).edge_live(e),
            old(self).fire_rel(final(self), e, *v, fuel as nat),
            !old(self).edge_live(e) ==> *final(self) == *old(self),
            old(self).edge_live(e) ==> old(self).stored(final(self), e, *v),
            match e {
                Edge::Queue { queue } => old(self).queue_live@[queue as int] ==> old(self).appended(final(self), queue as int, *v),
                _ => true,
            },
            forall|q: usize| fuel > 0 && old(self).alive(Self::target(e)) && #[trigger] old(self).feeds_queue(Self::target(e), q)
                ==> old(self).passes_one(final(self), e, *v, q as int),
            forall|q: usize| fuel > 0 && !(e is Snapshot) && old(self).alive(Self::target(e)) && #[trigger] old(self).feeds_queue(Self::target(e), q)
                ==> old(self).same_registries(final(self)),
            match e {
                Edge::Queue { queue } => old(self).same_registries(final(self)),
                _ => true,
            },
        decreases fuel, 1nat,
    {
        match e {
            Edge::Transform { to, op } => {
                if !self.is_alive(to) {
                    return false;
                }
                let r = (self.fns[op])(v);
                if let Some(x) = r {
                    self.deliver(to, &x, fuel);
                }
                true
            },
            Edge::Filter { to, op } => {
                if !self.is_alive(to) {
                    return false;
                }
                let r = (self.fns[op])(v);
                if r.is_some() {
                    self.deliver(to, v, fuel);
                }
                true
            },
            Edge::Forward { to } => {
                if !self.is_alive(to) {
                    return false;
                }
                self.deliver(to, v, fuel);
                true
            },
            Edge::Split { first, second, first_op, second_op } => {
                let first_alive = self.is_alive(first);
                let second_alive = self.is_alive(second);
                if !first_alive && !second_alive {
                    return false;
                }
                let a = (self.fns[first_op])(v);
                match split_route(a.is_some(), first_alive, second_alive) {
                    SplitAction::ToFirst => {
                        if let Some(x) = a {
                            self.deliver(first, &x, fuel);
                        }
                        true
                    },
                    SplitAction::ToSecond => {
                        let b = (self.fns[second_op])(v);
                        if let Some(y) = b {
                            self.deliver(second, &y, fuel);
                        }
                        true
                    },
                    SplitAction::Skip => true,
                    SplitAction::Drop => false,
                }
            },
            Edge::SwitchOuter { out } => self.is_alive(out),
            Edge::SwitchInner { out, generation } => {
                if !self.is_alive(out) || !accepts_generation(generation, self.generation[out]) {
                    return false;
                }
                self.deliver(out, v, fuel);
                true
            },
            Edge::Hold { cell, op } => {
                if !self.cell_live[cell] {
                    return false;
                }
                let pass = match op {
                    Some(o) => (self.fns[o])(v).is_some(),
                    None => true,
                };
                if pass {
                    self.write_cell(cell, v);
                }
                true
            },
            Edge::Fold { cell, op } => {
                if !self.cell_live[cell] {
                    return false;
                }
                self.fold_cell(cell, op, v);
                true
            },
            Edge::Queue { queue } => {
                if !self.queue_live[queue] {
                    return false;
                }
                self.enqueue(queue, v);
                true
            },
            Edge::Inspect { op } => {
                let _ = (self.fns[op])(v);
                true
            },
            Edge::Expand { to, op } => {
                if !self.is_alive(to) {
                    return false;
                }
                let outs = (self.expands[op])(v);
                let ghost start = *self;
                let ghost mut st: Seq<Self> = seq![*self];
                let mut k: usize = 0;
                while k < outs.len()
                    invariant
                        self.wf(),
                        self.same_shape(old(self)),
                        self.generation@ == old(self).generation@,
                        to < self.num_nodes(),
                        0 <= k <= outs@.len(),
                        st.len() == k + 1,
                        st[0] == start,
                        start == *old(self),
                        st[k as int] == *self,
                        forall|j: int| #![trigger st[j]] 0 <= j < k ==> st[j].deliver_rel(&st[j + 1], to as int, outs@[j], fuel as nat),
                    decreases outs@.len() - k,
                {
                    self.deliver(to, &outs[k], fuel);
                    proof {
                        st = st.push(*self);
                    }
                    k = k + 1;
                }
                proof {
                    assert(old(self).expand_steps(self, to as int, outs@, fuel as nat, st));
                }
                true
            },
            Edge::Snapshot { to, signal, op } => {
                if !self.is_alive(to) {
                    return false;
                }
                let current = crate::stream::take_in(signal, self);
                let joined = (self.folds[op])(current, v);
                self.deliver(to, &joined, fuel);
                true
            },
        }
    }
}

/// The counts `refs` after one more reference to each node of `srcs`, in order.
pub open spec fn bumped(refs: Seq<u64>, srcs: Seq<usize>) -> Seq<u64>
    decreases srcs.len(),
{
    if srcs.len() == 0 {
        refs
    } else {
        let r = bumped(refs, srcs.drop_last());
        let s = srcs.last() as int;
        r.update(s, sat_inc(r[s]))
    }
}

/// Dropping one reference to node `n` takes the counts from `before` to
/// `after`: a count at zero stays; a count above one goes down by one; a
/// count of one goes to zero and each node that `n` was derived from
/// (`sources[n]`, in order) then loses one reference the same way.
pub open spec fn release_refs(sources: Seq<Vec<usize>>, before: Seq<u64>, after: Seq<u64>, n: int) -> bool
    decreases n, 1nat,
{
    if !(0 <= n < before.len() && n < sources.len()) {
        false
    } else if before[n] == 0 {
        after == before
    } else if before[n] > 1 {
        after == before.update(n, (before[n] - 1) as u64)
    } else {
        exists|st: Seq<Seq<u64>>| #![trigger st.len()] release_steps(sources, before, after, n, st)
    }
}

/// The counts a cascading release from node `n` passes through; see `release_refs`.
pub open spec fn release_steps(sources: Seq<Vec<usize>>, before: Seq<u64>, after: Seq<u64>, n: int, st: Seq<Seq<u64>>) -> bool
    decreases n, 0nat,
{
    let srcs = sources[n]@;
    &&& 0 <= n < sources.len()
    &&& st.len() == srcs.len() + 1
    &&& st[0] == before.update(n, 0)
    &&& st[srcs.len() as int] == after
    &&& forall|k: int| #![trigger st[k]] 0 <= k < srcs.len() ==> 0 <= srcs[k] < n
        && release_refs(sources, st[k], st[k + 1], srcs[k] as int)
}

pub open spec fn sat_inc(c: u64) -> u64 {
    if c < u64::MAX { (c + 1) as u64 } else { c }
}

} // verus!
