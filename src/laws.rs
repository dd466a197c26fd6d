use vstd::prelude::*;
use crate::graph::{Edge, Graph, SignalShared, Stream};
use crate::stream::Intake;

verus! {

/// Once a switch has taken in a newer inner stream, the subscriptions it
/// registered on earlier inner streams are dead: the next event on such a
/// stream prunes them and forwards nothing.
pub proof fn law_switch_drops_superseded<T: Clone, F: Fn(&T) -> Option<T>, G: Fn(T, &T) -> T, H: Fn(&T) -> Vec<T>>(
    before: &Graph<T, F, G, H>,
    after: &Graph<T, F, G, H>,
    out: usize,
    generation: u64,
)
    requires
        before.wf(),
        out < before.num_nodes(),
        before.alive(out as int),
        before.generation@[out as int] < u64::MAX,
        before.advances(after, Edge::SwitchOuter { out }),
        generation <= before.generation@[out as int],
    ensures
        !after.edge_live(Edge::SwitchInner { out, generation }),
{
}

/// The subscription that a switch registers on the inner stream it took in
/// last stays live as long as the switch's output does.
pub proof fn law_switch_keeps_latest<T: Clone, F: Fn(&T) -> Option<T>, G: Fn(T, &T) -> T, H: Fn(&T) -> Vec<T>>(
    g: &Graph<T, F, G, H>,
    out: usize,
)
    requires
        g.wf(),
        out < g.num_nodes(),
        g.alive(out as int),
    ensures
        g.edge_live(Edge::SwitchInner { out, generation: g.generation@[out as int] }),
{
}

/// A stage built by `map`, `filter` or `filter_map` on a stream that had no
/// other subscriber, then observed through a fresh `channel`, has the shape on
/// which `Sink::send` queues exactly one item per event (the stage's result,
/// or the event itself for a filter) or none when the stage yields nothing.
pub proof fn law_stage_then_channel<T: Clone, F: Fn(&T) -> Option<T>, G: Fn(T, &T) -> T, H: Fn(&T) -> Vec<T>>(
    s: Stream,
    g0: &Graph<T, F, G, H>,
    g1: &Graph<T, F, G, H>,
    g2: &Graph<T, F, G, H>,
    stage: Stream,
    e: Edge,
    q: usize,
)
    requires
        g0.wf(),
        s.id < g0.num_nodes(),
        g0.edges@[s.id as int]@.len() == 0,
        e == (Edge::Transform { to: stage.id, op: g0.fns@.len() as usize })
            || e == (Edge::Filter { to: stage.id, op: g0.fns@.len() as usize }),
        s.derived(g0, g1, stage, e),
        g2.wf(),
        g2.refs@ == g1.refs@,
        g2.num_nodes() == g1.num_nodes(),
        q < g2.queues@.len(),
        g2.queue_live@[q as int],
        g2.edges@[stage.id as int]@ == g1.edges@[stage.id as int]@.push(Edge::Queue { queue: q }),
        forall|i: int| 0 <= i < g1.num_nodes() && i != stage.id ==> g2.edges@[i] == g1.edges@[i],
    ensures
        g2.edges@[s.id as int]@.len() == 1,
        g2.edges@[s.id as int]@[0] == e,
        g2.alive(Graph::<T, F, G, H>::target(e)),
        g2.feeds_queue(Graph::<T, F, G, H>::target(e), q),
{
    assert(g1.edges@[s.id as int]@ =~= seq![e]);
    assert(g2.edges@[stage.id as int]@ =~= seq![Edge::Queue { queue: q }]);
}

/// In the graph: a split subscription is live exactly when one of its two
/// outputs is.
pub proof fn law_split_subscription_live<T: Clone, F: Fn(&T) -> Option<T>, G: Fn(T, &T) -> T, H: Fn(&T) -> Vec<T>>(
    g: &Graph<T, F, G, H>,
    first: usize,
    second: usize,
    first_op: usize,
    second_op: usize,
)
    requires
        g.wf(),
    ensures
        g.edge_live(Edge::Split { first, second, first_op, second_op })
            <==> (g.alive(first as int) || g.alive(second as int)),
{
}

/// A subscription that forwards to a node nobody holds any more is dead: a
/// released merge, map or filter output is pruned from its inputs at their
/// next event, and that event has no other effect through it.
pub proof fn law_released_target_is_dead<T: Clone, F: Fn(&T) -> Option<T>, G: Fn(T, &T) -> T, H: Fn(&T) -> Vec<T>>(
    g: &Graph<T, F, G, H>,
    e: Edge,
)
    requires
        g.wf(),
        e is Forward || e is Transform || e is Filter,
        !g.alive(Graph::<T, F, G, H>::target(e)),
    ensures
        !g.edge_live(e),
{
}

/// Sampling a channel-fed or stream-fed signal with nothing queued gives back
/// the held value, so two samples with no new input agree.
pub proof fn law_sample_without_input_is_stable<T: Clone, F: Fn(&T) -> Option<T>, G: Fn(T, &T) -> T, H: Fn(&T) -> Vec<T>>(
    s: SignalShared,
    g: &Graph<T, F, G, H>,
    v: T,
)
    requires
        s.handle_ok(g),
        match s.queue {
            Some(q) => g.queues@[q as int]@.len() == 0,
            None => true,
        },
        s.taken_in(g, v),
    ensures
        v == g.cells@[s.cell as int],
{
    match s.intake {
        Intake::Folded { op } => {
            reveal_with_fuel(crate::stream::folded, 1);
        },
        _ => {},
    }
}

} // verus!
