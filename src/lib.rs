//! A reactive dataflow kernel: discrete event streams and sampled signals,
//! composed into a propagation graph.
//!
//! The graph lives in an arena ([`Graph`]); [`Sink`], [`Stream`] and the
//! shared signals are handles into it. Ownership edges point from a derived
//! node to the nodes it was built from, and each node counts the handles and
//! derived nodes that keep it alive. A registered subscription whose target is
//! no longer alive is pruned the next time its node fires.
//!
//! Events of one graph share one payload type `T`. The functions the
//! combinators are built with are stored in the graph: stage functions of one
//! type `F: Fn(&T) -> Option<T>`, accumulating functions of one type
//! `G: Fn(T, &T) -> T` and expanding functions of one type
//! `H: Fn(&T) -> Vec<T>` (boxed closures serve where they differ). Receivers
//! and channel-fed signals read queues that the graph owns.
//!
//! What a send does is stated exactly by `Graph::deliver_rel`: each
//! subscription of the node fires once, in registration order, on the graph
//! the previous one left, and passes its result on down the chain
//! (`Graph::fire_rel`); afterwards the registry holds exactly the
//! subscriptions whose target was still alive. Every operation requires
//! `Graph::wf`, which the graph's own operations maintain.

mod graph;
mod laws;
mod route;
mod signal;
mod stream;

pub use graph::{Edge, Graph, Receiver, Sink, Stream, SignalShared};
pub use route::{accepts_generation, split_route, SplitAction};
pub use stream::{fed, fed_steps, sent_one, Intake, SharedMap};
pub use graph::{bumped, release_refs, release_steps, sat_inc};
pub use signal::{Sampled, Signal, SignalAny, SignalConst, SignalFn, SignalMap, SignalNested};
pub use laws::{
    law_released_target_is_dead, law_sample_without_input_is_stable, law_split_subscription_live, law_stage_then_channel, law_switch_drops_superseded, law_switch_keeps_latest,
};
