use vstd::prelude::*;

verus! {

/// What the shared subscription of a two-way split does with one event.
#[derive(Clone, Copy, Debug, PartialEq, Eq, Structural)]
pub enum SplitAction {
    /// Deliver the event to the first output and stay registered.
    ToFirst,
    /// Deliver the event to the second output and stay registered.
    ToSecond,
    /// The matching output is gone but the other is alive: skip, stay registered.
    Skip,
    /// Both outputs are gone: unregister.
    Drop,
}

/// Decides where a split's shared subscription sends one event: an event
/// of the first variant goes to the first output, any other to the second,
/// and the subscription is dropped only once both outputs are dead.
pub fn split_route(is_first: bool, first_alive: bool, second_alive: bool) -> (r: SplitAction)
    ensures
        (r == SplitAction::ToFirst) == (is_first && first_alive),
        (r == SplitAction::ToSecond) == (!is_first && second_alive),
        (r == SplitAction::Drop) == (!first_alive && !second_alive),
{
    if is_first && first_alive {
        SplitAction::ToFirst
    } else if !is_first && second_alive {
        SplitAction::ToSecond
    } else if !first_alive && !second_alive {
        SplitAction::Drop
    } else {
        SplitAction::Skip
    }
}

/// A subscription of a switch on one inner stream forwards only while its
/// generation is the current one.
pub fn accepts_generation(mine: u64, current: u64) -> (r: bool)
    ensures
        r == (mine == current),
{
    mine == current
}

} // verus!
