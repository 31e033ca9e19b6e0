//! The decision core of a dining-room simulation: how a table's state
//! advances between visits, and what a waiter does on seeing it.  The
//! random draws and the requests they lead to stay with the caller; the
//! transitions themselves are pure and fully specified.

use vstd::prelude::*;

verus! {

/// Where a table stands in its lifecycle.
#[derive(Debug, Clone, Copy, PartialEq, Eq, Structural)]
pub enum TableState {
    Empty,
    Ordering,
    Eating,
    Complete,
}

/// What a waiter does for a table in a given state.
#[derive(Debug, Clone, Copy, PartialEq, Eq, Structural)]
pub enum ServeAction {
    /// Nothing to do: the table is empty or still eating.
    NoAction,
    /// Take one order for a meal of the guests' choosing.
    PlaceOrder,
    /// Fetch the table's outstanding orders and clear them.
    ClearTable,
}

/// The state a table moves to, given two fresh draws of chance: the first
/// decides the main branch, the second breaks the tie between staying at
/// the meal and finishing it.
pub open spec fn next_state(state: TableState, first: bool, second: bool) -> TableState {
    match state {
        TableState::Empty => if first {
            TableState::Ordering
        } else {
            TableState::Empty
        },
        TableState::Ordering => if first {
            TableState::Ordering
        } else {
            TableState::Eating
        },
        TableState::Eating => if first {
            TableState::Ordering
        } else if second {
            TableState::Eating
        } else {
            TableState::Complete
        },
        TableState::Complete => TableState::Empty,
    }
}

impl TableState {
    /// Advances the table one step, the two draws of chance supplied by
    /// the caller.
    pub fn advance(self, first: bool, second: bool) -> (r: TableState)
        ensures
            r == next_state(self, first, second),
    {
        match self {
            TableState::Empty => if first {
                TableState::Ordering
            } else {
                TableState::Empty
            },
            TableState::Ordering => if first {
                TableState::Ordering
            } else {
                TableState::Eating
            },
            TableState::Eating => if first {
                TableState::Ordering
            } else if second {
                TableState::Eating
            } else {
                TableState::Complete
            },
            TableState::Complete => TableState::Empty,
        }
    }

    /// What serving a table in this state amounts to: ordering tables get
    /// an order placed, finished tables get cleared, the rest are left
    /// alone.
    pub fn serve_action(self) -> (r: ServeAction)
        ensures
            r == (match self {
                TableState::Ordering => ServeAction::PlaceOrder,
                TableState::Complete => ServeAction::ClearTable,
                _ => ServeAction::NoAction,
            }),
    {
        match self {
            TableState::Ordering => ServeAction::PlaceOrder,
            TableState::Complete => ServeAction::ClearTable,
            TableState::Empty | TableState::Eating => ServeAction::NoAction,
        }
    }
}

} // verus!
