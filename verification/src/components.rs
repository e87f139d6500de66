//! Components of a logic circuit: the closed set of component kinds, the data
//! stored for each node, and the per-kind arity rule table.

use vstd::prelude::*;

pub mod circuit;
pub mod graph;
pub mod laws;

pub use circuit::Circuit;
pub use circuit::ConnectionDirection;
pub use circuit::ValidationError;
pub use circuit::ValidationErrorKind;

verus! {

/// A single node in a logic graph
#[derive(Clone, Copy, Debug)]
pub enum ComponentKind {
    /// An input node
    Input,
    /// An output node
    Output,
    /// Takes the output of one node and negates it
    Not,
    /// Is high if all inputs are high otherwise it's low
    And,
    /// Is high if any of inputs are high otherwise it's low
    Or,
}

/// The arity rule for one component kind and one direction: a comparison
/// operator paired with a threshold. A count `c` satisfies the rule
/// `(Equal, x)` when `c == x`, `(Greater, x)` when `c > x`, and `(Less, x)`
/// when `c < x`.
pub open spec fn rule_satisfied(rule: (core::cmp::Ordering, isize), count: int) -> bool {
    match rule.0 {
        core::cmp::Ordering::Equal => count == rule.1 as int,
        core::cmp::Ordering::Greater => count > rule.1 as int,
        core::cmp::Ordering::Less => count < rule.1 as int,
    }
}

/// The rule table for the incoming direction.
pub open spec fn spec_required_inputs(kind: ComponentKind) -> (core::cmp::Ordering, isize) {
    match kind {
        ComponentKind::Input => (core::cmp::Ordering::Equal, 0),
        ComponentKind::Output => (core::cmp::Ordering::Less, 2),
        ComponentKind::Not => (core::cmp::Ordering::Equal, 1),
        ComponentKind::And => (core::cmp::Ordering::Greater, 1),
        ComponentKind::Or => (core::cmp::Ordering::Greater, 1),
    }
}

/// The rule table for the outgoing direction.
pub open spec fn spec_required_outputs(kind: ComponentKind) -> (core::cmp::Ordering, isize) {
    match kind {
        ComponentKind::Input => (core::cmp::Ordering::Greater, -1isize),
        ComponentKind::Output => (core::cmp::Ordering::Equal, 0),
        ComponentKind::Not => (core::cmp::Ordering::Equal, 1),
        ComponentKind::And => (core::cmp::Ordering::Greater, 0),
        ComponentKind::Or => (core::cmp::Ordering::Greater, 0),
    }
}

/// The rule table for one direction of connection: the incoming rule for
/// `ConnectionDirection::Input`, the outgoing rule for
/// `ConnectionDirection::Output`.
pub open spec fn spec_required_connections(
    kind: ComponentKind,
    direction: ConnectionDirection,
) -> (core::cmp::Ordering, isize) {
    match direction {
        ConnectionDirection::Input => spec_required_inputs(kind),
        ConnectionDirection::Output => spec_required_outputs(kind),
    }
}

impl ComponentKind {
    /// The number of inputs required for a given component
    pub fn required_inputs(&self) -> (r: (core::cmp::Ordering, isize))
        ensures
            r == spec_required_inputs(*self),
    {
        match self {
            // Can't have any inputs
            ComponentKind::Input => (core::cmp::Ordering::Equal, 0),
            // 0 or 1
            ComponentKind::Output => (core::cmp::Ordering::Less, 2),
            // Exactly 1
            ComponentKind::Not => (core::cmp::Ordering::Equal, 1),
            // 2 or more
            ComponentKind::And => (core::cmp::Ordering::Greater, 1),
            // 2 or more
            ComponentKind::Or => (core::cmp::Ordering::Greater, 1),
        }
    }

    /// The number of outputs required for a given component
    pub fn required_outputs(&self) -> (r: (core::cmp::Ordering, isize))
        ensures
            r == spec_required_outputs(*self),
    {
        match self {
            // Can have 0 or more outputs
            ComponentKind::Input => (core::cmp::Ordering::Greater, -1),
            // Can't have any outputs
            ComponentKind::Output => (core::cmp::Ordering::Equal, 0),
            // Exactly 1
            ComponentKind::Not => (core::cmp::Ordering::Equal, 1),
            // 1 or more
            ComponentKind::And => (core::cmp::Ordering::Greater, 0),
            // 1 or more
            ComponentKind::Or => (core::cmp::Ordering::Greater, 0),
        }
    }

    /// The rule for the given component in the given direction
    pub fn required_connections(&self, direction: ConnectionDirection) -> (r: (
        core::cmp::Ordering,
        isize,
    ))
        ensures
            r == spec_required_connections(*self, direction),
    {
        match direction {
            ConnectionDirection::Input => self.required_inputs(),
            ConnectionDirection::Output => self.required_outputs(),
        }
    }
}

/// The data that is stored for each node of the circuit
#[derive(Debug, Clone)]
pub struct ComponentData {
    pub kind: ComponentKind,
    pub name: String,
}

/// The handle that identifies a component of a circuit through the public
/// interface. Handles are issued by the store, are stable for its lifetime
/// and are never reused; a handle is meaningful only for the circuit that
/// issued it.
#[derive(Debug)]
pub struct Component {
    index: usize,
}

impl Component {
    /// The position of the component in its circuit's insertion order.
    pub closed spec fn id(self) -> int {
        self.index as int
    }
}

} // verus!
