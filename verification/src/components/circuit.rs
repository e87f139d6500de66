//! The circuit store and its validator.
//!
//! A `Circuit` owns a set of components (nodes) and directed connections
//! (edges) and hands out opaque handles for the components. Validation scans
//! the components once, in insertion order, and collects every violation:
//! duplicate names and arity rule failures in either direction.

use vstd::prelude::*;

use super::graph::graph_add_edge;
use super::graph::graph_add_node;
use super::graph::graph_count_incoming;
use super::graph::graph_count_outgoing;
use super::graph::graph_edges;
use super::graph::graph_new;
use super::graph::graph_node_count;
use super::graph::graph_node_data;
use super::graph::graph_nodes;
use super::graph::in_degree;
use super::graph::out_degree;
use super::Component;
use super::ComponentData;
use super::ComponentKind;
use super::rule_satisfied;
use super::spec_required_connections;
use super::spec_required_inputs;
use super::spec_required_outputs;

verus! {

/// The direction of a connection
#[derive(Clone, Copy, Debug)]
pub enum ConnectionDirection {
    Input,
    Output,
}

/// Types of error that may be returned from a failed validation
#[derive(Debug, PartialEq, Clone, Copy)]
pub enum ValidationErrorKind {
    IncorrectInputs,
    IncorrectOutputs,
    DuplicateName,
}

/// One validation failure: the error kind together with a snapshot of the
/// offending component's kind and name.
#[derive(Debug)]
pub struct ValidationError {
    pub component: ComponentData,
    pub kind: ValidationErrorKind,
}

impl View for ValidationError {
    type V = (ValidationErrorKind, ComponentKind, Seq<char>);

    open spec fn view(&self) -> Self::V {
        (self.kind, self.component.kind, self.component.name@)
    }
}

impl ValidationError {
    pub fn new(kind: ValidationErrorKind, component: ComponentData) -> (r: Self)
        ensures
            r@ == (kind, component.kind, component.name@),
    {
        Self { kind, component }
    }
}

/// The views of a list of validation errors, in the list's order.
pub open spec fn error_views(errs: Seq<ValidationError>) -> Seq<
    (ValidationErrorKind, ComponentKind, Seq<char>),
> {
    errs.map_values(|e: ValidationError| e@)
}

/// The number of connections of component `i`, incoming or outgoing.
pub open spec fn spec_count_connections(
    edges: Seq<(int, int)>,
    i: int,
    direction: ConnectionDirection,
) -> nat {
    match direction {
        ConnectionDirection::Input => in_degree(edges, i),
        ConnectionDirection::Output => out_degree(edges, i),
    }
}

/// The error kind that a failed arity check yields in the given direction.
pub open spec fn direction_error(direction: ConnectionDirection) -> ValidationErrorKind {
    match direction {
        ConnectionDirection::Input => ValidationErrorKind::IncorrectInputs,
        ConnectionDirection::Output => ValidationErrorKind::IncorrectOutputs,
    }
}

/// Whether an earlier component carries exactly the same name as component
/// `i`. Only such later repeats are flagged; the first component to use a
/// name never is.
pub open spec fn has_duplicate_name(comps: Seq<(ComponentKind, Seq<char>)>, i: int) -> bool {
    exists|j: int| 0 <= j < i && comps[j].1 == comps[i].1
}

/// Whether validation flags `IncorrectInputs` on component `i`: its
/// incoming-edge count breaks the rule table's input rule for its kind.
pub open spec fn flags_incorrect_inputs(
    comps: Seq<(ComponentKind, Seq<char>)>,
    edges: Seq<(int, int)>,
    i: int,
) -> bool {
    !rule_satisfied(spec_required_inputs(comps[i].0), in_degree(edges, i) as int)
}

/// Whether validation flags `IncorrectOutputs` on component `i`: its
/// outgoing-edge count breaks the rule table's output rule for its kind.
pub open spec fn flags_incorrect_outputs(
    comps: Seq<(ComponentKind, Seq<char>)>,
    edges: Seq<(int, int)>,
    i: int,
) -> bool {
    !rule_satisfied(spec_required_outputs(comps[i].0), out_degree(edges, i) as int)
}

/// The errors that validation emits for component `i`, in the fixed order:
/// duplicate name first, then inputs, then outputs. Each error snapshots the
/// component's kind and name.
pub open spec fn component_errors(
    comps: Seq<(ComponentKind, Seq<char>)>,
    edges: Seq<(int, int)>,
    i: int,
) -> Seq<(ValidationErrorKind, ComponentKind, Seq<char>)> {
    (if has_duplicate_name(comps, i) {
        seq![(ValidationErrorKind::DuplicateName, comps[i].0, comps[i].1)]
    } else {
        Seq::empty()
    }) + (if flags_incorrect_inputs(comps, edges, i) {
        seq![(ValidationErrorKind::IncorrectInputs, comps[i].0, comps[i].1)]
    } else {
        Seq::empty()
    }) + (if flags_incorrect_outputs(comps, edges, i) {
        seq![(ValidationErrorKind::IncorrectOutputs, comps[i].0, comps[i].1)]
    } else {
        Seq::empty()
    })
}

/// The errors that validation emits for the first `n` components, in
/// component order.
pub open spec fn errors_up_to(
    comps: Seq<(ComponentKind, Seq<char>)>,
    edges: Seq<(int, int)>,
    n: int,
) -> Seq<(ValidationErrorKind, ComponentKind, Seq<char>)>
    decreases n,
{
    if n <= 0 {
        Seq::empty()
    } else {
        errors_up_to(comps, edges, n - 1) + component_errors(comps, edges, n - 1)
    }
}

/// The complete, ordered list of errors that validating a circuit with the
/// given components and edges yields.
pub open spec fn circuit_errors(
    comps: Seq<(ComponentKind, Seq<char>)>,
    edges: Seq<(int, int)>,
) -> Seq<(ValidationErrorKind, ComponentKind, Seq<char>)> {
    errors_up_to(comps, edges, comps.len() as int)
}

/// Circuit is a representation of a logic circuit using an underlying graph
/// structure.
pub struct Circuit {
    graph: petgraph::graph::Graph<ComponentData, (), petgraph::Directed, u32>,
}

impl Circuit {
    /// The components of the circuit, in insertion order: for each one its
    /// kind and its name.
    pub closed spec fn comps(self) -> Seq<(ComponentKind, Seq<char>)> {
        graph_nodes(self.graph)
    }

    /// The connections of the circuit, in insertion order, as pairs of the
    /// endpoints' positions in insertion order.
    pub closed spec fn edges(self) -> Seq<(int, int)> {
        graph_edges(self.graph)
    }

    /// Creates an empty circuit.
    pub fn new() -> (r: Self)
        ensures
            r.comps() == Seq::<(ComponentKind, Seq<char>)>::empty(),
            r.edges() == Seq::<(int, int)>::empty(),
    {
        Self { graph: graph_new() }
    }

    /// Adds a component to the circuit. The component's name need not be
    /// unique; uniqueness is checked only by `validate`. Returns a fresh
    /// handle, valid for this circuit.
    pub fn add_component(&mut self, name: &str, kind: ComponentKind) -> (r: Component)
        requires
            old(self).comps().len() < u32::MAX as nat,
        ensures
            final(self).comps() == old(self).comps().push((kind, name@)),
            final(self).edges() == old(self).edges(),
            r.id() == old(self).comps().len(),
    {
        let data = ComponentData { kind, name: name.to_string() };
        let index = graph_add_node(&mut self.graph, data);
        Component { index }
    }

    /// Adds a connection between two components in the circuit. Self-loops
    /// and parallel edges are permitted; nothing is checked here beyond the
    /// handles being in range — arity compliance is a validation-time
    /// concern.
    pub fn add_connection(&mut self, from: &Component, to: &Component)
        requires
            from.id() < old(self).comps().len(),
            to.id() < old(self).comps().len(),
            old(self).edges().len() < u32::MAX as nat,
        ensures
            final(self).comps() == old(self).comps(),
            final(self).edges() == old(self).edges().push((from.id(), to.id())),
    {
        graph_add_edge(&mut self.graph, from.index, to.index);
    }

    /// Validates the circuit: scans all components in insertion order and
    /// returns either success or the complete, ordered list of violations.
    /// The scan never short-circuits; every independent violation is
    /// collected.
    pub fn validate(&self) -> (r: Result<(), Vec<ValidationError>>)
        ensures
            r is Ok <==> circuit_errors(self.comps(), self.edges()).len() == 0,
            r matches Err(errs) ==> error_views(errs@) == circuit_errors(
                self.comps(),
                self.edges(),
            ),
    {
        let ghost comps = self.comps();
        let ghost edges = self.edges();

        let mut errors: Vec<ValidationError> = Vec::new();
        let mut unique_names: Vec<String> = Vec::new();

        let n = graph_node_count(&self.graph);
        let mut index: usize = 0;
        while index < n
            invariant
                index <= n,
                n as int == comps.len(),
                comps == self.comps(),
                edges == self.edges(),
                unique_names@.len() == index as int,
                forall|j: int| 0 <= j < index as int ==> unique_names@[j]@ == comps[j].1,
                error_views(errors@) == errors_up_to(comps, edges, index as int),
            decreases n - index,
        {
            let ghost i = index as int;
            let data = graph_node_data(&self.graph, index);

            // If the name of the currently viewed item is a duplicate push an error
            let duplicate = contains_name(&unique_names, &data.name);
            proof {
                if duplicate {
                    let j = choose|j: int|
                        0 <= j < index as int && unique_names@[j]@ == data.name@;
                    assert(comps[j].1 == comps[i].1);
                }
                if has_duplicate_name(comps, i) {
                    let j = choose|j: int| 0 <= j < i && comps[j].1 == comps[i].1;
                    assert(unique_names@[j]@ == data.name@);
                }
                assert(duplicate == has_duplicate_name(comps, i));
            }
            let ghost errs0 = errors@;
            if duplicate {
                let snapshot = ComponentData { kind: data.kind, name: data.name.clone() };
                errors.push(ValidationError::new(ValidationErrorKind::DuplicateName, snapshot));
            }
            unique_names.push(data.name.clone());

            let ghost errs1 = errors@;
            match self.validate_component_connections(
                index,
                data.kind,
                ConnectionDirection::Input,
            ) {
                Ok(_) => (),
                Err(error) => {
                    let snapshot = ComponentData { kind: data.kind, name: data.name.clone() };
                    errors.push(ValidationError::new(error, snapshot));
                },
            }

            let ghost errs2 = errors@;
            match self.validate_component_connections(
                index,
                data.kind,
                ConnectionDirection::Output,
            ) {
                Ok(_) => (),
                Err(error) => {
                    let snapshot = ComponentData { kind: data.kind, name: data.name.clone() };
                    errors.push(ValidationError::new(error, snapshot));
                },
            }

            proof {
                assert(error_views(errs1) =~= error_views(errs0) + (
                if has_duplicate_name(comps, i) {
                    seq![(ValidationErrorKind::DuplicateName, comps[i].0, comps[i].1)]
                } else {
                    Seq::empty()
                }));
                assert(error_views(errs2) =~= error_views(errs1) + (
                if flags_incorrect_inputs(comps, edges, i) {
                    seq![(ValidationErrorKind::IncorrectInputs, comps[i].0, comps[i].1)]
                } else {
                    Seq::empty()
                }));
                assert(error_views(errors@) =~= error_views(errs2) + (
                if flags_incorrect_outputs(comps, edges, i) {
                    seq![(ValidationErrorKind::IncorrectOutputs, comps[i].0, comps[i].1)]
                } else {
                    Seq::empty()
                }));
                assert(error_views(errors@) =~= errors_up_to(comps, edges, i) + component_errors(
                    comps,
                    edges,
                    i,
                ));
                assert(errors_up_to(comps, edges, i + 1) == errors_up_to(comps, edges, i)
                    + component_errors(comps, edges, i));
            }
            index += 1;
        }

        if errors.len() == 0 {
            proof {
                assert(error_views(errors@).len() == 0);
            }
            Ok(())
        } else {
            proof {
                assert(error_views(errors@).len() == errors@.len());
            }
            Err(errors)
        }
    }

    /// Counts the connections of the component at `index` in the given
    /// direction, with raw multiplicity: self-loops and parallel edges each
    /// count.
    fn count_connections(&self, index: usize, direction: ConnectionDirection) -> (n: usize)
        requires
            (index as int) < self.comps().len(),
        ensures
            n as int == spec_count_connections(self.edges(), index as int, direction),
    {
        match direction {
            ConnectionDirection::Input => graph_count_incoming(&self.graph, index),
            ConnectionDirection::Output => graph_count_outgoing(&self.graph, index),
        }
    }

    /// Checks the component at `index` against the rule table in one
    /// direction; a failure yields the error kind of that direction.
    fn validate_component_connections(
        &self,
        index: usize,
        kind: ComponentKind,
        direction: ConnectionDirection,
    ) -> (r: Result<(), ValidationErrorKind>)
        requires
            (index as int) < self.comps().len(),
        ensures
            r is Ok <==> rule_satisfied(
                spec_required_connections(kind, direction),
                spec_count_connections(self.edges(), index as int, direction) as int,
            ),
            r matches Err(e) ==> e == direction_error(direction),
    {
        let connections = self.count_connections(index, direction);
        let rule = kind.required_connections(direction);

        let satisfied = match rule.0 {
            core::cmp::Ordering::Equal => rule.1 >= 0 && connections == rule.1 as usize,
            core::cmp::Ordering::Greater => rule.1 < 0 || connections > rule.1 as usize,
            core::cmp::Ordering::Less => rule.1 >= 0 && connections < rule.1 as usize,
        };

        if satisfied {
            Ok(())
        } else {
            let error = match direction {
                ConnectionDirection::Input => ValidationErrorKind::IncorrectInputs,
                ConnectionDirection::Output => ValidationErrorKind::IncorrectOutputs,
            };
            Err(error)
        }
    }
}

/// Whether `target` is textually equal to one of `names`.
fn contains_name(names: &Vec<String>, target: &String) -> (r: bool)
    ensures
        r == exists|j: int| 0 <= j < names@.len() && names@[j]@ == target@,
{
    let mut k: usize = 0;
    while k < names.len()
        invariant
            k <= names@.len(),
            forall|j: int| 0 <= j < k as int ==> names@[j]@ != target@,
        decreases names@.len() - k,
    {
        if names[k] == *target {
            return true;
        }
        k += 1;
    }
    false
}

} // verus!
