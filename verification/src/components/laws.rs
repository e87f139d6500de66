//! The laws of the validator, proved once and for all circuits.
//!
//! Each proof function states a guarantee of `Circuit::validate` over the
//! same spec functions that its contract uses: `circuit_errors`,
//! `component_errors` and the per-component flags.

use vstd::prelude::*;

use super::circuit::circuit_errors;
use super::circuit::component_errors;
use super::circuit::errors_up_to;
use super::circuit::flags_incorrect_inputs;
use super::circuit::flags_incorrect_outputs;
use super::circuit::has_duplicate_name;
use super::circuit::ValidationErrorKind;
use super::graph::in_degree;
use super::graph::out_degree;
use super::ComponentKind;

verus! {

/// Validating an empty circuit always succeeds: with no components there are
/// no errors.
pub proof fn lemma_empty_circuit_valid(comps: Seq<(ComponentKind, Seq<char>)>, edges: Seq<(int, int)>)
    requires
        comps.len() == 0,
    ensures
        circuit_errors(comps, edges).len() == 0,
{
}

/// An `Input` component is flagged `IncorrectInputs` exactly when at least
/// one edge ends at it, and is never flagged `IncorrectOutputs`, however many
/// edges leave it.
pub proof fn lemma_input_arity(
    comps: Seq<(ComponentKind, Seq<char>)>,
    edges: Seq<(int, int)>,
    i: int,
)
    requires
        0 <= i < comps.len(),
        comps[i].0 == ComponentKind::Input,
    ensures
        flags_incorrect_inputs(comps, edges, i) <==> in_degree(edges, i) >= 1,
        !flags_incorrect_outputs(comps, edges, i),
{
}

/// An `Output` component is flagged `IncorrectOutputs` exactly when at least
/// one edge leaves it, and `IncorrectInputs` exactly when two or more edges
/// end at it: zero or one incoming edge is valid.
pub proof fn lemma_output_arity(
    comps: Seq<(ComponentKind, Seq<char>)>,
    edges: Seq<(int, int)>,
    i: int,
)
    requires
        0 <= i < comps.len(),
        comps[i].0 == ComponentKind::Output,
    ensures
        flags_incorrect_outputs(comps, edges, i) <==> out_degree(edges, i) >= 1,
        flags_incorrect_inputs(comps, edges, i) <==> in_degree(edges, i) >= 2,
{
}

/// A `Not` component is valid exactly when it has one incoming and one
/// outgoing edge; each direction is flagged independently of the other.
pub proof fn lemma_not_arity(
    comps: Seq<(ComponentKind, Seq<char>)>,
    edges: Seq<(int, int)>,
    i: int,
)
    requires
        0 <= i < comps.len(),
        comps[i].0 == ComponentKind::Not,
    ensures
        flags_incorrect_inputs(comps, edges, i) <==> in_degree(edges, i) != 1,
        flags_incorrect_outputs(comps, edges, i) <==> out_degree(edges, i) != 1,
{
}

/// An `And` or `Or` component is valid exactly when at least two edges end
/// at it and at least one edge leaves it.
pub proof fn lemma_and_or_arity(
    comps: Seq<(ComponentKind, Seq<char>)>,
    edges: Seq<(int, int)>,
    i: int,
)
    requires
        0 <= i < comps.len(),
        comps[i].0 == ComponentKind::And || comps[i].0 == ComponentKind::Or,
    ensures
        flags_incorrect_inputs(comps, edges, i) <==> in_degree(edges, i) < 2,
        flags_incorrect_outputs(comps, edges, i) <==> out_degree(edges, i) < 1,
{
}

/// A component whose exact name already occurs earlier in insertion order is
/// flagged `DuplicateName`; the error snapshots that component's kind and
/// name.
pub proof fn lemma_duplicate_name_flagged(
    comps: Seq<(ComponentKind, Seq<char>)>,
    edges: Seq<(int, int)>,
    j: int,
    i: int,
)
    requires
        0 <= j < i < comps.len(),
        comps[j].1 == comps[i].1,
    ensures
        has_duplicate_name(comps, i),
        component_errors(comps, edges, i).contains(
            (ValidationErrorKind::DuplicateName, comps[i].0, comps[i].1),
        ),
{
    assert(component_errors(comps, edges, i)[0] == (
        ValidationErrorKind::DuplicateName,
        comps[i].0,
        comps[i].1,
    ));
}

/// The first component to use a name is never flagged `DuplicateName`,
/// whatever its kind and wiring.
pub proof fn lemma_first_name_never_flagged(
    comps: Seq<(ComponentKind, Seq<char>)>,
    edges: Seq<(int, int)>,
    i: int,
)
    requires
        0 <= i < comps.len(),
        forall|j: int| 0 <= j < i ==> comps[j].1 != comps[i].1,
    ensures
        !has_duplicate_name(comps, i),
        forall|e: (ValidationErrorKind, ComponentKind, Seq<char>)|
            component_errors(comps, edges, i).contains(e) ==> e.0
                != ValidationErrorKind::DuplicateName,
{
}

/// Validation never short-circuits: every error that any single component
/// gives rise to is present in the full result, however many other
/// components are also in violation.
pub proof fn lemma_no_short_circuit(
    comps: Seq<(ComponentKind, Seq<char>)>,
    edges: Seq<(int, int)>,
    i: int,
    e: (ValidationErrorKind, ComponentKind, Seq<char>),
)
    requires
        0 <= i < comps.len(),
        component_errors(comps, edges, i).contains(e),
    ensures
        circuit_errors(comps, edges).contains(e),
{
    lemma_component_errors_in_prefix(comps, edges, i, comps.len() as int, e);
}

/// Conversely, every reported error arises from some component's own checks:
/// the full result is exactly the concatenation of the per-component error
/// lists.
pub proof fn lemma_errors_have_a_source(
    comps: Seq<(ComponentKind, Seq<char>)>,
    edges: Seq<(int, int)>,
    e: (ValidationErrorKind, ComponentKind, Seq<char>),
)
    requires
        circuit_errors(comps, edges).contains(e),
    ensures
        exists|i: int|
            0 <= i < comps.len() && component_errors(comps, edges, i).contains(e),
{
    lemma_prefix_errors_have_a_source(comps, edges, comps.len() as int, e);
}

/// Validation succeeds exactly when no component is in violation: no later
/// repeat of a name, and every component's two arity rules satisfied.
pub proof fn lemma_valid_iff_components_clean(
    comps: Seq<(ComponentKind, Seq<char>)>,
    edges: Seq<(int, int)>,
)
    ensures
        circuit_errors(comps, edges).len() == 0 <==> forall|i: int|
            0 <= i < comps.len() ==> !has_duplicate_name(comps, i) && !flags_incorrect_inputs(
                comps,
                edges,
                i,
            ) && !flags_incorrect_outputs(comps, edges, i),
{
    assert forall|i: int| 0 <= i < comps.len() implies (component_errors(comps, edges, i).len()
        == 0 <==> !has_duplicate_name(comps, i) && !flags_incorrect_inputs(comps, edges, i)
        && !flags_incorrect_outputs(comps, edges, i)) by {}
    lemma_errors_up_to_len(comps, edges, comps.len() as int);
}

proof fn lemma_errors_up_to_len(
    comps: Seq<(ComponentKind, Seq<char>)>,
    edges: Seq<(int, int)>,
    n: int,
)
    ensures
        errors_up_to(comps, edges, n).len() == 0 <==> forall|i: int|
            0 <= i < n ==> component_errors(comps, edges, i).len() == 0,
    decreases n,
{
    if n > 0 {
        lemma_errors_up_to_len(comps, edges, n - 1);
    }
}

proof fn lemma_component_errors_in_prefix(
    comps: Seq<(ComponentKind, Seq<char>)>,
    edges: Seq<(int, int)>,
    i: int,
    n: int,
    e: (ValidationErrorKind, ComponentKind, Seq<char>),
)
    requires
        0 <= i < n,
        component_errors(comps, edges, i).contains(e),
    ensures
        errors_up_to(comps, edges, n).contains(e),
    decreases n,
{
    let a = errors_up_to(comps, edges, n - 1);
    let b = component_errors(comps, edges, n - 1);
    if i == n - 1 {
        let k = choose|k: int| 0 <= k < b.len() && b[k] == e;
        assert(errors_up_to(comps, edges, n)[a.len() + k] == e);
    } else {
        lemma_component_errors_in_prefix(comps, edges, i, n - 1, e);
        let k = choose|k: int| 0 <= k < a.len() && a[k] == e;
        assert(errors_up_to(comps, edges, n)[k] == e);
    }
}

proof fn lemma_prefix_errors_have_a_source(
    comps: Seq<(ComponentKind, Seq<char>)>,
    edges: Seq<(int, int)>,
    n: int,
    e: (ValidationErrorKind, ComponentKind, Seq<char>),
)
    requires
        errors_up_to(comps, edges, n).contains(e),
    ensures
        exists|i: int| 0 <= i < n && component_errors(comps, edges, i).contains(e),
    decreases n,
{
    if n > 0 {
        let a = errors_up_to(comps, edges, n - 1);
        let b = component_errors(comps, edges, n - 1);
        let k = choose|k: int|
            0 <= k < errors_up_to(comps, edges, n).len() && errors_up_to(comps, edges, n)[k] == e;
        if k < a.len() {
            assert(a[k] == e);
            lemma_prefix_errors_have_a_source(comps, edges, n - 1, e);
        } else {
            assert(b[k - a.len()] == e);
            assert(component_errors(comps, edges, n - 1).contains(e));
        }
    }
}

} // verus!
