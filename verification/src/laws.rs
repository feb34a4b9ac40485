//! Laws that relate the operations on gates to each other.
use crate::calculator::{
    answers, contents, is_ascii_or_letter, is_identifier, parsable, variable_not_set,
    SymbolicFloat,
};
use crate::error::RoqoqoError;
use crate::gate::GateView;
use crate::parameters::{
    collected, contents_of, is_first_error, lemma_collected_answers, lemma_first_error_is_unique,
    values_of,
};
use crate::qubits::{covers, mapped, remapping};
use qoqo_calculator::{CalculatorError, CalculatorFloat};
use vstd::prelude::*;

verus! {

/// Renaming the qubits of a list by an injective mapping that covers them,
/// and then by the inverse of the mapping, gives the list back.
pub proof fn lemma_remapping_round_trip(qubits: Seq<usize>, mapping: Map<usize, usize>)
    requires
        mapping.is_injective(),
        covers(mapping, qubits),
    ensures
        remapping(mapping, qubits) == Ok::<Seq<usize>, RoqoqoError>(mapped(mapping, qubits)),
        remapping(mapping.invert(), mapped(mapping, qubits)) == Ok::<Seq<usize>, RoqoqoError>(
            qubits,
        ),
{
    let back = mapping.invert();
    let renamed = mapped(mapping, qubits);
    assert forall|i: int| 0 <= i < renamed.len() implies back.contains_key(#[trigger] renamed[i])
        && back[renamed[i]] == qubits[i] by {
        let qubit = qubits[i];
        assert(mapping.contains_key(qubit));
        assert(mapping.contains_pair(qubit, renamed[i]));
        assert(mapping.contains_value(renamed[i]));
        let chosen = back[renamed[i]];
        assert(mapping.contains_pair(chosen, renamed[i]));
        if chosen != qubit {
            assert(mapping[chosen] != mapping[qubit]);
        }
    }
    assert(mapped(back, renamed) =~= qubits);
}

/// Remapping a gate by an injective mapping that covers its qubits, and then
/// by the inverse of the mapping, gives it back.
pub proof fn lemma_remap_round_trip(gate: GateView, mapping: Map<usize, usize>)
    requires
        mapping.is_injective(),
        covers(mapping, gate.qubits),
    ensures
        covers(mapping.invert(), gate.remapped(mapping).qubits),
        gate.remapped(mapping).remapped(mapping.invert()) == gate,
{
    lemma_remapping_round_trip(gate.qubits, mapping);
}

/// Remapping changes the qubits alone: the kind, the parameters, the flags
/// and the definition stay, and so does the number of qubits.
pub proof fn lemma_remap_keeps_the_rest(gate: GateView, mapping: Map<usize, usize>)
    ensures
        gate.remapped(mapping).kind == gate.kind,
        gate.remapped(mapping).parameters == gate.parameters,
        gate.remapped(mapping).flags == gate.flags,
        gate.remapped(mapping).definition == gate.definition,
        gate.remapped(mapping).qubits.len() == gate.qubits.len(),
        gate.remapped(mapping).is_parametrized() == gate.is_parametrized(),
{
}

/// Remapping and substitution keep a gate well formed.
pub proof fn lemma_well_formed_is_kept(gate: GateView, mapping: Map<usize, usize>, after: GateView)
    requires
        gate.well_formed(),
        gate.substitutes_to(after),
    ensures
        gate.remapped(mapping).well_formed(),
        after.well_formed(),
{
}

/// What substitution makes of a gate has no expression among its
/// parameters, and is on the same qubits.
pub proof fn lemma_substituted_is_not_parametrized(before: GateView, after: GateView)
    requires
        before.substitutes_to(after),
    ensures
        !after.is_parametrized(),
        after.kind == before.kind,
        after.qubits == before.qubits,
        after.involved() == before.involved(),
{
}

/// Substituting a gate without an expression among its parameters changes nothing.
pub proof fn lemma_substitution_of_numbers(before: GateView, after: GateView)
    requires
        before.substitutes_to(after),
        !before.is_parametrized(),
    ensures
        after == before,
{
    assert forall|i: int| 0 <= i < before.parameters.len() implies after.parameters[i]
        == before.parameters[i] by {
        assert(!(before.parameters[i] is Symbolic));
    }
    assert(after.parameters =~= before.parameters);
}

/// What substitution can give: a gate that the substitution relation admits
/// and that holds numbers only, or an error of the calculator, which only a
/// gate with an expression can give. A gate without an expression is given
/// back as it is.
pub proof fn lemma_substitution_outcome(
    gate: GateView,
    bound: Map<Seq<char>, u64>,
    outcome: Result<GateView, RoqoqoError>,
)
    requires
        gate.substitution(bound, outcome),
    ensures
        match outcome {
            Ok(after) => gate.substitutes_to(after) && !after.is_parametrized(),
            Err(error) => error is CalculatorError && gate.is_parametrized(),
        },
        !gate.is_parametrized() ==> outcome == Ok::<GateView, RoqoqoError>(gate),
{
    let given = choose|given: Seq<Result<CalculatorFloat, CalculatorError>>|
        {
            &&& given.len() == gate.parameters.len()
            &&& forall|i: int|
                0 <= i < given.len() ==> answers(
                    bound,
                    gate.parameters[i],
                    #[trigger] given[i],
                )
            &&& outcome == gate.with_answers(given)
        };
    lemma_collected_answers(bound, gate.parameters, given);
}

/// A gate without parameters is what its substitution gives.
pub proof fn lemma_substitution_without_parameters(gate: GateView, bound: Map<Seq<char>, u64>)
    requires
        gate.parameters.len() == 0,
    ensures
        gate.substitution(bound, Ok(gate)),
{
    let given = Seq::<Result<CalculatorFloat, CalculatorError>>::empty();
    assert(contents_of(values_of(given)) =~= gate.parameters);
    assert(gate.with_answers(given) == Ok::<GateView, RoqoqoError>(gate));
}

/// The parameter is a number, or the name of a variable that is bound.
pub open spec fn is_number_or_bound(bound: Map<Seq<char>, u64>, parameter: SymbolicFloat) -> bool {
    match parameter {
        SymbolicFloat::Literal(_) => true,
        SymbolicFloat::Symbolic(name) => is_identifier(name) && bound.contains_key(name),
    }
}

/// The parameter is the name of a variable that is not bound.
pub open spec fn is_unbound(bound: Map<Seq<char>, u64>, parameter: SymbolicFloat) -> bool {
    parameter matches SymbolicFloat::Symbolic(name) && is_identifier(name) && !bound.contains_key(
        name,
    )
}

/// The number that a parameter stands for: itself, or the value bound to its name.
pub open spec fn value_under(
    bound: Map<Seq<char>, u64>,
    parameter: SymbolicFloat,
) -> SymbolicFloat {
    match parameter {
        SymbolicFloat::Literal(_) => parameter,
        SymbolicFloat::Symbolic(name) => SymbolicFloat::Literal(bound[name]),
    }
}

/// The name of a variable can be handed to the parser.
pub proof fn lemma_identifier_is_parsable(name: Seq<char>)
    requires
        is_identifier(name),
    ensures
        parsable(name),
{
    assert forall|i: int| 0 <= i < name.len() implies is_ascii_or_letter(#[trigger] name[i]) by {}
}

/// Substitution succeeds where every parameter is a number or the name of a
/// bound variable, and gives the same gate with every name replaced by the
/// value bound to it.
pub proof fn lemma_substitution_of_bound_variables(
    gate: GateView,
    bound: Map<Seq<char>, u64>,
    outcome: Result<GateView, RoqoqoError>,
)
    requires
        gate.substitution(bound, outcome),
        forall|i: int|
            0 <= i < gate.parameters.len() ==> is_number_or_bound(
                bound,
                #[trigger] gate.parameters[i],
            ),
    ensures
        outcome == Ok::<GateView, RoqoqoError>(
            gate.with_parameters(
                Seq::new(gate.parameters.len(), |i: int| value_under(bound, gate.parameters[i])),
            ),
        ),
{
    let given = choose|given: Seq<Result<CalculatorFloat, CalculatorError>>|
        {
            &&& given.len() == gate.parameters.len()
            &&& forall|i: int|
                0 <= i < given.len() ==> answers(bound, gate.parameters[i], #[trigger] given[i])
            &&& outcome == gate.with_answers(given)
        };
    let values = values_of(given);
    let expected = Seq::new(gate.parameters.len(), |i: int| value_under(bound, gate.parameters[i]));
    assert forall|i: int| 0 <= i < given.len() implies #[trigger] given[i] is Ok && contents(
        given[i]->Ok_0,
    ) == expected[i] by {
        assert(answers(bound, gate.parameters[i], given[i]));
        assert(is_number_or_bound(bound, gate.parameters[i]));
        if let SymbolicFloat::Symbolic(name) = gate.parameters[i] {
            lemma_identifier_is_parsable(name);
        }
    }
    assert(contents_of(values) =~= expected);
}

/// Substitution fails where a parameter is the name of a variable that is
/// not bound, whatever the other parameters are. Where every parameter
/// before it is a number or the name of a bound variable, the error is the
/// one that carries its name.
pub proof fn lemma_substitution_with_unbound_variable(
    gate: GateView,
    bound: Map<Seq<char>, u64>,
    outcome: Result<GateView, RoqoqoError>,
    index: int,
)
    requires
        gate.substitution(bound, outcome),
        0 <= index < gate.parameters.len(),
        is_unbound(bound, gate.parameters[index]),
    ensures
        outcome is Err,
        (forall|i: int| 0 <= i < index ==> is_number_or_bound(bound, #[trigger] gate.parameters[i]))
            ==> outcome == Err::<GateView, RoqoqoError>(
            RoqoqoError::CalculatorError(variable_not_set(gate.parameters[index]->Symbolic_0)),
        ),
{
    let given = choose|given: Seq<Result<CalculatorFloat, CalculatorError>>|
        {
            &&& given.len() == gate.parameters.len()
            &&& forall|i: int|
                0 <= i < given.len() ==> answers(bound, gate.parameters[i], #[trigger] given[i])
            &&& outcome == gate.with_answers(given)
        };
    let name = gate.parameters[index]->Symbolic_0;
    lemma_identifier_is_parsable(name);
    assert(answers(bound, gate.parameters[index], given[index]));
    assert(given[index] == Err::<CalculatorFloat, CalculatorError>(variable_not_set(name)));
    if forall|i: int| 0 <= i < index ==> is_number_or_bound(bound, #[trigger] gate.parameters[i]) {
        assert forall|i: int| 0 <= i < index implies #[trigger] given[i] is Ok by {
            assert(answers(bound, gate.parameters[i], given[i]));
            assert(is_number_or_bound(bound, gate.parameters[i]));
            if let SymbolicFloat::Symbolic(other) = gate.parameters[i] {
                lemma_identifier_is_parsable(other);
            }
        }
        assert(is_first_error(given, index));
        lemma_first_error_is_unique(given, index);
    }
}

/// Substitution is all or nothing: the answers to the parameters of a gate
/// collect to an error exactly where one of them is an error, and then to
/// the first.
pub proof fn lemma_collected_is_all_or_nothing(
    answers: Seq<Result<CalculatorFloat, CalculatorError>>,
)
    ensures
        collected(answers) is Err <==> exists|i: int|
            0 <= i < answers.len() && #[trigger] answers[i] is Err,
        collected(answers) matches Ok(values) ==> values.len() == answers.len(),
        collected(answers) matches Err(error) ==> exists|i: int|
            is_first_error(answers, i) && answers[i] == Err::<CalculatorFloat, CalculatorError>(
                error,
            ),
{
    if exists|i: int| 0 <= i < answers.len() && #[trigger] answers[i] is Err {
        let some = choose|i: int| 0 <= i < answers.len() && #[trigger] answers[i] is Err;
        lemma_has_first_error(answers, some);
    }
}

/// A list with an error has a first error.
proof fn lemma_has_first_error(answers: Seq<Result<CalculatorFloat, CalculatorError>>, some: int)
    requires
        0 <= some < answers.len(),
        answers[some] is Err,
    ensures
        exists|i: int| is_first_error(answers, i),
    decreases some,
{
    if exists|j: int| 0 <= j < some && #[trigger] answers[j] is Err {
        let earlier = choose|j: int| 0 <= j < some && #[trigger] answers[j] is Err;
        lemma_has_first_error(answers, earlier);
    } else {
        assert(is_first_error(answers, some));
    }
}

} // verus!
