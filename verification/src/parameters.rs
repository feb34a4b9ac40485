//! Parameter lists: whether one is symbolic, and how a calculator turns every
//! parameter into a number or fails on the first that it cannot evaluate.
use crate::calculator::{answers, contents, equal, evaluate, same, variables, SymbolicFloat};
use qoqo_calculator::{Calculator, CalculatorError, CalculatorFloat};
use vstd::prelude::*;

verus! {

/// What each parameter of the list holds.
pub open spec fn contents_of(parameters: Seq<CalculatorFloat>) -> Seq<SymbolicFloat> {
    Seq::new(parameters.len(), |i: int| contents(parameters[i]))
}

/// Some parameter of the list is an expression.
pub open spec fn any_symbolic(parameters: Seq<SymbolicFloat>) -> bool {
    exists|i: int| 0 <= i < parameters.len() && #[trigger] parameters[i] is Symbolic
}

/// The two lists are equal parameter by parameter.
pub open spec fn equal_lists(left: Seq<SymbolicFloat>, right: Seq<SymbolicFloat>) -> bool {
    &&& left.len() == right.len()
    &&& forall|i: int| 0 <= i < left.len() ==> equal(#[trigger] left[i], right[i])
}

/// `after` is what substitution may make of `before`: every parameter is a
/// number, and the parameters that were numbers already are unchanged.
pub open spec fn evaluated_from(before: Seq<SymbolicFloat>, after: Seq<SymbolicFloat>) -> bool {
    &&& after.len() == before.len()
    &&& forall|i: int| 0 <= i < after.len() ==> #[trigger] after[i] is Literal
    &&& forall|i: int|
        0 <= i < after.len() && before[i] is Literal ==> #[trigger] after[i] == before[i]
}

/// Position `index` holds the first error of the list.
pub open spec fn is_first_error(
    answers: Seq<Result<CalculatorFloat, CalculatorError>>,
    index: int,
) -> bool {
    &&& 0 <= index < answers.len()
    &&& answers[index] is Err
    &&& forall|j: int| 0 <= j < index ==> #[trigger] answers[j] is Ok
}

/// The position of the first error of the list, where there is one.
pub open spec fn first_error(answers: Seq<Result<CalculatorFloat, CalculatorError>>) -> int {
    choose|index: int| is_first_error(answers, index)
}

/// The values of a list of answers that holds no error.
pub open spec fn values_of(answers: Seq<Result<CalculatorFloat, CalculatorError>>) -> Seq<
    CalculatorFloat,
> {
    Seq::new(answers.len(), |i: int| answers[i]->Ok_0)
}

/// All or nothing: the values where every answer is a value, else the first error.
pub open spec fn collected(answers: Seq<Result<CalculatorFloat, CalculatorError>>) -> Result<
    Seq<CalculatorFloat>,
    CalculatorError,
> {
    if forall|i: int| 0 <= i < answers.len() ==> #[trigger] answers[i] is Ok {
        Ok(values_of(answers))
    } else {
        Err(answers[first_error(answers)]->Err_0)
    }
}

/// Only one position can hold the first error.
pub proof fn lemma_first_error_is_unique(
    answers: Seq<Result<CalculatorFloat, CalculatorError>>,
    index: int,
)
    requires
        is_first_error(answers, index),
    ensures
        first_error(answers) == index,
{
    let chosen = first_error(answers);
    assert(is_first_error(answers, chosen));
    if chosen < index {
        assert(answers[chosen] is Ok);
    }
    if index < chosen {
        assert(answers[index] is Ok);
    }
}

/// Decides whether two lists are equal parameter by parameter.
pub fn same_parameters(left: &Vec<CalculatorFloat>, right: &Vec<CalculatorFloat>) -> (r: bool)
    ensures
        r == equal_lists(contents_of(left@), contents_of(right@)),
{
    if left.len() != right.len() {
        return false;
    }
    let mut index: usize = 0;
    while index < left.len()
        invariant
            left@.len() == right@.len(),
            index <= left.len(),
            forall|i: int|
                0 <= i < index ==> equal(
                    #[trigger] contents_of(left@)[i],
                    contents_of(right@)[i],
                ),
        decreases left.len() - index,
    {
        if !same(&left[index], &right[index]) {
            assert(!equal(contents_of(left@)[index as int], contents_of(right@)[index as int]));
            return false;
        }
        index += 1;
    }
    true
}

/// Decides whether some parameter of the list is an expression.
pub fn has_symbolic(parameters: &Vec<CalculatorFloat>) -> (r: bool)
    ensures
        r == any_symbolic(contents_of(parameters@)),
{
    let mut index: usize = 0;
    while index < parameters.len()
        invariant
            index <= parameters.len(),
            forall|j: int| 0 <= j < index ==> contents(#[trigger] parameters@[j]) is Literal,
        decreases parameters.len() - index,
    {
        if !parameters[index].is_float() {
            assert(contents_of(parameters@)[index as int] is Symbolic);
            return true;
        }
        index += 1;
    }
    assert forall|i: int| 0 <= i < contents_of(parameters@).len() implies !(
    #[trigger] contents_of(parameters@)[i] is Symbolic) by {
        assert(contents(parameters@[i]) is Literal);
    }
    false
}

/// Asks the calculator for every parameter of the list, in order.
pub fn evaluate_all(parameters: &Vec<CalculatorFloat>, calculator: &Calculator) -> (r: Vec<
    Result<CalculatorFloat, CalculatorError>,
>)
    ensures
        r@.len() == parameters@.len(),
        forall|i: int|
            0 <= i < r@.len() ==> answers(
                variables(*calculator),
                contents_of(parameters@)[i],
                #[trigger] r@[i],
            ),
{
    let mut results: Vec<Result<CalculatorFloat, CalculatorError>> = Vec::new();
    let mut index: usize = 0;
    while index < parameters.len()
        invariant
            index <= parameters.len(),
            results@.len() == index,
            forall|i: int|
                0 <= i < index ==> answers(
                    variables(*calculator),
                    contents_of(parameters@)[i],
                    #[trigger] results@[i],
                ),
        decreases parameters.len() - index,
    {
        let answer = evaluate(&parameters[index], calculator);
        results.push(answer);
        index += 1;
    }
    results
}

/// Turns a list of answers into the list of their values, or into the first
/// error among them.
pub fn collect(answers: Vec<Result<CalculatorFloat, CalculatorError>>) -> (r: Result<
    Vec<CalculatorFloat>,
    CalculatorError,
>)
    ensures
        match r {
            Ok(values) => collected(answers@) == Ok::<Seq<CalculatorFloat>, CalculatorError>(
                values@,
            ),
            Err(error) => collected(answers@) == Err::<Seq<CalculatorFloat>, CalculatorError>(
                error,
            ),
        },
{
    let ghost given = answers@;
    let mut values: Vec<CalculatorFloat> = Vec::new();
    for answer in iter: answers
        invariant
            iter.seq() == given,
            values@.len() == iter.index(),
            forall|j: int|
                0 <= j < iter.index() ==> #[trigger] given[j] == Ok::<
                    CalculatorFloat,
                    CalculatorError,
                >(values@[j]),
    {
        match answer {
            Ok(value) => {
                values.push(value);
            },
            Err(error) => {
                proof {
                    lemma_first_error_is_unique(given, iter.index());
                }
                return Err(error);
            },
        }
    }
    assert(values@ =~= values_of(given));
    Ok(values)
}

/// What the answers to a parameter list collect to, in terms of the list:
/// values that substitute it, or an error, which only a list with an
/// expression can give. A list of numbers is answered by itself.
pub proof fn lemma_collected_answers(
    bound: Map<Seq<char>, u64>,
    parameters: Seq<SymbolicFloat>,
    given: Seq<Result<CalculatorFloat, CalculatorError>>,
)
    requires
        given.len() == parameters.len(),
        forall|i: int| 0 <= i < given.len() ==> answers(bound, parameters[i], #[trigger] given[i]),
    ensures
        match collected(given) {
            Ok(values) => evaluated_from(parameters, contents_of(values)),
            Err(_) => any_symbolic(parameters),
        },
        !any_symbolic(parameters) ==> (collected(given) matches Ok(values) && contents_of(values)
            == parameters),
{
    if forall|i: int| 0 <= i < given.len() ==> #[trigger] given[i] is Ok {
        let values = values_of(given);
        assert forall|i: int| 0 <= i < values.len() implies #[trigger] contents_of(
            values,
        )[i] is Literal && (parameters[i] is Literal ==> contents_of(values)[i]
            == parameters[i]) by {
            assert(answers(bound, parameters[i], given[i]));
        }
        if !any_symbolic(parameters) {
            assert forall|i: int| 0 <= i < values.len() implies contents_of(values)[i]
                == parameters[i] by {
                assert(answers(bound, parameters[i], given[i]));
                assert(!(parameters[i] is Symbolic));
            }
            assert(contents_of(values) =~= parameters);
        }
    } else {
        let k = choose|k: int| 0 <= k < given.len() && !(#[trigger] given[k] is Ok);
        assert(answers(bound, parameters[k], given[k]));
        assert(parameters[k] is Symbolic);
    }
}

/// A list of one parameter is symbolic where the parameter is.
pub proof fn lemma_any_symbolic_of_one(parameter: SymbolicFloat)
    ensures
        any_symbolic(seq![parameter]) == (parameter is Symbolic),
{
    if parameter is Symbolic {
        assert(seq![parameter][0] is Symbolic);
    }
}

} // verus!
