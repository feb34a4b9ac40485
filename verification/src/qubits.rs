//! Qubit lists: which qubits a gate involves, and how a mapping renames them.
use crate::error::RoqoqoError;
use std::collections::HashMap;
use std::collections::HashSet;
use vstd::prelude::*;

verus! {

broadcast use vstd::std_specs::hash::group_hash_axioms;

/// The qubits that an operation acts on.
#[derive(Debug, PartialEq, Eq)]
pub enum InvolvedQubits {
    /// Every qubit of the register.
    All,
    /// No qubit.
    Nothing,
    /// The qubits in the set.
    Qubits(HashSet<usize>),
}

impl InvolvedQubits {
    /// Two values say the same: the same variant, and in `Qubits` the same set.
    pub open spec fn agrees_with(self, other: InvolvedQubits) -> bool {
        match (self, other) {
            (InvolvedQubits::All, InvolvedQubits::All) => true,
            (InvolvedQubits::Nothing, InvolvedQubits::Nothing) => true,
            (InvolvedQubits::Qubits(left), InvolvedQubits::Qubits(right)) => left@ == right@,
            _ => false,
        }
    }
}

/// `Clone` for `HashSet`: the copy holds the same elements.
#[verifier::external_body]
fn copy_of_set(set: &HashSet<usize>) -> (copy: HashSet<usize>)
    ensures
        copy@ == set@,
{
    set.clone()
}

impl Clone for InvolvedQubits {
    fn clone(&self) -> (copy: Self)
        ensures
            copy.agrees_with(*self),
    {
        match self {
            InvolvedQubits::All => InvolvedQubits::All,
            InvolvedQubits::Nothing => InvolvedQubits::Nothing,
            InvolvedQubits::Qubits(set) => InvolvedQubits::Qubits(copy_of_set(set)),
        }
    }
}

/// Every qubit of the list has an entry in the mapping.
pub open spec fn covers(mapping: Map<usize, usize>, qubits: Seq<usize>) -> bool {
    forall|i: int| 0 <= i < qubits.len() ==> mapping.contains_key(#[trigger] qubits[i])
}

/// The list with every qubit replaced by its entry in the mapping.
pub open spec fn mapped(mapping: Map<usize, usize>, qubits: Seq<usize>) -> Seq<usize> {
    Seq::new(qubits.len(), |i: int| mapping[qubits[i]])
}

/// Position `index` holds the first qubit of the list that the mapping lacks.
pub open spec fn is_first_missing(
    mapping: Map<usize, usize>,
    qubits: Seq<usize>,
    index: int,
) -> bool {
    &&& 0 <= index < qubits.len()
    &&& !mapping.contains_key(qubits[index])
    &&& forall|j: int| 0 <= j < index ==> mapping.contains_key(#[trigger] qubits[j])
}

/// The position of the first qubit of the list that the mapping lacks, where there is one.
pub open spec fn first_missing(mapping: Map<usize, usize>, qubits: Seq<usize>) -> int {
    choose|index: int| is_first_missing(mapping, qubits, index)
}

/// What remapping a qubit list gives: the renamed list where the mapping
/// covers it, else the error that names the first qubit without an entry.
pub open spec fn remapping(mapping: Map<usize, usize>, qubits: Seq<usize>) -> Result<
    Seq<usize>,
    RoqoqoError,
> {
    if covers(mapping, qubits) {
        Ok(mapped(mapping, qubits))
    } else {
        Err(RoqoqoError::QubitMappingError { qubit: qubits[first_missing(mapping, qubits)] })
    }
}

/// Only one position can hold the first missing qubit.
pub proof fn lemma_first_missing_is_unique(
    mapping: Map<usize, usize>,
    qubits: Seq<usize>,
    index: int,
)
    requires
        is_first_missing(mapping, qubits, index),
    ensures
        !covers(mapping, qubits),
        first_missing(mapping, qubits) == index,
{
    let chosen = first_missing(mapping, qubits);
    assert(is_first_missing(mapping, qubits, chosen));
    if chosen < index {
        assert(mapping.contains_key(qubits[chosen]));
    }
    if index < chosen {
        assert(mapping.contains_key(qubits[index]));
    }
}

/// Renames the qubits of a list.
pub fn remap_qubit_list(qubits: &Vec<usize>, mapping: &HashMap<usize, usize>) -> (r: Result<
    Vec<usize>,
    RoqoqoError,
>)
    ensures
        match r {
            Ok(renamed) => remapping(mapping@, qubits@) == Ok::<Seq<usize>, RoqoqoError>(renamed@),
            Err(error) => remapping(mapping@, qubits@) == Err::<Seq<usize>, RoqoqoError>(error),
        },
{
    let mut renamed: Vec<usize> = Vec::new();
    let mut index: usize = 0;
    while index < qubits.len()
        invariant
            index <= qubits.len(),
            renamed@.len() == index,
            forall|j: int| 0 <= j < index ==> mapping@.contains_key(#[trigger] qubits@[j]),
            forall|j: int| 0 <= j < index ==> renamed@[j] == mapping@[qubits@[j]],
        decreases qubits.len() - index,
    {
        let qubit = qubits[index];
        match mapping.get(&qubit) {
            Some(target) => {
                renamed.push(*target);
            },
            None => {
                proof {
                    lemma_first_missing_is_unique(mapping@, qubits@, index as int);
                }
                return Err(RoqoqoError::QubitMappingError { qubit });
            },
        }
        index += 1;
    }
    assert(renamed@ =~= mapped(mapping@, qubits@));
    Ok(renamed)
}

/// Decides whether two lists hold the same qubits in the same order.
pub fn same_qubits(left: &Vec<usize>, right: &Vec<usize>) -> (r: bool)
    ensures
        r == (left@ == right@),
{
    if left.len() != right.len() {
        return false;
    }
    let mut index: usize = 0;
    while index < left.len()
        invariant
            left@.len() == right@.len(),
            index <= left.len(),
            forall|i: int| 0 <= i < index ==> left@[i] == right@[i],
        decreases left.len() - index,
    {
        if left[index] != right[index] {
            return false;
        }
        index += 1;
    }
    assert(left@ =~= right@);
    true
}

/// Collects the qubits of a list into a set.
pub fn involved_set(qubits: &Vec<usize>) -> (r: InvolvedQubits)
    ensures
        r matches InvolvedQubits::Qubits(set) && set@ == qubits@.to_set(),
{
    let mut set: HashSet<usize> = HashSet::new();
    let mut index: usize = 0;
    while index < qubits.len()
        invariant
            index <= qubits.len(),
            set@ == qubits@.take(index as int).to_set(),
        decreases qubits.len() - index,
    {
        set.insert(qubits[index]);
        proof {
            let before = qubits@.take(index as int);
            let after = qubits@.take(index + 1);
            assert(after =~= before.push(qubits@[index as int]));
            assert forall|q: usize| after.to_set().contains(q) <==> before.to_set().insert(
                qubits@[index as int],
            ).contains(q) by {
                if after.contains(q) {
                    let k = choose|k: int| 0 <= k < after.len() && after[k] == q;
                    if k < index {
                        assert(before[k] == q);
                    }
                }
                if before.contains(q) {
                    let k = choose|k: int| 0 <= k < before.len() && before[k] == q;
                    assert(after[k] == q);
                }
                assert(after[index as int] == qubits@[index as int]);
            }
            assert(after.to_set() =~= before.to_set().insert(qubits@[index as int]));
        }
        index += 1;
    }
    assert(qubits@.take(qubits@.len() as int) =~= qubits@);
    InvolvedQubits::Qubits(set)
}

} // verus!
