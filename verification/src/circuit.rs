//! Circuits: gates in the order in which they are applied.
use crate::gate::GateView;
use crate::operation::Operation;
use vstd::prelude::*;
use vstd::std_specs::cmp::PartialEqSpecImpl;

verus! {

/// Two circuits are equal where they have the same length and equal gates
/// at every position.
pub open spec fn equal_circuits(left: Seq<GateView>, right: Seq<GateView>) -> bool {
    &&& left.len() == right.len()
    &&& forall|i: int| 0 <= i < left.len() ==> (#[trigger] left[i]).equals(right[i])
}

/// Some gate of the sequence has an expression among its parameters.
pub open spec fn any_parametrized(gates: Seq<GateView>) -> bool {
    exists|i: int| 0 <= i < gates.len() && (#[trigger] gates[i]).is_parametrized()
}

/// A sequence of gates.
#[derive(Debug)]
pub struct Circuit {
    operations: Vec<Operation>,
}

impl View for Circuit {
    type V = Seq<GateView>;

    closed spec fn view(&self) -> Seq<GateView> {
        Seq::new(self.operations@.len(), |i: int| self.operations@[i]@)
    }
}

impl Clone for Circuit {
    fn clone(&self) -> (copy: Self)
        ensures
            copy@ == self@,
    {
        let mut operations: Vec<Operation> = Vec::new();
        let mut index: usize = 0;
        while index < self.operations.len()
            invariant
                index <= self.operations.len(),
                operations@.len() == index,
                forall|i: int| 0 <= i < index ==> (#[trigger] operations@[i])@ == self@[i],
            decreases self.operations.len() - index,
        {
            operations.push(self.operations[index].clone());
            index += 1;
        }
        let copy = Circuit { operations };
        assert(copy@ =~= self@);
        copy
    }
}

impl PartialEq for Circuit {
    fn eq(&self, other: &Self) -> (r: bool) {
        if self.operations.len() != other.operations.len() {
            return false;
        }
        let mut index: usize = 0;
        while index < self.operations.len()
            invariant
                self.operations@.len() == other.operations@.len(),
                index <= self.operations.len(),
                forall|i: int| 0 <= i < index ==> (#[trigger] self@[i]).equals(other@[i]),
            decreases self.operations.len() - index,
        {
            if self.operations[index] != other.operations[index] {
                assert(!self@[index as int].equals(other@[index as int]));
                return false;
            }
            index += 1;
        }
        true
    }
}

impl PartialEqSpecImpl for Circuit {
    open spec fn obeys_eq_spec() -> bool {
        true
    }

    open spec fn eq_spec(&self, other: &Self) -> bool {
        equal_circuits(self@, other@)
    }
}

impl Circuit {
    /// The empty circuit.
    pub fn new() -> (circuit: Self)
        ensures
            circuit@ == Seq::<GateView>::empty(),
    {
        let circuit = Circuit { operations: Vec::new() };
        assert(circuit@ =~= Seq::<GateView>::empty());
        circuit
    }

    /// Appends a gate to the circuit.
    pub fn add_operation(&mut self, operation: Operation)
        ensures
            final(self)@ == old(self)@.push(operation@),
            any_parametrized(final(self)@) == (any_parametrized(old(self)@)
                || operation@.is_parametrized()),
    {
        self.operations.push(operation);
        assert(self@ =~= old(self)@.push(operation@));
        proof {
            let before = old(self)@;
            let after = self@;
            if any_parametrized(before) {
                let i = choose|i: int|
                    0 <= i < before.len() && (#[trigger] before[i]).is_parametrized();
                assert(after[i].is_parametrized());
            }
            if operation@.is_parametrized() {
                assert(after[before.len() as int].is_parametrized());
            }
            if any_parametrized(after) {
                let i = choose|i: int|
                    0 <= i < after.len() && (#[trigger] after[i]).is_parametrized();
                if i < before.len() {
                    assert(before[i].is_parametrized());
                }
            }
        }
    }

    /// Whether some gate of the circuit has an expression among its parameters.
    pub fn is_parametrized(&self) -> (r: bool)
        ensures
            r == any_parametrized(self@),
    {
        let mut index: usize = 0;
        while index < self.operations.len()
            invariant
                index <= self.operations.len(),
                forall|i: int| 0 <= i < index ==> !(#[trigger] self@[i]).is_parametrized(),
            decreases self.operations.len() - index,
        {
            if self.operations[index].is_parametrized() {
                assert(self@[index as int].is_parametrized());
                return true;
            }
            index += 1;
        }
        false
    }

    /// The number of gates in the circuit.
    pub fn len(&self) -> (r: usize)
        ensures
            r == self@.len(),
    {
        self.operations.len()
    }

    /// Whether the circuit holds no gate.
    pub fn is_empty(&self) -> (r: bool)
        ensures
            r == (self@.len() == 0),
    {
        self.operations.len() == 0
    }

    /// The operation at position `index`, where there is one.
    pub fn get(&self, index: usize) -> (r: Option<&Operation>)
        ensures
            match r {
                Some(operation) => index < self@.len() && operation@ == self@[index as int],
                None => index >= self@.len(),
            },
    {
        if index < self.operations.len() {
            Some(&self.operations[index])
        } else {
            None
        }
    }

    /// The gates of the circuit, in order.
    pub fn operations(&self) -> (r: &Vec<Operation>)
        ensures
            r@.len() == self@.len(),
            forall|i: int| 0 <= i < r@.len() ==> (#[trigger] r@[i])@ == self@[i],
    {
        &self.operations
    }
}

} // verus!
