//! Exact unitary matrices.
//!
//! The gates whose unitary has a fixed structure are the identity but for
//! their last rows. Their matrices are given entry by entry, each entry one
//! of 0, 1, -1 and a phase factor exp(i * angle) with the angle a number.
//! Basis states are numbered with the first qubit of a gate as the most
//! significant bit; rows are images, columns are arguments.
use crate::calculator::{contents, magnitude, SymbolicFloat};
use qoqo_calculator::CalculatorFloat;
use vstd::prelude::*;

verus! {

/// An entry of an exact unitary matrix.
#[derive(Debug, PartialEq)]
pub enum Entry {
    /// The number 0.
    Zero,
    /// The number 1.
    One,
    /// The number -1.
    MinusOne,
    /// The number exp(i * angle).
    Phase(CalculatorFloat),
}

/// The mathematical model of an entry.
pub enum EntryView {
    /// The number 0.
    Zero,
    /// The number 1.
    One,
    /// The number -1.
    MinusOne,
    /// The number exp(i * angle), with what the angle holds.
    Phase(SymbolicFloat),
}

impl View for Entry {
    type V = EntryView;

    open spec fn view(&self) -> EntryView {
        match self {
            Entry::Zero => EntryView::Zero,
            Entry::One => EntryView::One,
            Entry::MinusOne => EntryView::MinusOne,
            Entry::Phase(angle) => EntryView::Phase(contents(*angle)),
        }
    }
}

/// The square matrix of the given dimension with the given entries.
pub open spec fn matrix_of(dimension: int, entry: spec_fn(int, int) -> EntryView) -> Seq<
    Seq<EntryView>,
> {
    Seq::new(
        dimension as nat,
        |row: int| Seq::new(dimension as nat, |column: int| entry(row, column)),
    )
}

/// The entries of the identity but for its last diagonal entry, which is `last`.
pub open spec fn phase_on_last(dimension: int, last: EntryView) -> spec_fn(int, int) -> EntryView {
    |row: int, column: int|
        if row != column {
            EntryView::Zero
        } else if row == dimension - 1 {
            last
        } else {
            EntryView::One
        }
}

/// The entries of the identity but for its last two rows, which are exchanged.
pub open spec fn exchange_of_last_two(dimension: int) -> spec_fn(int, int) -> EntryView {
    |row: int, column: int|
        if row < dimension - 2 {
            if row == column {
                EntryView::One
            } else {
                EntryView::Zero
            }
        } else if row + column == 2 * dimension - 3 {
            EntryView::One
        } else {
            EntryView::Zero
        }
}

/// The basis state that the exchange of `first` and `second` sends `state` to.
pub open spec fn exchanged(first: int, second: int, state: int) -> int {
    if state == first {
        second
    } else if state == second {
        first
    } else {
        state
    }
}

/// The entries of the identity but for the rows `first` and `second`, which
/// are exchanged.
pub open spec fn exchange_of(first: int, second: int) -> spec_fn(int, int) -> EntryView {
    |row: int, column: int|
        if column == exchanged(first, second, row) {
            EntryView::One
        } else {
            EntryView::Zero
        }
}

/// The matrix sends the basis state `from` to the basis state `to`: the
/// column `from` holds 1 in row `to` and 0 in every other row.
pub open spec fn maps_basis_state(matrix: Seq<Seq<EntryView>>, from: int, to: int) -> bool {
    &&& 0 <= from < matrix.len()
    &&& 0 <= to < matrix.len()
    &&& forall|row: int|
        0 <= row < matrix.len() ==> from < matrix[row].len() && (#[trigger] matrix[row])[from] == (
        if row == to {
            EntryView::One
        } else {
            EntryView::Zero
        })
}

/// The generalized controlled NOT sends the last but one basis state to the
/// last and the last to the last but one, and every other basis state to
/// itself.
pub proof fn lemma_exchange_of_last_two(dimension: int)
    requires
        dimension >= 2,
    ensures
        maps_basis_state(
            matrix_of(dimension, exchange_of_last_two(dimension)),
            dimension - 2,
            dimension - 1,
        ),
        maps_basis_state(
            matrix_of(dimension, exchange_of_last_two(dimension)),
            dimension - 1,
            dimension - 2,
        ),
        forall|state: int|
            0 <= state < dimension - 2 ==> #[trigger] maps_basis_state(
                matrix_of(dimension, exchange_of_last_two(dimension)),
                state,
                state,
            ),
{
}

/// The parameter is a number that is neither a NaN nor infinite.
pub open spec fn is_finite(value: SymbolicFloat) -> bool {
    value matches SymbolicFloat::Literal(bits) && magnitude(bits) < 0x7FF0_0000_0000_0000
}

/// The entry is of modulus one: 1, -1, or exp(i * angle) with the angle a
/// finite number.
pub open spec fn is_unit(entry: EntryView) -> bool {
    match entry {
        EntryView::Zero => false,
        EntryView::One => true,
        EntryView::MinusOne => true,
        EntryView::Phase(angle) => is_finite(angle),
    }
}

/// The product of an entry with the complex conjugate of another, where it
/// is a whole number: 0 where one of them is 0, 1 for an entry of modulus
/// one with itself, and -1 for 1 with -1. The product of a phase factor with
/// any other entry that is not 0 is no whole number.
pub open spec fn times_conjugate(left: EntryView, right: EntryView) -> Option<int> {
    if left is Zero || right is Zero {
        Some(0)
    } else if left == right {
        if is_unit(left) {
            Some(1)
        } else {
            None
        }
    } else if (left is One && right is MinusOne) || (left is MinusOne && right is One) {
        Some(-1)
    } else {
        None
    }
}

/// The sum of the products of the first `count` entries of one row with the
/// conjugates of the entries of another, where all these products are
/// whole numbers.
pub open spec fn hermitian_product(
    left: Seq<EntryView>,
    right: Seq<EntryView>,
    count: nat,
) -> Option<int>
    decreases count,
{
    if count == 0 {
        Some(0)
    } else {
        match (
            hermitian_product(left, right, (count - 1) as nat),
            times_conjugate(left[count - 1], right[count - 1]),
        ) {
            (Some(sum), Some(term)) => Some(sum + term),
            _ => None,
        }
    }
}

/// The square matrix times its conjugate transpose is the identity: every
/// row has the product 1 with itself and 0 with every other row.
pub open spec fn is_unitary(matrix: Seq<Seq<EntryView>>) -> bool {
    forall|first: int, second: int|
        0 <= first < matrix.len() && 0 <= second < matrix.len() ==> matrix[first].len()
            == matrix.len() && #[trigger] hermitian_product(
            matrix[first],
            matrix[second],
            matrix.len(),
        ) == Some(if first == second {
            1int
        } else {
            0int
        })
}

/// The product of two rows, where the left row is zero everywhere but in
/// one column, is the product of their entries in that column.
proof fn lemma_product_of_unit_row(
    left: Seq<EntryView>,
    right: Seq<EntryView>,
    count: nat,
    column: int,
)
    requires
        0 <= column,
        forall|k: int| 0 <= k < count && k != column ==> #[trigger] left[k] is Zero,
        column < count ==> times_conjugate(left[column], right[column]) is Some,
    ensures
        hermitian_product(left, right, count) == (if column < count {
            times_conjugate(left[column], right[column])
        } else {
            Some(0int)
        }),
    decreases count,
{
    if count > 0 {
        lemma_product_of_unit_row(left, right, (count - 1) as nat, column);
        if count - 1 != column {
            assert(left[count - 1] is Zero);
        }
    }
}

/// The matrices that exchange the last two basis states are unitary.
pub proof fn lemma_exchange_of_last_two_is_unitary(dimension: int)
    requires
        dimension >= 2,
    ensures
        is_unitary(matrix_of(dimension, exchange_of_last_two(dimension))),
{
    let matrix = matrix_of(dimension, exchange_of_last_two(dimension));
    assert forall|first: int, second: int|
        0 <= first < matrix.len() && 0 <= second < matrix.len() implies matrix[first].len()
        == matrix.len() && #[trigger] hermitian_product(
        matrix[first],
        matrix[second],
        matrix.len(),
    ) == Some(if first == second {
        1int
    } else {
        0int
    }) by {
        let column = if first < dimension - 2 {
            first
        } else {
            2 * dimension - 3 - first
        };
        assert(matrix[first][column] is One);
        if first == second {
            assert(matrix[second][column] is One);
        } else {
            assert(matrix[second][column] is Zero);
        }
        lemma_product_of_unit_row(matrix[first], matrix[second], matrix.len(), column);
    }
}

/// The matrices that exchange two basis states are unitary, and send each of
/// the two states to the other and every other state to itself.
pub proof fn lemma_exchange_is_unitary(dimension: int, first: int, second: int)
    requires
        0 <= first < dimension,
        0 <= second < dimension,
    ensures
        is_unitary(matrix_of(dimension, exchange_of(first, second))),
        forall|state: int|
            0 <= state < dimension ==> #[trigger] maps_basis_state(
                matrix_of(dimension, exchange_of(first, second)),
                state,
                exchanged(first, second, state),
            ),
{
    let matrix = matrix_of(dimension, exchange_of(first, second));
    assert forall|left: int, right: int|
        0 <= left < matrix.len() && 0 <= right < matrix.len() implies matrix[left].len()
        == matrix.len() && #[trigger] hermitian_product(
        matrix[left],
        matrix[right],
        matrix.len(),
    ) == Some(if left == right {
        1int
    } else {
        0int
    }) by {
        let column = exchanged(first, second, left);
        assert(matrix[left][column] is One);
        if left == right {
            assert(matrix[right][column] is One);
        } else {
            assert(matrix[right][column] is Zero);
        }
        lemma_product_of_unit_row(matrix[left], matrix[right], matrix.len(), column);
    }
    assert forall|state: int| 0 <= state < dimension implies #[trigger] maps_basis_state(
        matrix,
        state,
        exchanged(first, second, state),
    ) by {
        assert forall|row: int| 0 <= row < matrix.len() implies state < matrix[row].len() && (
        #[trigger] matrix[row])[state] == (if row == exchanged(first, second, state) {
            EntryView::One
        } else {
            EntryView::Zero
        }) by {}
    }
}

/// The diagonal matrices with 1 on the diagonal but for an entry of modulus
/// one in the last place are unitary.
pub proof fn lemma_phase_on_last_is_unitary(dimension: int, last: EntryView)
    requires
        dimension >= 1,
        is_unit(last),
    ensures
        is_unitary(matrix_of(dimension, phase_on_last(dimension, last))),
{
    let matrix = matrix_of(dimension, phase_on_last(dimension, last));
    assert forall|first: int, second: int|
        0 <= first < matrix.len() && 0 <= second < matrix.len() implies matrix[first].len()
        == matrix.len() && #[trigger] hermitian_product(
        matrix[first],
        matrix[second],
        matrix.len(),
    ) == Some(if first == second {
        1int
    } else {
        0int
    }) by {
        assert(is_unit(matrix[first][first]));
        if first != second {
            assert(matrix[second][first] is Zero);
        }
        lemma_product_of_unit_row(matrix[first], matrix[second], matrix.len(), first);
    }
}

/// An exact unitary matrix: a square of entries.
#[derive(Debug, PartialEq)]
pub struct UnitaryMatrix {
    rows: Vec<Vec<Entry>>,
}

impl View for UnitaryMatrix {
    type V = Seq<Seq<EntryView>>;

    closed spec fn view(&self) -> Seq<Seq<EntryView>> {
        Seq::new(
            self.rows@.len(),
            |row: int| Seq::new(self.rows@[row]@.len(), |column: int| self.rows@[row]@[column]@),
        )
    }
}

impl UnitaryMatrix {
    /// Every row is as long as the matrix has rows. Every matrix is built so.
    #[verifier::type_invariant]
    spec fn rows_are_square(&self) -> bool {
        forall|row: int|
            0 <= row < self.rows@.len() ==> (#[trigger] self.rows@[row])@.len() == self.rows@.len()
    }

    /// Every row is as long as the matrix has rows.
    pub open spec fn is_square(&self) -> bool {
        forall|row: int| 0 <= row < self@.len() ==> (#[trigger] self@[row]).len() == self@.len()
    }

    /// The identity but for the rows `first` and `second`, which are exchanged.
    pub fn with_exchange(dimension: usize, first: usize, second: usize) -> (matrix: Self)
        requires
            first < dimension,
            second < dimension,
        ensures
            matrix@ == matrix_of(dimension as int, exchange_of(first as int, second as int)),
            matrix.is_square(),
    {
        let mut rows: Vec<Vec<Entry>> = Vec::new();
        let mut row: usize = 0;
        while row < dimension
            invariant
                first < dimension,
                second < dimension,
                row <= dimension,
                rows@.len() == row,
                forall|i: int| 0 <= i < row ==> (#[trigger] rows@[i])@.len() == dimension,
                forall|i: int, j: int|
                    0 <= i < row && 0 <= j < dimension ==> (#[trigger] rows@[i]@[j])@
                        == exchange_of(first as int, second as int)(i, j),
            decreases dimension - row,
        {
            let one = if row == first {
                second
            } else if row == second {
                first
            } else {
                row
            };
            rows.push(Self::unit_row(dimension, one));
            row += 1;
        }
        let matrix = UnitaryMatrix { rows };
        assert(matrix@ =~~= matrix_of(dimension as int, exchange_of(first as int, second as int)));
        matrix
    }

    /// The identity but for its last diagonal entry, which is `last`.
    pub fn with_phase_on_last(dimension: usize, last: Entry) -> (matrix: Self)
        requires
            dimension >= 1,
        ensures
            matrix@ == matrix_of(dimension as int, phase_on_last(dimension as int, last@)),
            matrix.is_square(),
    {
        let mut rows: Vec<Vec<Entry>> = Vec::new();
        let mut row: usize = 0;
        while row < dimension - 1
            invariant
                dimension >= 1,
                row <= dimension - 1,
                rows@.len() == row,
                forall|i: int| 0 <= i < row ==> (#[trigger] rows@[i])@.len() == dimension,
                forall|i: int, j: int|
                    0 <= i < row && 0 <= j < dimension ==> (#[trigger] rows@[i]@[j])@
                        == phase_on_last(dimension as int, last@)(i, j),
            decreases dimension - 1 - row,
        {
            rows.push(Self::unit_row(dimension, row));
            row += 1;
        }
        let mut final_row: Vec<Entry> = Self::zero_row(dimension - 1);
        final_row.push(last);
        rows.push(final_row);
        let matrix = UnitaryMatrix { rows };
        assert(matrix@ =~~= matrix_of(dimension as int, phase_on_last(dimension as int, last@)));
        matrix
    }

    /// The identity but for its last two rows, which are exchanged.
    pub fn with_exchange_of_last_two(dimension: usize) -> (matrix: Self)
        requires
            dimension >= 2,
        ensures
            matrix@ == matrix_of(dimension as int, exchange_of_last_two(dimension as int)),
            matrix.is_square(),
    {
        let mut rows: Vec<Vec<Entry>> = Vec::new();
        let mut row: usize = 0;
        while row < dimension - 2
            invariant
                dimension >= 2,
                row <= dimension - 2,
                rows@.len() == row,
                forall|i: int| 0 <= i < row ==> (#[trigger] rows@[i])@.len() == dimension,
                forall|i: int, j: int|
                    0 <= i < row && 0 <= j < dimension ==> (#[trigger] rows@[i]@[j])@
                        == exchange_of_last_two(dimension as int)(i, j),
            decreases dimension - 2 - row,
        {
            rows.push(Self::unit_row(dimension, row));
            row += 1;
        }
        rows.push(Self::unit_row(dimension, dimension - 1));
        rows.push(Self::unit_row(dimension, dimension - 2));
        let matrix = UnitaryMatrix { rows };
        assert(matrix@ =~~= matrix_of(dimension as int, exchange_of_last_two(dimension as int)));
        matrix
    }

    /// The number of rows, which is the number of columns.
    pub fn dimension(&self) -> (r: usize)
        ensures
            r == self@.len(),
            self.is_square(),
    {
        proof {
            use_type_invariant(self);
        }
        self.rows.len()
    }

    /// The entry in the given row and column.
    pub fn entry(&self, row: usize, column: usize) -> (r: &Entry)
        requires
            row < self@.len(),
            column < self@.len(),
        ensures
            r@ == self@[row as int][column as int],
    {
        proof {
            use_type_invariant(self);
        }
        &self.rows[row][column]
    }

    /// A row of zeros.
    fn zero_row(length: usize) -> (row: Vec<Entry>)
        ensures
            row@.len() == length,
            forall|j: int| 0 <= j < length ==> #[trigger] row@[j] == Entry::Zero,
    {
        let mut row: Vec<Entry> = Vec::new();
        let mut column: usize = 0;
        while column < length
            invariant
                column <= length,
                row@.len() == column,
                forall|j: int| 0 <= j < column ==> #[trigger] row@[j] == Entry::Zero,
            decreases length - column,
        {
            row.push(Entry::Zero);
            column += 1;
        }
        row
    }

    /// A row of zeros but for a one in column `one`.
    fn unit_row(length: usize, one: usize) -> (row: Vec<Entry>)
        requires
            one < length,
        ensures
            row@.len() == length,
            forall|j: int|
                0 <= j < length ==> #[trigger] row@[j] == (if j == one {
                    Entry::One
                } else {
                    Entry::Zero
                }),
    {
        let mut row: Vec<Entry> = Vec::new();
        let mut column: usize = 0;
        while column < length
            invariant
                column <= length,
                row@.len() == column,
                forall|j: int|
                    0 <= j < column ==> #[trigger] row@[j] == (if j == one {
                        Entry::One
                    } else {
                        Entry::Zero
                    }),
            decreases length - column,
        {
            if column == one {
                row.push(Entry::One);
            } else {
                row.push(Entry::Zero);
            }
            column += 1;
        }
        row
    }
}

} // verus!
