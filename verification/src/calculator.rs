//! The boundary to `qoqo_calculator`, which provides the symbolic parameters
//! of the gates and evaluates their expressions.
//!
//! Values of the calculator's types are opaque to the verifier. What a
//! parameter holds is named by [`contents`], and every contract in the crate
//! speaks of parameters through it. The items in the first half of this file
//! are believed, not proved; each says which function of `qoqo_calculator` or
//! of the standard library it stands for.
use qoqo_calculator::{Calculator, CalculatorError, CalculatorFloat};
use vstd::prelude::*;

verus! {

/// `qoqo_calculator::CalculatorFloat`: a number or a symbolic expression.
#[verifier::external_type_specification]
#[verifier::external_body]
pub struct ExCalculatorFloat(CalculatorFloat);

/// `qoqo_calculator::Calculator`: a table of variables against which expressions are evaluated.
#[verifier::external_type_specification]
#[verifier::external_body]
pub struct ExCalculator(Calculator);

/// `qoqo_calculator::CalculatorError`: why a value could not be turned into a number.
#[verifier::external_type_specification]
#[verifier::external_body]
pub struct ExCalculatorError(CalculatorError);

/// What a gate parameter holds.
pub enum SymbolicFloat {
    /// A number, given by its IEEE 754 binary64 bit pattern.
    Literal(u64),
    /// An expression over named variables, given by its text.
    Symbolic(Seq<char>),
}

/// The bit pattern of the double closest to pi.
pub const PI_BITS: u64 = 0x4009_21FB_5444_2D18;

/// The value 2^63: the sign bit of a binary64 bit pattern.
pub const SIGN_BIT: u64 = 0x8000_0000_0000_0000;

/// The bits as which every NaN is read.
pub const NAN_BITS: u64 = 0x7FF8_0000_0000_0000;

/// What `value` holds: the bits of `CalculatorFloat::Float`, or the text of
/// `CalculatorFloat::Str`. Every NaN is read as the same number, with the
/// bits [`NAN_BITS`]: which of the NaNs an operation returns is not fixed,
/// and nothing in this crate tells one from another.
pub uninterp spec fn contents(value: CalculatorFloat) -> SymbolicFloat;

/// The variables that `calculator` holds, each name with the bits of its
/// value, a NaN read as in [`contents`].
pub uninterp spec fn variables(calculator: Calculator) -> Map<Seq<char>, u64>;

/// The outcome of `left * right` in `qoqo_calculator`.
pub uninterp spec fn multiplied(left: SymbolicFloat, right: SymbolicFloat) -> SymbolicFloat;

/// The outcome of `left + right` in `qoqo_calculator`.
pub uninterp spec fn added(left: SymbolicFloat, right: SymbolicFloat) -> SymbolicFloat;

/// The outcome of `left - right` in `qoqo_calculator`.
pub uninterp spec fn subtracted(left: SymbolicFloat, right: SymbolicFloat) -> SymbolicFloat;

/// The outcome of `value / divisor` in `qoqo_calculator`, the divisor a whole number.
pub uninterp spec fn divided(value: SymbolicFloat, divisor: u32) -> SymbolicFloat;

/// The error `CalculatorError::FloatSymbolicNotConvertable` that carries `text`.
pub uninterp spec fn symbolic_not_convertable(text: Seq<char>) -> CalculatorError;

/// The error `CalculatorError::VariableNotSet` that carries `name`.
pub uninterp spec fn variable_not_set(name: Seq<char>) -> CalculatorError;

/// The answer of `char::is_alphabetic`.
pub uninterp spec fn alphabetic(c: char) -> bool;

/// The outcome of `value / 2`.
pub open spec fn half(value: SymbolicFloat) -> SymbolicFloat {
    divided(value, 2)
}

/// The outcome of unary minus: the sign bit of a number is flipped, a NaN
/// stays the NaN it is read as, and an expression `e` becomes `(-e)`.
pub open spec fn negated(value: SymbolicFloat) -> SymbolicFloat {
    match value {
        SymbolicFloat::Literal(bits) => SymbolicFloat::Literal(
            if is_nan(bits) {
                bits
            } else if bits < SIGN_BIT {
                (bits + SIGN_BIT) as u64
            } else {
                (bits - SIGN_BIT) as u64
            },
        ),
        SymbolicFloat::Symbolic(text) => SymbolicFloat::Symbolic(seq!['(', '-'] + text + seq![')']),
    }
}

/// The bits of a number without its sign bit.
pub open spec fn magnitude(bits: u64) -> int {
    bits as int % SIGN_BIT as int
}

/// The bits are those of a NaN: above the bits of infinity.
pub open spec fn is_nan(bits: u64) -> bool {
    magnitude(bits) > 0x7FF0_0000_0000_0000
}

/// Equality of binary64 numbers: a NaN equals nothing, the two zeros are
/// equal, and any other two numbers are equal where their bits are.
pub open spec fn equal_numbers(left: u64, right: u64) -> bool {
    &&& !is_nan(left)
    &&& !is_nan(right)
    &&& (left == right || (magnitude(left) == 0 && magnitude(right) == 0))
}

/// Equality of parameters: two numbers that are equal, or two expressions
/// with the same text. Expressions are not compared by what they mean.
pub open spec fn equal(left: SymbolicFloat, right: SymbolicFloat) -> bool {
    match (left, right) {
        (SymbolicFloat::Literal(x), SymbolicFloat::Literal(y)) => equal_numbers(x, y),
        (SymbolicFloat::Symbolic(x), SymbolicFloat::Symbolic(y)) => x == y,
        _ => false,
    }
}

/// Texts that can be handed to the expression parser of `qoqo_calculator`:
/// they are not empty, and every character that is not a letter is ASCII.
/// Among the other texts are those on which the parser panics.
pub open spec fn parsable(text: Seq<char>) -> bool {
    &&& text.len() > 0
    &&& forall|i: int| 0 <= i < text.len() ==> is_ascii_or_letter(#[trigger] text[i])
}

/// The character is an ASCII letter.
pub open spec fn is_ascii_letter(c: char) -> bool {
    (97 <= c as u32 <= 122) || (65 <= c as u32 <= 90)
}

/// The text is the name of a variable in ASCII: a letter, followed by
/// letters, digits and underscores.
pub open spec fn is_identifier(text: Seq<char>) -> bool {
    &&& text.len() > 0
    &&& is_ascii_letter(text[0])
    &&& forall|i: int|
        0 <= i < text.len() ==> is_ascii_letter(#[trigger] text[i]) || (48 <= text[i] as u32 <= 57)
            || text[i] as u32 == 95
}

/// What the parser may answer to a text under the bound variables. An
/// answer on success is a number. A text that is the name of a variable is
/// answered by the value of the variable, or by the error that carries the
/// name where the variable is not bound. What any other text evaluates to
/// is left to the parser.
pub open spec fn parser_answers(
    bound: Map<Seq<char>, u64>,
    text: Seq<char>,
    answer: Result<CalculatorFloat, CalculatorError>,
) -> bool {
    &&& answer matches Ok(number) ==> contents(number) is Literal
    &&& is_identifier(text) && bound.contains_key(text) ==> (answer matches Ok(number) && contents(
        number,
    ) == SymbolicFloat::Literal(bound[text]))
    &&& is_identifier(text) && !bound.contains_key(text) ==> answer == Err::<
        CalculatorFloat,
        CalculatorError,
    >(variable_not_set(text))
}

/// What evaluating a parameter under the bound variables may answer: a
/// number is answered by itself, a text that cannot be handed to the parser
/// by the error that carries the text, and any other text by what the
/// parser answers to it.
pub open spec fn answers(
    bound: Map<Seq<char>, u64>,
    parameter: SymbolicFloat,
    answer: Result<CalculatorFloat, CalculatorError>,
) -> bool {
    match parameter {
        SymbolicFloat::Literal(_) => answer matches Ok(number) && contents(number) == parameter,
        SymbolicFloat::Symbolic(text) => if parsable(text) {
            parser_answers(bound, text, answer)
        } else {
            answer == Err::<CalculatorFloat, CalculatorError>(symbolic_not_convertable(text))
        },
    }
}

/// The character is ASCII or a letter.
pub open spec fn is_ascii_or_letter(c: char) -> bool {
    (c as u32) < 128 || alphabetic(c)
}

/// `CalculatorFloat::is_float`: true for `Float`, false for `Str`.
pub assume_specification[ CalculatorFloat::is_float ](value: &CalculatorFloat) -> (r: bool)
    ensures
        r == (contents(*value) is Literal),
;

/// `Clone` for `CalculatorFloat`: the derived impl copies the variant and what it holds.
pub assume_specification[ <CalculatorFloat as Clone>::clone ](value: &CalculatorFloat) -> (r:
    CalculatorFloat)
    ensures
        r == *value,
;

/// `char::is_alphabetic`, whose answer [`alphabetic`] names.
pub assume_specification[ char::is_alphabetic ](c: char) -> (r: bool)
    ensures
        r == alphabetic(c),
;

/// Reads the text out of `CalculatorFloat::Str`; a `CalculatorFloat::Float` has none.
#[verifier::external_body]
pub(crate) fn expression(value: &CalculatorFloat) -> (r: Option<String>)
    ensures
        match contents(*value) {
            SymbolicFloat::Literal(_) => r is None,
            SymbolicFloat::Symbolic(text) => r matches Some(s) && s@ == text,
        },
{
    match value {
        CalculatorFloat::Float(_) => None,
        CalculatorFloat::Str(text) => Some(text.clone()),
    }
}

/// `PartialEq` for `CalculatorFloat`, which is derived: the variants are the
/// same, and the two numbers are equal as numbers or the two texts are the
/// same.
#[verifier::external_body]
pub(crate) fn same(left: &CalculatorFloat, right: &CalculatorFloat) -> (r: bool)
    ensures
        r == equal(contents(*left), contents(*right)),
{
    left == right
}

/// `Mul` for `CalculatorFloat`, on copies of the two factors. The product of
/// two numbers is a number.
#[verifier::external_body]
pub(crate) fn product(left: &CalculatorFloat, right: &CalculatorFloat) -> (r: CalculatorFloat)
    ensures
        contents(r) == multiplied(contents(*left), contents(*right)),
        contents(*left) is Literal && contents(*right) is Literal ==> contents(r) is Literal,
{
    left.clone() * right.clone()
}

/// `Add` for `CalculatorFloat`, on copies of the two terms. The sum of two
/// numbers is a number.
#[verifier::external_body]
pub(crate) fn sum(left: &CalculatorFloat, right: &CalculatorFloat) -> (r: CalculatorFloat)
    ensures
        contents(r) == added(contents(*left), contents(*right)),
        contents(*left) is Literal && contents(*right) is Literal ==> contents(r) is Literal,
{
    left.clone() + right.clone()
}

/// `Sub` for `CalculatorFloat`, on copies of the two terms. The difference
/// of two numbers is a number.
#[verifier::external_body]
pub(crate) fn difference(left: &CalculatorFloat, right: &CalculatorFloat) -> (r: CalculatorFloat)
    ensures
        contents(r) == subtracted(contents(*left), contents(*right)),
        contents(*left) is Literal && contents(*right) is Literal ==> contents(r) is Literal,
{
    left.clone() - right.clone()
}

/// `Neg` for `CalculatorFloat`, on a copy: `Float(x)` becomes `Float(-x)`,
/// `Str(e)` becomes `Str("(-e)")`.
#[verifier::external_body]
pub(crate) fn negative(value: &CalculatorFloat) -> (r: CalculatorFloat)
    ensures
        contents(r) == negated(contents(*value)),
{
    -value.clone()
}

/// `Div` for `CalculatorFloat`, on a copy and with a whole number as the
/// divisor, which `From<u32>` turns into a number. The division panics on
/// the divisor zero. The quotient of a number is a number, that of an
/// expression an expression.
#[verifier::external_body]
pub(crate) fn quotient(value: &CalculatorFloat, divisor: u32) -> (r: CalculatorFloat)
    requires
        divisor != 0,
    ensures
        contents(r) == divided(contents(*value), divisor),
        contents(r) is Literal == contents(*value) is Literal,
{
    value.clone() / divisor
}

/// The constant `CalculatorFloat::PI`.
#[verifier::external_body]
pub(crate) fn pi() -> (r: CalculatorFloat)
    ensures
        contents(r) == SymbolicFloat::Literal(PI_BITS),
{
    CalculatorFloat::PI
}

/// `CalculatorFloat::float`, keeping only whether it succeeded: a number is
/// accepted, an expression is answered with the error that carries its text.
#[verifier::external_body]
pub(crate) fn require_literal(value: &CalculatorFloat) -> (r: Result<(), CalculatorError>)
    ensures
        match contents(*value) {
            SymbolicFloat::Literal(_) => r is Ok,
            SymbolicFloat::Symbolic(text) => r == Err::<(), CalculatorError>(
                symbolic_not_convertable(text),
            ),
        },
{
    match value.float() {
        Ok(_) => Ok(()),
        Err(error) => Err(error),
    }
}

/// `Calculator::parse_str`, with the number it returns wrapped by
/// `CalculatorFloat::from`. Whatever it returns on success is a number. A
/// text that is the name of a variable is looked up among the variables of
/// the calculator: the answer is the value of the variable, or the error
/// `VariableNotSet` with the name. Whether any other text can be evaluated,
/// and to what, is left to the calculator.
#[verifier::external_body]
pub(crate) fn parse_expression(calculator: &Calculator, text: &str) -> (r: Result<
    CalculatorFloat,
    CalculatorError,
>)
    requires
        parsable(text@),
    ensures
        r matches Ok(value) ==> contents(value) is Literal,
        is_identifier(text@) ==> (match r {
            Ok(value) => variables(*calculator).contains_key(text@) && contents(value)
                == SymbolicFloat::Literal(variables(*calculator)[text@]),
            Err(error) => !variables(*calculator).contains_key(text@) && error
                == variable_not_set(text@),
        }),
{
    calculator.parse_str(text).map(CalculatorFloat::from)
}

/// The half of a parameter.
pub(crate) fn halved(value: &CalculatorFloat) -> (r: CalculatorFloat)
    ensures
        contents(r) == half(contents(*value)),
        contents(r) is Literal == contents(*value) is Literal,
{
    quotient(value, 2)
}

/// Decides whether `text` can be handed to the expression parser.
pub fn is_parsable(text: &str) -> (r: bool)
    ensures
        r == parsable(text@),
{
    let length = text.unicode_len();
    if length == 0 {
        return false;
    }
    let mut index: usize = 0;
    while index < length
        invariant
            length == text@.len(),
            index <= length,
            forall|i: int| 0 <= i < index ==> is_ascii_or_letter(#[trigger] text@[i]),
        decreases length - index,
    {
        let c = text.get_char(index);
        if !((c as u32) < 128 || c.is_alphabetic()) {
            return false;
        }
        index += 1;
    }
    true
}

/// Turns one parameter into a number.
///
/// A number is returned as it is. An expression is handed to `calculator`,
/// which either evaluates it to a number or says why it cannot. A text that
/// the parser cannot take is refused with the error that carries the text.
pub fn evaluate(value: &CalculatorFloat, calculator: &Calculator) -> (r: Result<
    CalculatorFloat,
    CalculatorError,
>)
    ensures
        answers(variables(*calculator), contents(*value), r),
        contents(*value) is Literal ==> r == Ok::<CalculatorFloat, CalculatorError>(*value),
{
    match expression(value) {
        None => Ok(value.clone()),
        Some(text) => {
            if is_parsable(text.as_str()) {
                parse_expression(calculator, text.as_str())
            } else {
                match require_literal(value) {
                    Ok(_) => Ok(value.clone()),
                    Err(error) => Err(error),
                }
            }
        },
    }
}

} // verus!
