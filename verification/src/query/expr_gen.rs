//! Random expressions for tests: every branch as deep as asked for, every
//! operator over operands that it takes.

use crate::expression::binary_expression::{BinaryExpr, BinaryOp, BinaryOpType};
use crate::expression::expression::{binary_accepts, binary_result_type, ExprModel, RawExpr};
use crate::expression::field::{Field, FieldModel};
use crate::expression::literal::Literal;
use crate::expression::LogicalExpr;
use crate::query::operator::field_models;
use crate::text::{bool_text, bool_to_string, decimal, i64_to_string, u64_to_string};
use crate::types::{FloatType, IntType, NesType};
use rand::seq::SliceRandom;
use rand::Rng;
use vstd::prelude::*;
use vstd::string::*;

verus! {

/// Why no expression could be generated, in words.
#[derive(Debug)]
pub struct GenerationError(String);

impl View for GenerationError {
    type V = Seq<char>;

    closed spec fn view(&self) -> Seq<char> {
        self.0@
    }
}

impl GenerationError {
    /// The text of the error: its reason behind its name.
    pub fn to_string(&self) -> (r: String)
        ensures
            r@ == "GenerationError: "@ + self@,
    {
        let mut text = String::from_str("GenerationError: ");
        text.append(self.0.as_str());
        text
    }
}

/// `Rng::gen_ratio` on the random number generator of the thread: a truth
/// value that is true with the given odds; surely true where the two numbers
/// are equal, surely false where the first is 0.
#[verifier::external_body]
fn random_ratio(numerator: u32, denominator: u32) -> (r: bool)
    requires
        denominator != 0,
        numerator <= denominator,
    ensures
        numerator == denominator ==> r,
        numerator == 0 ==> !r,
{
    rand::thread_rng().gen_ratio(numerator, denominator)
}

/// `SliceRandom::choose` with the random number generator of the thread:
/// one of the items of the slice, or nothing where the slice is empty.
#[verifier::external_body]
fn choose_item<T>(items: &[T]) -> (r: Option<&T>)
    ensures
        items@.len() == 0 ==> r is None,
        items@.len() > 0 ==> r is Some && items@.contains(*r.unwrap()),
{
    items.choose(&mut rand::thread_rng())
}

/// `Rng::gen` on the random number generator of the thread, for a truth
/// value.
#[verifier::external_body]
fn random_bool() -> (r: bool) {
    rand::thread_rng().gen::<bool>()
}

/// `Rng::gen` on the random number generator of the thread, for an unsigned
/// 64-bit number.
#[verifier::external_body]
fn random_u64() -> (r: u64) {
    rand::thread_rng().gen::<u64>()
}

/// The number types.
pub open spec fn arithmetic_type_list() -> Seq<NesType> {
    seq![
        NesType::Int(IntType::Signed8),
        NesType::Int(IntType::Unsigned8),
        NesType::Int(IntType::Signed16),
        NesType::Int(IntType::Unsigned16),
        NesType::Int(IntType::Signed32),
        NesType::Int(IntType::Unsigned32),
        NesType::Int(IntType::Signed64),
        NesType::Int(IntType::Unsigned64),
        NesType::Float(FloatType::Bit32),
        NesType::Float(FloatType::Bit64),
    ]
}

/// The operators that yield a truth value.
pub open spec fn logical_op_list() -> Seq<BinaryOp> {
    seq![
        BinaryOp::And,
        BinaryOp::Or,
        BinaryOp::Equals,
        BinaryOp::Greater,
        BinaryOp::GreaterEquals,
        BinaryOp::Less,
        BinaryOp::LessEquals,
    ]
}

/// The operators that yield a number.
pub open spec fn arithmetic_op_list() -> Seq<BinaryOp> {
    seq![
        BinaryOp::Add,
        BinaryOp::Sub,
        BinaryOp::Multiply,
        BinaryOp::Divide,
        BinaryOp::Remainder,
        BinaryOp::Power,
    ]
}

/// The operators that can stand where a value of the type is asked for, in
/// the order in which the generator looks at them.
pub open spec fn ops_returning(output_type: NesType) -> Seq<BinaryOp> {
    let truths = if output_type == NesType::Undefined || output_type == NesType::Bool {
        logical_op_list()
    } else {
        Seq::empty()
    };
    let numbers = if output_type == NesType::Undefined || output_type.spec_is_numeric() {
        arithmetic_op_list()
    } else {
        Seq::empty()
    };
    truths + numbers
}

/// Whether the generator gives an operator operands of the type: truth
/// values to a logical operator, numbers to the others.
pub open spec fn accepts_input(operator: BinaryOp, input_type: NesType) -> bool {
    if operator.spec_op_type() == BinaryOpType::Logical {
        input_type == NesType::Bool
    } else {
        input_type.spec_is_numeric()
    }
}

/// Whether an operator can yield a value of the type: a truth value from a
/// logical or relational operator, a number from an arithmetic one.
pub open spec fn yields_output(operator: BinaryOp, output_type: NesType) -> bool {
    if operator.spec_op_type() == BinaryOpType::Arithmetic {
        output_type.spec_is_numeric()
    } else {
        output_type == NesType::Bool
    }
}

/// Whether an operator can stand where a value of the type is asked for.
/// Any operator can where the type is `Undefined`.
pub open spec fn can_return(operator: BinaryOp, output_type: NesType) -> bool {
    output_type == NesType::Undefined || yields_output(operator, output_type)
}

/// The type of the value of an operator over operands of the given type.
pub open spec fn output_type_of(operator: BinaryOp, input_type: NesType) -> NesType {
    if operator.spec_op_type() == BinaryOpType::Arithmetic {
        input_type
    } else {
        NesType::Bool
    }
}

/// Whether some field has the type.
pub open spec fn has_field_of_type(fields: Seq<FieldModel>, data_type: NesType) -> bool {
    exists|i: int| 0 <= i < fields.len() && (#[trigger] fields[i]).data_type == data_type
}

/// Whether some field has a number type.
pub open spec fn has_numeric_field(fields: Seq<FieldModel>) -> bool {
    exists|i: int| 0 <= i < fields.len() && (#[trigger] fields[i]).data_type.spec_is_numeric()
}

/// Whether the text is one that the generator writes for a constant of the
/// type: `true` or `false` for a truth value, the decimal text of a number
/// within the bounds of an integer type, and for a floating-point type a
/// fraction, `0.` followed by the decimal text of a 32-bit number.
pub open spec fn literal_text_of(data_type: NesType, text: Seq<char>) -> bool {
    match data_type {
        NesType::Bool => text == bool_text(true) || text == bool_text(false),
        NesType::Int(t) => exists|v: int|
            t.min_value() <= v <= t.max_value() && text == #[trigger] decimal(v),
        NesType::Float(_) => exists|v: int|
            0 <= v <= u32::MAX && text == "0."@ + #[trigger] decimal(v),
        _ => false,
    }
}

/// Whether the generator can write a constant of the type.
pub open spec fn has_literal(data_type: NesType) -> bool {
    data_type == NesType::Bool || data_type.spec_is_numeric()
}

/// Whether the expression is one that the generator gives for the depth,
/// the fields and the type asked for. At depth 0 it is one of the fields,
/// of the type asked for unless that is `Undefined`, or a constant of the
/// type asked for. At a greater depth it is an operator that can stand where
/// the type is asked for, over two expressions of the depth below and of one
/// type that the operator takes: truth values for a logical operator, the
/// type asked for for an arithmetic one, and the number type of some field
/// elsewhere. The node records the type of the operator's value.
pub open spec fn generated(
    expr: ExprModel,
    depth: nat,
    fields: Seq<FieldModel>,
    output_type: NesType,
) -> bool
    decreases depth,
{
    if depth == 0 {
        match expr {
            ExprModel::Field(field) => fields.contains(field) && (output_type == NesType::Undefined
                || field.data_type == output_type),
            ExprModel::Literal(literal) => literal.data_type == output_type && literal_text_of(
                output_type,
                literal.value,
            ),
            _ => false,
        }
    } else {
        match expr {
            ExprModel::Binary { operator, data_type, lhs, rhs } => {
                let input_type = lhs.data_type();
                &&& can_return(operator, output_type)
                &&& accepts_input(operator, input_type)
                &&& operator.spec_op_type() == BinaryOpType::Arithmetic && output_type
                    != NesType::Undefined ==> input_type == output_type
                &&& operator.spec_op_type() != BinaryOpType::Logical && !(operator.spec_op_type()
                    == BinaryOpType::Arithmetic && output_type != NesType::Undefined)
                    ==> has_field_of_type(fields, input_type)
                &&& data_type == output_type_of(operator, input_type)
                &&& generated(*lhs, (depth - 1) as nat, fields, input_type)
                &&& generated(*rhs, (depth - 1) as nat, fields, input_type)
            },
            _ => false,
        }
    }
}

/// Whether every branch of the expression has the given depth and every
/// node above the leaves is an operator with two operands.
pub open spec fn has_depth(expr: ExprModel, depth: nat) -> bool
    decreases depth,
{
    if depth == 0 {
        expr.is_leaf()
    } else {
        match expr {
            ExprModel::Binary { lhs, rhs, .. } => has_depth(*lhs, (depth - 1) as nat) && has_depth(
                *rhs,
                (depth - 1) as nat,
            ),
            _ => false,
        }
    }
}

/// Whether the generator surely gives an expression: a constant can be
/// written for the type asked for, and where a truth value is asked for above
/// depth 0, some field has a number type for a relational operator to read.
pub open spec fn surely_generated(depth: nat, fields: Seq<FieldModel>, output_type: NesType) -> bool {
    output_type.spec_is_numeric() || (output_type == NesType::Bool && (depth == 0
        || has_numeric_field(fields)))
}

/// A generated expression has the depth asked for, and the type asked for
/// unless that is `Undefined`; every operator in it takes its operands and
/// records the type that its rule gives.
pub proof fn lemma_generated_well_typed(
    expr: ExprModel,
    depth: nat,
    fields: Seq<FieldModel>,
    output_type: NesType,
)
    requires
        generated(expr, depth, fields, output_type),
    ensures
        has_depth(expr, depth),
        output_type != NesType::Undefined ==> expr.data_type() == output_type,
        expr.types_recorded(),
        expr.operands_accepted(),
    decreases depth,
{
    if depth > 0 {
        match expr {
            ExprModel::Binary { operator, data_type, lhs, rhs } => {
                let input_type = lhs.data_type();
                lemma_generated_well_typed(*lhs, (depth - 1) as nat, fields, input_type);
                lemma_generated_well_typed(*rhs, (depth - 1) as nat, fields, input_type);
                assert(input_type != NesType::Undefined);
                assert(rhs.data_type() == input_type);
                assert(binary_accepts(operator, input_type, input_type));
                assert(binary_result_type(operator, input_type, input_type) == output_type_of(
                    operator,
                    input_type,
                ));
            },
            _ => {},
        }
    }
}

/// Whether the message is one of those that tell why nothing was generated.
pub open spec fn is_generation_message(message: Seq<char>) -> bool {
    ||| message == "Cannot generate literal of type undefined."@
    ||| message == "Cannot generate literal of type char."@
    ||| message == "Unable to find input type."@
    ||| message == "Unable to find binary operator."@
}

/// Generates a random expression that yields a truth value. Every branch
/// has the given depth, and the fields are taken from the given ones.
pub fn generate_logical_expr(depth: u32, fields: &[Field]) -> (r: Result<
    LogicalExpr,
    GenerationError,
>)
    ensures
        r is Ok ==> generated(r->Ok_0@, depth as nat, field_models(fields@), NesType::Bool),
        r is Err ==> is_generation_message(r->Err_0@),
        surely_generated(depth as nat, field_models(fields@), NesType::Bool) ==> r is Ok,
{
    match generate_raw_expr(depth, fields, NesType::Bool) {
        Ok(expr) => Ok(LogicalExpr(expr)),
        Err(error) => Err(error),
    }
}

/// Generates a random expression. Its leaves are fields and constants, its
/// other nodes operators with two operands. Every branch has the given
/// depth, and the fields are taken from the given ones. The expression has
/// the type asked for; where that is `Undefined`, its type is left to chance.
pub fn generate_raw_expr(depth: u32, fields: &[Field], output_type: NesType) -> (r: Result<
    RawExpr,
    GenerationError,
>)
    ensures
        r is Ok ==> generated(r->Ok_0@, depth as nat, field_models(fields@), output_type),
        r is Err ==> is_generation_message(r->Err_0@),
        surely_generated(depth as nat, field_models(fields@), output_type) ==> r is Ok,
    decreases depth,
{
    if depth == 0 {
        let is_field = random_ratio(3, 4);
        let field = if is_field {
            generate_field(fields, output_type)
        } else {
            None
        };
        return leaf_from(field, generate_literal(output_type));
    }
    let operators = binary_ops_returning(output_type);
    proof {
        if output_type.spec_is_numeric() {
            assert(BinaryOp::Add.spec_op_type() == BinaryOpType::Arithmetic);
            assert(can_return(BinaryOp::Add, output_type));
            assert(operators@.contains(BinaryOp::Add));
        }
        if output_type == NesType::Bool {
            assert(BinaryOp::And.spec_op_type() == BinaryOpType::Logical);
            assert(can_return(BinaryOp::And, output_type));
            assert(operators@.contains(BinaryOp::And));
        }
    }
    let operator = match choose_item(operators.as_slice()) {
        Some(operator) => *operator,
        None => {
            return Err(GenerationError(String::from_str("Unable to find binary operator.")));
        },
    };
    assert(operators@.contains(operator));
    assert(can_return(operator, output_type));
    let input_type = match binary_op_input_type(operator, fields, output_type) {
        Ok(input_type) => input_type,
        Err(error) => {
            return Err(error);
        },
    };
    proof {
        let models = field_models(fields@);
        if surely_generated(depth as nat, models, output_type) {
            assert(can_return(operator, output_type));
            assert(surely_generated((depth - 1) as nat, models, input_type));
        }
    }
    let lhs = match generate_raw_expr(depth - 1, fields, input_type) {
        Ok(lhs) => lhs,
        Err(error) => {
            return Err(error);
        },
    };
    let rhs = match generate_raw_expr(depth - 1, fields, input_type) {
        Ok(rhs) => rhs,
        Err(error) => {
            return Err(error);
        },
    };
    proof {
        lemma_generated_well_typed(lhs@, (depth - 1) as nat, field_models(fields@), input_type);
    }
    let binary = BinaryExpr {
        lhs: Box::new(lhs),
        rhs: Box::new(rhs),
        data_type: binary_op_output_type(operator, input_type),
        operator,
    };
    Ok(RawExpr::Binary(binary))
}

/// The leaf for what was drawn: the field where one was drawn, else the
/// constant, else the reason why no constant could be written.
pub fn leaf_from(field: Option<Field>, literal: Result<Literal, GenerationError>) -> (r: Result<
    RawExpr,
    GenerationError,
>)
    ensures
        match field {
            Some(field) => r is Ok && r->Ok_0@ == ExprModel::Field(field@),
            None => match literal {
                Ok(literal) => r is Ok && r->Ok_0@ == ExprModel::Literal(literal@),
                Err(error) => r is Err && r->Err_0@ == error@,
            },
        },
{
    match field {
        Some(field) => Ok(RawExpr::Field(field)),
        None => match literal {
            Ok(literal) => Ok(RawExpr::Literal(literal)),
            Err(error) => Err(error),
        },
    }
}

/// The operators that can stand where a value of the type is asked for.
pub fn binary_ops_returning(output_type: NesType) -> (r: Vec<BinaryOp>)
    ensures
        r@ == ops_returning(output_type),
        forall|operator: BinaryOp| r@.contains(operator) <==> can_return(operator, output_type),
{
    let mut operators: Vec<BinaryOp> = Vec::new();
    let wants_truth = match output_type {
        NesType::Undefined | NesType::Bool => true,
        _ => false,
    };
    let wants_number = match output_type {
        NesType::Undefined | NesType::Int(_) | NesType::Float(_) => true,
        _ => false,
    };
    if wants_truth {
        operators.push(BinaryOp::And);
        operators.push(BinaryOp::Or);
        operators.push(BinaryOp::Equals);
        operators.push(BinaryOp::Greater);
        operators.push(BinaryOp::GreaterEquals);
        operators.push(BinaryOp::Less);
        operators.push(BinaryOp::LessEquals);
    }
    let ghost truths = operators@;
    if wants_number {
        operators.push(BinaryOp::Add);
        operators.push(BinaryOp::Sub);
        operators.push(BinaryOp::Multiply);
        operators.push(BinaryOp::Divide);
        operators.push(BinaryOp::Remainder);
        operators.push(BinaryOp::Power);
    }
    proof {
        let all = operators@;
        assert(truths =~= if wants_truth {
            logical_op_list()
        } else {
            Seq::empty()
        });
        assert(all =~= ops_returning(output_type));
        assert forall|operator: BinaryOp| all.contains(operator) <==> can_return(
            operator,
            output_type,
        ) by {
            if can_return(operator, output_type) {
                if operator.spec_op_type() == BinaryOpType::Arithmetic {
                    let base = truths.len() as int;
                    assert(all[base] == BinaryOp::Add);
                    assert(all[base + 1] == BinaryOp::Sub);
                    assert(all[base + 2] == BinaryOp::Multiply);
                    assert(all[base + 3] == BinaryOp::Divide);
                    assert(all[base + 4] == BinaryOp::Remainder);
                    assert(all[base + 5] == BinaryOp::Power);
                } else {
                    assert(all[0] == BinaryOp::And);
                    assert(all[1] == BinaryOp::Or);
                    assert(all[2] == BinaryOp::Equals);
                    assert(all[3] == BinaryOp::Greater);
                    assert(all[4] == BinaryOp::GreaterEquals);
                    assert(all[5] == BinaryOp::Less);
                    assert(all[6] == BinaryOp::LessEquals);
                }
            }
        }
    }
    operators
}

/// Whether some of the fields has the type.
pub fn any_field_of_type(fields: &[Field], data_type: NesType) -> (r: bool)
    ensures
        r == has_field_of_type(field_models(fields@), data_type),
{
    let mut i: usize = 0;
    while i < fields.len()
        invariant
            i <= fields.len(),
            forall|j: int| 0 <= j < i ==> (#[trigger] fields@[j])@.data_type != data_type,
        decreases fields.len() - i,
    {
        if fields[i].data_type() == data_type {
            assert(field_models(fields@)[i as int].data_type == data_type);
            return true;
        }
        i += 1;
    }
    assert forall|j: int| 0 <= j < field_models(fields@).len() implies (#[trigger] field_models(
        fields@,
    )[j]).data_type != data_type by {
        assert(field_models(fields@)[j] == fields@[j]@);
    }
    false
}

/// A field of the type asked for, or any field where the type asked for is
/// `Undefined`; nothing where there is no such field.
fn generate_field(fields: &[Field], data_type: NesType) -> (r: Option<Field>)
    ensures
        match r {
            Some(field) => field_models(fields@).contains(field@) && (data_type
                == NesType::Undefined || field@.data_type == data_type),
            None => if data_type == NesType::Undefined {
                fields@.len() == 0
            } else {
                !has_field_of_type(field_models(fields@), data_type)
            },
        },
{
    let mut matching: Vec<usize> = Vec::new();
    let mut i: usize = 0;
    while i < fields.len()
        invariant
            i <= fields.len(),
            forall|k: int|
                0 <= k < matching@.len() ==> (#[trigger] matching@[k]) < fields@.len() && (
                data_type == NesType::Undefined || fields@[matching@[k] as int]@.data_type
                    == data_type),
            forall|j: int|
                0 <= j < i && (data_type == NesType::Undefined || (#[trigger] fields@[j])@.data_type
                    == data_type) ==> matching@.contains(j as usize),
        decreases fields.len() - i,
    {
        let take = match data_type {
            NesType::Undefined => true,
            _ => fields[i].data_type() == data_type,
        };
        let ghost before = matching@;
        if take {
            matching.push(i);
            assert(matching@[before.len() as int] == i);
        }
        assert forall|j: int|
            0 <= j < i + 1 && (data_type == NesType::Undefined || (#[trigger] fields@[j])@.data_type
                == data_type) implies matching@.contains(j as usize) by {
            if j < i {
                let k = choose|k: int| 0 <= k < before.len() && before[k] == j as usize;
                assert(matching@[k] == j as usize);
            }
        }
        i += 1;
    }
    match choose_item(matching.as_slice()) {
        Some(index) => {
            let k = *index;
            proof {
                assert(matching@.contains(k));
                let at = choose|at: int| 0 <= at < matching@.len() && matching@[at] == k;
                assert(matching@[at] < fields@.len());
                assert(data_type == NesType::Undefined || fields@[k as int]@.data_type == data_type);
            }
            let field = fields[k].clone();
            assert(field_models(fields@)[k as int] == field@);
            assert(field_models(fields@).contains(field@));
            Some(field)
        },
        None => {
            assert forall|j: int| 0 <= j < field_models(fields@).len() implies !(data_type
                == NesType::Undefined || (#[trigger] field_models(fields@)[j]).data_type
                == data_type) by {
                assert(field_models(fields@)[j] == fields@[j]@);
                if data_type == NesType::Undefined || fields@[j]@.data_type == data_type {
                    assert(matching@.contains(j as usize));
                }
            }
            proof {
                if data_type == NesType::Undefined && fields@.len() > 0 {
                    assert(field_models(fields@)[0].data_type == fields@[0]@.data_type);
                }
            }
            None
        },
    }
}

/// A constant of the type with a random value. There is none of the types
/// `Undefined` and `Char`.
fn generate_literal(data_type: NesType) -> (r: Result<Literal, GenerationError>)
    ensures
        match r {
            Ok(literal) => literal@.data_type == data_type && literal_text_of(
                data_type,
                literal@.value,
            ),
            Err(error) => !has_literal(data_type) && is_generation_message(error@),
        },
{
    match data_type {
        NesType::Undefined => Err(
            GenerationError(String::from_str("Cannot generate literal of type undefined.")),
        ),
        NesType::Bool => Ok(Literal::with_text(bool_to_string(random_bool()), NesType::Bool)),
        NesType::Char => Err(
            GenerationError(String::from_str("Cannot generate literal of type char.")),
        ),
        NesType::Int(int_type) => Ok(
            Literal::with_text(integer_text(int_type, random_u64()), data_type),
        ),
        NesType::Float(_) => Ok(Literal::with_text(fraction_text(random_u64()), data_type)),
    }
}

/// The number of the integer type that the drawn bits stand for: the bits
/// are cut to the width of the type, which leaves their remainder by the
/// number of values of the type. A number of an unsigned type is given as it
/// is, a number of a signed type by its distance from the least number of
/// the type.
fn cut_to_width(int_type: IntType, bits: u64) -> (r: u64)
    ensures
        r == (bits as int) % int_type.value_count(),
        int_type.min_value() <= int_type.min_value() + r <= int_type.max_value(),
{
    assert((bits as int) % 0x1_0000_0000_0000_0000 == bits);
    match int_type {
        IntType::Signed8 | IntType::Unsigned8 => bits % 0x100,
        IntType::Signed16 | IntType::Unsigned16 => bits % 0x1_0000,
        IntType::Signed32 | IntType::Unsigned32 => bits % 0x1_0000_0000,
        IntType::Signed64 | IntType::Unsigned64 => bits,
    }
}

/// The decimal text of the number of the integer type that the drawn bits
/// stand for.
fn integer_text(int_type: IntType, bits: u64) -> (r: String)
    ensures
        literal_text_of(NesType::Int(int_type), r@),
{
    let distance = cut_to_width(int_type, bits);
    let ghost value = int_type.min_value() + distance;
    let text = match int_type {
        IntType::Signed8 => i64_to_string(distance as i64 - 0x80),
        IntType::Signed16 => i64_to_string(distance as i64 - 0x8000),
        IntType::Signed32 => i64_to_string(distance as i64 - 0x8000_0000),
        IntType::Signed64 => {
            if distance >= 0x8000_0000_0000_0000 {
                i64_to_string((distance - 0x8000_0000_0000_0000) as i64)
            } else {
                i64_to_string((distance as i64) - 0x7fff_ffff_ffff_ffff - 1)
            }
        },
        _ => u64_to_string(distance),
    };
    assert(text@ == decimal(value));
    text
}

/// The text of a fraction below 1 that the drawn bits stand for: `0.`, then
/// the decimal text of their lower 32 bits.
fn fraction_text(bits: u64) -> (r: String)
    ensures
        exists|v: int| 0 <= v <= u32::MAX && r@ == "0."@ + #[trigger] decimal(v),
{
    let v: u64 = bits % 0x1_0000_0000;
    let mut text = String::from_str("0.");
    text.append(u64_to_string(v).as_str());
    assert(text@ == "0."@ + decimal(v as int));
    text
}

/// The types of the operands that the generator gives an operator.
fn binary_op_accepted_input_types(operator: BinaryOp) -> (r: Vec<NesType>)
    ensures
        forall|t: NesType| r@.contains(t) <==> accepts_input(operator, t),
{
    match operator {
        BinaryOp::And | BinaryOp::Or => logical_types(),
        _ => arithmetic_types(),
    }
}

/// The type of the value of an operator over operands of the given type.
fn binary_op_output_type(operator: BinaryOp, input_type: NesType) -> (r: NesType)
    ensures
        r == output_type_of(operator, input_type),
{
    match operator {
        BinaryOp::And
        | BinaryOp::Or
        | BinaryOp::Equals
        | BinaryOp::Greater
        | BinaryOp::GreaterEquals
        | BinaryOp::Less
        | BinaryOp::LessEquals => NesType::Bool,
        _ => input_type,
    }
}

/// The type of the operands for an operator that stands where a value of
/// the given type is asked for: truth values for a logical operator, the type
/// asked for for an arithmetic one, and else a number type that some field
/// has, picked at random.
fn binary_op_input_type(operator: BinaryOp, fields: &[Field], output_type: NesType) -> (r: Result<
    NesType,
    GenerationError,
>)
    requires
        can_return(operator, output_type),
    ensures
        match r {
            Ok(input_type) => {
                &&& accepts_input(operator, input_type)
                &&& operator.spec_op_type() == BinaryOpType::Arithmetic && output_type
                    != NesType::Undefined ==> input_type == output_type
                &&& operator.spec_op_type() != BinaryOpType::Logical && !(operator.spec_op_type()
                    == BinaryOpType::Arithmetic && output_type != NesType::Undefined)
                    ==> has_field_of_type(field_models(fields@), input_type)
            },
            Err(error) => {
                &&& operator.spec_op_type() != BinaryOpType::Logical
                &&& !(operator.spec_op_type() == BinaryOpType::Arithmetic && output_type
                    != NesType::Undefined)
                &&& !has_numeric_field(field_models(fields@))
                &&& error@ == "Unable to find input type."@
            },
        },
{
    let from_fields = match operator.get_op_type() {
        BinaryOpType::Logical => {
            return Ok(NesType::Bool);
        },
        BinaryOpType::Relational => true,
        BinaryOpType::Arithmetic => match output_type {
            NesType::Undefined => true,
            _ => false,
        },
    };
    if !from_fields {
        return Ok(output_type);
    }
    let accepted = binary_op_accepted_input_types(operator);
    let mut present: Vec<NesType> = Vec::new();
    let mut i: usize = 0;
    while i < accepted.len()
        invariant
            i <= accepted.len(),
            operator.spec_op_type() != BinaryOpType::Logical,
            forall|t: NesType| accepted@.contains(t) <==> accepts_input(operator, t),
            forall|k: int|
                0 <= k < present@.len() ==> (#[trigger] present@[k]).spec_is_numeric()
                    && has_field_of_type(field_models(fields@), present@[k]),
            forall|j: int|
                0 <= j < i && has_field_of_type(field_models(fields@), #[trigger] accepted@[j])
                    ==> present@.len() > 0,
        decreases accepted.len() - i,
    {
        assert(accepted@.contains(accepted@[i as int]));
        assert(accepts_input(operator, accepted@[i as int]));
        let ghost before = present@;
        if any_field_of_type(fields, accepted[i]) {
            present.push(accepted[i]);
            assert(present@[before.len() as int] == accepted@[i as int]);
            assert forall|k: int| 0 <= k < present@.len() implies (#[trigger] present@[k])
                .spec_is_numeric() && has_field_of_type(field_models(fields@), present@[k]) by {
                if k < before.len() {
                    assert(present@[k] == before[k]);
                }
            }
        }
        i += 1;
    }
    match choose_item(present.as_slice()) {
        Some(input_type) => Ok(*input_type),
        None => {
            assert(!has_numeric_field(field_models(fields@))) by {
                if has_numeric_field(field_models(fields@)) {
                    let models = field_models(fields@);
                    let w = choose|w: int|
                        0 <= w < models.len() && (#[trigger] models[w]).data_type.spec_is_numeric();
                    let t = models[w].data_type;
                    assert(accepts_input(operator, t));
                    assert(accepted@.contains(t));
                    let j = choose|j: int| 0 <= j < accepted@.len() && accepted@[j] == t;
                    assert(has_field_of_type(models, accepted@[j]));
                }
            }
            Err(GenerationError(String::from_str("Unable to find input type.")))
        },
    }
}

/// The number types.
fn arithmetic_types() -> (r: Vec<NesType>)
    ensures
        r@ == arithmetic_type_list(),
        forall|t: NesType| r@.contains(t) <==> t.spec_is_numeric(),
{
    let mut types: Vec<NesType> = Vec::new();
    types.push(NesType::Int(IntType::Signed8));
    types.push(NesType::Int(IntType::Unsigned8));
    types.push(NesType::Int(IntType::Signed16));
    types.push(NesType::Int(IntType::Unsigned16));
    types.push(NesType::Int(IntType::Signed32));
    types.push(NesType::Int(IntType::Unsigned32));
    types.push(NesType::Int(IntType::Signed64));
    types.push(NesType::Int(IntType::Unsigned64));
    types.push(NesType::Float(FloatType::Bit32));
    types.push(NesType::Float(FloatType::Bit64));
    proof {
        let all = types@;
        assert(all =~= arithmetic_type_list());
        assert forall|t: NesType| t.spec_is_numeric() implies all.contains(t) by {
            assert(all[0] == NesType::Int(IntType::Signed8));
            assert(all[1] == NesType::Int(IntType::Unsigned8));
            assert(all[2] == NesType::Int(IntType::Signed16));
            assert(all[3] == NesType::Int(IntType::Unsigned16));
            assert(all[4] == NesType::Int(IntType::Signed32));
            assert(all[5] == NesType::Int(IntType::Unsigned32));
            assert(all[6] == NesType::Int(IntType::Signed64));
            assert(all[7] == NesType::Int(IntType::Unsigned64));
            assert(all[8] == NesType::Float(FloatType::Bit32));
            assert(all[9] == NesType::Float(FloatType::Bit64));
        }
    }
    types
}

/// The one type of truth values.
fn logical_types() -> (r: Vec<NesType>)
    ensures
        r@ == seq![NesType::Bool],
        forall|t: NesType| r@.contains(t) <==> t == NesType::Bool,
{
    let mut types: Vec<NesType> = Vec::new();
    types.push(NesType::Bool);
    assert(types@ =~= seq![NesType::Bool]);
    assert(types@[0] == NesType::Bool);
    types
}

} // verus!
