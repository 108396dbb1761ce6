//! Operator type rules: the result types of binary and unary operators, the
//! compatibility of an actual type with an expected one, and the checks for
//! conditions and iterables.

use vstd::prelude::*;
use crate::ast::{BinaryOp, UnaryOp};
use crate::diagnostic::codes::{e0401_spec, e0405_spec, E0401, E0405};
use crate::diagnostic::{Diagnostic, Diagnostics};
use crate::semantic::types::{
    clone_type, lemma_equiv_head, lemma_equiv_symmetric, lemma_equiv_text, lemma_equiv_transitive, lemma_type_equiv_refl,
    type_equiv, Type,
};
use crate::source::Span;
use crate::text::push_str;

verus! {

/// The name a binary operator shows in messages.
pub open spec fn binary_op_name(op: BinaryOp) -> Seq<char> {
    match op {
        BinaryOp::Add => "Add"@,
        BinaryOp::Sub => "Sub"@,
        BinaryOp::Mul => "Mul"@,
        BinaryOp::Div => "Div"@,
        BinaryOp::Mod => "Mod"@,
        BinaryOp::Pow => "Pow"@,
        BinaryOp::Eq => "Eq"@,
        BinaryOp::Ne => "Ne"@,
        BinaryOp::Lt => "Lt"@,
        BinaryOp::Le => "Le"@,
        BinaryOp::Gt => "Gt"@,
        BinaryOp::Ge => "Ge"@,
        BinaryOp::And => "And"@,
        BinaryOp::Or => "Or"@,
        BinaryOp::Elvis => "Elvis"@,
    }
}

fn op_name(op: BinaryOp) -> (r: &'static str)
    ensures
        r@ == binary_op_name(op),
{
    match op {
        BinaryOp::Add => "Add",
        BinaryOp::Sub => "Sub",
        BinaryOp::Mul => "Mul",
        BinaryOp::Div => "Div",
        BinaryOp::Mod => "Mod",
        BinaryOp::Pow => "Pow",
        BinaryOp::Eq => "Eq",
        BinaryOp::Ne => "Ne",
        BinaryOp::Lt => "Lt",
        BinaryOp::Le => "Le",
        BinaryOp::Gt => "Gt",
        BinaryOp::Ge => "Ge",
        BinaryOp::And => "And",
        BinaryOp::Or => "Or",
        BinaryOp::Elvis => "Elvis",
    }
}

/// The common type of two numeric operands: `Decimal` over everything, then
/// the widest float, then `i64` when either side is 64 bits wide, else `i32`.
pub open spec fn common_numeric(left: Type, right: Type) -> Type {
    if left is Decimal || right is Decimal {
        Type::Decimal
    } else if left.spec_is_float() || right.spec_is_float() {
        if left is F64 || right is F64 {
            Type::F64
        } else {
            Type::F32
        }
    } else if left is I64 || right is I64 || left is U64 || right is U64 {
        Type::I64
    } else {
        Type::I32
    }
}

/// Get the common numeric type for two numeric types
pub fn common_numeric_type(left: &Type, right: &Type) -> (r: Type)
    ensures
        r == common_numeric(*left, *right),
{
    // Decimal wins over everything
    if matches!(left, Type::Decimal) || matches!(right, Type::Decimal) {
        return Type::Decimal;
    }
    // Float wins over integer
    if left.is_float() || right.is_float() {
        if matches!(left, Type::F64) || matches!(right, Type::F64) {
            return Type::F64;
        }
        return Type::F32;
    }
    // Larger integer wins
    if matches!(left, Type::I64) || matches!(right, Type::I64) || matches!(left, Type::U64) || matches!(right, Type::U64) {
        return Type::I64;
    }
    Type::I32
}

/// Whether a value of type `actual` may stand where `expected` is wanted:
/// equal types; error or unknown types on either side (they suppress cascading
/// errors); a nullable expected type whose inner type accepts `actual`; or two
/// numeric types.
pub open spec fn compatible(expected: Type, actual: Type) -> bool
    decreases expected,
{
    if type_equiv(expected, actual) || expected is Error || actual is Error || expected is Unknown
        || actual is Unknown {
        true
    } else {
        match expected {
            Type::Nullable(inner) => compatible(*inner, actual),
            _ => expected.spec_is_numeric() && actual.spec_is_numeric(),
        }
    }
}

/// Every type is compatible with itself.
pub proof fn law_compatible_reflexive(t: Type)
    ensures
        compatible(t, t),
{
    crate::semantic::types::lemma_type_equiv_refl(t);
}

/// The common numeric type does not depend on the order of the operands.
pub proof fn law_common_numeric_symmetric(left: Type, right: Type)
    ensures
        common_numeric(left, right) == common_numeric(right, left),
{
}

/// Arithmetic on two numbers yields a number.
pub proof fn law_common_numeric_is_numeric(left: Type, right: Type)
    ensures
        common_numeric(left, right).spec_is_numeric(),
{
}

/// `Decimal` wins over every other operand, float or integer: arithmetic with
/// a decimal on either side is decimal arithmetic.
pub proof fn law_decimal_dominates(t: Type)
    ensures
        common_numeric(Type::Decimal, t) == Type::Decimal,
        common_numeric(t, Type::Decimal) == Type::Decimal,
{
}

/// A float wins over an integer, on either side: the float type is kept.
pub proof fn law_float_over_integer(f: Type, i: Type)
    requires
        f.spec_is_float(),
        i.spec_is_integer(),
    ensures
        common_numeric(f, i) == f,
        common_numeric(i, f) == f,
{
}

/// Of two floats the wider wins: `f64` if either is `f64`, else `f32`.
pub proof fn law_wider_float(a: Type, b: Type)
    requires
        a.spec_is_float(),
        b.spec_is_float(),
    ensures
        common_numeric(a, b).spec_is_float(),
        (common_numeric(a, b) is F64) == (a is F64 || b is F64),
{
}

/// Two integers combine to `i64` when either is 64 bits wide (signed or
/// not), and to `i32` otherwise.
pub proof fn law_integer_widening(a: Type, b: Type)
    requires
        a.spec_is_integer(),
        b.spec_is_integer(),
    ensures
        (a is I64 || a is U64 || b is I64 || b is U64) ==> common_numeric(a, b) == Type::I64,
        !(a is I64 || a is U64 || b is I64 || b is U64) ==> common_numeric(a, b) == Type::I32,
{
}

/// Check if two types are compatible
pub fn types_compatible(expected: &Type, actual: &Type) -> (r: bool)
    ensures
        r == compatible(*expected, *actual),
    decreases *expected,
{
    if crate::semantic::types::type_eq(expected, actual) {
        return true;
    }
    // Error types are compatible with anything (to suppress cascading errors)
    if expected.is_error() || actual.is_error() {
        return true;
    }
    // Unknown is compatible with anything
    if matches!(expected, Type::Unknown) || matches!(actual, Type::Unknown) {
        return true;
    }
    // Nullable compatibility
    if let Type::Nullable(inner) = expected {
        return types_compatible(inner, actual);
    }
    // Numeric widening
    expected.is_numeric() && actual.is_numeric()
}

/// The type a binary operation yields, or `None` where the operand types do not
/// fit the operator.
pub open spec fn binary_result(op: BinaryOp, left: Type, right: Type) -> Option<Type> {
    match op {
        BinaryOp::Add | BinaryOp::Sub | BinaryOp::Mul | BinaryOp::Div | BinaryOp::Mod | BinaryOp::Pow => {
            if left.spec_is_numeric() && right.spec_is_numeric() {
                Some(common_numeric(left, right))
            } else if op is Add && (left.spec_is_text() || right.spec_is_text()) {
                Some(Type::String)
            } else {
                None
            }
        },
        BinaryOp::Eq | BinaryOp::Ne => Some(Type::Bool),
        BinaryOp::Lt | BinaryOp::Le | BinaryOp::Gt | BinaryOp::Ge => {
            if left.spec_is_numeric() && right.spec_is_numeric() {
                Some(Type::Bool)
            } else {
                None
            }
        },
        BinaryOp::And | BinaryOp::Or => {
            if left is Bool && right is Bool {
                Some(Type::Bool)
            } else {
                None
            }
        },
        BinaryOp::Elvis => match left {
            Type::Nullable(inner) => if compatible(*inner, right) {
                Some(*inner)
            } else {
                None
            },
            _ => None,
        },
    }
}

/// The message for operand types that do not fit a binary operator.
pub open spec fn binary_error_message(op: BinaryOp, left: Type, right: Type) -> Seq<char> {
    "cannot apply `"@ + binary_op_name(op) + "` to types `"@ + left.text_spec() + "` and `"@
        + right.text_spec() + "`"@
}

/// `diagnostics` grew by exactly one diagnostic made from `code` with the given span and message.
pub open spec fn reported(before: Seq<Diagnostic>, after: Seq<Diagnostic>, code: crate::diagnostic::codes::ErrorCode, span: Span, message: Seq<char>) -> bool {
    &&& after.len() == before.len() + 1
    &&& after.drop_last() == before
    &&& after.last().is_coded(code, span, message)
}

fn report_binary_type_error(op: BinaryOp, left: &Type, right: &Type, span: Span, diagnostics: &mut Diagnostics)
    ensures
        reported(old(diagnostics)@, final(diagnostics)@, e0405_spec(), span, binary_error_message(op, *left, *right)),
{
    let mut message = String::new();
    push_str(&mut message, "cannot apply `");
    push_str(&mut message, op_name(op));
    push_str(&mut message, "` to types `");
    left.push_text(&mut message);
    push_str(&mut message, "` and `");
    right.push_text(&mut message);
    push_str(&mut message, "`");
    proof {
        assert(message@ =~= binary_error_message(op, *left, *right));
    }
    diagnostics.add(Diagnostic::from_code(&E0405(), span, message.as_str()));
    proof {
        assert(diagnostics@.drop_last() =~= old(diagnostics)@);
    }
}

/// Infer the result type of a binary operation
pub fn infer_binary_op_type(op: BinaryOp, left: &Type, right: &Type, span: Span, diagnostics: &mut Diagnostics) -> (r: Type)
    ensures
        match binary_result(op, *left, *right) {
            Some(t) => type_equiv(r, t) && final(diagnostics)@ == old(diagnostics)@,
            None => r is Error && reported(old(diagnostics)@, final(diagnostics)@, e0405_spec(), span,
                binary_error_message(op, *left, *right)),
        },
{
    match op {
        // Arithmetic
        BinaryOp::Add | BinaryOp::Sub | BinaryOp::Mul | BinaryOp::Div | BinaryOp::Mod | BinaryOp::Pow => {
            if left.is_numeric() && right.is_numeric() {
                // Return the "larger" numeric type
                let t = common_numeric_type(left, right);
                proof {
                    crate::semantic::types::lemma_type_equiv_refl(t);
                }
                t
            } else if matches!(op, BinaryOp::Add) && (left.is_text() || right.is_text()) {
                // String concatenation
                Type::String
            } else {
                report_binary_type_error(op, left, right, span, diagnostics);
                Type::Error
            }
        },
        // Comparison: any types can be compared for equality
        BinaryOp::Eq | BinaryOp::Ne => Type::Bool,
        BinaryOp::Lt | BinaryOp::Le | BinaryOp::Gt | BinaryOp::Ge => {
            if left.is_numeric() && right.is_numeric() {
                Type::Bool
            } else {
                report_binary_type_error(op, left, right, span, diagnostics);
                Type::Error
            }
        },
        // Logical
        BinaryOp::And | BinaryOp::Or => {
            if matches!(left, Type::Bool) && matches!(right, Type::Bool) {
                Type::Bool
            } else {
                report_binary_type_error(op, left, right, span, diagnostics);
                Type::Error
            }
        },
        // Null coalescing: T? ?: T -> T
        BinaryOp::Elvis => {
            if let Type::Nullable(inner) = left {
                if types_compatible(inner, right) {
                    return clone_type(inner);
                }
            }
            report_binary_type_error(op, left, right, span, diagnostics);
            Type::Error
        },
    }
}

/// The message for an operand type that does not fit a unary operator.
pub open spec fn unary_error_message(op: UnaryOp, operand: Type) -> Seq<char> {
    match op {
        UnaryOp::Not => "cannot apply `!` to type `"@ + operand.text_spec() + "`"@,
        _ => "cannot apply `-`/`+` to type `"@ + operand.text_spec() + "`"@,
    }
}

/// Whether an operand type fits a unary operator: `!` takes `bool`, `-` and `+` numbers.
pub open spec fn unary_accepts(op: UnaryOp, operand: Type) -> bool {
    match op {
        UnaryOp::Not => operand is Bool,
        _ => operand.spec_is_numeric(),
    }
}

/// `prefix` + the text of `t` + a closing backquote.
fn type_message(prefix: &str, t: &Type) -> (r: String)
    ensures
        r@ == prefix@ + t.text_spec() + "`"@,
{
    let mut message = String::new();
    push_str(&mut message, prefix);
    t.push_text(&mut message);
    push_str(&mut message, "`");
    proof {
        assert(message@ =~= prefix@ + t.text_spec() + "`"@);
    }
    message
}

/// Infer the result type of a unary operation
pub fn infer_unary_op_type(op: UnaryOp, operand: &Type, span: Span, diagnostics: &mut Diagnostics) -> (r: Type)
    ensures
        unary_accepts(op, *operand) ==> type_equiv(r, *operand) && final(diagnostics)@ == old(diagnostics)@,
        !unary_accepts(op, *operand) ==> r is Error && reported(old(diagnostics)@, final(diagnostics)@,
            e0401_spec(), span, unary_error_message(op, *operand)),
{
    match op {
        UnaryOp::Not => {
            if matches!(operand, Type::Bool) {
                Type::Bool
            } else {
                let message = type_message("cannot apply `!` to type `", operand);
                diagnostics.add(Diagnostic::from_code(&E0401(), span, message.as_str()));
                proof {
                    assert(diagnostics@.drop_last() =~= old(diagnostics)@);
                }
                Type::Error
            }
        },
        UnaryOp::Neg | UnaryOp::Pos => {
            if operand.is_numeric() {
                clone_type(operand)
            } else {
                let message = type_message("cannot apply `-`/`+` to type `", operand);
                diagnostics.add(Diagnostic::from_code(&E0401(), span, message.as_str()));
                proof {
                    assert(diagnostics@.drop_last() =~= old(diagnostics)@);
                }
                Type::Error
            }
        },
    }
}

/// Expect a boolean type, reporting an error if not; unknown and error types pass.
pub fn expect_bool(ty: &Type, span: Span, diagnostics: &mut Diagnostics)
    ensures
        (*ty is Bool || *ty is Unknown || *ty is Error) ==> final(diagnostics)@ == old(diagnostics)@,
        !(*ty is Bool || *ty is Unknown || *ty is Error) ==> reported(old(diagnostics)@, final(diagnostics)@,
            e0401_spec(), span, "expected `bool`, found `"@ + ty.text_spec() + "`"@),
{
    if !matches!(ty, Type::Bool) && !matches!(ty, Type::Unknown) && !ty.is_error() {
        let message = type_message("expected `bool`, found `", ty);
        diagnostics.add(Diagnostic::from_code(&E0401(), span, message.as_str()));
        proof {
            assert(diagnostics@.drop_last() =~= old(diagnostics)@);
        }
    }
}

/// Expect an iterable type (a collection), reporting an error if not; unknown
/// and error types pass.
pub fn expect_iterable(ty: &Type, span: Span, diagnostics: &mut Diagnostics)
    ensures
        (ty.spec_is_collection() || *ty is Unknown || *ty is Error) ==> final(diagnostics)@ == old(diagnostics)@,
        !(ty.spec_is_collection() || *ty is Unknown || *ty is Error) ==> reported(old(diagnostics)@,
            final(diagnostics)@, e0401_spec(), span, "expected an iterable type, found `"@ + ty.text_spec() + "`"@),
{
    let is_iterable = ty.is_collection() || matches!(ty, Type::Unknown) || ty.is_error();
    if !is_iterable {
        let message = type_message("expected an iterable type, found `", ty);
        diagnostics.add(Diagnostic::from_code(&E0401(), span, message.as_str()));
        proof {
            assert(diagnostics@.drop_last() =~= old(diagnostics)@);
        }
    }
}

// =========================================================================
// The rules treat equivalent types alike
// =========================================================================

/// Compatibility does not tell equivalent types apart.
pub proof fn lemma_compatible_equiv(e: Type, e2: Type, a: Type, a2: Type)
    requires
        type_equiv(e, e2),
        type_equiv(a, a2),
    ensures
        compatible(e, a) == compatible(e2, a2),
    decreases e,
{
    lemma_equiv_head(e, e2);
    lemma_equiv_head(a, a2);
    lemma_equiv_symmetric(e, e2);
    lemma_equiv_symmetric(a, a2);
    if type_equiv(e, a) {
        lemma_equiv_transitive(e2, e, a);
        lemma_equiv_transitive(e2, a, a2);
    }
    if type_equiv(e2, a2) {
        lemma_equiv_transitive(e, e2, a2);
        lemma_equiv_symmetric(a, a2);
        lemma_equiv_transitive(e, a2, a);
    }
    match (e, e2) {
        (Type::Nullable(x), Type::Nullable(y)) => lemma_compatible_equiv(*x, *y, a, a2),
        _ => {},
    }
}

/// The common numeric type does not tell equivalent types apart.
pub proof fn lemma_common_numeric_equiv(l: Type, l2: Type, r: Type, r2: Type)
    requires
        type_equiv(l, l2),
        type_equiv(r, r2),
    ensures
        common_numeric(l, r) == common_numeric(l2, r2),
{
    lemma_equiv_head(l, l2);
    lemma_equiv_head(r, r2);
}

/// A binary operator gives equivalent results, or errors with the same
/// message, on equivalent operand types.
pub proof fn lemma_binary_result_equiv(op: BinaryOp, l: Type, l2: Type, r: Type, r2: Type)
    requires
        type_equiv(l, l2),
        type_equiv(r, r2),
    ensures
        binary_result(op, l, r) is Some == binary_result(op, l2, r2) is Some,
        binary_result(op, l, r) matches Some(x) ==> type_equiv(x, binary_result(op, l2, r2)->0),
        binary_error_message(op, l, r) == binary_error_message(op, l2, r2),
{
    lemma_equiv_head(l, l2);
    lemma_equiv_head(r, r2);
    lemma_equiv_text(l, l2);
    lemma_equiv_text(r, r2);
    lemma_common_numeric_equiv(l, l2, r, r2);
    lemma_type_equiv_refl(common_numeric(l, r));
    lemma_type_equiv_refl(Type::String);
    lemma_type_equiv_refl(Type::Bool);
    match (l, l2) {
        (Type::Nullable(x), Type::Nullable(y)) => {
            lemma_compatible_equiv(*x, *y, r, r2);
        },
        _ => {},
    }
}

/// A unary operator accepts equivalent operand types alike, with the same message.
pub proof fn lemma_unary_equiv(op: UnaryOp, t: Type, t2: Type)
    requires
        type_equiv(t, t2),
    ensures
        unary_accepts(op, t) == unary_accepts(op, t2),
        unary_error_message(op, t) == unary_error_message(op, t2),
{
    lemma_equiv_head(t, t2);
    lemma_equiv_text(t, t2);
}

} // verus!
