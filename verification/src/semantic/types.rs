//! The internal type representation used during semantic analysis and type checking.

use vstd::prelude::*;
use super::symbol::SymbolId;
use crate::text::{decimal, push_decimal, push_str, str_eq};

verus! {

broadcast use vstd::std_specs::vec::group_vec_axioms;

/// Internal type representation
#[derive(Debug)]
pub enum Type {
    /// Unit type (void/no value)
    Unit,
    /// Boolean type (true/false)
    Bool,
    /// 8-bit signed integer
    I8,
    /// 16-bit signed integer
    I16,
    /// 32-bit signed integer
    I32,
    /// 64-bit signed integer
    I64,
    /// 8-bit unsigned integer
    U8,
    /// 16-bit unsigned integer
    U16,
    /// 32-bit unsigned integer
    U32,
    /// 64-bit unsigned integer
    U64,
    /// 32-bit floating point
    F32,
    /// 64-bit floating point
    F64,
    /// Arbitrary-precision decimal for financial calculations
    Decimal,
    /// Unicode text string
    String,
    /// Sensitive string (passwords, API keys, tokens)
    Secret,
    /// Universally unique identifier (UUID)
    Uuid,
    /// URL/URI type with validation
    Url,
    /// Color value (RGBA)
    Color,
    /// SVG graphics for icons and vector images
    Graphics,
    /// Binary data (files, images, etc.)
    Blob,
    /// Specific moment in time (UTC timestamp)
    Instant,
    /// Calendar date without time
    LocalDate,
    /// Time of day without date
    LocalTime,
    /// Date and time without timezone
    LocalDateTime,
    /// IANA timezone identifier
    Timezone,
    /// Length of time / time span
    Duration,
    /// A scheme type
    Scheme(SymbolId),
    /// A backend type
    Backend(SymbolId),
    /// A blueprint type
    Blueprint(SymbolId),
    /// A contract type
    Contract(SymbolId),
    /// A theme type
    Theme(SymbolId),
    /// A enum type
    Enum(SymbolId),
    /// Nullable type: T?
    Nullable(Box<Type>),
    /// Reference type: ref T
    Ref(Box<Type>),
    /// Draft (mutable copy) type: draft T
    Draft(Box<Type>),
    /// Asset type: asset T
    Asset(Box<Type>),
    /// List/array type: [T]
    List(Box<Type>),
    /// Set type: set<T>
    SetOf(Box<Type>),
    /// Map type: map<K, V>
    MapOf(Box<Type>, Box<Type>),
    /// Tree type: tree<T>
    Tree(Box<Type>),
    /// Function type for methods, commands, etc.
    Function { params: Vec<Type>, ret: Box<Type> },
    /// Blueprint instantiation type (callable that creates a fragment)
    BlueprintInstance { blueprint: SymbolId, params: Vec<Type> },
    /// Accessor type for reactive bindings
    Accessor(Box<Type>),
    /// Error type (used for error recovery)
    Error,
    /// Unknown type (before resolution)
    Unknown,
    /// Never type (for expressions that don't return)
    Never,
}

/// Structural equality of types: same variant, equal ids, equal component types.
pub open spec fn type_equiv(a: Type, b: Type) -> bool
    decreases a, 0nat,
{
    match (a, b) {
        (Type::Scheme(x), Type::Scheme(y)) => x == y,
        (Type::Backend(x), Type::Backend(y)) => x == y,
        (Type::Blueprint(x), Type::Blueprint(y)) => x == y,
        (Type::Contract(x), Type::Contract(y)) => x == y,
        (Type::Theme(x), Type::Theme(y)) => x == y,
        (Type::Enum(x), Type::Enum(y)) => x == y,
        (Type::Nullable(x), Type::Nullable(y)) => type_equiv(*x, *y),
        (Type::Ref(x), Type::Ref(y)) => type_equiv(*x, *y),
        (Type::Draft(x), Type::Draft(y)) => type_equiv(*x, *y),
        (Type::Asset(x), Type::Asset(y)) => type_equiv(*x, *y),
        (Type::List(x), Type::List(y)) => type_equiv(*x, *y),
        (Type::SetOf(x), Type::SetOf(y)) => type_equiv(*x, *y),
        (Type::MapOf(k1, v1), Type::MapOf(k2, v2)) => type_equiv(*k1, *k2) && type_equiv(*v1, *v2),
        (Type::Tree(x), Type::Tree(y)) => type_equiv(*x, *y),
        (Type::Function { params: p1, ret: r1 }, Type::Function { params: p2, ret: r2 }) =>
            p1@.len() == p2@.len() && types_equiv_upto(p1@, p2@, p1@.len()) && type_equiv(*r1, *r2),
        (Type::BlueprintInstance { blueprint: b1, params: p1 }, Type::BlueprintInstance { blueprint: b2, params: p2 }) =>
            b1 == b2 && p1@.len() == p2@.len() && types_equiv_upto(p1@, p2@, p1@.len()),
        (Type::Accessor(x), Type::Accessor(y)) => type_equiv(*x, *y),
        (Type::Unit, Type::Unit) => true,
        (Type::Bool, Type::Bool) => true,
        (Type::I8, Type::I8) => true,
        (Type::I16, Type::I16) => true,
        (Type::I32, Type::I32) => true,
        (Type::I64, Type::I64) => true,
        (Type::U8, Type::U8) => true,
        (Type::U16, Type::U16) => true,
        (Type::U32, Type::U32) => true,
        (Type::U64, Type::U64) => true,
        (Type::F32, Type::F32) => true,
        (Type::F64, Type::F64) => true,
        (Type::Decimal, Type::Decimal) => true,
        (Type::String, Type::String) => true,
        (Type::Secret, Type::Secret) => true,
        (Type::Uuid, Type::Uuid) => true,
        (Type::Url, Type::Url) => true,
        (Type::Color, Type::Color) => true,
        (Type::Graphics, Type::Graphics) => true,
        (Type::Blob, Type::Blob) => true,
        (Type::Instant, Type::Instant) => true,
        (Type::LocalDate, Type::LocalDate) => true,
        (Type::LocalTime, Type::LocalTime) => true,
        (Type::LocalDateTime, Type::LocalDateTime) => true,
        (Type::Timezone, Type::Timezone) => true,
        (Type::Duration, Type::Duration) => true,
        (Type::Error, Type::Error) => true,
        (Type::Unknown, Type::Unknown) => true,
        (Type::Never, Type::Never) => true,
        _ => false,
    }
}

/// The first `n` elements of two type sequences are pairwise equivalent.
pub open spec fn types_equiv_upto(a: Seq<Type>, b: Seq<Type>, n: nat) -> bool
    decreases a, n,
{
    if n == 0 || n > a.len() || n > b.len() {
        n == 0
    } else {
        types_equiv_upto(a, b, (n - 1) as nat) && type_equiv(a[n - 1], b[n - 1])
    }
}

fn types_eq_seq(a: &Vec<Type>, b: &Vec<Type>) -> (r: bool)
    ensures
        r == (a@.len() == b@.len() && types_equiv_upto(a@, b@, a@.len())),
    decreases a@, 1nat,
{
    if a.len() != b.len() {
        return false;
    }
    let mut i: usize = 0;
    while i < a.len()
        invariant
            a@.len() == b@.len(),
            i <= a@.len(),
            types_equiv_upto(a@, b@, i as nat),
        decreases a.len() - i,
    {
        if !type_eq(&a[i], &b[i]) {
            proof {
                if types_equiv_upto(a@, b@, a@.len()) {
                    lemma_types_equiv_upto_prefix(a@, b@, a@.len(), (i + 1) as nat);
                }
            }
            return false;
        }
        i = i + 1;
    }
    true
}

/// Pairwise equivalence of a prefix follows from that of a longer prefix.
proof fn lemma_types_equiv_upto_prefix(a: Seq<Type>, b: Seq<Type>, n: nat, m: nat)
    requires
        m <= n <= a.len(),
        n <= b.len(),
        types_equiv_upto(a, b, n),
    ensures
        types_equiv_upto(a, b, m),
    decreases n,
{
    if m < n {
        lemma_types_equiv_upto_prefix(a, b, (n - 1) as nat, m);
    }
}

/// Every type is structurally equal to itself.
pub proof fn lemma_type_equiv_refl(t: Type)
    ensures
        type_equiv(t, t),
    decreases t, 0nat,
{
    match t {
        Type::Nullable(x) => lemma_type_equiv_refl(*x),
        Type::Ref(x) => lemma_type_equiv_refl(*x),
        Type::Draft(x) => lemma_type_equiv_refl(*x),
        Type::Asset(x) => lemma_type_equiv_refl(*x),
        Type::List(x) => lemma_type_equiv_refl(*x),
        Type::SetOf(x) => lemma_type_equiv_refl(*x),
        Type::MapOf(k, v) => {
            lemma_type_equiv_refl(*k);
            lemma_type_equiv_refl(*v);
        },
        Type::Tree(x) => lemma_type_equiv_refl(*x),
        Type::Function { params, ret } => {
            lemma_types_equiv_upto_refl(params@, params@.len());
            lemma_type_equiv_refl(*ret);
        },
        Type::BlueprintInstance { blueprint, params } => {
            lemma_types_equiv_upto_refl(params@, params@.len());
        },
        Type::Accessor(x) => lemma_type_equiv_refl(*x),
        _ => {},
    }
}

/// Every prefix of a type sequence is pairwise equivalent to itself.
proof fn lemma_types_equiv_upto_refl(s: Seq<Type>, n: nat)
    requires
        n <= s.len(),
    ensures
        types_equiv_upto(s, s, n),
    decreases s, n,
{
    if n > 0 {
        lemma_types_equiv_upto_refl(s, (n - 1) as nat);
        lemma_type_equiv_refl(s[n - 1]);
    }
}

/// Two types with the same outermost form: the same variant, with the same
/// id for declared types.
pub open spec fn same_head(a: Type, b: Type) -> bool {
    match (a, b) {
        (Type::Scheme(x), Type::Scheme(y)) => x == y,
        (Type::Backend(x), Type::Backend(y)) => x == y,
        (Type::Blueprint(x), Type::Blueprint(y)) => x == y,
        (Type::Contract(x), Type::Contract(y)) => x == y,
        (Type::Theme(x), Type::Theme(y)) => x == y,
        (Type::Enum(x), Type::Enum(y)) => x == y,
        (Type::Nullable(_), Type::Nullable(_)) => true,
        (Type::Ref(_), Type::Ref(_)) => true,
        (Type::Draft(_), Type::Draft(_)) => true,
        (Type::Asset(_), Type::Asset(_)) => true,
        (Type::List(_), Type::List(_)) => true,
        (Type::SetOf(_), Type::SetOf(_)) => true,
        (Type::MapOf(_, _), Type::MapOf(_, _)) => true,
        (Type::Tree(_), Type::Tree(_)) => true,
        (Type::Function { .. }, Type::Function { .. }) => true,
        (Type::BlueprintInstance { blueprint: x, .. }, Type::BlueprintInstance { blueprint: y, .. }) => x == y,
        (Type::Accessor(_), Type::Accessor(_)) => true,
        (Type::Unit, Type::Unit) => true,
        (Type::Bool, Type::Bool) => true,
        (Type::I8, Type::I8) => true,
        (Type::I16, Type::I16) => true,
        (Type::I32, Type::I32) => true,
        (Type::I64, Type::I64) => true,
        (Type::U8, Type::U8) => true,
        (Type::U16, Type::U16) => true,
        (Type::U32, Type::U32) => true,
        (Type::U64, Type::U64) => true,
        (Type::F32, Type::F32) => true,
        (Type::F64, Type::F64) => true,
        (Type::Decimal, Type::Decimal) => true,
        (Type::String, Type::String) => true,
        (Type::Secret, Type::Secret) => true,
        (Type::Uuid, Type::Uuid) => true,
        (Type::Url, Type::Url) => true,
        (Type::Color, Type::Color) => true,
        (Type::Graphics, Type::Graphics) => true,
        (Type::Blob, Type::Blob) => true,
        (Type::Instant, Type::Instant) => true,
        (Type::LocalDate, Type::LocalDate) => true,
        (Type::LocalTime, Type::LocalTime) => true,
        (Type::LocalDateTime, Type::LocalDateTime) => true,
        (Type::Timezone, Type::Timezone) => true,
        (Type::Duration, Type::Duration) => true,
        (Type::Error, Type::Error) => true,
        (Type::Unknown, Type::Unknown) => true,
        (Type::Never, Type::Never) => true,
        _ => false,
    }
}

/// Equivalent types have the same outermost form, and so the same kind.
pub proof fn lemma_equiv_head(a: Type, b: Type)
    requires
        type_equiv(a, b),
    ensures
        same_head(a, b),
        a.spec_is_numeric() == b.spec_is_numeric(),
        a.spec_is_float() == b.spec_is_float(),
        a.spec_is_text() == b.spec_is_text(),
        a.spec_is_nullable() == b.spec_is_nullable(),
        a.spec_is_collection() == b.spec_is_collection(),
        (a is Bool) == (b is Bool),
        (a is Error) == (b is Error),
        (a is Unknown) == (b is Unknown),
        (a is Decimal) == (b is Decimal),
        (a is F64) == (b is F64),
        (a is I64) == (b is I64),
        (a is U64) == (b is U64),
{
}

/// Equivalence is symmetric.
pub proof fn lemma_equiv_symmetric(a: Type, b: Type)
    requires
        type_equiv(a, b),
    ensures
        type_equiv(b, a),
    decreases a, 0nat,
{
    match (a, b) {
        (Type::Nullable(x), Type::Nullable(y)) => lemma_equiv_symmetric(*x, *y),
        (Type::Ref(x), Type::Ref(y)) => lemma_equiv_symmetric(*x, *y),
        (Type::Draft(x), Type::Draft(y)) => lemma_equiv_symmetric(*x, *y),
        (Type::Asset(x), Type::Asset(y)) => lemma_equiv_symmetric(*x, *y),
        (Type::List(x), Type::List(y)) => lemma_equiv_symmetric(*x, *y),
        (Type::SetOf(x), Type::SetOf(y)) => lemma_equiv_symmetric(*x, *y),
        (Type::MapOf(k1, v1), Type::MapOf(k2, v2)) => {
            lemma_equiv_symmetric(*k1, *k2);
            lemma_equiv_symmetric(*v1, *v2);
        },
        (Type::Tree(x), Type::Tree(y)) => lemma_equiv_symmetric(*x, *y),
        (Type::Function { params: p1, ret: r1 }, Type::Function { params: p2, ret: r2 }) => {
            lemma_equiv_upto_symmetric(p1@, p2@, p1@.len());
            lemma_equiv_symmetric(*r1, *r2);
        },
        (Type::BlueprintInstance { params: p1, .. }, Type::BlueprintInstance { params: p2, .. }) => {
            lemma_equiv_upto_symmetric(p1@, p2@, p1@.len());
        },
        (Type::Accessor(x), Type::Accessor(y)) => lemma_equiv_symmetric(*x, *y),
        _ => {},
    }
}

proof fn lemma_equiv_upto_symmetric(a: Seq<Type>, b: Seq<Type>, n: nat)
    requires
        n <= a.len(),
        n <= b.len(),
        types_equiv_upto(a, b, n),
    ensures
        types_equiv_upto(b, a, n),
    decreases a, n,
{
    if n > 0 {
        lemma_equiv_upto_symmetric(a, b, (n - 1) as nat);
        lemma_equiv_symmetric(a[n - 1], b[n - 1]);
    }
}

/// Equivalence is transitive.
pub proof fn lemma_equiv_transitive(a: Type, b: Type, c: Type)
    requires
        type_equiv(a, b),
        type_equiv(b, c),
    ensures
        type_equiv(a, c),
    decreases a, 0nat,
{
    match (a, b, c) {
        (Type::Nullable(x), Type::Nullable(y), Type::Nullable(z)) => lemma_equiv_transitive(*x, *y, *z),
        (Type::Ref(x), Type::Ref(y), Type::Ref(z)) => lemma_equiv_transitive(*x, *y, *z),
        (Type::Draft(x), Type::Draft(y), Type::Draft(z)) => lemma_equiv_transitive(*x, *y, *z),
        (Type::Asset(x), Type::Asset(y), Type::Asset(z)) => lemma_equiv_transitive(*x, *y, *z),
        (Type::List(x), Type::List(y), Type::List(z)) => lemma_equiv_transitive(*x, *y, *z),
        (Type::SetOf(x), Type::SetOf(y), Type::SetOf(z)) => lemma_equiv_transitive(*x, *y, *z),
        (Type::MapOf(k1, v1), Type::MapOf(k2, v2), Type::MapOf(k3, v3)) => {
            lemma_equiv_transitive(*k1, *k2, *k3);
            lemma_equiv_transitive(*v1, *v2, *v3);
        },
        (Type::Tree(x), Type::Tree(y), Type::Tree(z)) => lemma_equiv_transitive(*x, *y, *z),
        (
            Type::Function { params: p1, ret: r1 },
            Type::Function { params: p2, ret: r2 },
            Type::Function { params: p3, ret: r3 },
        ) => {
            lemma_equiv_upto_transitive(p1@, p2@, p3@, p1@.len());
            lemma_equiv_transitive(*r1, *r2, *r3);
        },
        (
            Type::BlueprintInstance { params: p1, .. },
            Type::BlueprintInstance { params: p2, .. },
            Type::BlueprintInstance { params: p3, .. },
        ) => {
            lemma_equiv_upto_transitive(p1@, p2@, p3@, p1@.len());
        },
        (Type::Accessor(x), Type::Accessor(y), Type::Accessor(z)) => lemma_equiv_transitive(*x, *y, *z),
        _ => {},
    }
}

proof fn lemma_equiv_upto_transitive(a: Seq<Type>, b: Seq<Type>, c: Seq<Type>, n: nat)
    requires
        n <= a.len(),
        n <= b.len(),
        n <= c.len(),
        types_equiv_upto(a, b, n),
        types_equiv_upto(b, c, n),
    ensures
        types_equiv_upto(a, c, n),
    decreases a, n,
{
    if n > 0 {
        lemma_equiv_upto_transitive(a, b, c, (n - 1) as nat);
        lemma_equiv_transitive(a[n - 1], b[n - 1], c[n - 1]);
    }
}

/// Equivalent types show the same text.
pub proof fn lemma_equiv_text(a: Type, b: Type)
    requires
        type_equiv(a, b),
    ensures
        a.text_spec() == b.text_spec(),
    decreases a, 0nat,
{
    match (a, b) {
        (Type::Nullable(x), Type::Nullable(y)) => lemma_equiv_text(*x, *y),
        (Type::Ref(x), Type::Ref(y)) => lemma_equiv_text(*x, *y),
        (Type::Draft(x), Type::Draft(y)) => lemma_equiv_text(*x, *y),
        (Type::Asset(x), Type::Asset(y)) => lemma_equiv_text(*x, *y),
        (Type::List(x), Type::List(y)) => lemma_equiv_text(*x, *y),
        (Type::SetOf(x), Type::SetOf(y)) => lemma_equiv_text(*x, *y),
        (Type::MapOf(k1, v1), Type::MapOf(k2, v2)) => {
            lemma_equiv_text(*k1, *k2);
            lemma_equiv_text(*v1, *v2);
        },
        (Type::Tree(x), Type::Tree(y)) => lemma_equiv_text(*x, *y),
        (Type::Function { params: p1, ret: r1 }, Type::Function { params: p2, ret: r2 }) => {
            lemma_equiv_join_text(p1@, p2@, p1@.len());
            lemma_equiv_text(*r1, *r2);
        },
        (Type::BlueprintInstance { params: p1, .. }, Type::BlueprintInstance { params: p2, .. }) => {
            lemma_equiv_join_text(p1@, p2@, p1@.len());
        },
        (Type::Accessor(x), Type::Accessor(y)) => lemma_equiv_text(*x, *y),
        _ => {},
    }
}

proof fn lemma_equiv_join_text(a: Seq<Type>, b: Seq<Type>, n: nat)
    requires
        n <= a.len(),
        a.len() == b.len(),
        types_equiv_upto(a, b, n),
    ensures
        Type::join_text(a, n) == Type::join_text(b, n),
    decreases a, n,
{
    if n > 0 {
        lemma_equiv_join_text(a, b, (n - 1) as nat);
        lemma_equiv_text(a[n - 1], b[n - 1]);
    }
}

/// Structural equality of two types, as the derived `==` of the type grammar computes it.
pub fn type_eq(a: &Type, b: &Type) -> (r: bool)
    ensures
        r == type_equiv(*a, *b),
    decreases *a, 0nat,
{
    match (a, b) {
        (Type::Scheme(x), Type::Scheme(y)) => x.0 == y.0,
        (Type::Backend(x), Type::Backend(y)) => x.0 == y.0,
        (Type::Blueprint(x), Type::Blueprint(y)) => x.0 == y.0,
        (Type::Contract(x), Type::Contract(y)) => x.0 == y.0,
        (Type::Theme(x), Type::Theme(y)) => x.0 == y.0,
        (Type::Enum(x), Type::Enum(y)) => x.0 == y.0,
        (Type::Nullable(x), Type::Nullable(y)) => type_eq(x, y),
        (Type::Ref(x), Type::Ref(y)) => type_eq(x, y),
        (Type::Draft(x), Type::Draft(y)) => type_eq(x, y),
        (Type::Asset(x), Type::Asset(y)) => type_eq(x, y),
        (Type::List(x), Type::List(y)) => type_eq(x, y),
        (Type::SetOf(x), Type::SetOf(y)) => type_eq(x, y),
        (Type::MapOf(k1, v1), Type::MapOf(k2, v2)) => type_eq(k1, k2) && type_eq(v1, v2),
        (Type::Tree(x), Type::Tree(y)) => type_eq(x, y),
        (Type::Function { params: p1, ret: r1 }, Type::Function { params: p2, ret: r2 }) =>
            types_eq_seq(p1, p2) && type_eq(r1, r2),
        (Type::BlueprintInstance { blueprint: b1, params: p1 }, Type::BlueprintInstance { blueprint: b2, params: p2 }) =>
            b1.0 == b2.0 && types_eq_seq(p1, p2),
        (Type::Accessor(x), Type::Accessor(y)) => type_eq(x, y),
        (Type::Unit, Type::Unit) => true,
        (Type::Bool, Type::Bool) => true,
        (Type::I8, Type::I8) => true,
        (Type::I16, Type::I16) => true,
        (Type::I32, Type::I32) => true,
        (Type::I64, Type::I64) => true,
        (Type::U8, Type::U8) => true,
        (Type::U16, Type::U16) => true,
        (Type::U32, Type::U32) => true,
        (Type::U64, Type::U64) => true,
        (Type::F32, Type::F32) => true,
        (Type::F64, Type::F64) => true,
        (Type::Decimal, Type::Decimal) => true,
        (Type::String, Type::String) => true,
        (Type::Secret, Type::Secret) => true,
        (Type::Uuid, Type::Uuid) => true,
        (Type::Url, Type::Url) => true,
        (Type::Color, Type::Color) => true,
        (Type::Graphics, Type::Graphics) => true,
        (Type::Blob, Type::Blob) => true,
        (Type::Instant, Type::Instant) => true,
        (Type::LocalDate, Type::LocalDate) => true,
        (Type::LocalTime, Type::LocalTime) => true,
        (Type::LocalDateTime, Type::LocalDateTime) => true,
        (Type::Timezone, Type::Timezone) => true,
        (Type::Duration, Type::Duration) => true,
        (Type::Error, Type::Error) => true,
        (Type::Unknown, Type::Unknown) => true,
        (Type::Never, Type::Never) => true,
        _ => false,
    }
}

fn clone_types(v: &Vec<Type>) -> (r: Vec<Type>)
    ensures
        r@.len() == v@.len(),
        types_equiv_upto(r@, v@, v@.len()),
    decreases v@, 1nat,
{
    let mut out: Vec<Type> = Vec::new();
    let mut i: usize = 0;
    while i < v.len()
        invariant
            i <= v@.len(),
            out@.len() == i,
            types_equiv_upto(out@, v@, i as nat),
        decreases v.len() - i,
    {
        let c = clone_type(&v[i]);
        let ghost prev = out@;
        out.push(c);
        proof {
            lemma_types_equiv_upto_push_stable(prev, v@, i as nat, c);
        }
        i = i + 1;
    }
    out
}

/// Pushing onto the first sequence does not change the equivalence of an existing prefix.
proof fn lemma_types_equiv_upto_push_stable(a: Seq<Type>, b: Seq<Type>, n: nat, x: Type)
    requires
        n <= a.len(),
        n <= b.len(),
    ensures
        types_equiv_upto(a.push(x), b, n) == types_equiv_upto(a, b, n),
    decreases n,
{
    if n > 0 {
        lemma_types_equiv_upto_push_stable(a, b, (n - 1) as nat, x);
        assert(a.push(x)[n - 1] == a[n - 1]);
    }
}

/// A structurally equal copy of a type.
pub fn clone_type(t: &Type) -> (r: Type)
    ensures
        type_equiv(r, *t),
    decreases *t, 0nat,
{
    match t {
        Type::Unit => Type::Unit,
        Type::Bool => Type::Bool,
        Type::I8 => Type::I8,
        Type::I16 => Type::I16,
        Type::I32 => Type::I32,
        Type::I64 => Type::I64,
        Type::U8 => Type::U8,
        Type::U16 => Type::U16,
        Type::U32 => Type::U32,
        Type::U64 => Type::U64,
        Type::F32 => Type::F32,
        Type::F64 => Type::F64,
        Type::Decimal => Type::Decimal,
        Type::String => Type::String,
        Type::Secret => Type::Secret,
        Type::Uuid => Type::Uuid,
        Type::Url => Type::Url,
        Type::Color => Type::Color,
        Type::Graphics => Type::Graphics,
        Type::Blob => Type::Blob,
        Type::Instant => Type::Instant,
        Type::LocalDate => Type::LocalDate,
        Type::LocalTime => Type::LocalTime,
        Type::LocalDateTime => Type::LocalDateTime,
        Type::Timezone => Type::Timezone,
        Type::Duration => Type::Duration,
        Type::Error => Type::Error,
        Type::Unknown => Type::Unknown,
        Type::Never => Type::Never,
        Type::Scheme(id) => Type::Scheme(*id),
        Type::Backend(id) => Type::Backend(*id),
        Type::Blueprint(id) => Type::Blueprint(*id),
        Type::Contract(id) => Type::Contract(*id),
        Type::Theme(id) => Type::Theme(*id),
        Type::Enum(id) => Type::Enum(*id),
        Type::Nullable(x) => Type::Nullable(Box::new(clone_type(x))),
        Type::Ref(x) => Type::Ref(Box::new(clone_type(x))),
        Type::Draft(x) => Type::Draft(Box::new(clone_type(x))),
        Type::Asset(x) => Type::Asset(Box::new(clone_type(x))),
        Type::List(x) => Type::List(Box::new(clone_type(x))),
        Type::SetOf(x) => Type::SetOf(Box::new(clone_type(x))),
        Type::Tree(x) => Type::Tree(Box::new(clone_type(x))),
        Type::Accessor(x) => Type::Accessor(Box::new(clone_type(x))),
        Type::MapOf(k, v) => Type::MapOf(Box::new(clone_type(k)), Box::new(clone_type(v))),
        Type::Function { params, ret } => Type::Function { params: clone_types(params), ret: Box::new(clone_type(ret)) },
        Type::BlueprintInstance { blueprint, params } => Type::BlueprintInstance { blueprint: *blueprint, params: clone_types(params) },
    }
}

impl Clone for Type {
    fn clone(&self) -> (r: Self)
        ensures
            type_equiv(r, *self),
    {
        clone_type(self)
    }
}

impl PartialEq for Type {
    fn eq(&self, other: &Type) -> (r: bool) {
        type_eq(self, other)
    }
}

impl vstd::std_specs::cmp::PartialEqSpecImpl for Type {
    open spec fn obeys_eq_spec() -> bool {
        true
    }

    open spec fn eq_spec(&self, other: &Type) -> bool {
        type_equiv(*self, *other)
    }
}

impl Eq for Type {
}

impl Type {
    pub open spec fn spec_is_intrinsic(&self) -> bool {
        matches!(self, Type::Unit | Type::Bool | Type::I8 | Type::I16 | Type::I32 | Type::I64 | Type::U8 | Type::U16 | Type::U32 | Type::U64 | Type::F32 | Type::F64 | Type::Decimal | Type::String | Type::Secret | Type::Uuid | Type::Url | Type::Color | Type::Graphics | Type::Blob | Type::Instant | Type::LocalDate | Type::LocalTime | Type::LocalDateTime | Type::Timezone | Type::Duration)
    }

    /// Check if this is an intrinsic (built-in) type
    #[verifier::when_used_as_spec(spec_is_intrinsic)]
    pub fn is_intrinsic(&self) -> (r: bool)
        ensures
            r == self.spec_is_intrinsic(),
    {
        matches!(self, Type::Unit | Type::Bool | Type::I8 | Type::I16 | Type::I32 | Type::I64 | Type::U8 | Type::U16 | Type::U32 | Type::U64 | Type::F32 | Type::F64 | Type::Decimal | Type::String | Type::Secret | Type::Uuid | Type::Url | Type::Color | Type::Graphics | Type::Blob | Type::Instant | Type::LocalDate | Type::LocalTime | Type::LocalDateTime | Type::Timezone | Type::Duration)
    }

    pub open spec fn spec_is_primitive(&self) -> bool {
        matches!(self, Type::Unit | Type::Bool | Type::I8 | Type::I16 | Type::I32 | Type::I64 | Type::U8 | Type::U16 | Type::U32 | Type::U64 | Type::F32 | Type::F64 | Type::Decimal | Type::String | Type::Secret | Type::Uuid | Type::Url | Type::Color | Type::Graphics | Type::Blob | Type::Instant | Type::LocalDate | Type::LocalTime | Type::LocalDateTime | Type::Timezone | Type::Duration)
    }

    /// Check if this is a primitive type (simple value types)
    #[verifier::when_used_as_spec(spec_is_primitive)]
    pub fn is_primitive(&self) -> (r: bool)
        ensures
            r == self.spec_is_primitive(),
    {
        matches!(self, Type::Unit | Type::Bool | Type::I8 | Type::I16 | Type::I32 | Type::I64 | Type::U8 | Type::U16 | Type::U32 | Type::U64 | Type::F32 | Type::F64 | Type::Decimal | Type::String | Type::Secret | Type::Uuid | Type::Url | Type::Color | Type::Graphics | Type::Blob | Type::Instant | Type::LocalDate | Type::LocalTime | Type::LocalDateTime | Type::Timezone | Type::Duration)
    }

    pub open spec fn spec_is_numeric(&self) -> bool {
        matches!(self, Type::I8 | Type::I16 | Type::I32 | Type::I64 | Type::U8 | Type::U16 | Type::U32 | Type::U64 | Type::F32 | Type::F64 | Type::Decimal)
    }

    /// Check if this is a numeric type
    #[verifier::when_used_as_spec(spec_is_numeric)]
    pub fn is_numeric(&self) -> (r: bool)
        ensures
            r == self.spec_is_numeric(),
    {
        matches!(self, Type::I8 | Type::I16 | Type::I32 | Type::I64 | Type::U8 | Type::U16 | Type::U32 | Type::U64 | Type::F32 | Type::F64 | Type::Decimal)
    }

    pub open spec fn spec_is_integer(&self) -> bool {
        matches!(self, Type::I8 | Type::I16 | Type::I32 | Type::I64 | Type::U8 | Type::U16 | Type::U32 | Type::U64)
    }

    /// Check if this is an integer type (signed or unsigned)
    #[verifier::when_used_as_spec(spec_is_integer)]
    pub fn is_integer(&self) -> (r: bool)
        ensures
            r == self.spec_is_integer(),
    {
        matches!(self, Type::I8 | Type::I16 | Type::I32 | Type::I64 | Type::U8 | Type::U16 | Type::U32 | Type::U64)
    }

    pub open spec fn spec_is_signed_integer(&self) -> bool {
        matches!(self, Type::I8 | Type::I16 | Type::I32 | Type::I64)
    }

    /// Check if this is a signed integer type
    #[verifier::when_used_as_spec(spec_is_signed_integer)]
    pub fn is_signed_integer(&self) -> (r: bool)
        ensures
            r == self.spec_is_signed_integer(),
    {
        matches!(self, Type::I8 | Type::I16 | Type::I32 | Type::I64)
    }

    pub open spec fn spec_is_unsigned_integer(&self) -> bool {
        matches!(self, Type::U8 | Type::U16 | Type::U32 | Type::U64)
    }

    /// Check if this is an unsigned integer type
    #[verifier::when_used_as_spec(spec_is_unsigned_integer)]
    pub fn is_unsigned_integer(&self) -> (r: bool)
        ensures
            r == self.spec_is_unsigned_integer(),
    {
        matches!(self, Type::U8 | Type::U16 | Type::U32 | Type::U64)
    }

    pub open spec fn spec_is_float(&self) -> bool {
        matches!(self, Type::F32 | Type::F64)
    }

    /// Check if this is a floating point type
    #[verifier::when_used_as_spec(spec_is_float)]
    pub fn is_float(&self) -> (r: bool)
        ensures
            r == self.spec_is_float(),
    {
        matches!(self, Type::F32 | Type::F64)
    }

    pub open spec fn spec_is_text(&self) -> bool {
        matches!(self, Type::String | Type::Secret)
    }

    /// Check if this is a text type (String or Secret)
    #[verifier::when_used_as_spec(spec_is_text)]
    pub fn is_text(&self) -> (r: bool)
        ensures
            r == self.spec_is_text(),
    {
        matches!(self, Type::String | Type::Secret)
    }

    pub open spec fn spec_is_temporal(&self) -> bool {
        matches!(self, Type::Instant | Type::LocalDate | Type::LocalTime | Type::LocalDateTime | Type::Timezone | Type::Duration)
    }

    /// Check if this is a temporal type
    #[verifier::when_used_as_spec(spec_is_temporal)]
    pub fn is_temporal(&self) -> (r: bool)
        ensures
            r == self.spec_is_temporal(),
    {
        matches!(self, Type::Instant | Type::LocalDate | Type::LocalTime | Type::LocalDateTime | Type::Timezone | Type::Duration)
    }

    pub open spec fn spec_is_composite(&self) -> bool {
        matches!(self, Type::Scheme(_) | Type::Backend(_) | Type::Blueprint(_) | Type::Contract(_) | Type::Theme(_) | Type::Enum(_))
    }

    /// Check if this is a composite (scheme, backend, etc.) type
    #[verifier::when_used_as_spec(spec_is_composite)]
    pub fn is_composite(&self) -> (r: bool)
        ensures
            r == self.spec_is_composite(),
    {
        matches!(self, Type::Scheme(_) | Type::Backend(_) | Type::Blueprint(_) | Type::Contract(_) | Type::Theme(_) | Type::Enum(_))
    }

    pub open spec fn spec_is_collection(&self) -> bool {
        matches!(self, Type::List(_) | Type::SetOf(_) | Type::MapOf(_, _) | Type::Tree(_))
    }

    /// Check if this is a collection type
    #[verifier::when_used_as_spec(spec_is_collection)]
    pub fn is_collection(&self) -> (r: bool)
        ensures
            r == self.spec_is_collection(),
    {
        matches!(self, Type::List(_) | Type::SetOf(_) | Type::MapOf(_, _) | Type::Tree(_))
    }

    pub open spec fn spec_is_nullable(&self) -> bool {
        matches!(self, Type::Nullable(_))
    }

    /// Check if this type is nullable
    #[verifier::when_used_as_spec(spec_is_nullable)]
    pub fn is_nullable(&self) -> (r: bool)
        ensures
            r == self.spec_is_nullable(),
    {
        matches!(self, Type::Nullable(_))
    }

    pub open spec fn spec_is_draft(&self) -> bool {
        matches!(self, Type::Draft(_))
    }

    /// Check if this is a draft type
    #[verifier::when_used_as_spec(spec_is_draft)]
    pub fn is_draft(&self) -> (r: bool)
        ensures
            r == self.spec_is_draft(),
    {
        matches!(self, Type::Draft(_))
    }

    pub open spec fn spec_is_ref(&self) -> bool {
        matches!(self, Type::Ref(_))
    }

    /// Check if this is a ref type
    #[verifier::when_used_as_spec(spec_is_ref)]
    pub fn is_ref(&self) -> (r: bool)
        ensures
            r == self.spec_is_ref(),
    {
        matches!(self, Type::Ref(_))
    }

    pub open spec fn spec_is_error(&self) -> bool {
        matches!(self, Type::Error)
    }

    /// Check if this is an error type (for error recovery)
    #[verifier::when_used_as_spec(spec_is_error)]
    pub fn is_error(&self) -> (r: bool)
        ensures
            r == self.spec_is_error(),
    {
        matches!(self, Type::Error)
    }

    pub open spec fn spec_is_known(&self) -> bool {
        !matches!(self, Type::Unknown | Type::Error)
    }

    /// Check if this type is known (not unknown or error)
    #[verifier::when_used_as_spec(spec_is_known)]
    pub fn is_known(&self) -> (r: bool)
        ensures
            r == self.spec_is_known(),
    {
        !matches!(self, Type::Unknown | Type::Error)
    }

    /// Get the inner type of a nullable
    pub fn nullable_inner(&self) -> (r: Option<&Type>)
        ensures
            r == match self {
                Type::Nullable(inner) => Some(&**inner),
                _ => None::<&Type>,
            },
    {
        match self {
            Type::Nullable(inner) => Some(&**inner),
            _ => None,
        }
    }

    /// Get the inner type of a draft
    pub fn draft_inner(&self) -> (r: Option<&Type>)
        ensures
            r == match self {
                Type::Draft(inner) => Some(&**inner),
                _ => None::<&Type>,
            },
    {
        match self {
            Type::Draft(inner) => Some(&**inner),
            _ => None,
        }
    }

    /// Get the inner type of a ref
    pub fn ref_inner(&self) -> (r: Option<&Type>)
        ensures
            r == match self {
                Type::Ref(inner) => Some(&**inner),
                _ => None::<&Type>,
            },
    {
        match self {
            Type::Ref(inner) => Some(&**inner),
            _ => None,
        }
    }

    /// Get the element type of a collection (list, set, tree)
    pub fn element_type(&self) -> (r: Option<&Type>)
        ensures
            r == match self {
                Type::List(e) => Some(&**e),
                Type::SetOf(e) => Some(&**e),
                Type::Tree(e) => Some(&**e),
                _ => None::<&Type>,
            },
    {
        match self {
            Type::List(e) => Some(&**e),
            Type::SetOf(e) => Some(&**e),
            Type::Tree(e) => Some(&**e),
            _ => None,
        }
    }

    /// The type with every nullable, ref, draft and asset modifier stripped.
    pub open spec fn spec_base_type(self) -> Type
        decreases self,
    {
        match self {
            Type::Nullable(inner) => inner.spec_base_type(),
            Type::Ref(inner) => inner.spec_base_type(),
            Type::Draft(inner) => inner.spec_base_type(),
            Type::Asset(inner) => inner.spec_base_type(),
            _ => self,
        }
    }

    /// Strip all modifiers (nullable, ref, draft, asset) to get base type
    pub fn base_type(&self) -> (r: &Type)
        ensures
            *r == self.spec_base_type(),
        decreases *self,
    {
        match self {
            Type::Nullable(inner) => inner.base_type(),
            Type::Ref(inner) => inner.base_type(),
            Type::Draft(inner) => inner.base_type(),
            Type::Asset(inner) => inner.base_type(),
            _ => self,
        }
    }

    /// Make this type nullable if it isn't already
    pub fn make_nullable(self) -> (r: Type)
        ensures
            r == if self.spec_is_nullable() { self } else { Type::Nullable(Box::new(self)) },
    {
        if self.is_nullable() {
            self
        } else {
            Type::Nullable(Box::new(self))
        }
    }

    /// Create a function type
    pub fn function(params: Vec<Type>, ret: Type) -> (r: Type)
        ensures
            r == (Type::Function { params, ret: Box::new(ret) }),
    {
        Type::Function { params, ret: Box::new(ret) }
    }

    /// The intrinsic type named `name`, if any (names are case-sensitive).
    pub open spec fn intrinsic_of(name: Seq<char>) -> Option<Type> {
        if name == "unit"@ {
            Some(Type::Unit)
        } else if name == "bool"@ {
            Some(Type::Bool)
        } else if name == "i8"@ {
            Some(Type::I8)
        } else if name == "i16"@ {
            Some(Type::I16)
        } else if name == "i32"@ {
            Some(Type::I32)
        } else if name == "i64"@ {
            Some(Type::I64)
        } else if name == "u8"@ {
            Some(Type::U8)
        } else if name == "u16"@ {
            Some(Type::U16)
        } else if name == "u32"@ {
            Some(Type::U32)
        } else if name == "u64"@ {
            Some(Type::U64)
        } else if name == "f32"@ {
            Some(Type::F32)
        } else if name == "f64"@ {
            Some(Type::F64)
        } else if name == "Decimal"@ {
            Some(Type::Decimal)
        } else if name == "String"@ {
            Some(Type::String)
        } else if name == "Secret"@ {
            Some(Type::Secret)
        } else if name == "Uuid"@ {
            Some(Type::Uuid)
        } else if name == "Url"@ {
            Some(Type::Url)
        } else if name == "Color"@ {
            Some(Type::Color)
        } else if name == "Graphics"@ {
            Some(Type::Graphics)
        } else if name == "Blob"@ {
            Some(Type::Blob)
        } else if name == "Instant"@ {
            Some(Type::Instant)
        } else if name == "LocalDate"@ {
            Some(Type::LocalDate)
        } else if name == "LocalTime"@ {
            Some(Type::LocalTime)
        } else if name == "LocalDateTime"@ {
            Some(Type::LocalDateTime)
        } else if name == "Timezone"@ {
            Some(Type::Timezone)
        } else if name == "Duration"@ {
            Some(Type::Duration)
        } else {
            None
        }
    }

    /// Try to parse an intrinsic type from its name
    pub fn from_intrinsic_name(name: &str) -> (r: Option<Type>)
        ensures
            r == Type::intrinsic_of(name@),
    {
        if str_eq(name, "unit") {
            Some(Type::Unit)
        } else if str_eq(name, "bool") {
            Some(Type::Bool)
        } else if str_eq(name, "i8") {
            Some(Type::I8)
        } else if str_eq(name, "i16") {
            Some(Type::I16)
        } else if str_eq(name, "i32") {
            Some(Type::I32)
        } else if str_eq(name, "i64") {
            Some(Type::I64)
        } else if str_eq(name, "u8") {
            Some(Type::U8)
        } else if str_eq(name, "u16") {
            Some(Type::U16)
        } else if str_eq(name, "u32") {
            Some(Type::U32)
        } else if str_eq(name, "u64") {
            Some(Type::U64)
        } else if str_eq(name, "f32") {
            Some(Type::F32)
        } else if str_eq(name, "f64") {
            Some(Type::F64)
        } else if str_eq(name, "Decimal") {
            Some(Type::Decimal)
        } else if str_eq(name, "String") {
            Some(Type::String)
        } else if str_eq(name, "Secret") {
            Some(Type::Secret)
        } else if str_eq(name, "Uuid") {
            Some(Type::Uuid)
        } else if str_eq(name, "Url") {
            Some(Type::Url)
        } else if str_eq(name, "Color") {
            Some(Type::Color)
        } else if str_eq(name, "Graphics") {
            Some(Type::Graphics)
        } else if str_eq(name, "Blob") {
            Some(Type::Blob)
        } else if str_eq(name, "Instant") {
            Some(Type::Instant)
        } else if str_eq(name, "LocalDate") {
            Some(Type::LocalDate)
        } else if str_eq(name, "LocalTime") {
            Some(Type::LocalTime)
        } else if str_eq(name, "LocalDateTime") {
            Some(Type::LocalDateTime)
        } else if str_eq(name, "Timezone") {
            Some(Type::Timezone)
        } else if str_eq(name, "Duration") {
            Some(Type::Duration)
        } else {
            None
        }
    }

    /// The names of all intrinsic types, in declaration order.
    pub open spec fn intrinsic_names_spec() -> Seq<Seq<char>> {
        seq!["unit"@, "bool"@, "i8"@, "i16"@, "i32"@, "i64"@, "u8"@, "u16"@, "u32"@, "u64"@, "f32"@, "f64"@, "Decimal"@, "String"@, "Secret"@, "Uuid"@, "Url"@, "Color"@, "Graphics"@, "Blob"@, "Instant"@, "LocalDate"@, "LocalTime"@, "LocalDateTime"@, "Timezone"@, "Duration"@]
    }

    /// Get all intrinsic type names
    pub fn intrinsic_type_names() -> (r: Vec<&'static str>)
        ensures
            r@.map_values(|s: &str| s@) == Type::intrinsic_names_spec(),
    {
        let r: Vec<&'static str> = vec!["unit", "bool", "i8", "i16", "i32", "i64", "u8", "u16", "u32", "u64", "f32", "f64", "Decimal", "String", "Secret", "Uuid", "Url", "Color", "Graphics", "Blob", "Instant", "LocalDate", "LocalTime", "LocalDateTime", "Timezone", "Duration"];
        proof {
            assert(r@.map_values(|s: &str| s@) =~= Type::intrinsic_names_spec());
        }
        r
    }

    /// The text `Display` shows for a type.
    pub open spec fn text_spec(self) -> Seq<char>
        decreases self, 0nat,
    {
        match self {
            Type::Unit => "unit"@,
            Type::Bool => "bool"@,
            Type::I8 => "i8"@,
            Type::I16 => "i16"@,
            Type::I32 => "i32"@,
            Type::I64 => "i64"@,
            Type::U8 => "u8"@,
            Type::U16 => "u16"@,
            Type::U32 => "u32"@,
            Type::U64 => "u64"@,
            Type::F32 => "f32"@,
            Type::F64 => "f64"@,
            Type::Decimal => "Decimal"@,
            Type::String => "String"@,
            Type::Secret => "Secret"@,
            Type::Uuid => "Uuid"@,
            Type::Url => "Url"@,
            Type::Color => "Color"@,
            Type::Graphics => "Graphics"@,
            Type::Blob => "Blob"@,
            Type::Instant => "Instant"@,
            Type::LocalDate => "LocalDate"@,
            Type::LocalTime => "LocalTime"@,
            Type::LocalDateTime => "LocalDateTime"@,
            Type::Timezone => "Timezone"@,
            Type::Duration => "Duration"@,
            Type::Scheme(id) => "scheme#"@ + decimal(id.0 as nat),
            Type::Backend(id) => "backend#"@ + decimal(id.0 as nat),
            Type::Blueprint(id) => "blueprint#"@ + decimal(id.0 as nat),
            Type::Contract(id) => "contract#"@ + decimal(id.0 as nat),
            Type::Theme(id) => "theme#"@ + decimal(id.0 as nat),
            Type::Enum(id) => "enum#"@ + decimal(id.0 as nat),
            Type::Nullable(inner) => inner.text_spec() + "?"@,
            Type::Ref(inner) => "ref "@ + inner.text_spec(),
            Type::Draft(inner) => "draft "@ + inner.text_spec(),
            Type::Asset(inner) => "asset "@ + inner.text_spec(),
            Type::List(elem) => "["@ + elem.text_spec() + "]"@,
            Type::SetOf(elem) => "set<"@ + elem.text_spec() + ">"@,
            Type::MapOf(k, v) => "map<"@ + k.text_spec() + ", "@ + v.text_spec() + ">"@,
            Type::Tree(elem) => "tree<"@ + elem.text_spec() + ">"@,
            Type::Function { params, ret } =>
                "fn("@ + Type::join_text(params@, params@.len()) + ") -> "@ + ret.text_spec(),
            Type::BlueprintInstance { blueprint, params } =>
                "blueprint#"@ + decimal(blueprint.0 as nat) + "("@ + Type::join_text(params@, params@.len()) + ")"@,
            Type::Accessor(inner) => "accessor<"@ + inner.text_spec() + ">"@,
            Type::Error => "<error>"@,
            Type::Unknown => "<unknown>"@,
            Type::Never => "never"@,
        }
    }

    /// The texts of the first `n` types, separated by `", "`.
    pub open spec fn join_text(s: Seq<Type>, n: nat) -> Seq<char>
        decreases s, n,
    {
        if n == 0 || n > s.len() {
            Seq::empty()
        } else if n == 1 {
            s[0].text_spec()
        } else {
            Type::join_text(s, (n - 1) as nat) + ", "@ + s[n - 1].text_spec()
        }
    }

    fn push_join(out: &mut String, params: &Vec<Type>)
        ensures
            final(out)@ == old(out)@ + Type::join_text(params@, params@.len()),
        decreases params@, 1nat,
    {
        let ghost start = out@;
        let mut i: usize = 0;
        while i < params.len()
            invariant
                i <= params@.len(),
                out@ == start + Type::join_text(params@, i as nat),
            decreases params.len() - i,
        {
            let ghost before = out@;
            if i > 0 {
                push_str(out, ", ");
            }
            params[i].push_text(out);
            i = i + 1;
            proof {
                if i == 1 {
                    assert(out@ =~= start + Type::join_text(params@, i as nat));
                } else {
                    assert(out@ =~= start + Type::join_text(params@, i as nat));
                }
            }
        }
    }

    /// Appends the text of this type to `out`.
    pub fn push_text(&self, out: &mut String)
        ensures
            final(out)@ == old(out)@ + self.text_spec(),
        decreases *self, 0nat,
    {
        let ghost start = out@;
        match self {
            Type::Unit => push_str(out, "unit"),
            Type::Bool => push_str(out, "bool"),
            Type::I8 => push_str(out, "i8"),
            Type::I16 => push_str(out, "i16"),
            Type::I32 => push_str(out, "i32"),
            Type::I64 => push_str(out, "i64"),
            Type::U8 => push_str(out, "u8"),
            Type::U16 => push_str(out, "u16"),
            Type::U32 => push_str(out, "u32"),
            Type::U64 => push_str(out, "u64"),
            Type::F32 => push_str(out, "f32"),
            Type::F64 => push_str(out, "f64"),
            Type::Decimal => push_str(out, "Decimal"),
            Type::String => push_str(out, "String"),
            Type::Secret => push_str(out, "Secret"),
            Type::Uuid => push_str(out, "Uuid"),
            Type::Url => push_str(out, "Url"),
            Type::Color => push_str(out, "Color"),
            Type::Graphics => push_str(out, "Graphics"),
            Type::Blob => push_str(out, "Blob"),
            Type::Instant => push_str(out, "Instant"),
            Type::LocalDate => push_str(out, "LocalDate"),
            Type::LocalTime => push_str(out, "LocalTime"),
            Type::LocalDateTime => push_str(out, "LocalDateTime"),
            Type::Timezone => push_str(out, "Timezone"),
            Type::Duration => push_str(out, "Duration"),
            Type::Scheme(id) => {
                push_str(out, "scheme#");
                push_decimal(out, id.0 as usize);
            },
            Type::Backend(id) => {
                push_str(out, "backend#");
                push_decimal(out, id.0 as usize);
            },
            Type::Blueprint(id) => {
                push_str(out, "blueprint#");
                push_decimal(out, id.0 as usize);
            },
            Type::Contract(id) => {
                push_str(out, "contract#");
                push_decimal(out, id.0 as usize);
            },
            Type::Theme(id) => {
                push_str(out, "theme#");
                push_decimal(out, id.0 as usize);
            },
            Type::Enum(id) => {
                push_str(out, "enum#");
                push_decimal(out, id.0 as usize);
            },
            Type::Nullable(inner) => {
                inner.push_text(out);
                push_str(out, "?");
            },
            Type::Ref(inner) => {
                push_str(out, "ref ");
                inner.push_text(out);
            },
            Type::Draft(inner) => {
                push_str(out, "draft ");
                inner.push_text(out);
            },
            Type::Asset(inner) => {
                push_str(out, "asset ");
                inner.push_text(out);
            },
            Type::List(elem) => {
                push_str(out, "[");
                elem.push_text(out);
                push_str(out, "]");
            },
            Type::SetOf(elem) => {
                push_str(out, "set<");
                elem.push_text(out);
                push_str(out, ">");
            },
            Type::MapOf(k, v) => {
                push_str(out, "map<");
                k.push_text(out);
                push_str(out, ", ");
                v.push_text(out);
                push_str(out, ">");
            },
            Type::Tree(elem) => {
                push_str(out, "tree<");
                elem.push_text(out);
                push_str(out, ">");
            },
            Type::Function { params, ret } => {
                push_str(out, "fn(");
                Type::push_join(out, params);
                push_str(out, ") -> ");
                ret.push_text(out);
            },
            Type::BlueprintInstance { blueprint, params } => {
                push_str(out, "blueprint#");
                push_decimal(out, blueprint.0 as usize);
                push_str(out, "(");
                Type::push_join(out, params);
                push_str(out, ")");
            },
            Type::Accessor(inner) => {
                push_str(out, "accessor<");
                inner.push_text(out);
                push_str(out, ">");
            },
            Type::Error => push_str(out, "<error>"),
            Type::Unknown => push_str(out, "<unknown>"),
            Type::Never => push_str(out, "never"),
        }
        proof {
            assert(out@ =~= start + self.text_spec());
        }
    }

    /// The text `Display` shows for this type (e.g. `fn(i32, String) -> bool`).
    pub fn to_string(&self) -> (r: String)
        ensures
            r@ == self.text_spec(),
    {
        let mut out = String::new();
        self.push_text(&mut out);
        proof {
            assert(out@ =~= self.text_spec());
        }
        out
    }
}

/// Represents a resolved type annotation from the AST
#[derive(Debug, Clone)]
pub struct ResolvedType {
    /// The resolved type
    pub ty: Type,
    /// Whether this type was explicitly annotated or inferred
    pub explicit: bool,
}

impl ResolvedType {
    pub fn explicit(ty: Type) -> (r: Self)
        ensures
            r.ty == ty && r.explicit,
    {
        ResolvedType { ty, explicit: true }
    }

    pub fn inferred(ty: Type) -> (r: Self)
        ensures
            r.ty == ty && !r.explicit,
    {
        ResolvedType { ty, explicit: false }
    }
}


/// An intrinsic type's name reads back as that type: the types that
/// `from_intrinsic_name` gives print as the name they were read from, and
/// exactly the listed intrinsic names are read.
pub proof fn law_intrinsic_round_trip(name: Seq<char>)
    ensures
        Type::intrinsic_of(name) matches Some(t) ==> t.text_spec() == name && Type::intrinsic_of(t.text_spec()) == Some(t),
        Type::intrinsic_names_spec().contains(name) == Type::intrinsic_of(name) is Some,
{
    reveal_strlit("unit");
    reveal_strlit("bool");
    reveal_strlit("i8");
    reveal_strlit("i16");
    reveal_strlit("i32");
    reveal_strlit("i64");
    reveal_strlit("u8");
    reveal_strlit("u16");
    reveal_strlit("u32");
    reveal_strlit("u64");
    reveal_strlit("f32");
    reveal_strlit("f64");
    reveal_strlit("Decimal");
    reveal_strlit("String");
    reveal_strlit("Secret");
    reveal_strlit("Uuid");
    reveal_strlit("Url");
    reveal_strlit("Color");
    reveal_strlit("Graphics");
    reveal_strlit("Blob");
    reveal_strlit("Instant");
    reveal_strlit("LocalDate");
    reveal_strlit("LocalTime");
    reveal_strlit("LocalDateTime");
    reveal_strlit("Timezone");
    reveal_strlit("Duration");
    assert("unit"@.len() == 4 && "unit"@[0] == 'u' && "unit"@[1] == 'n' && "unit"@[2] == 'i' && "unit"@[3] == 't');
    assert("bool"@.len() == 4 && "bool"@[0] == 'b' && "bool"@[1] == 'o' && "bool"@[2] == 'o' && "bool"@[3] == 'l');
    assert("i8"@.len() == 2 && "i8"@[0] == 'i' && "i8"@[1] == '8');
    assert("i16"@.len() == 3 && "i16"@[0] == 'i' && "i16"@[1] == '1' && "i16"@[2] == '6');
    assert("i32"@.len() == 3 && "i32"@[0] == 'i' && "i32"@[1] == '3' && "i32"@[2] == '2');
    assert("i64"@.len() == 3 && "i64"@[0] == 'i' && "i64"@[1] == '6' && "i64"@[2] == '4');
    assert("u8"@.len() == 2 && "u8"@[0] == 'u' && "u8"@[1] == '8');
    assert("u16"@.len() == 3 && "u16"@[0] == 'u' && "u16"@[1] == '1' && "u16"@[2] == '6');
    assert("u32"@.len() == 3 && "u32"@[0] == 'u' && "u32"@[1] == '3' && "u32"@[2] == '2');
    assert("u64"@.len() == 3 && "u64"@[0] == 'u' && "u64"@[1] == '6' && "u64"@[2] == '4');
    assert("f32"@.len() == 3 && "f32"@[0] == 'f' && "f32"@[1] == '3' && "f32"@[2] == '2');
    assert("f64"@.len() == 3 && "f64"@[0] == 'f' && "f64"@[1] == '6' && "f64"@[2] == '4');
    assert("Decimal"@.len() == 7 && "Decimal"@[0] == 'D' && "Decimal"@[1] == 'e' && "Decimal"@[2] == 'c' && "Decimal"@[3] == 'i' && "Decimal"@[4] == 'm' && "Decimal"@[5] == 'a' && "Decimal"@[6] == 'l');
    assert("String"@.len() == 6 && "String"@[0] == 'S' && "String"@[1] == 't' && "String"@[2] == 'r' && "String"@[3] == 'i' && "String"@[4] == 'n' && "String"@[5] == 'g');
    assert("Secret"@.len() == 6 && "Secret"@[0] == 'S' && "Secret"@[1] == 'e' && "Secret"@[2] == 'c' && "Secret"@[3] == 'r' && "Secret"@[4] == 'e' && "Secret"@[5] == 't');
    assert("Uuid"@.len() == 4 && "Uuid"@[0] == 'U' && "Uuid"@[1] == 'u' && "Uuid"@[2] == 'i' && "Uuid"@[3] == 'd');
    assert("Url"@.len() == 3 && "Url"@[0] == 'U' && "Url"@[1] == 'r' && "Url"@[2] == 'l');
    assert("Color"@.len() == 5 && "Color"@[0] == 'C' && "Color"@[1] == 'o' && "Color"@[2] == 'l' && "Color"@[3] == 'o' && "Color"@[4] == 'r');
    assert("Graphics"@.len() == 8 && "Graphics"@[0] == 'G' && "Graphics"@[1] == 'r' && "Graphics"@[2] == 'a' && "Graphics"@[3] == 'p' && "Graphics"@[4] == 'h' && "Graphics"@[5] == 'i' && "Graphics"@[6] == 'c' && "Graphics"@[7] == 's');
    assert("Blob"@.len() == 4 && "Blob"@[0] == 'B' && "Blob"@[1] == 'l' && "Blob"@[2] == 'o' && "Blob"@[3] == 'b');
    assert("Instant"@.len() == 7 && "Instant"@[0] == 'I' && "Instant"@[1] == 'n' && "Instant"@[2] == 's' && "Instant"@[3] == 't' && "Instant"@[4] == 'a' && "Instant"@[5] == 'n' && "Instant"@[6] == 't');
    assert("LocalDate"@.len() == 9 && "LocalDate"@[0] == 'L' && "LocalDate"@[1] == 'o' && "LocalDate"@[2] == 'c' && "LocalDate"@[3] == 'a' && "LocalDate"@[4] == 'l' && "LocalDate"@[5] == 'D' && "LocalDate"@[6] == 'a' && "LocalDate"@[7] == 't' && "LocalDate"@[8] == 'e');
    assert("LocalTime"@.len() == 9 && "LocalTime"@[0] == 'L' && "LocalTime"@[1] == 'o' && "LocalTime"@[2] == 'c' && "LocalTime"@[3] == 'a' && "LocalTime"@[4] == 'l' && "LocalTime"@[5] == 'T' && "LocalTime"@[6] == 'i' && "LocalTime"@[7] == 'm' && "LocalTime"@[8] == 'e');
    assert("LocalDateTime"@.len() == 13 && "LocalDateTime"@[0] == 'L' && "LocalDateTime"@[1] == 'o' && "LocalDateTime"@[2] == 'c' && "LocalDateTime"@[3] == 'a' && "LocalDateTime"@[4] == 'l' && "LocalDateTime"@[5] == 'D' && "LocalDateTime"@[6] == 'a' && "LocalDateTime"@[7] == 't' && "LocalDateTime"@[8] == 'e' && "LocalDateTime"@[9] == 'T' && "LocalDateTime"@[10] == 'i' && "LocalDateTime"@[11] == 'm' && "LocalDateTime"@[12] == 'e');
    assert("Timezone"@.len() == 8 && "Timezone"@[0] == 'T' && "Timezone"@[1] == 'i' && "Timezone"@[2] == 'm' && "Timezone"@[3] == 'e' && "Timezone"@[4] == 'z' && "Timezone"@[5] == 'o' && "Timezone"@[6] == 'n' && "Timezone"@[7] == 'e');
    assert("Duration"@.len() == 8 && "Duration"@[0] == 'D' && "Duration"@[1] == 'u' && "Duration"@[2] == 'r' && "Duration"@[3] == 'a' && "Duration"@[4] == 't' && "Duration"@[5] == 'i' && "Duration"@[6] == 'o' && "Duration"@[7] == 'n');
    assert(Type::intrinsic_names_spec()[0] == "unit"@);
    assert(Type::intrinsic_names_spec()[1] == "bool"@);
    assert(Type::intrinsic_names_spec()[2] == "i8"@);
    assert(Type::intrinsic_names_spec()[3] == "i16"@);
    assert(Type::intrinsic_names_spec()[4] == "i32"@);
    assert(Type::intrinsic_names_spec()[5] == "i64"@);
    assert(Type::intrinsic_names_spec()[6] == "u8"@);
    assert(Type::intrinsic_names_spec()[7] == "u16"@);
    assert(Type::intrinsic_names_spec()[8] == "u32"@);
    assert(Type::intrinsic_names_spec()[9] == "u64"@);
    assert(Type::intrinsic_names_spec()[10] == "f32"@);
    assert(Type::intrinsic_names_spec()[11] == "f64"@);
    assert(Type::intrinsic_names_spec()[12] == "Decimal"@);
    assert(Type::intrinsic_names_spec()[13] == "String"@);
    assert(Type::intrinsic_names_spec()[14] == "Secret"@);
    assert(Type::intrinsic_names_spec()[15] == "Uuid"@);
    assert(Type::intrinsic_names_spec()[16] == "Url"@);
    assert(Type::intrinsic_names_spec()[17] == "Color"@);
    assert(Type::intrinsic_names_spec()[18] == "Graphics"@);
    assert(Type::intrinsic_names_spec()[19] == "Blob"@);
    assert(Type::intrinsic_names_spec()[20] == "Instant"@);
    assert(Type::intrinsic_names_spec()[21] == "LocalDate"@);
    assert(Type::intrinsic_names_spec()[22] == "LocalTime"@);
    assert(Type::intrinsic_names_spec()[23] == "LocalDateTime"@);
    assert(Type::intrinsic_names_spec()[24] == "Timezone"@);
    assert(Type::intrinsic_names_spec()[25] == "Duration"@);
    if name == "unit"@ {
        assert(Type::intrinsic_of(name) is Some);
    }
    if name == "bool"@ {
        assert("bool"@ != "unit"@);
        assert(Type::intrinsic_of(name) is Some);
    }
    if name == "i8"@ {
        assert("i8"@ != "unit"@);
        assert("i8"@ != "bool"@);
        assert(Type::intrinsic_of(name) is Some);
    }
    if name == "i16"@ {
        assert("i16"@ != "unit"@);
        assert("i16"@ != "bool"@);
        assert("i16"@ != "i8"@);
        assert(Type::intrinsic_of(name) is Some);
    }
    if name == "i32"@ {
        assert("i32"@ != "unit"@);
        assert("i32"@ != "bool"@);
        assert("i32"@ != "i8"@);
        assert("i32"@ != "i16"@);
        assert(Type::intrinsic_of(name) is Some);
    }
    if name == "i64"@ {
        assert("i64"@ != "unit"@);
        assert("i64"@ != "bool"@);
        assert("i64"@ != "i8"@);
        assert("i64"@ != "i16"@);
        assert("i64"@ != "i32"@);
        assert(Type::intrinsic_of(name) is Some);
    }
    if name == "u8"@ {
        assert("u8"@ != "unit"@);
        assert("u8"@ != "bool"@);
        assert("u8"@ != "i8"@);
        assert("u8"@ != "i16"@);
        assert("u8"@ != "i32"@);
        assert("u8"@ != "i64"@);
        assert(Type::intrinsic_of(name) is Some);
    }
    if name == "u16"@ {
        assert("u16"@ != "unit"@);
        assert("u16"@ != "bool"@);
        assert("u16"@ != "i8"@);
        assert("u16"@ != "i16"@);
        assert("u16"@ != "i32"@);
        assert("u16"@ != "i64"@);
        assert("u16"@ != "u8"@);
        assert(Type::intrinsic_of(name) is Some);
    }
    if name == "u32"@ {
        assert("u32"@ != "unit"@);
        assert("u32"@ != "bool"@);
        assert("u32"@ != "i8"@);
        assert("u32"@ != "i16"@);
        assert("u32"@ != "i32"@);
        assert("u32"@ != "i64"@);
        assert("u32"@ != "u8"@);
        assert("u32"@ != "u16"@);
        assert(Type::intrinsic_of(name) is Some);
    }
    if name == "u64"@ {
        assert("u64"@ != "unit"@);
        assert("u64"@ != "bool"@);
        assert("u64"@ != "i8"@);
        assert("u64"@ != "i16"@);
        assert("u64"@ != "i32"@);
        assert("u64"@ != "i64"@);
        assert("u64"@ != "u8"@);
        assert("u64"@ != "u16"@);
        assert("u64"@ != "u32"@);
        assert(Type::intrinsic_of(name) is Some);
    }
    if name == "f32"@ {
        assert("f32"@ != "unit"@);
        assert("f32"@ != "bool"@);
        assert("f32"@ != "i8"@);
        assert("f32"@ != "i16"@);
        assert("f32"@ != "i32"@);
        assert("f32"@ != "i64"@);
        assert("f32"@ != "u8"@);
        assert("f32"@ != "u16"@);
        assert("f32"@ != "u32"@);
        assert("f32"@ != "u64"@);
        assert(Type::intrinsic_of(name) is Some);
    }
    if name == "f64"@ {
        assert("f64"@ != "unit"@);
        assert("f64"@ != "bool"@);
        assert("f64"@ != "i8"@);
        assert("f64"@ != "i16"@);
        assert("f64"@ != "i32"@);
        assert("f64"@ != "i64"@);
        assert("f64"@ != "u8"@);
        assert("f64"@ != "u16"@);
        assert("f64"@ != "u32"@);
        assert("f64"@ != "u64"@);
        assert("f64"@ != "f32"@);
        assert(Type::intrinsic_of(name) is Some);
    }
    if name == "Decimal"@ {
        assert("Decimal"@ != "unit"@);
        assert("Decimal"@ != "bool"@);
        assert("Decimal"@ != "i8"@);
        assert("Decimal"@ != "i16"@);
        assert("Decimal"@ != "i32"@);
        assert("Decimal"@ != "i64"@);
        assert("Decimal"@ != "u8"@);
        assert("Decimal"@ != "u16"@);
        assert("Decimal"@ != "u32"@);
        assert("Decimal"@ != "u64"@);
        assert("Decimal"@ != "f32"@);
        assert("Decimal"@ != "f64"@);
        assert(Type::intrinsic_of(name) is Some);
    }
    if name == "String"@ {
        assert("String"@ != "unit"@);
        assert("String"@ != "bool"@);
        assert("String"@ != "i8"@);
        assert("String"@ != "i16"@);
        assert("String"@ != "i32"@);
        assert("String"@ != "i64"@);
        assert("String"@ != "u8"@);
        assert("String"@ != "u16"@);
        assert("String"@ != "u32"@);
        assert("String"@ != "u64"@);
        assert("String"@ != "f32"@);
        assert("String"@ != "f64"@);
        assert("String"@ != "Decimal"@);
        assert(Type::intrinsic_of(name) is Some);
    }
    if name == "Secret"@ {
        assert("Secret"@ != "unit"@);
        assert("Secret"@ != "bool"@);
        assert("Secret"@ != "i8"@);
        assert("Secret"@ != "i16"@);
        assert("Secret"@ != "i32"@);
        assert("Secret"@ != "i64"@);
        assert("Secret"@ != "u8"@);
        assert("Secret"@ != "u16"@);
        assert("Secret"@ != "u32"@);
        assert("Secret"@ != "u64"@);
        assert("Secret"@ != "f32"@);
        assert("Secret"@ != "f64"@);
        assert("Secret"@ != "Decimal"@);
        assert("Secret"@ != "String"@);
        assert(Type::intrinsic_of(name) is Some);
    }
    if name == "Uuid"@ {
        assert("Uuid"@ != "unit"@);
        assert("Uuid"@ != "bool"@);
        assert("Uuid"@ != "i8"@);
        assert("Uuid"@ != "i16"@);
        assert("Uuid"@ != "i32"@);
        assert("Uuid"@ != "i64"@);
        assert("Uuid"@ != "u8"@);
        assert("Uuid"@ != "u16"@);
        assert("Uuid"@ != "u32"@);
        assert("Uuid"@ != "u64"@);
        assert("Uuid"@ != "f32"@);
        assert("Uuid"@ != "f64"@);
        assert("Uuid"@ != "Decimal"@);
        assert("Uuid"@ != "String"@);
        assert("Uuid"@ != "Secret"@);
        assert(Type::intrinsic_of(name) is Some);
    }
    if name == "Url"@ {
        assert("Url"@ != "unit"@);
        assert("Url"@ != "bool"@);
        assert("Url"@ != "i8"@);
        assert("Url"@ != "i16"@);
        assert("Url"@ != "i32"@);
        assert("Url"@ != "i64"@);
        assert("Url"@ != "u8"@);
        assert("Url"@ != "u16"@);
        assert("Url"@ != "u32"@);
        assert("Url"@ != "u64"@);
        assert("Url"@ != "f32"@);
        assert("Url"@ != "f64"@);
        assert("Url"@ != "Decimal"@);
        assert("Url"@ != "String"@);
        assert("Url"@ != "Secret"@);
        assert("Url"@ != "Uuid"@);
        assert(Type::intrinsic_of(name) is Some);
    }
    if name == "Color"@ {
        assert("Color"@ != "unit"@);
        assert("Color"@ != "bool"@);
        assert("Color"@ != "i8"@);
        assert("Color"@ != "i16"@);
        assert("Color"@ != "i32"@);
        assert("Color"@ != "i64"@);
        assert("Color"@ != "u8"@);
        assert("Color"@ != "u16"@);
        assert("Color"@ != "u32"@);
        assert("Color"@ != "u64"@);
        assert("Color"@ != "f32"@);
        assert("Color"@ != "f64"@);
        assert("Color"@ != "Decimal"@);
        assert("Color"@ != "String"@);
        assert("Color"@ != "Secret"@);
        assert("Color"@ != "Uuid"@);
        assert("Color"@ != "Url"@);
        assert(Type::intrinsic_of(name) is Some);
    }
    if name == "Graphics"@ {
        assert("Graphics"@ != "unit"@);
        assert("Graphics"@ != "bool"@);
        assert("Graphics"@ != "i8"@);
        assert("Graphics"@ != "i16"@);
        assert("Graphics"@ != "i32"@);
        assert("Graphics"@ != "i64"@);
        assert("Graphics"@ != "u8"@);
        assert("Graphics"@ != "u16"@);
        assert("Graphics"@ != "u32"@);
        assert("Graphics"@ != "u64"@);
        assert("Graphics"@ != "f32"@);
        assert("Graphics"@ != "f64"@);
        assert("Graphics"@ != "Decimal"@);
        assert("Graphics"@ != "String"@);
        assert("Graphics"@ != "Secret"@);
        assert("Graphics"@ != "Uuid"@);
        assert("Graphics"@ != "Url"@);
        assert("Graphics"@ != "Color"@);
        assert(Type::intrinsic_of(name) is Some);
    }
    if name == "Blob"@ {
        assert("Blob"@ != "unit"@);
        assert("Blob"@ != "bool"@);
        assert("Blob"@ != "i8"@);
        assert("Blob"@ != "i16"@);
        assert("Blob"@ != "i32"@);
        assert("Blob"@ != "i64"@);
        assert("Blob"@ != "u8"@);
        assert("Blob"@ != "u16"@);
        assert("Blob"@ != "u32"@);
        assert("Blob"@ != "u64"@);
        assert("Blob"@ != "f32"@);
        assert("Blob"@ != "f64"@);
        assert("Blob"@ != "Decimal"@);
        assert("Blob"@ != "String"@);
        assert("Blob"@ != "Secret"@);
        assert("Blob"@ != "Uuid"@);
        assert("Blob"@ != "Url"@);
        assert("Blob"@ != "Color"@);
        assert("Blob"@ != "Graphics"@);
        assert(Type::intrinsic_of(name) is Some);
    }
    if name == "Instant"@ {
        assert("Instant"@ != "unit"@);
        assert("Instant"@ != "bool"@);
        assert("Instant"@ != "i8"@);
        assert("Instant"@ != "i16"@);
        assert("Instant"@ != "i32"@);
        assert("Instant"@ != "i64"@);
        assert("Instant"@ != "u8"@);
        assert("Instant"@ != "u16"@);
        assert("Instant"@ != "u32"@);
        assert("Instant"@ != "u64"@);
        assert("Instant"@ != "f32"@);
        assert("Instant"@ != "f64"@);
        assert("Instant"@ != "Decimal"@);
        assert("Instant"@ != "String"@);
        assert("Instant"@ != "Secret"@);
        assert("Instant"@ != "Uuid"@);
        assert("Instant"@ != "Url"@);
        assert("Instant"@ != "Color"@);
        assert("Instant"@ != "Graphics"@);
        assert("Instant"@ != "Blob"@);
        assert(Type::intrinsic_of(name) is Some);
    }
    if name == "LocalDate"@ {
        assert("LocalDate"@ != "unit"@);
        assert("LocalDate"@ != "bool"@);
        assert("LocalDate"@ != "i8"@);
        assert("LocalDate"@ != "i16"@);
        assert("LocalDate"@ != "i32"@);
        assert("LocalDate"@ != "i64"@);
        assert("LocalDate"@ != "u8"@);
        assert("LocalDate"@ != "u16"@);
        assert("LocalDate"@ != "u32"@);
        assert("LocalDate"@ != "u64"@);
        assert("LocalDate"@ != "f32"@);
        assert("LocalDate"@ != "f64"@);
        assert("LocalDate"@ != "Decimal"@);
        assert("LocalDate"@ != "String"@);
        assert("LocalDate"@ != "Secret"@);
        assert("LocalDate"@ != "Uuid"@);
        assert("LocalDate"@ != "Url"@);
        assert("LocalDate"@ != "Color"@);
        assert("LocalDate"@ != "Graphics"@);
        assert("LocalDate"@ != "Blob"@);
        assert("LocalDate"@ != "Instant"@);
        assert(Type::intrinsic_of(name) is Some);
    }
    if name == "LocalTime"@ {
        assert("LocalTime"@ != "unit"@);
        assert("LocalTime"@ != "bool"@);
        assert("LocalTime"@ != "i8"@);
        assert("LocalTime"@ != "i16"@);
        assert("LocalTime"@ != "i32"@);
        assert("LocalTime"@ != "i64"@);
        assert("LocalTime"@ != "u8"@);
        assert("LocalTime"@ != "u16"@);
        assert("LocalTime"@ != "u32"@);
        assert("LocalTime"@ != "u64"@);
        assert("LocalTime"@ != "f32"@);
        assert("LocalTime"@ != "f64"@);
        assert("LocalTime"@ != "Decimal"@);
        assert("LocalTime"@ != "String"@);
        assert("LocalTime"@ != "Secret"@);
        assert("LocalTime"@ != "Uuid"@);
        assert("LocalTime"@ != "Url"@);
        assert("LocalTime"@ != "Color"@);
        assert("LocalTime"@ != "Graphics"@);
        assert("LocalTime"@ != "Blob"@);
        assert("LocalTime"@ != "Instant"@);
        assert("LocalTime"@ != "LocalDate"@);
        assert(Type::intrinsic_of(name) is Some);
    }
    if name == "LocalDateTime"@ {
        assert("LocalDateTime"@ != "unit"@);
        assert("LocalDateTime"@ != "bool"@);
        assert("LocalDateTime"@ != "i8"@);
        assert("LocalDateTime"@ != "i16"@);
        assert("LocalDateTime"@ != "i32"@);
        assert("LocalDateTime"@ != "i64"@);
        assert("LocalDateTime"@ != "u8"@);
        assert("LocalDateTime"@ != "u16"@);
        assert("LocalDateTime"@ != "u32"@);
        assert("LocalDateTime"@ != "u64"@);
        assert("LocalDateTime"@ != "f32"@);
        assert("LocalDateTime"@ != "f64"@);
        assert("LocalDateTime"@ != "Decimal"@);
        assert("LocalDateTime"@ != "String"@);
        assert("LocalDateTime"@ != "Secret"@);
        assert("LocalDateTime"@ != "Uuid"@);
        assert("LocalDateTime"@ != "Url"@);
        assert("LocalDateTime"@ != "Color"@);
        assert("LocalDateTime"@ != "Graphics"@);
        assert("LocalDateTime"@ != "Blob"@);
        assert("LocalDateTime"@ != "Instant"@);
        assert("LocalDateTime"@ != "LocalDate"@);
        assert("LocalDateTime"@ != "LocalTime"@);
        assert(Type::intrinsic_of(name) is Some);
    }
    if name == "Timezone"@ {
        assert("Timezone"@ != "unit"@);
        assert("Timezone"@ != "bool"@);
        assert("Timezone"@ != "i8"@);
        assert("Timezone"@ != "i16"@);
        assert("Timezone"@ != "i32"@);
        assert("Timezone"@ != "i64"@);
        assert("Timezone"@ != "u8"@);
        assert("Timezone"@ != "u16"@);
        assert("Timezone"@ != "u32"@);
        assert("Timezone"@ != "u64"@);
        assert("Timezone"@ != "f32"@);
        assert("Timezone"@ != "f64"@);
        assert("Timezone"@ != "Decimal"@);
        assert("Timezone"@ != "String"@);
        assert("Timezone"@ != "Secret"@);
        assert("Timezone"@ != "Uuid"@);
        assert("Timezone"@ != "Url"@);
        assert("Timezone"@ != "Color"@);
        assert("Timezone"@ != "Graphics"@);
        assert("Timezone"@ != "Blob"@);
        assert("Timezone"@ != "Instant"@);
        assert("Timezone"@ != "LocalDate"@);
        assert("Timezone"@ != "LocalTime"@);
        assert("Timezone"@ != "LocalDateTime"@);
        assert(Type::intrinsic_of(name) is Some);
    }
    if name == "Duration"@ {
        assert("Duration"@ != "unit"@);
        assert("Duration"@ != "bool"@);
        assert("Duration"@ != "i8"@);
        assert("Duration"@ != "i16"@);
        assert("Duration"@ != "i32"@);
        assert("Duration"@ != "i64"@);
        assert("Duration"@ != "u8"@);
        assert("Duration"@ != "u16"@);
        assert("Duration"@ != "u32"@);
        assert("Duration"@ != "u64"@);
        assert("Duration"@ != "f32"@);
        assert("Duration"@ != "f64"@);
        assert("Duration"@ != "Decimal"@);
        assert("Duration"@ != "String"@);
        assert("Duration"@ != "Secret"@);
        assert("Duration"@ != "Uuid"@);
        assert("Duration"@ != "Url"@);
        assert("Duration"@ != "Color"@);
        assert("Duration"@ != "Graphics"@);
        assert("Duration"@ != "Blob"@);
        assert("Duration"@ != "Instant"@);
        assert("Duration"@ != "LocalDate"@);
        assert("Duration"@ != "LocalTime"@);
        assert("Duration"@ != "LocalDateTime"@);
        assert("Duration"@ != "Timezone"@);
        assert(Type::intrinsic_of(name) is Some);
    }
    if Type::intrinsic_of(name) is Some {
        assert(exists|k: int| 0 <= k < Type::intrinsic_names_spec().len() && Type::intrinsic_names_spec()[k] == name);
    }
}

} // verus!
