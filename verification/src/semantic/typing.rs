//! The typing rules: which type an annotation denotes and which type an
//! expression has, or the first error found while working it out.

use vstd::prelude::*;
use crate::ast::{
    Argument, Expression, FailureBehavior, FieldValue, SourceLocation, FunctionCall, FunctionReference, MapEntry, MatchCase, Pattern,
    PrimitiveType, TypeSpecifier,
};
use crate::error::ErrorKind;
use crate::semantic::statements::variable;
use crate::semantic::symbols::{
    add_symbol_spec, enum_with_variant, exit_scope_spec, find_type, lookup, variant_named, Fault, SymbolView, TypeEntryView,
    TypeInfoView,
};
use crate::semantic::types::{compatible, is_float, is_numeric, numeric_primitive, TypeView};

verus! {

/// What the typing of an expression depends on: the scopes, the user-defined
/// types and the module being analysed.
pub struct Env {
    pub scopes: Seq<Seq<SymbolView>>,
    pub types: Seq<TypeEntryView>,
    pub module: Option<Seq<char>>,
}

/// A type mismatch.
pub open spec fn mismatch() -> Fault {
    (ErrorKind::TypeMismatch, Seq::empty())
}

/// The type a written annotation denotes. A named type must be defined; an
/// alias stands for its target.
pub open spec fn convert_type(env: Env, ts: TypeSpecifier) -> Result<TypeView, Fault>
    decreases ts,
{
    match ts {
        TypeSpecifier::Primitive { prim, .. } => Ok(TypeView::Primitive(prim)),
        TypeSpecifier::Named { name, .. } => match find_type(env.types, name.name@) {
            Some(TypeInfoView::Alias(target)) => Ok(target),
            Some(_) => Ok(TypeView::Named(name.name@, env.module)),
            None => Err((ErrorKind::UndefinedSymbol, name.name@)),
        },
        TypeSpecifier::Array { element_type, size, .. } => match convert_type(env, *element_type) {
            Ok(t) => Ok(TypeView::Array(Box::new(t), size)),
            Err(f) => Err(f),
        },
        TypeSpecifier::Mapping { key_type, value_type, .. } => match convert_type(env, *key_type) {
            Err(f) => Err(f),
            Ok(k) => match convert_type(env, *value_type) {
                Err(f) => Err(f),
                Ok(v) => Ok(TypeView::Mapping(Box::new(k), Box::new(v))),
            },
        },
        TypeSpecifier::Pointer { target_type, is_mutable, .. } => match convert_type(env, *target_type) {
            Ok(t) => Ok(TypeView::Pointer(Box::new(t), is_mutable)),
            Err(f) => Err(f),
        },
        TypeSpecifier::Function { parameter_types, return_type, .. } => match convert_types(env, parameter_types@) {
            Err(f) => Err(f),
            Ok(ps) => match convert_type(env, *return_type) {
                Err(f) => Err(f),
                Ok(r) => Ok(TypeView::Function(ps, Box::new(r))),
            },
        },
        TypeSpecifier::TypeParameter { name, .. } => Ok(TypeView::Named(name.name@, None)),
    }
}

/// The types a list of annotations denotes, or the first error.
pub open spec fn convert_types(env: Env, s: Seq<Box<TypeSpecifier>>) -> Result<Seq<TypeView>, Fault>
    decreases s,
{
    if s.len() == 0 {
        Ok(Seq::empty())
    } else {
        match convert_type(env, *s[0]) {
            Err(f) => Err(f),
            Ok(t) => match convert_types(env, s.subrange(1, s.len() as int)) {
                Err(f) => Err(f),
                Ok(ts) => Ok(seq![t] + ts),
            },
        }
    }
}

/// `r` with `p` put in front of its sequence.
pub open spec fn prepend<T>(p: Seq<T>, r: Result<Seq<T>, Fault>) -> Result<Seq<T>, Fault> {
    match r {
        Ok(x) => Ok(p + x),
        Err(f) => Err(f),
    }
}

/// The result type of an arithmetic operation on operands of the given types.
pub open spec fn arithmetic(l: Result<TypeView, Fault>, r: Result<TypeView, Fault>) -> Result<TypeView, Fault> {
    match l {
        Err(f) => Err(f),
        Ok(a) => match r {
            Err(f) => Err(f),
            Ok(b) => if !is_numeric(a) || !is_numeric(b) {
                Err(mismatch())
            } else if is_float(a) || is_float(b) {
                Ok(TypeView::Primitive(PrimitiveType::Float))
            } else {
                Ok(TypeView::Primitive(PrimitiveType::Integer))
            },
        },
    }
}

/// `result` when `t` is the type `want`, else a mismatch; errors pass through.
pub open spec fn expect(t: Result<TypeView, Fault>, want: TypeView, result: Result<TypeView, Fault>) -> Result<TypeView, Fault> {
    match t {
        Err(f) => Err(f),
        Ok(x) => if x == want { result } else { Err(mismatch()) },
    }
}

/// Two operands of type `want` each, giving `result`; both operands are
/// typed before either is checked.
pub open spec fn expect_both(l: Result<TypeView, Fault>, r: Result<TypeView, Fault>, want_l: TypeView, want_r: TypeView, result: TypeView) -> Result<TypeView, Fault> {
    match l {
        Err(f) => Err(f),
        Ok(a) => match r {
            Err(f) => Err(f),
            Ok(b) => if a != want_l || b != want_r { Err(mismatch()) } else { Ok(result) },
        },
    }
}

/// Comparison for (in)equality: both operands have the same type.
pub open spec fn equality(l: Result<TypeView, Fault>, r: Result<TypeView, Fault>) -> Result<TypeView, Fault> {
    match l {
        Err(f) => Err(f),
        Ok(a) => match r {
            Err(f) => Err(f),
            Ok(b) => if a != b { Err(mismatch()) } else { Ok(TypeView::Primitive(PrimitiveType::Boolean)) },
        },
    }
}

/// Whether a cast between two primitive types is allowed.
pub open spec fn cast_allowed(from: PrimitiveType, to: PrimitiveType) -> bool {
    ||| to == PrimitiveType::String && (numeric_primitive(from) || from == PrimitiveType::Boolean)
    ||| from == PrimitiveType::String && numeric_primitive(to)
    ||| numeric_primitive(from) && numeric_primitive(to)
}

/// The result of a cast of a value of type `v` to the type `t`.
pub open spec fn cast(v: Result<TypeView, Fault>, t: Result<TypeView, Fault>) -> Result<TypeView, Fault> {
    match v {
        Err(f) => Err(f),
        Ok(a) => match t {
            Err(f) => Err(f),
            Ok(b) => match (a, b) {
                (TypeView::Primitive(from), TypeView::Primitive(to)) =>
                    if cast_allowed(from, to) { Ok(b) } else { Err((ErrorKind::InvalidOperation, Seq::empty())) },
                _ => Err((ErrorKind::InvalidOperation, Seq::empty())),
            },
        },
    }
}

/// The type of the field named `name` among `fields`, the first one so named.
pub open spec fn field_type(fields: Seq<(Seq<char>, TypeView)>, name: Seq<char>) -> Option<TypeView>
    decreases fields.len(),
{
    if fields.len() == 0 {
        None
    } else if fields[0].0 == name {
        Some(fields[0].1)
    } else {
        field_type(fields.subrange(1, fields.len() as int), name)
    }
}

/// Whether one of the field values is for the field named `name`.
pub open spec fn has_field_value(fvs: Seq<FieldValue>, name: Seq<char>) -> bool {
    exists|i: int| 0 <= i < fvs.len() && #[trigger] fvs[i].field_name.name@ == name
}

/// The first declared field that no field value is for.
pub open spec fn first_missing_field(fields: Seq<(Seq<char>, TypeView)>, fvs: Seq<FieldValue>) -> Option<Seq<char>>
    decreases fields.len(),
{
    if fields.len() == 0 {
        None
    } else if !has_field_value(fvs, fields[0].0) {
        Some(fields[0].0)
    } else {
        first_missing_field(fields.subrange(1, fields.len() as int), fvs)
    }
}

/// The name an undefined struct is reported under: `module::name`, or the
/// bare name when the type has no module.
pub open spec fn qualified_struct_name(name: Seq<char>, module: Option<Seq<char>>) -> Seq<char> {
    match module {
        Some(m) => m + "::"@ + name,
        None => name,
    }
}

/// The type of an expression, or the first error found while typing it.
#[verifier::opaque]
pub open spec fn expr_type(env: Env, e: Expression) -> Result<TypeView, Fault>
    decreases e,
{
    match e {
        Expression::IntegerLiteral { .. } => Ok(TypeView::Primitive(PrimitiveType::Integer)),
        Expression::FloatLiteral { .. } => Ok(TypeView::Primitive(PrimitiveType::Float)),
        Expression::StringLiteral { .. } => Ok(TypeView::Primitive(PrimitiveType::String)),
        Expression::CharacterLiteral { .. } => Ok(TypeView::Primitive(PrimitiveType::Char)),
        Expression::BooleanLiteral { .. } => Ok(TypeView::Primitive(PrimitiveType::Boolean)),
        Expression::NullLiteral { .. } =>
            Ok(TypeView::Pointer(Box::new(TypeView::Primitive(PrimitiveType::Void)), false)),
        Expression::Variable { name, .. } => match lookup(env.scopes, name.name@) {
            None => Err((ErrorKind::UndefinedSymbol, name.name@)),
            Some(sym) => if !sym.is_initialized {
                Err((ErrorKind::UseBeforeInitialization, name.name@))
            } else if sym.is_moved {
                Err((ErrorKind::UseAfterMove, name.name@))
            } else {
                Ok(sym.ty)
            },
        },
        Expression::Add { left, right, .. } => arithmetic(expr_type(env, *left), expr_type(env, *right)),
        Expression::Subtract { left, right, .. } => arithmetic(expr_type(env, *left), expr_type(env, *right)),
        Expression::Multiply { left, right, .. } => arithmetic(expr_type(env, *left), expr_type(env, *right)),
        Expression::Divide { left, right, .. } => arithmetic(expr_type(env, *left), expr_type(env, *right)),
        Expression::FunctionCall { call, .. } => call_type(env, call),
        Expression::StringConcat { operands, .. } => match check_exprs(env, operands@, TypeView::Primitive(PrimitiveType::String), true) {
            Err(f) => Err(f),
            Ok(_) => Ok(TypeView::Primitive(PrimitiveType::String)),
        },
        Expression::StringLength { string, .. } => expect(
            expr_type(env, *string),
            TypeView::Primitive(PrimitiveType::String),
            Ok(TypeView::Primitive(PrimitiveType::Integer)),
        ),
        Expression::StringCharAt { string, index, .. } => expect_both(
            expr_type(env, *string),
            expr_type(env, *index),
            TypeView::Primitive(PrimitiveType::String),
            TypeView::Primitive(PrimitiveType::Integer),
            TypeView::Primitive(PrimitiveType::Char),
        ),
        Expression::Substring { string, start_index, length, .. } => expect(
            expr_type(env, *string),
            TypeView::Primitive(PrimitiveType::String),
            expect(
                expr_type(env, *start_index),
                TypeView::Primitive(PrimitiveType::Integer),
                expect(
                    expr_type(env, *length),
                    TypeView::Primitive(PrimitiveType::Integer),
                    Ok(TypeView::Primitive(PrimitiveType::String)),
                ),
            ),
        ),
        Expression::StringEquals { left, right, .. } => expect_both(
            expr_type(env, *left),
            expr_type(env, *right),
            TypeView::Primitive(PrimitiveType::String),
            TypeView::Primitive(PrimitiveType::String),
            TypeView::Primitive(PrimitiveType::Boolean),
        ),
        Expression::StringContains { haystack, needle, .. } => expect_both(
            expr_type(env, *haystack),
            expr_type(env, *needle),
            TypeView::Primitive(PrimitiveType::String),
            TypeView::Primitive(PrimitiveType::String),
            TypeView::Primitive(PrimitiveType::Boolean),
        ),
        Expression::ArrayLiteral { element_type, elements, .. } => match convert_type(env, *element_type) {
            Err(f) => Err(f),
            Ok(et) => match check_exprs(env, elements@, et, false) {
                Err(f) => Err(f),
                Ok(_) => Ok(TypeView::Array(Box::new(et), Some(elements@.len() as u64))),
            },
        },
        Expression::ArrayAccess { array, index, .. } => match expr_type(env, *array) {
            Err(f) => Err(f),
            Ok(TypeView::Array(el, _)) => expect(expr_type(env, *index), TypeView::Primitive(PrimitiveType::Integer), Ok(*el)),
            Ok(_) => Err(mismatch()),
        },
        Expression::ArrayLength { array, .. } => match expr_type(env, *array) {
            Err(f) => Err(f),
            Ok(TypeView::Array(_, _)) => Ok(TypeView::Primitive(PrimitiveType::Integer)),
            Ok(_) => Err(mismatch()),
        },
        Expression::StructConstruct { struct_name, field_values, .. } => match find_type(env.types, struct_name.name@) {
            None => Err((ErrorKind::UndefinedSymbol, struct_name.name@)),
            Some(TypeInfoView::Struct(fields)) => match first_missing_field(fields, field_values@) {
                Some(missing) => Err((ErrorKind::MissingField, missing)),
                None => match check_field_values(env, field_values@, fields) {
                    Err(f) => Err(f),
                    Ok(_) => Ok(TypeView::Named(struct_name.name@, env.module)),
                },
            },
            Some(_) => Err(mismatch()),
        },
        Expression::FieldAccess { instance, field_name, .. } => match expr_type(env, *instance) {
            Err(f) => Err(f),
            Ok(TypeView::Named(n, m)) => match find_type(env.types, n) {
                None => Err((ErrorKind::UndefinedSymbol, qualified_struct_name(n, m))),
                Some(TypeInfoView::Struct(fields)) => match field_type(fields, field_name.name@) {
                    Some(t) => Ok(t),
                    None => Err((ErrorKind::UnknownField, field_name.name@)),
                },
                Some(_) => Err(mismatch()),
            },
            Ok(_) => Err(mismatch()),
        },
        Expression::Equals { left, right, .. } => equality(expr_type(env, *left), expr_type(env, *right)),
        Expression::NotEquals { left, right, .. } => equality(expr_type(env, *left), expr_type(env, *right)),
        Expression::EnumVariant { variant_name, value, .. } => match enum_with_variant(env.types, variant_name.name@) {
            None => Err((ErrorKind::UndefinedSymbol, "enum variant '"@ + variant_name.name@ + "'"@)),
            Some((enum_name, carried)) => match carried {
                Some(at) => match value {
                    Some(v) => match expr_type(env, *v) {
                        Err(f) => Err(f),
                        Ok(t) => if compatible(at, t) { Ok(TypeView::Named(enum_name, env.module)) } else { Err(mismatch()) },
                    },
                    None => Err((ErrorKind::MissingEnumVariantValue, variant_name.name@)),
                },
                None => if value is Some {
                    Err((ErrorKind::UnexpectedEnumVariantValue, variant_name.name@))
                } else {
                    Ok(TypeView::Named(enum_name, env.module))
                },
            },
        },
        Expression::TypeCast { value, target_type, .. } => cast(expr_type(env, *value), convert_type(env, *target_type)),
        Expression::AddressOf { operand, .. } => match expr_type(env, *operand) {
            Err(f) => Err(f),
            Ok(t) => Ok(TypeView::Pointer(Box::new(t), false)),
        },
        Expression::Dereference { pointer, .. } => match expr_type(env, *pointer) {
            Err(f) => Err(f),
            Ok(TypeView::Pointer(t, _)) => Ok(*t),
            Ok(_) => Err(mismatch()),
        },
        Expression::PointerArithmetic { pointer, offset, .. } => match expr_type(env, *pointer) {
            Err(f) => Err(f),
            Ok(p) => match expr_type(env, *offset) {
                Err(f) => Err(f),
                Ok(o) => if !(p is Pointer) || o != TypeView::Primitive(PrimitiveType::Integer) {
                    Err(mismatch())
                } else {
                    Ok(p)
                },
            },
        },
        Expression::MapLiteral { key_type, value_type, entries, .. } => match convert_type(env, *key_type) {
            Err(f) => Err(f),
            Ok(k) => match convert_type(env, *value_type) {
                Err(f) => Err(f),
                Ok(v) => match check_entries(env, entries@, k, v) {
                    Err(f) => Err(f),
                    Ok(_) => Ok(TypeView::Mapping(Box::new(k), Box::new(v))),
                },
            },
        },
        Expression::MapAccess { map, key, .. } => match expr_type(env, *map) {
            Err(f) => Err(f),
            Ok(TypeView::Mapping(k, v)) => match expr_type(env, *key) {
                Err(f) => Err(f),
                Ok(t) => if compatible(*k, t) { Ok(*v) } else { Err(mismatch()) },
            },
            Ok(_) => Err(mismatch()),
        },
        Expression::Match { value, cases, .. } => match expr_type(env, *value) {
            Err(f) => Err(f),
            Ok(vt) => if !is_enum(env, vt) {
                Err(mismatch())
            } else {
                match cases_type(env, cases@, vt, None) {
                    Err(f) => Err(f),
                    Ok(rt) => match exhaustive(env, cases@, vt) {
                        Err(f) => Err(f),
                        Ok(_) => match rt {
                            None => Err((ErrorKind::MalformedConstruct, Seq::empty())),
                            Some(t) => Ok(t),
                        },
                    },
                }
            },
        },
        _ => Ok(TypeView::Error),
    }
}

/// Whether `t` names an enumeration.
pub open spec fn is_enum(env: Env, t: TypeView) -> bool {
    match t {
        TypeView::Named(n, _) => find_type(env.types, n) matches Some(TypeInfoView::Enum(_)),
        _ => false,
    }
}

/// The scopes once a pattern, matched against a value of type `t`, has added
/// its bindings to the innermost scope.
pub open spec fn pattern_scopes(env: Env, p: Pattern, t: TypeView) -> Result<Seq<Seq<SymbolView>>, Fault>
    decreases p,
{
    match p {
        Pattern::EnumVariant { variant_name, binding, nested_pattern, .. } => match t {
            TypeView::Named(n, _) => match find_type(env.types, n) {
                None => Err((ErrorKind::UndefinedSymbol, n)),
                Some(TypeInfoView::Enum(vs)) => match variant_named(vs, variant_name.name@) {
                    None => Err((ErrorKind::UndefinedSymbol, "variant '"@ + variant_name.name@ + "'"@)),
                    Some(carried) => match nested_pattern {
                        Some(np) => match carried {
                            None => Err((ErrorKind::InvalidOperation, Seq::empty())),
                            Some(ct) => pattern_scopes(env, *np, ct),
                        },
                        None => match binding {
                            Some(b) => match carried {
                                Some(ct) => add_symbol_spec(env.scopes, variable(b.name@, ct, false, true)),
                                None => Ok(env.scopes),
                            },
                            None => Ok(env.scopes),
                        },
                    },
                },
                Some(_) => Err(mismatch()),
            },
            _ => Err(mismatch()),
        },
        Pattern::Wildcard { binding, .. } => match binding {
            Some(b) => add_symbol_spec(env.scopes, variable(b.name@, t, false, true)),
            None => Ok(env.scopes),
        },
        Pattern::Literal { .. } => Ok(env.scopes),
    }
}

/// The common type of the bodies of `match` cases, each typed with its
/// pattern's bindings in a scope of its own; `acc` is the type of the cases
/// before them, if there were any.
pub open spec fn cases_type(env: Env, cs: Seq<MatchCase>, vt: TypeView, acc: Option<TypeView>) -> Result<Option<TypeView>, Fault>
    decreases cs,
{
    if cs.len() == 0 {
        Ok(acc)
    } else {
        match pattern_scopes(Env { scopes: env.scopes.push(Seq::empty()), ..env }, cs[0].pattern, vt) {
            Err(f) => Err(f),
            Ok(s) => match expr_type(Env { scopes: s, ..env }, *cs[0].body) {
                Err(f) => Err(f),
                Ok(ct) => match exit_scope_spec(s) {
                    Err(f) => Err(f),
                    Ok(_) => match acc {
                        Some(et) => if et != ct {
                            Err(mismatch())
                        } else {
                            cases_type(env, cs.subrange(1, cs.len() as int), vt, acc)
                        },
                        None => cases_type(env, cs.subrange(1, cs.len() as int), vt, Some(ct)),
                    },
                },
            },
        }
    }
}

/// A `match` with a case that matches any value covers every variant of the
/// enumeration it is applied to.
pub proof fn law_wildcard_is_exhaustive(env: Env, cs: Seq<MatchCase>, vt: TypeView)
    requires
        has_wildcard(cs),
        is_enum(env, vt),
    ensures
        exhaustive(env, cs, vt) is Ok,
{
}

/// A pattern adds its bindings to the innermost scope and leaves the others.
pub proof fn lemma_pattern_scopes(env: Env, p: Pattern, t: TypeView)
    ensures
        pattern_scopes(env, p, t) matches Ok(s) ==> s.len() == env.scopes.len() && s.drop_last() == env.scopes.drop_last(),
    decreases p,
{
    match pattern_scopes(env, p, t) {
        Ok(s) => {
            match p {
                Pattern::EnumVariant { variant_name, nested_pattern, .. } => {
                    if let (Some(np), TypeView::Named(n, _)) = (nested_pattern, t) {
                        if let Some(TypeInfoView::Enum(vs)) = find_type(env.types, n) {
                            if let Some(Some(ct)) = variant_named(vs, variant_name.name@) {
                                lemma_pattern_scopes(env, *np, ct);
                            }
                        }
                    }
                },
                _ => {},
            }
            if s != env.scopes {
                assert(s.drop_last() =~= env.scopes.drop_last());
            }
        },
        Err(_) => {},
    }
}

/// Whether one of the cases matches any value.
pub open spec fn has_wildcard(cs: Seq<MatchCase>) -> bool {
    exists|i: int| 0 <= i < cs.len() && (#[trigger] cs[i]).pattern is Wildcard
}

/// Whether a pattern names the variant `name`.
pub open spec fn names_variant(p: Pattern, name: Seq<char>) -> bool {
    match p {
        Pattern::EnumVariant { variant_name, .. } => variant_name.name@ == name,
        _ => false,
    }
}

/// Whether one of the cases names the variant `name`.
pub open spec fn covers(cs: Seq<MatchCase>, name: Seq<char>) -> bool {
    exists|i: int| 0 <= i < cs.len() && names_variant((#[trigger] cs[i]).pattern, name)
}

/// The exhaustiveness check of a `match` on a value of type `vt`: unless a
/// case matches any value, every variant of the enumeration is named by a case.
pub open spec fn exhaustive(env: Env, cs: Seq<MatchCase>, vt: TypeView) -> Result<(), Fault> {
    match vt {
        TypeView::Named(n, _) => match find_type(env.types, n) {
            None => Err((ErrorKind::UndefinedSymbol, n)),
            Some(TypeInfoView::Enum(vs)) => if has_wildcard(cs) || (forall|j: int|
                0 <= j < vs.len() ==> covers(cs, (#[trigger] vs[j]).0)) {
                Ok(())
            } else {
                Err((ErrorKind::InvalidOperation, Seq::empty()))
            },
            Some(_) => Ok(()),
        },
        _ => Ok(()),
    }
}

/// The variants among the first `k` of `vs` that no case names, joined with
/// `", "` in their order, and whether there is any.
pub open spec fn missing_variants(cs: Seq<MatchCase>, vs: Seq<(Seq<char>, Option<TypeView>)>, k: int) -> (bool, Seq<char>)
    decreases k,
{
    if k <= 0 {
        (false, Seq::empty())
    } else {
        let (any, text) = missing_variants(cs, vs, k - 1);
        if covers(cs, vs[k - 1].0) {
            (any, text)
        } else if any {
            (true, text + ", "@ + vs[k - 1].0)
        } else {
            (true, text + vs[k - 1].0)
        }
    }
}

/// The reason given when a `match` on a value of type `vt` is not
/// exhaustive: the variants that no case names.
pub open spec fn exhaustiveness_reason(env: Env, cs: Seq<MatchCase>, vt: TypeView) -> Seq<char> {
    match vt {
        TypeView::Named(n, _) => match find_type(env.types, n) {
            Some(TypeInfoView::Enum(vs)) => "non-exhaustive patterns: missing variants "@ + missing_variants(
                cs,
                vs,
                vs.len() as int,
            ).1,
            _ => Seq::empty(),
        },
        _ => Seq::empty(),
    }
}

/// Whether `found` passes the check against `want`: equal to it when `exact`,
/// else compatible with it.
pub open spec fn passes(want: TypeView, found: TypeView, exact: bool) -> bool {
    if exact { found == want } else { compatible(want, found) }
}

/// Types each expression in order, each checked against `want`; the first
/// error wins.
pub open spec fn check_exprs(env: Env, s: Seq<Box<Expression>>, want: TypeView, exact: bool) -> Result<(), Fault>
    decreases s,
{
    if s.len() == 0 {
        Ok(())
    } else {
        match expr_type(env, *s[0]) {
            Err(f) => Err(f),
            Ok(t) => if !passes(want, t, exact) {
                Err(mismatch())
            } else {
                check_exprs(env, s.subrange(1, s.len() as int), want, exact)
            },
        }
    }
}

/// Types the extra arguments of a call against the remaining parameter
/// types, in order; the first error wins.
pub open spec fn check_call_args(env: Env, s: Seq<Box<Expression>>, params: Seq<TypeView>) -> Result<(), Fault>
    decreases s,
{
    if s.len() == 0 {
        Ok(())
    } else {
        match expr_type(env, *s[0]) {
            Err(f) => Err(f),
            Ok(t) => if !compatible(params[0], t) {
                Err(mismatch())
            } else {
                check_call_args(env, s.subrange(1, s.len() as int), params.subrange(1, params.len() as int))
            },
        }
    }
}

/// Types the values given in a struct construction, in order.
pub open spec fn check_field_values(env: Env, fvs: Seq<FieldValue>, fields: Seq<(Seq<char>, TypeView)>) -> Result<(), Fault>
    decreases fvs,
{
    if fvs.len() == 0 {
        Ok(())
    } else {
        match field_type(fields, fvs[0].field_name.name@) {
            None => Err((ErrorKind::UnknownField, fvs[0].field_name.name@)),
            Some(ft) => match expr_type(env, *fvs[0].value) {
                Err(f) => Err(f),
                Ok(t) => if !compatible(ft, t) {
                    Err(mismatch())
                } else {
                    check_field_values(env, fvs.subrange(1, fvs.len() as int), fields)
                },
            },
        }
    }
}

/// Types the entries of a map literal, key then value, in order.
pub open spec fn check_entries(env: Env, es: Seq<MapEntry>, k: TypeView, v: TypeView) -> Result<(), Fault>
    decreases es,
{
    if es.len() == 0 {
        Ok(())
    } else {
        match expr_type(env, *es[0].key) {
            Err(f) => Err(f),
            Ok(kt) => match expr_type(env, *es[0].value) {
                Err(f) => Err(f),
                Ok(vt) => if !compatible(k, kt) || !compatible(v, vt) {
                    Err(mismatch())
                } else {
                    check_entries(env, es.subrange(1, es.len() as int), k, v)
                },
            },
        }
    }
}

/// Types the values of a call's named arguments against the parameter
/// types, in order; the first error wins.
pub open spec fn check_named_args(env: Env, s: Seq<Argument>, params: Seq<TypeView>) -> Result<(), Fault>
    decreases s,
{
    if s.len() == 0 {
        Ok(())
    } else {
        match expr_type(env, *s[0].value) {
            Err(f) => Err(f),
            Ok(t) => if !compatible(params[0], t) {
                Err(mismatch())
            } else {
                check_named_args(env, s.subrange(1, s.len() as int), params.subrange(1, params.len() as int))
            },
        }
    }
}

/// The type of a call. `printf` gives an integer without looking at its
/// arguments; a call through another module or an external reference is not
/// typed.
pub open spec fn call_type(env: Env, call: FunctionCall) -> Result<TypeView, Fault>
    decreases call,
{
    match call.function_reference {
        FunctionReference::Local { name } => if name.name@ == "printf"@ {
            Ok(TypeView::Primitive(PrimitiveType::Integer))
        } else {
            match lookup(env.scopes, name.name@) {
                None => Err((ErrorKind::UndefinedSymbol, name.name@)),
                Some(sym) => match sym.ty {
                    TypeView::Function(params, ret) =>
                        if call.arguments@.len() + call.variadic_arguments@.len() != params.len() {
                            Err((ErrorKind::ArgumentCountMismatch, name.name@))
                        } else {
                            let n = call.arguments@.len() as int;
                            match check_named_args(env, call.arguments@, params.subrange(0, n)) {
                                Err(f) => Err(f),
                                Ok(_) => match check_call_args(env, call.variadic_arguments@, params.subrange(n, params.len() as int)) {
                                    Err(f) => Err(f),
                                    Ok(_) => Ok(*ret),
                                },
                            }
                        },
                    _ => Err(mismatch()),
                },
            }
        },
        _ => Ok(TypeView::Error),
    }
}

/// Arithmetic on numeric operands gives a floating point result when either
/// operand is floating point, else an integer; all four operations alike.
pub proof fn law_arithmetic_promotion(env: Env, left: Expression, right: Expression, loc: SourceLocation)
    requires
        expr_type(env, left) is Ok,
        expr_type(env, right) is Ok,
        is_numeric(expr_type(env, left)->Ok_0),
        is_numeric(expr_type(env, right)->Ok_0),
    ensures
        ({
            let a = expr_type(env, left)->Ok_0;
            let b = expr_type(env, right)->Ok_0;
            let want = if is_float(a) || is_float(b) {
                TypeView::Primitive(PrimitiveType::Float)
            } else {
                TypeView::Primitive(PrimitiveType::Integer)
            };
            &&& expr_type(env, Expression::Add { left: Box::new(left), right: Box::new(right), source_location: loc }) == Ok::<TypeView, Fault>(want)
            &&& expr_type(env, Expression::Subtract { left: Box::new(left), right: Box::new(right), source_location: loc }) == Ok::<TypeView, Fault>(want)
            &&& expr_type(env, Expression::Multiply { left: Box::new(left), right: Box::new(right), source_location: loc }) == Ok::<TypeView, Fault>(want)
            &&& expr_type(env, Expression::Divide { left: Box::new(left), right: Box::new(right), source_location: loc }) == Ok::<TypeView, Fault>(want)
        }),
{
    reveal(expr_type);
}

/// Casts to `String`: a value of a numeric type or of type `Boolean` may be
/// cast to `String`, and the cast has type `String`.
pub proof fn law_casts_to_string(
    env: Env,
    value: Expression,
    from: PrimitiveType,
    target_location: SourceLocation,
    failure_behavior: FailureBehavior,
    loc: SourceLocation,
)
    requires
        expr_type(env, value) == Ok::<TypeView, Fault>(TypeView::Primitive(from)),
        from == PrimitiveType::Boolean || from == PrimitiveType::Integer || from == PrimitiveType::Integer32
            || from == PrimitiveType::Integer64 || from == PrimitiveType::Float || from == PrimitiveType::Float32
            || from == PrimitiveType::Float64 || from == PrimitiveType::SizeT || from == PrimitiveType::UIntPtrT,
    ensures
        expr_type(
            env,
            Expression::TypeCast {
                value: Box::new(value),
                target_type: Box::new(TypeSpecifier::Primitive { prim: PrimitiveType::String, source_location: target_location }),
                failure_behavior,
                source_location: loc,
            },
        ) == Ok::<TypeView, Fault>(TypeView::Primitive(PrimitiveType::String)),
{
    reveal(expr_type);
}

/// Which casts between primitive types are allowed: from a number or a
/// boolean to `String`, from `String` to a number, and between numbers. An
/// allowed cast has the target type; any other is an invalid operation.
pub proof fn law_cast_table(
    env: Env,
    value: Expression,
    from: PrimitiveType,
    to: PrimitiveType,
    target_location: SourceLocation,
    failure_behavior: FailureBehavior,
    loc: SourceLocation,
)
    requires
        expr_type(env, value) == Ok::<TypeView, Fault>(TypeView::Primitive(from)),
    ensures
        ({
            let from_number = from == PrimitiveType::Integer || from == PrimitiveType::Integer32 || from == PrimitiveType::Integer64 || from == PrimitiveType::Float || from == PrimitiveType::Float32 || from == PrimitiveType::Float64 || from == PrimitiveType::SizeT || from == PrimitiveType::UIntPtrT;
            let to_number = to == PrimitiveType::Integer || to == PrimitiveType::Integer32 || to == PrimitiveType::Integer64 || to == PrimitiveType::Float || to == PrimitiveType::Float32 || to == PrimitiveType::Float64 || to == PrimitiveType::SizeT || to == PrimitiveType::UIntPtrT;
            let allowed = (to == PrimitiveType::String && (from_number || from == PrimitiveType::Boolean))
                || (from == PrimitiveType::String && to_number) || (from_number && to_number);
            let r = expr_type(
                env,
                Expression::TypeCast {
                    value: Box::new(value),
                    target_type: Box::new(TypeSpecifier::Primitive { prim: to, source_location: target_location }),
                    failure_behavior,
                    source_location: loc,
                },
            );
            &&& allowed ==> r == Ok::<TypeView, Fault>(TypeView::Primitive(to))
            &&& !allowed ==> r == Err::<TypeView, Fault>((ErrorKind::InvalidOperation, Seq::empty()))
        }),
{
    reveal(expr_type);
}

/// Operands of equal type compare to a boolean, for equality and inequality.
pub proof fn law_equality_is_boolean(env: Env, left: Expression, right: Expression, loc: SourceLocation)
    requires
        expr_type(env, left) is Ok,
        expr_type(env, left) == expr_type(env, right),
    ensures
        expr_type(env, Expression::Equals { left: Box::new(left), right: Box::new(right), source_location: loc })
            == Ok::<TypeView, Fault>(TypeView::Primitive(PrimitiveType::Boolean)),
        expr_type(env, Expression::NotEquals { left: Box::new(left), right: Box::new(right), source_location: loc })
            == Ok::<TypeView, Fault>(TypeView::Primitive(PrimitiveType::Boolean)),
{
    reveal(expr_type);
}

/// Every type is compatible with itself, and the error type with every type
/// either way.
pub proof fn law_compatibility(t: TypeView)
    ensures
        compatible(t, t),
        compatible(TypeView::Error, t),
        compatible(t, TypeView::Error),
{
}

} // verus!
