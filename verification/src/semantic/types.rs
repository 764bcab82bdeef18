//! The types the semantic checks assign to expressions, and how they compare.

use vstd::prelude::*;
use crate::ast::PrimitiveType;
use crate::text::{push_str_chars, str_eq, string_from_chars};

verus! {

/// A resolved type.
#[derive(Debug)]
pub enum Type {
    Primitive(PrimitiveType),
    Named { name: String, module: Option<String> },
    Array { element_type: Box<Type>, size: Option<u64> },
    Mapping { key_type: Box<Type>, value_type: Box<Type> },
    Pointer { target_type: Box<Type>, is_mutable: bool },
    Function { parameter_types: Vec<Type>, return_type: Box<Type> },
    /// The type of an expression whose type could not be determined.
    Error,
}

/// A type as a mathematical value: names are character sequences and
/// parameter lists are sequences.
pub enum TypeView {
    Primitive(PrimitiveType),
    Named(Seq<char>, Option<Seq<char>>),
    Array(Box<TypeView>, Option<u64>),
    Mapping(Box<TypeView>, Box<TypeView>),
    Pointer(Box<TypeView>, bool),
    Function(Seq<TypeView>, Box<TypeView>),
    Error,
}

/// The characters of an optional name.
pub open spec fn name_view(m: Option<String>) -> Option<Seq<char>> {
    match m {
        Some(s) => Some(s@),
        None => None,
    }
}

/// The view of a type.
pub open spec fn type_view(t: Type) -> TypeView
    decreases t,
{
    match t {
        Type::Primitive(p) => TypeView::Primitive(p),
        Type::Named { name, module } => TypeView::Named(name@, name_view(module)),
        Type::Array { element_type, size } => TypeView::Array(Box::new(type_view(*element_type)), size),
        Type::Mapping { key_type, value_type } =>
            TypeView::Mapping(Box::new(type_view(*key_type)), Box::new(type_view(*value_type))),
        Type::Pointer { target_type, is_mutable } => TypeView::Pointer(Box::new(type_view(*target_type)), is_mutable),
        Type::Function { parameter_types, return_type } =>
            TypeView::Function(type_views(parameter_types@), Box::new(type_view(*return_type))),
        Type::Error => TypeView::Error,
    }
}

/// The views of a list of types.
pub open spec fn type_views(s: Seq<Type>) -> Seq<TypeView>
    decreases s,
{
    if s.len() == 0 {
        Seq::empty()
    } else {
        seq![type_view(s[0])] + type_views(s.subrange(1, s.len() as int))
    }
}

/// The types of a list other than `t`, in their order.
pub open spec fn without(s: Seq<TypeView>, t: TypeView) -> Seq<TypeView> {
    s.filter(|x: TypeView| x != t)
}

impl View for Type {
    type V = TypeView;

    open spec fn view(&self) -> TypeView {
        type_view(*self)
    }
}

pub proof fn lemma_type_views(s: Seq<Type>)
    ensures
        type_views(s).len() == s.len(),
        forall|i: int| 0 <= i < s.len() ==> #[trigger] type_views(s)[i] == type_view(s[i]),
    decreases s.len(),
{
    if s.len() > 0 {
        let rest = s.subrange(1, s.len() as int);
        lemma_type_views(rest);
        assert forall|i: int| 0 <= i < s.len() implies #[trigger] type_views(s)[i] == type_view(s[i]) by {
            if i > 0 {
                assert(type_views(s)[i] == type_views(rest)[i - 1]);
                assert(rest[i - 1] == s[i]);
            }
        }
    }
}

/// Whether a primitive type is numeric.
pub open spec fn numeric_primitive(p: PrimitiveType) -> bool {
    match p {
        PrimitiveType::Integer | PrimitiveType::Integer32 | PrimitiveType::Integer64 | PrimitiveType::Float
        | PrimitiveType::Float32 | PrimitiveType::Float64 | PrimitiveType::SizeT | PrimitiveType::UIntPtrT => true,
        _ => false,
    }
}

/// Whether a primitive type is a floating point type.
pub open spec fn float_primitive(p: PrimitiveType) -> bool {
    match p {
        PrimitiveType::Float | PrimitiveType::Float32 | PrimitiveType::Float64 => true,
        _ => false,
    }
}

/// Whether a type is numeric.
pub open spec fn is_numeric(t: TypeView) -> bool {
    t matches TypeView::Primitive(p) && numeric_primitive(p)
}

/// Whether a type is a floating point type.
pub open spec fn is_float(t: TypeView) -> bool {
    t matches TypeView::Primitive(p) && float_primitive(p)
}

/// Whether a value of type `found` may stand where `expected` is wanted:
/// the types are equal, or either of them is the error type.
pub open spec fn compatible(expected: TypeView, found: TypeView) -> bool {
    expected == found || expected is Error || found is Error
}

/// Whether two optional names hold the same characters.
fn same_name_opt(a: &Option<String>, b: &Option<String>) -> (r: bool)
    ensures
        r == (name_view(*a) == name_view(*b)),
{
    match (a, b) {
        (None, None) => true,
        (Some(x), Some(y)) => str_eq(x.as_str(), y.as_str()),
        _ => false,
    }
}

/// A copy of an optional name.
pub fn copy_name_opt(m: &Option<String>) -> (r: Option<String>)
    ensures
        r == *m,
{
    match m {
        Some(s) => Some(s.clone()),
        None => None,
    }
}

impl Type {
    /// Structural equality of two types.
    #[verifier::loop_isolation(false)]
    pub fn equals(&self, other: &Type) -> (r: bool)
        ensures
            r == (self@ == other@),
        decreases self,
    {
        match (self, other) {
            (Type::Primitive(p), Type::Primitive(q)) => *p == *q,
            (Type::Named { name: n1, module: m1 }, Type::Named { name: n2, module: m2 }) =>
                str_eq(n1.as_str(), n2.as_str()) && same_name_opt(m1, m2),
            (Type::Array { element_type: e1, size: s1 }, Type::Array { element_type: e2, size: s2 }) => {
                let same_size = match (s1, s2) {
                    (None, None) => true,
                    (Some(x), Some(y)) => *x == *y,
                    _ => false,
                };
                same_size && e1.equals(e2)
            },
            (Type::Mapping { key_type: k1, value_type: v1 }, Type::Mapping { key_type: k2, value_type: v2 }) =>
                k1.equals(k2) && v1.equals(v2),
            (Type::Pointer { target_type: t1, is_mutable: b1 }, Type::Pointer { target_type: t2, is_mutable: b2 }) =>
                *b1 == *b2 && t1.equals(t2),
            (Type::Function { parameter_types: p1, return_type: r1 }, Type::Function { parameter_types: p2, return_type: r2 }) => {
                proof {
                    lemma_type_views(p1@);
                    lemma_type_views(p2@);
                }
                if !r1.equals(r2) {
                    return false;
                }
                if p1.len() != p2.len() {
                    assert(type_views(p1@).len() != type_views(p2@).len());
                    return false;
                }
                let n = p1.len();
                let mut i: usize = 0;
                while i < n
                    invariant
                        n == p1@.len(),
                        n == p2@.len(),
                        i <= n,
                        forall|j: int| 0 <= j < i ==> type_view(#[trigger] p1@[j]) == type_view(p2@[j]),
                    decreases n - i,
                {
                    proof {
                        assert(decreases_to!(*p1 => p1[i as int]));
                    }
                    if !p1[i].equals(&p2[i]) {
                        assert(type_views(p1@)[i as int] != type_views(p2@)[i as int]);
                        return false;
                    }
                    i = i + 1;
                }
                assert(type_views(p1@) =~= type_views(p2@));
                true
            },
            (Type::Error, Type::Error) => true,
            _ => false,
        }
    }

    /// A copy of this type.
    #[verifier::loop_isolation(false)]
    pub fn duplicate(&self) -> (r: Type)
        ensures
            r@ == self@,
        decreases self,
    {
        match self {
            Type::Primitive(p) => Type::Primitive(*p),
            Type::Named { name, module } => Type::Named { name: name.clone(), module: copy_name_opt(module) },
            Type::Array { element_type, size } =>
                Type::Array { element_type: Box::new(element_type.duplicate()), size: *size },
            Type::Mapping { key_type, value_type } =>
                Type::Mapping { key_type: Box::new(key_type.duplicate()), value_type: Box::new(value_type.duplicate()) },
            Type::Pointer { target_type, is_mutable } =>
                Type::Pointer { target_type: Box::new(target_type.duplicate()), is_mutable: *is_mutable },
            Type::Function { parameter_types, return_type } => {
                let n = parameter_types.len();
                let mut params: Vec<Type> = Vec::new();
                let mut i: usize = 0;
                while i < n
                    invariant
                        n == parameter_types@.len(),
                        i <= n,
                        params@.len() == i,
                        forall|j: int| 0 <= j < i ==> type_view(#[trigger] params@[j]) == type_view(parameter_types@[j]),
                    decreases n - i,
                {
                    proof {
                        assert(decreases_to!(*parameter_types => parameter_types[i as int]));
                    }
                    params.push(parameter_types[i].duplicate());
                    i = i + 1;
                }
                proof {
                    lemma_type_views(params@);
                    lemma_type_views(parameter_types@);
                }
                assert(type_views(params@) =~= type_views(parameter_types@));
                Type::Function { parameter_types: params, return_type: Box::new(return_type.duplicate()) }
            },
            Type::Error => Type::Error,
        }
    }

    /// Whether this type is numeric.
    pub fn is_numeric(&self) -> (r: bool)
        ensures
            r == is_numeric(self@),
    {
        match self {
            Type::Primitive(p) => match p {
                PrimitiveType::Integer | PrimitiveType::Integer32 | PrimitiveType::Integer64 | PrimitiveType::Float
                | PrimitiveType::Float32 | PrimitiveType::Float64 | PrimitiveType::SizeT | PrimitiveType::UIntPtrT => true,
                _ => false,
            },
            _ => false,
        }
    }

    /// Whether this type is a floating point type.
    pub fn is_float(&self) -> (r: bool)
        ensures
            r == is_float(self@),
    {
        match self {
            Type::Primitive(p) => match p {
                PrimitiveType::Float | PrimitiveType::Float32 | PrimitiveType::Float64 => true,
                _ => false,
            },
            _ => false,
        }
    }

    /// Whether this is the primitive type `p`.
    pub fn is_primitive(&self, p: PrimitiveType) -> (r: bool)
        ensures
            r == (self@ == TypeView::Primitive(p)),
    {
        match self {
            Type::Primitive(q) => *q == p,
            _ => false,
        }
    }

    /// Whether this is the error type.
    pub fn is_error(&self) -> (r: bool)
        ensures
            r == (self@ is Error),
    {
        match self {
            Type::Error => true,
            _ => false,
        }
    }
}

/// The name of a primitive type as written in messages.
pub open spec fn primitive_text(p: PrimitiveType) -> Seq<char> {
    match p {
        PrimitiveType::Integer => "Integer"@,
        PrimitiveType::Integer32 => "Integer32"@,
        PrimitiveType::Integer64 => "Integer64"@,
        PrimitiveType::Float => "Float"@,
        PrimitiveType::Float32 => "Float32"@,
        PrimitiveType::Float64 => "Float64"@,
        PrimitiveType::String => "String"@,
        PrimitiveType::Char => "Char"@,
        PrimitiveType::Boolean => "Boolean"@,
        PrimitiveType::Void => "Void"@,
        PrimitiveType::SizeT => "SizeT"@,
        PrimitiveType::UIntPtrT => "UIntPtrT"@,
    }
}

/// How a type is written in messages.
pub open spec fn type_text(t: TypeView) -> Seq<char>
    decreases t,
{
    match t {
        TypeView::Primitive(p) => primitive_text(p),
        TypeView::Named(n, _) => n,
        TypeView::Array(e, _) => "Array<"@ + type_text(*e) + ">"@,
        TypeView::Mapping(k, v) => "Map<"@ + type_text(*k) + ", "@ + type_text(*v) + ">"@,
        TypeView::Pointer(target, m) => (if m { "MutablePointer<"@ } else { "Pointer<"@ }) + type_text(*target) + ">"@,
        TypeView::Function(ps, r) => "Function("@ + types_text(ps) + ") -> "@ + type_text(*r),
        TypeView::Error => "Error"@,
    }
}

/// How a list of types is written in messages: separated by commas.
pub open spec fn types_text(ps: Seq<TypeView>) -> Seq<char>
    decreases ps,
{
    if ps.len() == 0 {
        Seq::empty()
    } else if ps.len() == 1 {
        type_text(ps[0])
    } else {
        types_text(ps.drop_last()) + ", "@ + type_text(ps.last())
    }
}

/// The name of a primitive type as written in messages.
pub fn primitive_name(p: PrimitiveType) -> (r: &'static str)
    ensures
        r@ == primitive_text(p),
{
    match p {
        PrimitiveType::Integer => "Integer",
        PrimitiveType::Integer32 => "Integer32",
        PrimitiveType::Integer64 => "Integer64",
        PrimitiveType::Float => "Float",
        PrimitiveType::Float32 => "Float32",
        PrimitiveType::Float64 => "Float64",
        PrimitiveType::String => "String",
        PrimitiveType::Char => "Char",
        PrimitiveType::Boolean => "Boolean",
        PrimitiveType::Void => "Void",
        PrimitiveType::SizeT => "SizeT",
        PrimitiveType::UIntPtrT => "UIntPtrT",
    }
}

impl Type {
    /// Appends how the type is written in messages.
    pub fn write_name(&self, out: &mut Vec<char>)
        ensures
            final(out)@ == old(out)@ + type_text(self@),
        decreases self,
    {
        match self {
            Type::Primitive(p) => push_str_chars(out, primitive_name(*p)),
            Type::Named { name, .. } => push_str_chars(out, name.as_str()),
            Type::Array { element_type, .. } => {
                push_str_chars(out, "Array<");
                element_type.write_name(out);
                push_str_chars(out, ">");
            },
            Type::Mapping { key_type, value_type } => {
                push_str_chars(out, "Map<");
                key_type.write_name(out);
                push_str_chars(out, ", ");
                value_type.write_name(out);
                push_str_chars(out, ">");
            },
            Type::Pointer { target_type, is_mutable } => {
                if *is_mutable {
                    push_str_chars(out, "MutablePointer<");
                } else {
                    push_str_chars(out, "Pointer<");
                }
                target_type.write_name(out);
                push_str_chars(out, ">");
            },
            Type::Function { parameter_types, return_type } => {
                let ghost start = out@;
                let ghost ps = type_views(parameter_types@);
                proof {
                    lemma_type_views(parameter_types@);
                }
                push_str_chars(out, "Function(");
                let n = parameter_types.len();
                let mut i: usize = 0;
                assert(ps.subrange(0, 0).len() == 0);
                while i < n
                    invariant
                        n == parameter_types@.len(),
                        i <= n,
                        ps == type_views(parameter_types@),
                        ps.len() == n,
                        forall|j: int| 0 <= j < n ==> #[trigger] ps[j] == type_view(parameter_types@[j]),
                        out@ == start + "Function("@ + types_text(ps.subrange(0, i as int)),
                        decreases_to!(*self => *parameter_types),
                    decreases n - i,
                {
                    let ghost pre = ps.subrange(0, i + 1);
                    assert(pre.drop_last() =~= ps.subrange(0, i as int));
                    assert(pre.last() == ps[i as int]);
                    if i > 0 {
                        push_str_chars(out, ", ");
                    }
                    proof {
                        assert(decreases_to!(*parameter_types => parameter_types[i as int]));
                    }
                    parameter_types[i].write_name(out);
                    proof {
                        if i == 0 {
                            assert(pre =~= seq![ps[0]]);
                        }
                        assert(out@ =~= start + "Function("@ + types_text(pre));
                    }
                    i = i + 1;
                }
                assert(ps.subrange(0, n as int) =~= ps);
                push_str_chars(out, ") -> ");
                return_type.write_name(out);
                assert(out@ =~= start + type_text(self@));
            },
            Type::Error => push_str_chars(out, "Error"),
        }
    }

    /// How the type is written in messages.
    pub fn display_name(&self) -> (r: String)
        ensures
            r@ == type_text(self@),
    {
        let mut out: Vec<char> = Vec::new();
        self.write_name(&mut out);
        string_from_chars(out.as_slice())
    }
}

/// Copies of a list of types.
pub fn duplicate_all(v: &Vec<Type>) -> (r: Vec<Type>)
    ensures
        type_views(r@) == type_views(v@),
{
    let n = v.len();
    let mut out: Vec<Type> = Vec::new();
    let mut i: usize = 0;
    while i < n
        invariant
            n == v@.len(),
            i <= n,
            out@.len() == i,
            forall|j: int| 0 <= j < i ==> type_view(#[trigger] out@[j]) == type_view(v@[j]),
        decreases n - i,
    {
        out.push(v[i].duplicate());
        i = i + 1;
    }
    proof {
        lemma_type_views(out@);
        lemma_type_views(v@);
    }
    assert(type_views(out@) =~= type_views(v@));
    out
}

/// Whether a value of type `found` may stand where `expected` is wanted.
pub fn types_compatible(expected: &Type, found: &Type) -> (r: bool)
    ensures
        r == compatible(expected@, found@),
{
    expected.is_error() || found.is_error() || expected.equals(found)
}

} // verus!
