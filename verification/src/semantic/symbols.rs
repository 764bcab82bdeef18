//! Scoped symbols and the user-defined types known to the analysis.

use vstd::prelude::*;
use crate::ast::SourceLocation;
use crate::error::{ErrorKind, SemanticError};
use crate::semantic::types::{Type, TypeView};
use crate::text::str_eq;

verus! {

/// What an error is about: its kind and the name it concerns.
pub type Fault = (ErrorKind, Seq<char>);

/// What a symbol names.
#[derive(Debug, Clone, Copy, PartialEq, Eq, Structural)]
pub enum SymbolKind {
    Variable,
    Constant,
    Function,
    Parameter,
    Type,
}

/// A declared name.
#[derive(Debug)]
pub struct Symbol {
    pub name: String,
    pub symbol_type: Type,
    pub kind: SymbolKind,
    pub is_mutable: bool,
    pub is_initialized: bool,
    pub declaration_location: SourceLocation,
    pub is_moved: bool,
}

/// A variant of an enumeration type.
#[derive(Debug)]
pub struct VariantInfo {
    pub name: String,
    pub associated_type: Option<Type>,
}

/// The definition of a user-defined type.
#[derive(Debug)]
pub enum TypeInfo {
    Struct { fields: Vec<(String, Type)> },
    Enum { variants: Vec<VariantInfo> },
    Alias { target_type: Type },
}

/// A user-defined type and its name.
#[derive(Debug)]
pub struct TypeEntry {
    pub name: String,
    pub definition: TypeInfo,
}

/// A symbol as a mathematical value.
pub struct SymbolView {
    pub name: Seq<char>,
    pub ty: TypeView,
    pub kind: SymbolKind,
    pub is_mutable: bool,
    pub is_initialized: bool,
    pub is_moved: bool,
}

impl View for Symbol {
    type V = SymbolView;

    open spec fn view(&self) -> SymbolView {
        SymbolView {
            name: self.name@,
            ty: self.symbol_type@,
            kind: self.kind,
            is_mutable: self.is_mutable,
            is_initialized: self.is_initialized,
            is_moved: self.is_moved,
        }
    }
}

/// A type definition as a mathematical value: the fields of a struct with
/// their types, the variants of an enumeration with the types of the values
/// they carry, or the target of an alias.
pub enum TypeInfoView {
    Struct(Seq<(Seq<char>, TypeView)>),
    Enum(Seq<(Seq<char>, Option<TypeView>)>),
    Alias(TypeView),
}

/// The view of an optional type.
pub open spec fn opt_type_view(t: Option<Type>) -> Option<TypeView> {
    match t {
        Some(x) => Some(x@),
        None => None,
    }
}

/// The view of a struct's fields.
pub open spec fn fields_view(fields: Seq<(String, Type)>) -> Seq<(Seq<char>, TypeView)> {
    fields.map_values(|f: (String, Type)| (f.0@, f.1@))
}

/// The view of an enumeration's variants.
pub open spec fn variants_view(vs: Seq<VariantInfo>) -> Seq<(Seq<char>, Option<TypeView>)> {
    vs.map_values(|v: VariantInfo| (v.name@, opt_type_view(v.associated_type)))
}

/// The view of a type definition.
pub open spec fn info_view(d: TypeInfo) -> TypeInfoView {
    match d {
        TypeInfo::Struct { fields } => TypeInfoView::Struct(fields_view(fields@)),
        TypeInfo::Enum { variants } => TypeInfoView::Enum(variants_view(variants@)),
        TypeInfo::Alias { target_type } => TypeInfoView::Alias(target_type@),
    }
}

/// A user-defined type and its name, as a mathematical value.
pub struct TypeEntryView {
    pub name: Seq<char>,
    pub def: TypeInfoView,
}

impl View for TypeEntry {
    type V = TypeEntryView;

    open spec fn view(&self) -> TypeEntryView {
        TypeEntryView { name: self.name@, def: info_view(self.definition) }
    }
}

/// Index of the last symbol named `name` in a scope, or -1.
pub open spec fn position_in(s: Seq<SymbolView>, name: Seq<char>) -> int
    decreases s.len(),
{
    if s.len() == 0 {
        -1
    } else if s.last().name == name {
        s.len() - 1
    } else {
        position_in(s.drop_last(), name)
    }
}

/// The scope (innermost first) and index of the visible symbol named `name`,
/// or `(-1, -1)`.
pub open spec fn visible_position(scopes: Seq<Seq<SymbolView>>, name: Seq<char>) -> (int, int)
    decreases scopes.len(),
{
    if scopes.len() == 0 {
        (-1, -1)
    } else if position_in(scopes.last(), name) >= 0 {
        (scopes.len() - 1, position_in(scopes.last(), name))
    } else {
        visible_position(scopes.drop_last(), name)
    }
}

/// The visible symbol named `name`: the one in the innermost scope that
/// declares the name.
pub open spec fn lookup(scopes: Seq<Seq<SymbolView>>, name: Seq<char>) -> Option<SymbolView> {
    let (i, j) = visible_position(scopes, name);
    if i >= 0 {
        Some(scopes[i][j])
    } else {
        None
    }
}

/// The definition of the user type named `name`, the first one registered.
pub open spec fn find_type(types: Seq<TypeEntryView>, name: Seq<char>) -> Option<TypeInfoView>
    decreases types.len(),
{
    if types.len() == 0 {
        None
    } else if types[0].name == name {
        Some(types[0].def)
    } else {
        find_type(types.subrange(1, types.len() as int), name)
    }
}

/// The first enumeration, in definition order, with a variant named `name`:
/// its name, and the type of the value that variant carries.
pub open spec fn enum_with_variant(types: Seq<TypeEntryView>, name: Seq<char>) -> Option<(Seq<char>, Option<TypeView>)>
    decreases types.len(),
{
    if types.len() == 0 {
        None
    } else {
        match types[0].def {
            TypeInfoView::Enum(variants) => match variant_named(variants, name) {
                Some(v) => Some((types[0].name, v)),
                None => enum_with_variant(types.subrange(1, types.len() as int), name),
            },
            _ => enum_with_variant(types.subrange(1, types.len() as int), name),
        }
    }
}

/// The type of the value carried by the first variant named `name`.
pub open spec fn variant_named(vs: Seq<(Seq<char>, Option<TypeView>)>, name: Seq<char>) -> Option<Option<TypeView>>
    decreases vs.len(),
{
    if vs.len() == 0 {
        None
    } else if vs[0].0 == name {
        Some(vs[0].1)
    } else {
        variant_named(vs.subrange(1, vs.len() as int), name)
    }
}

/// Adds a symbol to the innermost scope; a name may be declared once per scope.
pub open spec fn add_symbol_spec(scopes: Seq<Seq<SymbolView>>, sym: SymbolView) -> Result<Seq<Seq<SymbolView>>, Fault> {
    if scopes.len() == 0 {
        Err((ErrorKind::Internal, "no active scope"@))
    } else if position_in(scopes.last(), sym.name) >= 0 {
        Err((ErrorKind::DuplicateDefinition, sym.name))
    } else {
        Ok(scopes.update(scopes.len() - 1, scopes.last().push(sym)))
    }
}

/// Leaves the innermost scope; the outermost one stays.
pub open spec fn exit_scope_spec(scopes: Seq<Seq<SymbolView>>) -> Result<Seq<Seq<SymbolView>>, Fault> {
    if scopes.len() <= 1 {
        Err((ErrorKind::Internal, "cannot leave the global scope"@))
    } else {
        Ok(scopes.drop_last())
    }
}

/// Marks the visible symbol named `name` as holding a value.
pub open spec fn mark_initialized_spec(scopes: Seq<Seq<SymbolView>>, name: Seq<char>) -> Result<Seq<Seq<SymbolView>>, Fault> {
    let (i, j) = visible_position(scopes, name);
    if i < 0 {
        Err((ErrorKind::UndefinedSymbol, name))
    } else {
        Ok(scopes.update(i, scopes[i].update(j, SymbolView { is_initialized: true, ..scopes[i][j] })))
    }
}

pub proof fn lemma_position_in_bounds(s: Seq<SymbolView>, name: Seq<char>)
    ensures
        -1 <= position_in(s, name) < s.len(),
        position_in(s, name) >= 0 ==> s[position_in(s, name)].name == name,
    decreases s.len(),
{
    if s.len() > 0 && s.last().name != name {
        lemma_position_in_bounds(s.drop_last(), name);
    }
}

pub proof fn lemma_visible_position_bounds(scopes: Seq<Seq<SymbolView>>, name: Seq<char>)
    ensures
        visible_position(scopes, name).0 < scopes.len(),
        visible_position(scopes, name).0 < 0 ==> visible_position(scopes, name).1 < 0,
        visible_position(scopes, name).0 >= 0 ==> {
            let (i, j) = visible_position(scopes, name);
            &&& 0 <= j < scopes[i].len()
            &&& scopes[i][j].name == name
        },
    decreases scopes.len(),
{
    if scopes.len() > 0 {
        lemma_position_in_bounds(scopes.last(), name);
        if position_in(scopes.last(), name) < 0 {
            lemma_visible_position_bounds(scopes.drop_last(), name);
        }
    }
}

/// The symbols in scope, innermost scope last, and the user-defined types.
pub struct SymbolTable {
    scopes: Vec<Vec<Symbol>>,
    types: Vec<TypeEntry>,
}

impl Symbol {
    /// A copy of this symbol.
    pub fn duplicate(&self) -> (r: Symbol)
        ensures
            r@ == self@,
    {
        Symbol {
            name: self.name.clone(),
            symbol_type: self.symbol_type.duplicate(),
            kind: self.kind,
            is_mutable: self.is_mutable,
            is_initialized: self.is_initialized,
            declaration_location: self.declaration_location.duplicate(),
            is_moved: self.is_moved,
        }
    }
}

impl TypeInfo {
    /// A copy of this definition.
    pub fn duplicate(&self) -> (r: TypeInfo)
        ensures
            info_view(r) == info_view(*self),
    {
        match self {
            TypeInfo::Struct { fields } => {
                let n = fields.len();
                let mut out: Vec<(String, Type)> = Vec::new();
                let mut i: usize = 0;
                while i < n
                    invariant
                        n == fields@.len(),
                        i <= n,
                        out@.len() == i,
                        forall|j: int| 0 <= j < i ==> (#[trigger] out@[j]).0@ == fields@[j].0@ && out@[j].1@ == fields@[j].1@,
                    decreases n - i,
                {
                    out.push((fields[i].0.clone(), fields[i].1.duplicate()));
                    i = i + 1;
                }
                assert(fields_view(out@) =~= fields_view(fields@));
                TypeInfo::Struct { fields: out }
            },
            TypeInfo::Enum { variants } => {
                let n = variants.len();
                let mut out: Vec<VariantInfo> = Vec::new();
                let mut i: usize = 0;
                while i < n
                    invariant
                        n == variants@.len(),
                        i <= n,
                        out@.len() == i,
                        forall|j: int| 0 <= j < i ==> (#[trigger] out@[j]).name@ == variants@[j].name@
                            && opt_type_view(out@[j].associated_type) == opt_type_view(variants@[j].associated_type),
                    decreases n - i,
                {
                    let carried = match &variants[i].associated_type {
                        Some(t) => Some(t.duplicate()),
                        None => None,
                    };
                    out.push(VariantInfo { name: variants[i].name.clone(), associated_type: carried });
                    i = i + 1;
                }
                assert(variants_view(out@) =~= variants_view(variants@));
                TypeInfo::Enum { variants: out }
            },
            TypeInfo::Alias { target_type } => TypeInfo::Alias { target_type: target_type.duplicate() },
        }
    }
}

/// The variant named `name` among the variants of an enumeration.
pub fn variant_in<'a>(vs: &'a Vec<VariantInfo>, name: &str) -> (r: Option<&'a VariantInfo>)
    ensures
        match r {
            Some(v) => variant_named(variants_view(vs@), name@) == Some(opt_type_view(v.associated_type)),
            None => variant_named(variants_view(vs@), name@) is None,
        },
{
    let n = vs.len();
    let ghost all = variants_view(vs@);
    let mut i: usize = 0;
    assert(all.subrange(0, n as int) =~= all);
    while i < n
        invariant
            n == vs@.len(),
            all == variants_view(vs@),
            all.len() == n,
            i <= n,
            variant_named(all, name@) == variant_named(all.subrange(i as int, n as int), name@),
        decreases n - i,
    {
        let ghost rest = all.subrange(i as int, n as int);
        assert(rest.subrange(1, rest.len() as int) =~= all.subrange(i + 1, n as int));
        assert(rest[0] == (vs@[i as int].name@, opt_type_view(vs@[i as int].associated_type)));
        if str_eq(vs[i].name.as_str(), name) {
            return Some(&vs[i]);
        }
        i = i + 1;
    }
    None
}

impl SymbolTable {
    /// The scopes, outermost first.
    pub closed spec fn scopes(&self) -> Seq<Seq<SymbolView>> {
        self.scopes@.map_values(|s: Vec<Symbol>| s@.map_values(|x: Symbol| x@))
    }

    /// The user-defined types, in the order they were registered.
    pub closed spec fn types(&self) -> Seq<TypeEntryView> {
        self.types@.map_values(|e: TypeEntry| e@)
    }

    /// A table with one, global, scope and no types.
    pub fn new() -> (r: SymbolTable)
        ensures
            r.scopes() == seq![Seq::<SymbolView>::empty()],
            r.types() == Seq::<TypeEntryView>::empty(),
    {
        let mut scopes: Vec<Vec<Symbol>> = Vec::new();
        scopes.push(Vec::new());
        let r = SymbolTable { scopes, types: Vec::new() };
        assert(r.scopes()[0] =~= Seq::<SymbolView>::empty());
        assert(r.scopes() =~= seq![Seq::<SymbolView>::empty()]);
        assert(r.types() =~= Seq::<TypeEntryView>::empty());
        r
    }

    /// A copy of this table.
    pub fn duplicate(&self) -> (r: SymbolTable)
        ensures
            r.scopes() == self.scopes(),
            r.types() == self.types(),
    {
        let n = self.scopes.len();
        let mut scopes: Vec<Vec<Symbol>> = Vec::new();
        let mut i: usize = 0;
        while i < n
            invariant
                n == self.scopes@.len(),
                i <= n,
                scopes@.len() == i,
                forall|j: int| 0 <= j < i ==> (#[trigger] scopes@[j])@.map_values(|x: Symbol| x@)
                    == self.scopes@[j]@.map_values(|x: Symbol| x@),
            decreases n - i,
        {
            let scope = &self.scopes[i];
            let m = scope.len();
            let mut copy: Vec<Symbol> = Vec::new();
            let mut k: usize = 0;
            while k < m
                invariant
                    m == scope@.len(),
                    k <= m,
                    copy@.len() == k,
                    forall|j: int| 0 <= j < k ==> (#[trigger] copy@[j])@ == scope@[j]@,
                decreases m - k,
            {
                copy.push(scope[k].duplicate());
                k = k + 1;
            }
            assert(copy@.map_values(|x: Symbol| x@) =~= scope@.map_values(|x: Symbol| x@));
            scopes.push(copy);
            i = i + 1;
        }
        let t = self.types.len();
        let mut types: Vec<TypeEntry> = Vec::new();
        let mut i: usize = 0;
        while i < t
            invariant
                t == self.types@.len(),
                i <= t,
                types@.len() == i,
                forall|j: int| 0 <= j < i ==> (#[trigger] types@[j])@ == self.types@[j]@,
            decreases t - i,
        {
            types.push(TypeEntry { name: self.types[i].name.clone(), definition: self.types[i].definition.duplicate() });
            i = i + 1;
        }
        let r = SymbolTable { scopes, types };
        assert(r.scopes() =~= self.scopes());
        assert(r.types() =~= self.types());
        r
    }

    /// Opens a new innermost scope.
    pub fn enter_scope(&mut self)
        ensures
            final(self).scopes() == old(self).scopes().push(Seq::empty()),
            final(self).types() == old(self).types(),
    {
        self.scopes.push(Vec::new());
        assert(self.scopes().last() =~= Seq::<SymbolView>::empty());
        assert(self.scopes() =~= old(self).scopes().push(Seq::empty()));
    }

    /// Closes the innermost scope.
    pub fn exit_scope(&mut self) -> (r: Result<(), SemanticError>)
        ensures
            match exit_scope_spec(old(self).scopes()) {
                Ok(s) => r is Ok && final(self).scopes() == s,
                Err(f) => r matches Err(e) && crate::error::fault_of(e) == f && final(self).scopes() == old(self).scopes(),
            },
            final(self).types() == old(self).types(),
    {
        if self.scopes.len() <= 1 {
            return Err(SemanticError::Internal { message: "cannot leave the global scope".to_owned() });
        }
        self.scopes.pop();
        assert(self.scopes() =~= old(self).scopes().drop_last());
        Ok(())
    }

    /// Index of the last symbol named `name` in scope `i`, if any.
    fn position_in_scope(&self, i: usize, name: &str) -> (r: Option<usize>)
        requires
            i < self.scopes().len(),
        ensures
            match r {
                Some(j) => position_in(self.scopes()[i as int], name@) == j,
                None => position_in(self.scopes()[i as int], name@) == -1,
            },
    {
        let scope = &self.scopes[i];
        let ghost sv = self.scopes()[i as int];
        assert(sv == scope@.map_values(|x: Symbol| x@));
        let mut j: usize = scope.len();
        assert(sv.subrange(0, j as int) =~= sv);
        while j > 0
            invariant
                j <= scope@.len(),
                sv.len() == scope@.len(),
                sv == scope@.map_values(|x: Symbol| x@),
                i < self.scopes().len(),
                sv == self.scopes()[i as int],
                position_in(sv, name@) == position_in(sv.subrange(0, j as int), name@),
            decreases j,
        {
            let ghost pre = sv.subrange(0, j as int);
            assert(pre.drop_last() =~= sv.subrange(0, j - 1));
            if str_eq(scope[j - 1].name.as_str(), name) {
                assert(pre.last() == sv[j - 1]);
                return Some(j - 1);
            }
            j = j - 1;
        }
        None
    }

    /// The scope and index of the visible symbol named `name`, if any.
    fn find_visible(&self, name: &str) -> (r: Option<(usize, usize)>)
        ensures
            match r {
                Some((i, j)) => visible_position(self.scopes(), name@) == (i as int, j as int),
                None => visible_position(self.scopes(), name@).0 < 0,
            },
    {
        let mut i: usize = self.scopes.len();
        assert(self.scopes().subrange(0, i as int) =~= self.scopes());
        while i > 0
            invariant
                i <= self.scopes().len(),
                self.scopes().len() == self.scopes@.len(),
                visible_position(self.scopes(), name@) == visible_position(self.scopes().subrange(0, i as int), name@),
            decreases i,
        {
            let ghost pre = self.scopes().subrange(0, i as int);
            assert(pre.drop_last() =~= self.scopes().subrange(0, i - 1));
            assert(pre.last() == self.scopes()[i - 1]);
            match self.position_in_scope(i - 1, name) {
                Some(j) => {
                    return Some((i - 1, j));
                },
                None => {},
            }
            i = i - 1;
        }
        None
    }

    /// The visible symbol named `name`.
    pub fn lookup_symbol(&self, name: &str) -> (r: Option<&Symbol>)
        ensures
            match r {
                Some(s) => lookup(self.scopes(), name@) == Some(s@),
                None => lookup(self.scopes(), name@) is None,
            },
    {
        proof { lemma_visible_position_bounds(self.scopes(), name@); }
        match self.find_visible(name) {
            Some((i, j)) => {
                assert(self.scopes()[i as int] == self.scopes@[i as int]@.map_values(|x: Symbol| x@));
                Some(&self.scopes[i][j])
            },
            None => None,
        }
    }

    /// Adds a symbol to the innermost scope.
    pub fn add_symbol(&mut self, symbol: Symbol) -> (r: Result<(), SemanticError>)
        ensures
            match add_symbol_spec(old(self).scopes(), symbol@) {
                Ok(s) => r is Ok && final(self).scopes() == s,
                Err(f) => r matches Err(e) && crate::error::fault_of(e) == f && final(self).scopes() == old(self).scopes(),
            },
            final(self).types() == old(self).types(),
    {
        let n = self.scopes.len();
        if n == 0 {
            return Err(SemanticError::Internal { message: "no active scope".to_owned() });
        }
        match self.position_in_scope(n - 1, symbol.name.as_str()) {
            Some(j) => {
                proof { lemma_position_in_bounds(self.scopes()[n - 1], symbol.name@); }
                let previous = self.scopes[n - 1][j].declaration_location.duplicate();
                return Err(SemanticError::DuplicateDefinition {
                    symbol: symbol.name,
                    location: symbol.declaration_location,
                    previous_location: previous,
                });
            },
            None => {},
        }
        let ghost sym_view = symbol@;
        let mut last = self.scopes.pop().unwrap();
        let ghost old_last = last@;
        last.push(symbol);
        assert(last@.map_values(|x: Symbol| x@) =~= old_last.map_values(|x: Symbol| x@).push(sym_view));
        self.scopes.push(last);
        assert(self.scopes() =~= old(self).scopes().update(n - 1, old(self).scopes().last().push(sym_view)));
        Ok(())
    }

    /// Marks the visible symbol named `name` as holding a value.
    pub fn mark_variable_initialized(&mut self, name: &str) -> (r: Result<(), SemanticError>)
        ensures
            match mark_initialized_spec(old(self).scopes(), name@) {
                Ok(s) => r is Ok && final(self).scopes() == s,
                Err(f) => r matches Err(e) && crate::error::fault_of(e) == f && final(self).scopes() == old(self).scopes(),
            },
            final(self).types() == old(self).types(),
    {
        proof { lemma_visible_position_bounds(self.scopes(), name@); }
        match self.find_visible(name) {
            Some((i, j)) => {
                let ghost old_scope = old(self).scopes@[i as int]@;
                let ghost old_view = old(self).scopes()[i as int];
                assert(old_view == old_scope.map_values(|x: Symbol| x@));
                let mut scope: Vec<Symbol> = Vec::new();
                std::mem::swap(&mut scope, &mut self.scopes[i]);
                assert(scope@ == old_scope);
                let mut sym = scope.remove(j);
                sym.is_initialized = true;
                let ghost new_view = sym@;
                assert(new_view == (SymbolView { is_initialized: true, ..old_view[j as int] }));
                scope.insert(j, sym);
                assert(scope@.map_values(|x: Symbol| x@) =~= old_view.update(j as int, new_view));
                self.scopes.set(i, scope);
                assert(self.scopes() =~= old(self).scopes().update(i as int, old_view.update(j as int, new_view)));
                Ok(())
            },
            None => Err(SemanticError::UndefinedSymbol { symbol: name.to_owned(), location: SourceLocation::unknown() }),
        }
    }

    /// The definition of the user type named `name`.
    pub fn lookup_type_definition(&self, name: &str) -> (r: Option<&TypeInfo>)
        ensures
            match r {
                Some(d) => find_type(self.types(), name@) == Some(info_view(*d)),
                None => find_type(self.types(), name@) is None,
            },
    {
        let n = self.types.len();
        let ghost tv = self.types();
        let mut i: usize = 0;
        assert(tv.subrange(0, n as int) =~= tv);
        while i < n
            invariant
                n == self.types@.len(),
                tv == self.types(),
                tv.len() == n,
                i <= n,
                find_type(tv, name@) == find_type(tv.subrange(i as int, n as int), name@),
            decreases n - i,
        {
            let ghost rest = tv.subrange(i as int, n as int);
            assert(rest.subrange(1, rest.len() as int) =~= tv.subrange(i + 1, n as int));
            assert(rest[0] == self.types@[i as int]@);
            if str_eq(self.types[i].name.as_str(), name) {
                return Some(&self.types[i].definition);
            }
            i = i + 1;
        }
        None
    }

    /// Registers a user-defined type; a name may be defined once.
    pub fn add_type_definition(&mut self, name: String, definition: TypeInfo, location: &SourceLocation) -> (r: Result<(), SemanticError>)
        ensures
            find_type(old(self).types(), name@) is Some ==> (r matches Err(e) && crate::error::fault_of(e) == (ErrorKind::DuplicateDefinition, name@)
                && final(self).types() == old(self).types()),
            find_type(old(self).types(), name@) is None ==> (r is Ok
                && final(self).types() == old(self).types().push(TypeEntryView { name: name@, def: info_view(definition) })),
            final(self).scopes() == old(self).scopes(),
    {
        if self.lookup_type_definition(name.as_str()).is_some() {
            return Err(SemanticError::DuplicateDefinition {
                symbol: name,
                location: location.duplicate(),
                previous_location: location.duplicate(),
            });
        }
        let ghost e = TypeEntryView { name: name@, def: info_view(definition) };
        self.types.push(TypeEntry { name, definition });
        assert(self.types() =~= old(self).types().push(e));
        Ok(())
    }

    /// The first enumeration with a variant named `name`: its name, and the
    /// type of the value that variant carries.
    #[verifier::loop_isolation(false)]
    pub fn find_enum_with_variant(&self, name: &str) -> (r: Option<(&String, &Option<Type>)>)
        ensures
            match r {
                Some((n, t)) => enum_with_variant(self.types(), name@) == Some((n@, opt_type_view(*t))),
                None => enum_with_variant(self.types(), name@) is None,
            },
    {
        let n = self.types.len();
        let ghost tv = self.types();
        let mut i: usize = 0;
        assert(tv.subrange(0, n as int) =~= tv);
        while i < n
            invariant
                n == self.types@.len(),
                tv == self.types(),
                tv.len() == n,
                i <= n,
                enum_with_variant(tv, name@) == enum_with_variant(tv.subrange(i as int, n as int), name@),
            decreases n - i,
        {
            let ghost rest = tv.subrange(i as int, n as int);
            assert(rest.subrange(1, rest.len() as int) =~= tv.subrange(i + 1, n as int));
            assert(rest[0] == self.types@[i as int]@);
            match &self.types[i].definition {
                TypeInfo::Enum { variants } => {
                    let ghost vv = variants_view(variants@);
                    let m = variants.len();
                    let mut j: usize = 0;
                    assert(vv.subrange(0, m as int) =~= vv);
                    while j < m
                        invariant
                            m == variants@.len(),
                            vv.len() == m,
                            j <= m,
                            variant_named(vv, name@) == variant_named(vv.subrange(j as int, m as int), name@),
                        decreases m - j,
                    {
                        let ghost vrest = vv.subrange(j as int, m as int);
                        assert(vrest.subrange(1, vrest.len() as int) =~= vv.subrange(j + 1, m as int));
                        assert(vrest[0] == vv[j as int]);
                        if str_eq(variants[j].name.as_str(), name) {
                            return Some((&self.types[i].name, &variants[j].associated_type));
                        }
                        j = j + 1;
                    }
                },
                _ => {},
            }
            i = i + 1;
        }
        None
    }
}

/// Read after write: once a symbol is added, its name refers to it.
pub proof fn law_lookup_after_add(scopes: Seq<Seq<SymbolView>>, sym: SymbolView)
    requires
        add_symbol_spec(scopes, sym) is Ok,
    ensures
        lookup(add_symbol_spec(scopes, sym)->Ok_0, sym.name) == Some(sym),
{
    let s = add_symbol_spec(scopes, sym)->Ok_0;
    let last = s.last();
    assert(last == scopes.last().push(sym));
    assert(last.last() == sym);
    assert(position_in(last, sym.name) == last.len() - 1);
}

/// Names declared in a scope entered last hide nothing until they are
/// declared: entering a scope changes no lookup.
pub proof fn law_lookup_after_enter(scopes: Seq<Seq<SymbolView>>, name: Seq<char>)
    ensures
        lookup(scopes.push(Seq::empty()), name) == lookup(scopes, name),
{
    let t = scopes.push(Seq::empty());
    assert(position_in(t.last(), name) == -1);
    assert(t.drop_last() =~= scopes);
    lemma_visible_position_bounds(scopes, name);
}

/// Leaving a scope right after entering it gives back the scopes as they were.
pub proof fn law_exit_after_enter(scopes: Seq<Seq<SymbolView>>)
    requires
        scopes.len() >= 1,
    ensures
        exit_scope_spec(scopes.push(Seq::empty())) == Ok::<Seq<Seq<SymbolView>>, Fault>(scopes),
{
    assert(scopes.push(Seq::empty()).drop_last() =~= scopes);
}

/// Marking a visible symbol initialised changes only that flag of the symbol
/// its name refers to.
pub proof fn law_lookup_after_mark_initialized(scopes: Seq<Seq<SymbolView>>, name: Seq<char>)
    requires
        lookup(scopes, name) is Some,
    ensures
        mark_initialized_spec(scopes, name) is Ok,
        lookup(mark_initialized_spec(scopes, name)->Ok_0, name)
            == Some(SymbolView { is_initialized: true, ..lookup(scopes, name)->Some_0 }),
{
    lemma_visible_position_bounds(scopes, name);
    let (i, j) = visible_position(scopes, name);
    let s = mark_initialized_spec(scopes, name)->Ok_0;
    lemma_same_visible_position(scopes, s, name);
}

/// Scopes that agree on every symbol's name agree on where a name is visible.
proof fn lemma_same_visible_position(a: Seq<Seq<SymbolView>>, b: Seq<Seq<SymbolView>>, name: Seq<char>)
    requires
        a.len() == b.len(),
        forall|i: int| 0 <= i < a.len() ==> #[trigger] a[i].len() == b[i].len(),
        forall|i: int, j: int| 0 <= i < a.len() && 0 <= j < a[i].len() ==> #[trigger] a[i][j].name == b[i][j].name,
    ensures
        visible_position(a, name) == visible_position(b, name),
    decreases a.len(),
{
    if a.len() > 0 {
        lemma_same_position_in(a.last(), b.last(), name);
        lemma_same_visible_position(a.drop_last(), b.drop_last(), name);
    }
}

/// Scopes with the same names in the same places find a name at the same place.
proof fn lemma_same_position_in(a: Seq<SymbolView>, b: Seq<SymbolView>, name: Seq<char>)
    requires
        a.len() == b.len(),
        forall|j: int| 0 <= j < a.len() ==> #[trigger] a[j].name == b[j].name,
    ensures
        position_in(a, name) == position_in(b, name),
    decreases a.len(),
{
    if a.len() > 0 {
        lemma_same_position_in(a.drop_last(), b.drop_last(), name);
    }
}

} // verus!
