//! The rules for whole modules: imports, type definitions, constants,
//! external functions, function signatures and bodies, and exports, in that
//! order.

use vstd::prelude::*;
use crate::ast::{
    ConstantDeclaration, EnumVariant, ExportStatement, ExternalFunction, Function, ImportStatement, Module, Parameter,
    PrimitiveType, StructField, TypeDefinition,
};
use crate::error::ErrorKind;
use crate::semantic::{bump, AnalysisStats};
use crate::semantic::statements::{block_run, law_block_keeps_scope_depth, Walk};
use crate::semantic::symbols::{
    add_symbol_spec, exit_scope_spec, find_type, lookup, Fault, SymbolKind, SymbolView, TypeEntryView, TypeInfoView,
};
use crate::semantic::types::{compatible, TypeView};
use crate::semantic::typing::{convert_type, expr_type, mismatch, Env};

verus! {

/// What a module makes visible under an exported name.
#[derive(Debug, Clone, Copy, PartialEq, Eq, Structural)]
pub enum ExportKind {
    Function,
    Type,
    Constant,
}

/// The names a module that was analysed makes visible, with what they are.
#[derive(Debug)]
pub struct ModuleExports {
    pub name: String,
    pub exports: Vec<(ExportKind, String)>,
}

/// The exports of an analysed module as a mathematical value.
pub open spec fn exports_view(m: ModuleExports) -> (Seq<char>, Seq<(ExportKind, Seq<char>)>) {
    (m.name@, m.exports@.map_values(|e: (ExportKind, String)| (e.0, e.1@)))
}

/// What an export statement exports, and under which name.
pub open spec fn export_entry(e: ExportStatement) -> (ExportKind, Seq<char>) {
    match e {
        ExportStatement::Function { name, .. } => (ExportKind::Function, name.name@),
        ExportStatement::Type { name, .. } => (ExportKind::Type, name.name@),
        ExportStatement::Constant { name, .. } => (ExportKind::Constant, name.name@),
    }
}

/// The analyzer as a mathematical value: the typing environment, the
/// statistics, the exports of the modules analysed so far, the exception
/// types that may be thrown, and whether it is inside a `finally` block.
pub struct AnalyzerView {
    pub env: Env,
    pub stats: AnalysisStats,
    pub analyzed: Seq<(Seq<char>, Seq<(ExportKind, Seq<char>)>)>,
    pub exceptions: Seq<TypeView>,
    pub in_finally: bool,
}

/// The view with other scopes.
pub open spec fn set_scopes(v: AnalyzerView, scopes: Seq<Seq<SymbolView>>) -> AnalyzerView {
    AnalyzerView { env: Env { scopes, ..v.env }, ..v }
}

/// The walk through statements that starts from the view.
pub open spec fn walk_of(v: AnalyzerView) -> Walk {
    Walk { env: v.env, declared: v.stats.variables_declared, exceptions: v.exceptions, in_finally: v.in_finally }
}

/// The view after a walk through statements.
pub open spec fn after_walk(v: AnalyzerView, w: Walk) -> AnalyzerView {
    AnalyzerView {
        env: w.env,
        stats: AnalysisStats { variables_declared: w.declared, ..v.stats },
        exceptions: w.exceptions,
        in_finally: w.in_finally,
        ..v
    }
}

/// The exports recorded for the module named `name`, the first record.
pub open spec fn find_analyzed(a: Seq<(Seq<char>, Seq<(ExportKind, Seq<char>)>)>, name: Seq<char>) -> Option<Seq<(ExportKind, Seq<char>)>>
    decreases a.len(),
{
    if a.len() == 0 {
        None
    } else if a[0].0 == name {
        Some(a[0].1)
    } else {
        find_analyzed(a.subrange(1, a.len() as int), name)
    }
}

/// The symbol an import adds for one export: named `prefix.name`.
pub open spec fn imported_symbol(prefix: Seq<char>, module: Seq<char>, e: (ExportKind, Seq<char>)) -> SymbolView {
    let q = prefix + "."@ + e.1;
    match e.0 {
        ExportKind::Function => SymbolView {
            name: q,
            ty: TypeView::Function(Seq::empty(), Box::new(TypeView::Primitive(PrimitiveType::Void))),
            kind: SymbolKind::Function,
            is_mutable: false,
            is_initialized: true,
            is_moved: false,
        },
        ExportKind::Type => SymbolView {
            name: q,
            ty: TypeView::Named(q, Some(module)),
            kind: SymbolKind::Type,
            is_mutable: false,
            is_initialized: true,
            is_moved: false,
        },
        ExportKind::Constant => SymbolView {
            name: q,
            ty: TypeView::Error,
            kind: SymbolKind::Constant,
            is_mutable: false,
            is_initialized: true,
            is_moved: false,
        },
    }
}

/// Adds the symbols for a module's exports, in order, up to the first error.
pub open spec fn add_imported(scopes: Seq<Seq<SymbolView>>, prefix: Seq<char>, module: Seq<char>, es: Seq<(ExportKind, Seq<char>)>) -> (Seq<Seq<SymbolView>>, Result<(), Fault>)
    decreases es.len(),
{
    if es.len() == 0 {
        (scopes, Ok(()))
    } else {
        match add_symbol_spec(scopes, imported_symbol(prefix, module, es[0])) {
            Err(f) => (scopes, Err(f)),
            Ok(s) => add_imported(s, prefix, module, es.subrange(1, es.len() as int)),
        }
    }
}

/// An import: the module must have been analysed; its exports become
/// visible as `alias.name`, or `module.name` without an alias.
pub open spec fn import_run(v: AnalyzerView, imp: ImportStatement) -> (AnalyzerView, Result<(), Fault>) {
    let module = imp.module_name.name@;
    match find_analyzed(v.analyzed, module) {
        None => (v, Err((ErrorKind::ImportError, module))),
        Some(es) => {
            let prefix = match imp.alias {
                Some(a) => a.name@,
                None => module,
            };
            let (s, r) = add_imported(v.env.scopes, prefix, module, es);
            (set_scopes(v, s), r)
        },
    }
}

/// Imports in order, up to the first error.
pub open spec fn imports_run(v: AnalyzerView, s: Seq<ImportStatement>) -> (AnalyzerView, Result<(), Fault>)
    decreases s.len(),
{
    if s.len() == 0 {
        (v, Ok(()))
    } else {
        let (v1, r) = import_run(v, s[0]);
        match r {
            Err(f) => (v1, Err(f)),
            Ok(_) => imports_run(v1, s.subrange(1, s.len() as int)),
        }
    }
}

/// The fields of a struct definition with their types.
pub open spec fn convert_fields(env: Env, fs: Seq<StructField>) -> Result<Seq<(Seq<char>, TypeView)>, Fault>
    decreases fs.len(),
{
    if fs.len() == 0 {
        Ok(Seq::empty())
    } else {
        match convert_type(env, *fs[0].field_type) {
            Err(f) => Err(f),
            Ok(t) => match convert_fields(env, fs.subrange(1, fs.len() as int)) {
                Err(f) => Err(f),
                Ok(rest) => Ok(seq![(fs[0].name.name@, t)] + rest),
            },
        }
    }
}

/// The variants of an enumeration with the types of the values they carry.
pub open spec fn convert_variants(env: Env, vs: Seq<EnumVariant>) -> Result<Seq<(Seq<char>, Option<TypeView>)>, Fault>
    decreases vs.len(),
{
    if vs.len() == 0 {
        Ok(Seq::empty())
    } else {
        let carried = match vs[0].associated_type {
            None => Ok(None),
            Some(t) => match convert_type(env, *t) {
                Err(f) => Err(f),
                Ok(x) => Ok(Some(x)),
            },
        };
        match carried {
            Err(f) => Err(f),
            Ok(c) => match convert_variants(env, vs.subrange(1, vs.len() as int)) {
                Err(f) => Err(f),
                Ok(rest) => Ok(seq![(vs[0].name.name@, c)] + rest),
            },
        }
    }
}

/// The name a type definition defines.
pub open spec fn defined_name(td: TypeDefinition) -> Seq<char> {
    match td {
        TypeDefinition::Structured { name, .. } => name.name@,
        TypeDefinition::Enumeration { name, .. } => name.name@,
        TypeDefinition::Alias { new_name, .. } => new_name.name@,
    }
}

/// The definition a type definition gives.
pub open spec fn definition_of(env: Env, td: TypeDefinition) -> Result<TypeInfoView, Fault> {
    match td {
        TypeDefinition::Structured { fields, .. } => match convert_fields(env, fields@) {
            Err(f) => Err(f),
            Ok(fs) => Ok(TypeInfoView::Struct(fs)),
        },
        TypeDefinition::Enumeration { variants, .. } => match convert_variants(env, variants@) {
            Err(f) => Err(f),
            Ok(vs) => Ok(TypeInfoView::Enum(vs)),
        },
        TypeDefinition::Alias { original_type, .. } => match convert_type(env, *original_type) {
            Err(f) => Err(f),
            Ok(t) => Ok(TypeInfoView::Alias(t)),
        },
    }
}

/// A type definition: registered under its name, which must be new.
pub open spec fn typedef_run(v: AnalyzerView, td: TypeDefinition) -> (AnalyzerView, Result<(), Fault>) {
    let name = defined_name(td);
    match definition_of(v.env, td) {
        Err(f) => (v, Err(f)),
        Ok(def) => if find_type(v.env.types, name) is Some {
            (v, Err((ErrorKind::DuplicateDefinition, name)))
        } else {
            (
                AnalyzerView {
                    env: Env { types: v.env.types.push(TypeEntryView { name, def }), ..v.env },
                    stats: AnalysisStats { types_defined: bump(v.stats.types_defined), ..v.stats },
                    ..v
                },
                Ok(()),
            )
        },
    }
}

/// Type definitions in order, up to the first error.
pub open spec fn typedefs_run(v: AnalyzerView, s: Seq<TypeDefinition>) -> (AnalyzerView, Result<(), Fault>)
    decreases s.len(),
{
    if s.len() == 0 {
        (v, Ok(()))
    } else {
        let (v1, r) = typedef_run(v, s[0]);
        match r {
            Err(f) => (v1, Err(f)),
            Ok(_) => typedefs_run(v1, s.subrange(1, s.len() as int)),
        }
    }
}

/// A constant: its value must fit its declared type; it is declared in the
/// innermost scope and counted as a declared variable.
pub open spec fn const_run(v: AnalyzerView, c: ConstantDeclaration) -> (AnalyzerView, Result<(), Fault>) {
    match convert_type(v.env, *c.type_spec) {
        Err(f) => (v, Err(f)),
        Ok(dt) => match expr_type(v.env, *c.value) {
            Err(f) => (v, Err(f)),
            Ok(t) => if !compatible(dt, t) {
                (v, Err(mismatch()))
            } else {
                let sym = SymbolView {
                    name: c.name.name@,
                    ty: dt,
                    kind: SymbolKind::Constant,
                    is_mutable: false,
                    is_initialized: true,
                    is_moved: false,
                };
                match add_symbol_spec(v.env.scopes, sym) {
                    Err(f) => (v, Err(f)),
                    Ok(s) => (
                        AnalyzerView {
                            env: Env { scopes: s, ..v.env },
                            stats: AnalysisStats { variables_declared: bump(v.stats.variables_declared), ..v.stats },
                            ..v
                        },
                        Ok(()),
                    ),
                }
            },
        },
    }
}

/// Constants in order, up to the first error.
pub open spec fn consts_run(v: AnalyzerView, s: Seq<ConstantDeclaration>) -> (AnalyzerView, Result<(), Fault>)
    decreases s.len(),
{
    if s.len() == 0 {
        (v, Ok(()))
    } else {
        let (v1, r) = const_run(v, s[0]);
        match r {
            Err(f) => (v1, Err(f)),
            Ok(_) => consts_run(v1, s.subrange(1, s.len() as int)),
        }
    }
}

/// The types of a parameter list.
pub open spec fn param_types(env: Env, ps: Seq<Parameter>) -> Result<Seq<TypeView>, Fault>
    decreases ps.len(),
{
    if ps.len() == 0 {
        Ok(Seq::empty())
    } else {
        match convert_type(env, *ps[0].param_type) {
            Err(f) => Err(f),
            Ok(t) => match param_types(env, ps.subrange(1, ps.len() as int)) {
                Err(f) => Err(f),
                Ok(rest) => Ok(seq![t] + rest),
            },
        }
    }
}

/// A function symbol of the given type.
pub open spec fn function_symbol(name: Seq<char>, ty: TypeView) -> SymbolView {
    SymbolView { name, ty, kind: SymbolKind::Function, is_mutable: false, is_initialized: true, is_moved: false }
}

/// An external function: declared as a function; a second declaration of a
/// function with a compatible type is skipped.
pub open spec fn external_run(v: AnalyzerView, f: ExternalFunction) -> (AnalyzerView, Result<(), Fault>) {
    match param_types(v.env, f.parameters@) {
        Err(e) => (v, Err(e)),
        Ok(ps) => match convert_type(v.env, *f.return_type) {
            Err(e) => (v, Err(e)),
            Ok(rt) => {
                let ft = TypeView::Function(ps, Box::new(rt));
                match lookup(v.env.scopes, f.name.name@) {
                    Some(existing) => if existing.kind == SymbolKind::Function {
                        if compatible(existing.ty, ft) { (v, Ok(())) } else { (v, Err(mismatch())) }
                    } else {
                        (v, Err((ErrorKind::DuplicateDefinition, f.name.name@)))
                    },
                    None => match add_symbol_spec(v.env.scopes, function_symbol(f.name.name@, ft)) {
                        Err(e) => (v, Err(e)),
                        Ok(s) => (
                            AnalyzerView {
                                env: Env { scopes: s, ..v.env },
                                stats: AnalysisStats {
                                    external_functions_analyzed: bump(v.stats.external_functions_analyzed),
                                    ..v.stats
                                },
                                ..v
                            },
                            Ok(()),
                        ),
                    },
                }
            },
        },
    }
}

/// External functions in order, up to the first error.
pub open spec fn externals_run(v: AnalyzerView, s: Seq<ExternalFunction>) -> (AnalyzerView, Result<(), Fault>)
    decreases s.len(),
{
    if s.len() == 0 {
        (v, Ok(()))
    } else {
        let (v1, r) = external_run(v, s[0]);
        match r {
            Err(f) => (v1, Err(f)),
            Ok(_) => externals_run(v1, s.subrange(1, s.len() as int)),
        }
    }
}

/// A function's signature: its return type, then its parameter types; the
/// function is declared in the innermost scope.
pub open spec fn signature_run(v: AnalyzerView, f: Function) -> (AnalyzerView, Result<(), Fault>) {
    match convert_type(v.env, *f.return_type) {
        Err(e) => (v, Err(e)),
        Ok(rt) => match param_types(v.env, f.parameters@) {
            Err(e) => (v, Err(e)),
            Ok(ps) => match add_symbol_spec(v.env.scopes, function_symbol(f.name.name@, TypeView::Function(ps, Box::new(rt)))) {
                Err(e) => (v, Err(e)),
                Ok(s) => (set_scopes(v, s), Ok(())),
            },
        },
    }
}

/// Function signatures in order, up to the first error.
pub open spec fn signatures_run(v: AnalyzerView, s: Seq<Function>) -> (AnalyzerView, Result<(), Fault>)
    decreases s.len(),
{
    if s.len() == 0 {
        (v, Ok(()))
    } else {
        let (v1, r) = signature_run(v, s[0]);
        match r {
            Err(f) => (v1, Err(f)),
            Ok(_) => signatures_run(v1, s.subrange(1, s.len() as int)),
        }
    }
}

/// Declares the parameters, in order, as mutable initialised symbols.
pub open spec fn bind_params(v: AnalyzerView, ps: Seq<Parameter>) -> (AnalyzerView, Result<(), Fault>)
    decreases ps.len(),
{
    if ps.len() == 0 {
        (v, Ok(()))
    } else {
        match convert_type(v.env, *ps[0].param_type) {
            Err(f) => (v, Err(f)),
            Ok(t) => {
                let sym = SymbolView {
                    name: ps[0].name.name@,
                    ty: t,
                    kind: SymbolKind::Parameter,
                    is_mutable: true,
                    is_initialized: true,
                    is_moved: false,
                };
                match add_symbol_spec(v.env.scopes, sym) {
                    Err(f) => (v, Err(f)),
                    Ok(s) => bind_params(set_scopes(v, s), ps.subrange(1, ps.len() as int)),
                }
            },
        }
    }
}

/// A function's body: in a scope that holds its parameters.
pub open spec fn body_run(v: AnalyzerView, f: Function) -> (AnalyzerView, Result<(), Fault>) {
    let v1 = set_scopes(v, v.env.scopes.push(Seq::empty()));
    let (v2, r2) = bind_params(v1, f.parameters@);
    match r2 {
        Err(e) => (v2, Err(e)),
        Ok(_) => {
            let (w, r3) = block_run(walk_of(v2), f.body);
            let v3 = after_walk(v2, w);
            match r3 {
                Err(e) => (v3, Err(e)),
                Ok(_) => match exit_scope_spec(v3.env.scopes) {
                    Err(e) => (v3, Err(e)),
                    Ok(s) => (
                        AnalyzerView {
                            env: Env { scopes: s, ..v3.env },
                            stats: AnalysisStats { functions_analyzed: bump(v3.stats.functions_analyzed), ..v3.stats },
                            ..v3
                        },
                        Ok(()),
                    ),
                },
            }
        },
    }
}

/// Function bodies in order, up to the first error.
pub open spec fn bodies_run(v: AnalyzerView, s: Seq<Function>) -> (AnalyzerView, Result<(), Fault>)
    decreases s.len(),
{
    if s.len() == 0 {
        (v, Ok(()))
    } else {
        let (v1, r) = body_run(v, s[0]);
        match r {
            Err(f) => (v1, Err(f)),
            Ok(_) => bodies_run(v1, s.subrange(1, s.len() as int)),
        }
    }
}

/// Each exported name must be visible: the first that is not is reported.
pub open spec fn exports_check(scopes: Seq<Seq<SymbolView>>, s: Seq<ExportStatement>) -> Result<(), Fault>
    decreases s.len(),
{
    if s.len() == 0 {
        Ok(())
    } else if lookup(scopes, export_entry(s[0]).1) is None {
        Err((ErrorKind::UndefinedSymbol, export_entry(s[0]).1))
    } else {
        exports_check(scopes, s.subrange(1, s.len() as int))
    }
}

/// The steps of a module after its scope is entered, each on the state the
/// previous one left; the first error stops the analysis.
pub open spec fn module_steps(v: AnalyzerView, m: Module) -> (AnalyzerView, Result<(), Fault>) {
    let (v1, r1) = imports_run(v, m.imports@);
    if r1 is Err { (v1, r1) } else {
    let (v2, r2) = typedefs_run(v1, m.type_definitions@);
    if r2 is Err { (v2, r2) } else {
    let (v3, r3) = consts_run(v2, m.constant_declarations@);
    if r3 is Err { (v3, r3) } else {
    let (v4, r4) = externals_run(v3, m.external_functions@);
    if r4 is Err { (v4, r4) } else {
    let (v5, r5) = signatures_run(v4, m.function_definitions@);
    if r5 is Err { (v5, r5) } else {
    let (v6, r6) = bodies_run(v5, m.function_definitions@);
    if r6 is Err { (v6, r6) } else {
    match exports_check(v6.env.scopes, m.exports@) {
        Err(f) => (v6, Err(f)),
        Ok(_) => match exit_scope_spec(v6.env.scopes) {
            Err(f) => (v6, Err(f)),
            Ok(s) => (
                AnalyzerView {
                    env: Env { scopes: s, ..v6.env },
                    stats: AnalysisStats { modules_analyzed: bump(v6.stats.modules_analyzed), ..v6.stats },
                    analyzed: v6.analyzed.push((m.name.name@, m.exports@.map_values(|e: ExportStatement| export_entry(e)))),
                    ..v6
                },
                Ok(()),
            ),
        },
    }
    }}}}}}
}

/// A module: it becomes the current module, its items are analysed in a
/// scope of their own, and its exports are recorded for later imports.
#[verifier::opaque]
pub open spec fn module_run(v: AnalyzerView, m: Module) -> (AnalyzerView, Result<(), Fault>) {
    let v0 = AnalyzerView { env: Env { module: Some(m.name.name@), scopes: v.env.scopes.push(Seq::empty()), ..v.env }, ..v };
    module_steps(v0, m)
}

/// The modules of a program in order, each on the state the previous one
/// left, and the errors of those that failed, in order.
pub open spec fn program_run(v: AnalyzerView, ms: Seq<Module>) -> (AnalyzerView, Seq<Fault>)
    decreases ms.len(),
{
    if ms.len() == 0 {
        (v, Seq::empty())
    } else {
        let (v1, r) = module_run(v, ms[0]);
        let (v2, fs) = program_run(v1, ms.subrange(1, ms.len() as int));
        (v2, match r {
            Err(f) => seq![f] + fs,
            Ok(_) => fs,
        })
    }
}

/// What a successful step of a module's analysis leaves alone: the number
/// of scopes, the current module, the count of analysed modules and the
/// recorded exports.
pub open spec fn steady(v: AnalyzerView, after: (AnalyzerView, Result<(), Fault>)) -> bool {
    after.1 is Ok ==> {
        &&& after.0.env.scopes.len() == v.env.scopes.len()
        &&& after.0.env.module == v.env.module
        &&& after.0.stats.modules_analyzed == v.stats.modules_analyzed
        &&& after.0.analyzed == v.analyzed
    }
}

proof fn lemma_add_imported_steady(scopes: Seq<Seq<SymbolView>>, prefix: Seq<char>, module: Seq<char>, es: Seq<(ExportKind, Seq<char>)>)
    ensures
        add_imported(scopes, prefix, module, es).1 is Ok ==> add_imported(scopes, prefix, module, es).0.len() == scopes.len(),
    decreases es.len(),
{
    if es.len() > 0 {
        match add_symbol_spec(scopes, imported_symbol(prefix, module, es[0])) {
            Ok(s) => lemma_add_imported_steady(s, prefix, module, es.subrange(1, es.len() as int)),
            Err(_) => {},
        }
    }
}

proof fn lemma_import_steady(v: AnalyzerView, imp: ImportStatement)
    ensures
        steady(v, import_run(v, imp)),
{
    let module = imp.module_name.name@;
    match find_analyzed(v.analyzed, module) {
        None => {},
        Some(es) => {
            let prefix = match imp.alias {
                Some(a) => a.name@,
                None => module,
            };
            lemma_add_imported_steady(v.env.scopes, prefix, module, es);
        },
    }
}

proof fn lemma_typedef_steady(v: AnalyzerView, td: TypeDefinition)
    ensures
        steady(v, typedef_run(v, td)),
{
}

proof fn lemma_const_steady(v: AnalyzerView, c: ConstantDeclaration)
    ensures
        steady(v, const_run(v, c)),
{
}

proof fn lemma_external_steady(v: AnalyzerView, f: ExternalFunction)
    ensures
        steady(v, external_run(v, f)),
{
}

proof fn lemma_signature_steady(v: AnalyzerView, f: Function)
    ensures
        steady(v, signature_run(v, f)),
{
}

proof fn lemma_bind_params_steady(v: AnalyzerView, ps: Seq<Parameter>)
    ensures
        steady(v, bind_params(v, ps)),
        bind_params(v, ps).0.env.types == v.env.types,
        bind_params(v, ps).0.stats == v.stats,
    decreases ps.len(),
{
    if ps.len() > 0 {
        match convert_type(v.env, *ps[0].param_type) {
            Err(_) => {},
            Ok(t) => {
                let sym = SymbolView {
                    name: ps[0].name.name@,
                    ty: t,
                    kind: SymbolKind::Parameter,
                    is_mutable: true,
                    is_initialized: true,
                    is_moved: false,
                };
                match add_symbol_spec(v.env.scopes, sym) {
                    Err(_) => {},
                    Ok(s) => lemma_bind_params_steady(set_scopes(v, s), ps.subrange(1, ps.len() as int)),
                }
            },
        }
    }
}

proof fn lemma_body_steady(v: AnalyzerView, f: Function)
    ensures
        steady(v, body_run(v, f)),
{
    let v1 = set_scopes(v, v.env.scopes.push(Seq::empty()));
    lemma_bind_params_steady(v1, f.parameters@);
    let (v2, r2) = bind_params(v1, f.parameters@);
    if r2 is Ok {
        law_block_keeps_scope_depth(walk_of(v2), f.body);
    }
}

proof fn lemma_imports_run_steady(v: AnalyzerView, s: Seq<ImportStatement>)
    ensures
        steady(v, imports_run(v, s)),
    decreases s.len(),
{
    if s.len() > 0 {
        lemma_import_steady(v, s[0]);
        let (v1, r) = import_run(v, s[0]);
        if r is Ok {
            lemma_imports_run_steady(v1, s.subrange(1, s.len() as int));
        }
    }
}

proof fn lemma_typedefs_run_steady(v: AnalyzerView, s: Seq<TypeDefinition>)
    ensures
        steady(v, typedefs_run(v, s)),
    decreases s.len(),
{
    if s.len() > 0 {
        lemma_typedef_steady(v, s[0]);
        let (v1, r) = typedef_run(v, s[0]);
        if r is Ok {
            lemma_typedefs_run_steady(v1, s.subrange(1, s.len() as int));
        }
    }
}

proof fn lemma_consts_run_steady(v: AnalyzerView, s: Seq<ConstantDeclaration>)
    ensures
        steady(v, consts_run(v, s)),
    decreases s.len(),
{
    if s.len() > 0 {
        lemma_const_steady(v, s[0]);
        let (v1, r) = const_run(v, s[0]);
        if r is Ok {
            lemma_consts_run_steady(v1, s.subrange(1, s.len() as int));
        }
    }
}

proof fn lemma_externals_run_steady(v: AnalyzerView, s: Seq<ExternalFunction>)
    ensures
        steady(v, externals_run(v, s)),
    decreases s.len(),
{
    if s.len() > 0 {
        lemma_external_steady(v, s[0]);
        let (v1, r) = external_run(v, s[0]);
        if r is Ok {
            lemma_externals_run_steady(v1, s.subrange(1, s.len() as int));
        }
    }
}

proof fn lemma_signatures_run_steady(v: AnalyzerView, s: Seq<Function>)
    ensures
        steady(v, signatures_run(v, s)),
    decreases s.len(),
{
    if s.len() > 0 {
        lemma_signature_steady(v, s[0]);
        let (v1, r) = signature_run(v, s[0]);
        if r is Ok {
            lemma_signatures_run_steady(v1, s.subrange(1, s.len() as int));
        }
    }
}

proof fn lemma_bodies_run_steady(v: AnalyzerView, s: Seq<Function>)
    ensures
        steady(v, bodies_run(v, s)),
    decreases s.len(),
{
    if s.len() > 0 {
        lemma_body_steady(v, s[0]);
        let (v1, r) = body_run(v, s[0]);
        if r is Ok {
            lemma_bodies_run_steady(v1, s.subrange(1, s.len() as int));
        }
    }
}

/// A module analysed without error leaves as many scopes as it found, is the
/// current module afterwards, is counted once more among the analysed
/// modules, and has its exports recorded for later imports.
pub proof fn law_module_success(v: AnalyzerView, m: Module)
    requires
        module_run(v, m).1 is Ok,
    ensures
        module_run(v, m).0.env.scopes.len() == v.env.scopes.len(),
        module_run(v, m).0.env.module == Some(m.name.name@),
        module_run(v, m).0.stats.modules_analyzed == bump(v.stats.modules_analyzed),
        module_run(v, m).0.analyzed
            == v.analyzed.push((m.name.name@, m.exports@.map_values(|e: ExportStatement| export_entry(e)))),
{
    reveal(module_run);
    let v0 = AnalyzerView { env: Env { module: Some(m.name.name@), scopes: v.env.scopes.push(Seq::empty()), ..v.env }, ..v };
    lemma_imports_run_steady(v0, m.imports@);
    let (v1, _) = imports_run(v0, m.imports@);
    lemma_typedefs_run_steady(v1, m.type_definitions@);
    let (v2, _) = typedefs_run(v1, m.type_definitions@);
    lemma_consts_run_steady(v2, m.constant_declarations@);
    let (v3, _) = consts_run(v2, m.constant_declarations@);
    lemma_externals_run_steady(v3, m.external_functions@);
    let (v4, _) = externals_run(v3, m.external_functions@);
    lemma_signatures_run_steady(v4, m.function_definitions@);
    let (v5, _) = signatures_run(v4, m.function_definitions@);
    lemma_bodies_run_steady(v5, m.function_definitions@);
}

/// `n` counted up `k` times, wrapping to zero past the largest `usize`.
pub open spec fn bumps(n: usize, k: nat) -> usize
    decreases k,
{
    if k == 0 {
        n
    } else {
        bumps(bump(n), (k - 1) as nat)
    }
}

/// Whether a successful step counted `t` more type definitions and `f` more
/// analysed functions.
pub open spec fn counted(v: AnalyzerView, after: (AnalyzerView, Result<(), Fault>), t: nat, f: nat) -> bool {
    after.1 is Ok ==> {
        &&& after.0.stats.types_defined == bumps(v.stats.types_defined, t)
        &&& after.0.stats.functions_analyzed == bumps(v.stats.functions_analyzed, f)
    }
}

proof fn lemma_imports_run_counted(v: AnalyzerView, s: Seq<ImportStatement>)
    ensures
        counted(v, imports_run(v, s), 0, 0),
    decreases s.len(),
{
    if s.len() > 0 {
        let (v1, r) = import_run(v, s[0]);
        if r is Ok {
            lemma_imports_run_counted(v1, s.subrange(1, s.len() as int));
        }
    }
}

proof fn lemma_typedefs_run_counted(v: AnalyzerView, s: Seq<TypeDefinition>)
    ensures
        counted(v, typedefs_run(v, s), s.len(), 0),
    decreases s.len(),
{
    if s.len() > 0 {
        let (v1, r) = typedef_run(v, s[0]);
        if r is Ok {
            lemma_typedefs_run_counted(v1, s.subrange(1, s.len() as int));
        }
    }
}

proof fn lemma_consts_run_counted(v: AnalyzerView, s: Seq<ConstantDeclaration>)
    ensures
        counted(v, consts_run(v, s), 0, 0),
    decreases s.len(),
{
    if s.len() > 0 {
        let (v1, r) = const_run(v, s[0]);
        if r is Ok {
            lemma_consts_run_counted(v1, s.subrange(1, s.len() as int));
        }
    }
}

proof fn lemma_externals_run_counted(v: AnalyzerView, s: Seq<ExternalFunction>)
    ensures
        counted(v, externals_run(v, s), 0, 0),
    decreases s.len(),
{
    if s.len() > 0 {
        let (v1, r) = external_run(v, s[0]);
        if r is Ok {
            lemma_externals_run_counted(v1, s.subrange(1, s.len() as int));
        }
    }
}

proof fn lemma_signatures_run_counted(v: AnalyzerView, s: Seq<Function>)
    ensures
        counted(v, signatures_run(v, s), 0, 0),
    decreases s.len(),
{
    if s.len() > 0 {
        let (v1, r) = signature_run(v, s[0]);
        if r is Ok {
            lemma_signatures_run_counted(v1, s.subrange(1, s.len() as int));
        }
    }
}

proof fn lemma_bind_params_stats(v: AnalyzerView, ps: Seq<Parameter>)
    ensures
        bind_params(v, ps).0.stats == v.stats,
    decreases ps.len(),
{
    if ps.len() > 0 {
        match convert_type(v.env, *ps[0].param_type) {
            Err(_) => {},
            Ok(t) => {
                let sym = SymbolView {
                    name: ps[0].name.name@,
                    ty: t,
                    kind: SymbolKind::Parameter,
                    is_mutable: true,
                    is_initialized: true,
                    is_moved: false,
                };
                match add_symbol_spec(v.env.scopes, sym) {
                    Err(_) => {},
                    Ok(s) => lemma_bind_params_stats(set_scopes(v, s), ps.subrange(1, ps.len() as int)),
                }
            },
        }
    }
}

proof fn lemma_bodies_run_counted(v: AnalyzerView, s: Seq<Function>)
    ensures
        counted(v, bodies_run(v, s), 0, s.len()),
    decreases s.len(),
{
    if s.len() > 0 {
        let v1 = set_scopes(v, v.env.scopes.push(Seq::empty()));
        lemma_bind_params_stats(v1, s[0].parameters@);
        let (v2, r) = body_run(v, s[0]);
        if r is Ok {
            lemma_bodies_run_counted(v2, s.subrange(1, s.len() as int));
        }
    }
}

/// A module analysed without error counts each of its type definitions and
/// each of its functions once more.
pub proof fn law_module_counts(v: AnalyzerView, m: Module)
    requires
        module_run(v, m).1 is Ok,
    ensures
        module_run(v, m).0.stats.types_defined == bumps(v.stats.types_defined, m.type_definitions@.len()),
        module_run(v, m).0.stats.functions_analyzed == bumps(v.stats.functions_analyzed, m.function_definitions@.len()),
{
    reveal(module_run);
    let v0 = AnalyzerView { env: Env { module: Some(m.name.name@), scopes: v.env.scopes.push(Seq::empty()), ..v.env }, ..v };
    lemma_imports_run_counted(v0, m.imports@);
    let (v1, _) = imports_run(v0, m.imports@);
    lemma_typedefs_run_counted(v1, m.type_definitions@);
    let (v2, _) = typedefs_run(v1, m.type_definitions@);
    lemma_consts_run_counted(v2, m.constant_declarations@);
    let (v3, _) = consts_run(v2, m.constant_declarations@);
    lemma_externals_run_counted(v3, m.external_functions@);
    let (v4, _) = externals_run(v3, m.external_functions@);
    lemma_signatures_run_counted(v4, m.function_definitions@);
    let (v5, _) = signatures_run(v4, m.function_definitions@);
    lemma_bodies_run_counted(v5, m.function_definitions@);
}

} // verus!
