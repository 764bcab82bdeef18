//! The rules for statements and blocks: how each one changes the scopes and
//! the count of declared variables, and the first error it meets.

use vstd::prelude::*;
use crate::ast::{
    AssignmentTarget, Block, CatchClause, ElseIf, Expression, Mutability, PrimitiveType, ResourceAcquisition, ResourceScope,
    Statement,
};
use crate::resource::analysis::{empty_resource_state, scope_run};
use crate::resource::findings_report;
use crate::error::ErrorKind;
use crate::semantic::bump;
use crate::semantic::symbols::{
    add_symbol_spec, exit_scope_spec, lookup, mark_initialized_spec, Fault, SymbolKind, SymbolView,
};
use crate::semantic::types::{compatible, is_numeric, without, TypeView};
use crate::semantic::typing::{call_type, convert_type, expr_type, mismatch, Env};

verus! {

/// Where a walk through statements stands: the typing environment, the
/// number of variables declared so far, the exception types that may be
/// thrown at this point, and whether the walk is inside a `finally` block.
pub struct Walk {
    pub env: Env,
    pub declared: usize,
    pub exceptions: Seq<TypeView>,
    pub in_finally: bool,
}

/// Whether a value of the type can be thrown: a named type or a string.
pub open spec fn throwable(t: TypeView) -> bool {
    t is Named || t == TypeView::Primitive(PrimitiveType::String)
}

/// The walk with other exception types.
pub open spec fn with_exceptions(w: Walk, e: Seq<TypeView>) -> Walk {
    Walk { exceptions: e, ..w }
}

/// The walk with other scopes.
pub open spec fn with_scopes(w: Walk, scopes: Seq<Seq<SymbolView>>) -> Walk {
    Walk { env: Env { scopes, ..w.env }, ..w }
}

/// The walk with a new, empty, innermost scope.
pub open spec fn entered(w: Walk) -> Walk {
    with_scopes(w, w.env.scopes.push(Seq::empty()))
}

/// Drops the type from a typing result.
pub open spec fn unit(r: Result<TypeView, Fault>) -> Result<(), Fault> {
    match r {
        Ok(_) => Ok(()),
        Err(f) => Err(f),
    }
}

/// Whether a condition's type is acceptable: boolean, or the error type.
pub open spec fn condition_ok(t: TypeView) -> bool {
    t == TypeView::Primitive(PrimitiveType::Boolean) || t is Error
}

/// The check of a condition.
pub open spec fn check_condition(env: Env, c: Expression) -> Result<(), Fault> {
    match expr_type(env, c) {
        Err(f) => Err(f),
        Ok(t) => if condition_ok(t) { Ok(()) } else { Err(mismatch()) },
    }
}

/// The check of a numeric loop bound.
pub open spec fn check_numeric(env: Env, c: Expression) -> Result<(), Fault> {
    match expr_type(env, c) {
        Err(f) => Err(f),
        Ok(t) => if is_numeric(t) { Ok(()) } else { Err(mismatch()) },
    }
}

/// A variable as declared: named, typed, immutable or not, holding a value
/// or not.
pub open spec fn variable(name: Seq<char>, ty: TypeView, is_mutable: bool, is_initialized: bool) -> SymbolView {
    SymbolView { name, ty, kind: SymbolKind::Variable, is_mutable, is_initialized, is_moved: false }
}

/// Leaves the innermost scope after a body ran to its end.
pub open spec fn leave(w: Walk) -> (Walk, Result<(), Fault>) {
    match exit_scope_spec(w.env.scopes) {
        Err(f) => (w, Err(f)),
        Ok(s) => (with_scopes(w, s), Ok(())),
    }
}

/// Runs a body in a new scope that holds `binding` (when given) and leaves
/// the scope at the end.
pub open spec fn scoped_body(w: Walk, binding: Option<SymbolView>, body: Block) -> (Walk, Result<(), Fault>)
    decreases body, 1int,
{
    let w1 = entered(w);
    let added = match binding {
        None => Ok(w1),
        Some(b) => match add_symbol_spec(w1.env.scopes, b) {
            Err(f) => Err(f),
            Ok(s) => Ok(with_scopes(w1, s)),
        },
    };
    match added {
        Err(f) => (w1, Err(f)),
        Ok(w2) => {
            let (w3, r) = block_run(w2, body);
            match r {
                Err(f) => (w3, Err(f)),
                Ok(_) => leave(w3),
            }
        },
    }
}

/// The check of the target of a map assignment.
pub open spec fn map_target(env: Env, map: Expression, key: Expression) -> Result<(), Fault> {
    match expr_type(env, map) {
        Err(f) => Err(f),
        Ok(TypeView::Mapping(k, _)) => match expr_type(env, key) {
            Err(f) => Err(f),
            Ok(t) => if compatible(*k, t) { Ok(()) } else { Err(mismatch()) },
        },
        Ok(_) => Err(mismatch()),
    }
}

/// How a statement changes the walk, and the first error it meets.
pub open spec fn stmt_run(w: Walk, st: Statement) -> (Walk, Result<(), Fault>)
    decreases st, 0int,
{
    let env = w.env;
    match st {
        Statement::VariableDeclaration { name, type_spec, mutability, initial_value, .. } =>
            match convert_type(env, *type_spec) {
                Err(f) => (w, Err(f)),
                Ok(dt) => {
                    let init = match initial_value {
                        None => Ok(false),
                        Some(v) => match expr_type(env, *v) {
                            Err(f) => Err(f),
                            Ok(t) => if compatible(dt, t) { Ok(true) } else { Err(mismatch()) },
                        },
                    };
                    match init {
                        Err(f) => (w, Err(f)),
                        Ok(initialized) => match add_symbol_spec(
                            env.scopes,
                            variable(name.name@, dt, mutability == Mutability::Mutable, initialized),
                        ) {
                            Err(f) => (w, Err(f)),
                            Ok(s) => (Walk { env: Env { scopes: s, ..env }, declared: bump(w.declared), ..w }, Ok(())),
                        },
                    }
                },
            },
        Statement::Assignment { target, value, .. } => match expr_type(env, *value) {
            Err(f) => (w, Err(f)),
            Ok(vt) => match target {
                AssignmentTarget::Variable { name } => match lookup(env.scopes, name.name@) {
                    None => (w, Err((ErrorKind::UndefinedSymbol, name.name@))),
                    Some(sym) => if !sym.is_mutable {
                        (w, Err((ErrorKind::AssignToImmutable, name.name@)))
                    } else if !compatible(sym.ty, vt) {
                        (w, Err(mismatch()))
                    } else {
                        match mark_initialized_spec(env.scopes, name.name@) {
                            Err(f) => (w, Err(f)),
                            Ok(s) => (with_scopes(w, s), Ok(())),
                        }
                    },
                },
                AssignmentTarget::MapValue { map, key } => (w, map_target(env, *map, *key)),
                _ => (w, Ok(())),
            },
        },
        Statement::Return { value, .. } => match value {
            None => (w, Ok(())),
            Some(v) => (w, unit(expr_type(env, *v))),
        },
        Statement::FunctionCall { call, .. } => (w, unit(call_type(env, call))),
        Statement::Expression { expr, .. } => (w, unit(expr_type(env, *expr))),
        Statement::If { condition, then_block, else_ifs, else_block, .. } => match check_condition(env, *condition) {
            Err(f) => (w, Err(f)),
            Ok(_) => {
                let (w1, r1) = block_run(w, then_block);
                match r1 {
                    Err(f) => (w1, Err(f)),
                    Ok(_) => {
                        let (w2, r2) = else_ifs_run(w1, else_ifs@);
                        match r2 {
                            Err(f) => (w2, Err(f)),
                            Ok(_) => match else_block {
                                None => (w2, Ok(())),
                                Some(b) => block_run(w2, b),
                            },
                        }
                    },
                }
            },
        },
        Statement::WhileLoop { condition, body, .. } => match check_condition(env, *condition) {
            Err(f) => (w, Err(f)),
            Ok(_) => scoped_body(w, None, body),
        },
        Statement::ForEachLoop { collection, element_binding, element_type, body, .. } =>
            match expr_type(env, *collection) {
                Err(f) => (w, Err(f)),
                Ok(ct) => {
                    let actual = match ct {
                        TypeView::Array(el, _) => Some(*el),
                        TypeView::Mapping(_, v) => Some(*v),
                        _ => None,
                    };
                    match actual {
                        None => (w, Err(mismatch())),
                        Some(at) => match convert_type(env, *element_type) {
                            Err(f) => (w, Err(f)),
                            Ok(dt) => if !compatible(dt, at) {
                                (w, Err(mismatch()))
                            } else {
                                scoped_body(w, Some(variable(element_binding.name@, dt, false, true)), body)
                            },
                        },
                    }
                },
            },
        Statement::FixedIterationLoop { counter, from_value, to_value, step_value, body, .. } =>
            match check_numeric(env, *from_value) {
                Err(f) => (w, Err(f)),
                Ok(_) => match check_numeric(env, *to_value) {
                    Err(f) => (w, Err(f)),
                    Ok(_) => {
                        let step = match step_value {
                            None => Ok(()),
                            Some(s) => check_numeric(env, *s),
                        };
                        match step {
                            Err(f) => (w, Err(f)),
                            Ok(_) => scoped_body(
                                w,
                                Some(variable(counter.name@, TypeView::Primitive(PrimitiveType::Integer), false, true)),
                                body,
                            ),
                        }
                    },
                },
            },
        Statement::Throw { exception, .. } => if w.in_finally {
            (w, Err((ErrorKind::InvalidOperation, Seq::empty())))
        } else {
            match expr_type(env, *exception) {
                Err(f) => (w, Err(f)),
                Ok(t) => if !throwable(t) {
                    (w, Err((ErrorKind::InvalidType, Seq::empty())))
                } else if w.exceptions.contains(t) {
                    (w, Ok(()))
                } else {
                    (with_exceptions(w, w.exceptions.push(t)), Ok(()))
                },
            }
        },
        Statement::TryBlock { protected_block, catch_clauses, finally_block, .. } => {
            let (w1, r1) = block_run(w, protected_block);
            match r1 {
                Err(f) => (w1, Err(f)),
                Ok(_) => {
                    let (w2, r2) = catches_run(w1, catch_clauses@, Seq::empty());
                    match r2 {
                        Err(f) => (w2, Err(f)),
                        Ok(_) => match finally_block {
                            None => (with_exceptions(w2, w.exceptions), Ok(())),
                            Some(fb) => {
                                let (w3, r3) = block_run(Walk { in_finally: true, ..w2 }, fb);
                                match r3 {
                                    Err(f) => (w3, Err(f)),
                                    Ok(_) => if w3.exceptions.len() > w2.exceptions.len() {
                                        (w3, Err((ErrorKind::InvalidOperation, Seq::empty())))
                                    } else {
                                        (Walk { in_finally: w2.in_finally, exceptions: w.exceptions, ..w3 }, Ok(()))
                                    },
                                }
                            },
                        },
                    }
                },
            }
        },
        Statement::ResourceScope { scope, .. } => resource_scope_run(w, scope),
        Statement::Break { target_label, .. } => if target_label is Some {
            (w, Err((ErrorKind::UnsupportedFeature, "labeled break"@)))
        } else {
            (w, Ok(()))
        },
        Statement::Continue { target_label, .. } => if target_label is Some {
            (w, Err((ErrorKind::UnsupportedFeature, "labeled continue"@)))
        } else {
            (w, Ok(()))
        },
    }
}

/// The type a resource of the named kind is bound with: the kinds the
/// language knows, else the type of a visible symbol of that name, else an
/// opaque pointer.
pub open spec fn resource_type_of(scopes: Seq<Seq<SymbolView>>, kind: Seq<char>) -> TypeView {
    if kind == "file_handle"@ || kind == "mutex"@ || kind == "semaphore"@ {
        TypeView::Primitive(PrimitiveType::UIntPtrT)
    } else if kind == "memory_buffer"@ {
        TypeView::Pointer(Box::new(TypeView::Primitive(PrimitiveType::Integer)), true)
    } else if kind == "tcp_socket"@ || kind == "udp_socket"@ {
        TypeView::Primitive(PrimitiveType::Integer32)
    } else {
        match lookup(scopes, kind) {
            Some(sym) => sym.ty,
            None => TypeView::Pointer(Box::new(TypeView::Primitive(PrimitiveType::Void)), false),
        }
    }
}

/// The resources of a scope bound, in order, as initialised immutable
/// variables of the innermost scope; up to the first error, and the scopes
/// as the bindings made so far left them.
pub open spec fn bind_resources(scopes: Seq<Seq<SymbolView>>, rs: Seq<ResourceAcquisition>) -> (Seq<Seq<SymbolView>>, Result<(), Fault>)
    decreases rs.len(),
{
    if rs.len() == 0 {
        (scopes, Ok(()))
    } else {
        let (s, r) = bind_resources(scopes, rs.drop_last());
        match r {
            Err(f) => (s, Err(f)),
            Ok(_) => {
                let last = rs.last();
                match add_symbol_spec(s, variable(last.binding.name@, resource_type_of(s, last.resource_type@), false, true)) {
                    Err(f) => (s, Err(f)),
                    Ok(s2) => (s2, Ok(())),
                }
            },
        }
    }
}

/// A resource scope: its resource lifecycle checked by a fresh analysis,
/// whose findings are errors; then, in a scope of their own, its resources
/// are bound and its body runs; leaving that scope cannot fail the
/// statement.
pub open spec fn resource_scope_run(w: Walk, scope: ResourceScope) -> (Walk, Result<(), Fault>)
    decreases scope, 0int,
{
    let (rs, rr) = scope_run(empty_resource_state(), scope);
    match rr {
        Err(f) => (w, Err(f)),
        Ok(_) => match findings_report(rs) {
            Err(f) => (w, Err(f)),
            Ok(_) => {
                let w1 = entered(w);
                let (s, r) = bind_resources(w1.env.scopes, scope.resources@);
                let w2 = with_scopes(w1, s);
                match r {
                    Err(f) => (w2, Err(f)),
                    Ok(_) => {
                        let (w3, r3) = block_run(w2, scope.body);
                        match r3 {
                            Err(f) => (w3, Err(f)),
                            Ok(_) => (
                                match exit_scope_spec(w3.env.scopes) {
                                    Ok(s4) => with_scopes(w3, s4),
                                    Err(_) => w3,
                                },
                                Ok(()),
                            ),
                        }
                    },
                }
            },
        },
    }
}

/// The handlers of a `try` block in order, `caught` holding the exception
/// types of the handlers before them: each type must be new; the handler runs
/// in a scope holding its binding, with its type not among the exceptions
/// that may be thrown, which are restored afterwards.
pub open spec fn catches_run(w: Walk, cs: Seq<CatchClause>, caught: Seq<TypeView>) -> (Walk, Result<(), Fault>)
    decreases cs, 0int,
{
    if cs.len() == 0 {
        (w, Ok(()))
    } else {
        let c = cs[0];
        match convert_type(w.env, *c.exception_type) {
            Err(f) => (w, Err(f)),
            Ok(t) => if caught.contains(t) {
                (w, Err((ErrorKind::DuplicateCatchClause, Seq::empty())))
            } else {
                let w1 = entered(w);
                let bound = match c.binding_variable {
                    None => Ok(w1),
                    Some(b) => match add_symbol_spec(w1.env.scopes, variable(b.name@, t, false, true)) {
                        Err(f) => Err(f),
                        Ok(s) => Ok(with_scopes(w1, s)),
                    },
                };
                match bound {
                    Err(f) => (w1, Err(f)),
                    Ok(w2) => {
                        let (w3, r3) = block_run(
                            with_exceptions(w2, without(w2.exceptions, t)),
                            c.handler_block,
                        );
                        match r3 {
                            Err(f) => (w3, Err(f)),
                            Ok(_) => {
                                let w4 = with_exceptions(w3, w2.exceptions);
                                match exit_scope_spec(w4.env.scopes) {
                                    Err(f) => (w4, Err(f)),
                                    Ok(s) => catches_run(with_scopes(w4, s), cs.subrange(1, cs.len() as int), caught.push(t)),
                                }
                            },
                        }
                    },
                }
            },
        }
    }
}

/// The `else if` branches in order: each condition checked, each block run.
pub open spec fn else_ifs_run(w: Walk, s: Seq<ElseIf>) -> (Walk, Result<(), Fault>)
    decreases s, 0int,
{
    if s.len() == 0 {
        (w, Ok(()))
    } else {
        match check_condition(w.env, *s[0].condition) {
            Err(f) => (w, Err(f)),
            Ok(_) => {
                let (w1, r1) = block_run(w, s[0].block);
                match r1 {
                    Err(f) => (w1, Err(f)),
                    Ok(_) => else_ifs_run(w1, s.subrange(1, s.len() as int)),
                }
            },
        }
    }
}

/// A block: its statements run in a scope of their own.
pub open spec fn block_run(w: Walk, b: Block) -> (Walk, Result<(), Fault>)
    decreases b, 0int,
{
    let (w1, r) = stmts_run(entered(w), b.statements@);
    match r {
        Err(f) => (w1, Err(f)),
        Ok(_) => leave(w1),
    }
}

/// Statements in order, up to the first error.
pub open spec fn stmts_run(w: Walk, s: Seq<Statement>) -> (Walk, Result<(), Fault>)
    decreases s, 0int,
{
    if s.len() == 0 {
        (w, Ok(()))
    } else {
        let (w1, r) = stmt_run(w, s[0]);
        match r {
            Err(f) => (w1, Err(f)),
            Ok(_) => stmts_run(w1, s.subrange(1, s.len() as int)),
        }
    }
}

/// How the scopes may differ after a statement: on success there are as many
/// as before; the types and the module never change.
pub open spec fn keeps_depth(w: Walk, after: (Walk, Result<(), Fault>)) -> bool {
    &&& after.0.env.types == w.env.types
    &&& after.0.env.module == w.env.module
    &&& after.1 is Ok ==> after.0.env.scopes.len() == w.env.scopes.len()
}

/// Adding a symbol or marking one initialised keeps the number of scopes.
pub proof fn lemma_symbol_updates_keep_depth(scopes: Seq<Seq<SymbolView>>, sym: SymbolView, name: Seq<char>)
    ensures
        add_symbol_spec(scopes, sym) matches Ok(s) ==> s.len() == scopes.len(),
        mark_initialized_spec(scopes, name) matches Ok(s) ==> s.len() == scopes.len(),
{
    crate::semantic::symbols::lemma_visible_position_bounds(scopes, name);
}

/// Once binding a prefix of the resources fails, binding them all fails
/// the same way.
pub proof fn lemma_bind_resources_prefix_err(scopes: Seq<Seq<SymbolView>>, rs: Seq<ResourceAcquisition>, m: int)
    requires
        0 <= m <= rs.len(),
        bind_resources(scopes, rs.subrange(0, m)).1 is Err,
    ensures
        bind_resources(scopes, rs) == bind_resources(scopes, rs.subrange(0, m)),
    decreases rs.len() - m,
{
    if m < rs.len() {
        assert(rs.subrange(0, m + 1).drop_last() =~= rs.subrange(0, m));
        lemma_bind_resources_prefix_err(scopes, rs, m + 1);
    } else {
        assert(rs.subrange(0, m) =~= rs);
    }
}

/// Binding the resources of a scope keeps the number of scopes.
pub proof fn lemma_bind_resources_keep_depth(scopes: Seq<Seq<SymbolView>>, rs: Seq<ResourceAcquisition>)
    ensures
        bind_resources(scopes, rs).0.len() == scopes.len(),
    decreases rs.len(),
{
    if rs.len() > 0 {
        lemma_bind_resources_keep_depth(scopes, rs.drop_last());
        let (s, r) = bind_resources(scopes, rs.drop_last());
        let last = rs.last();
        let sv = variable(last.binding.name@, resource_type_of(s, last.resource_type@), false, true);
        lemma_symbol_updates_keep_depth(s, sv, last.binding.name@);
    }
}

/// Scope balance: a statement that is analysed without error, with a scope
/// open, leaves as many scopes as it found, since every scope it opens it
/// closes again; no statement changes the user-defined types or the current
/// module.
#[verifier::rlimit(40)]
pub proof fn law_statement_keeps_scope_depth(w: Walk, st: Statement)
    requires
        w.env.scopes.len() > 0,
    ensures
        keeps_depth(w, stmt_run(w, st)),
    decreases st, 0int,
{
    match st {
        Statement::VariableDeclaration { name, type_spec, mutability, initial_value, .. } => {
            match convert_type(w.env, *type_spec) {
                Ok(dt) => {
                    let init = match initial_value {
                        None => Ok(false),
                        Some(v) => match expr_type(w.env, *v) {
                            Err(f) => Err(f),
                            Ok(t) => if compatible(dt, t) { Ok(true) } else { Err(mismatch()) },
                        },
                    };
                    match init {
                        Ok(initialized) => {
                            let sv = variable(name.name@, dt, mutability == Mutability::Mutable, initialized);
                            lemma_symbol_updates_keep_depth(w.env.scopes, sv, name.name@);
                            match add_symbol_spec(w.env.scopes, sv) {
                                Ok(s) => {
                                    assert(stmt_run(w, st).0 == Walk { env: Env { scopes: s, ..w.env }, declared: bump(w.declared), ..w });
                                    assert(s.len() == w.env.scopes.len());
                                    assert(stmt_run(w, st).0.env.scopes.len() == w.env.scopes.len());
                                },
                                Err(_) => {
                                    assert(stmt_run(w, st).1 is Err);
                                },
                            }
                        },
                        Err(_) => {
                            assert(stmt_run(w, st).0 == w);
                        },
                    }
                },
                Err(_) => {
                    assert(stmt_run(w, st).0 == w);
                },
            }
        },
        Statement::Assignment { target, .. } => {
            match target {
                AssignmentTarget::Variable { name } => {
                    lemma_symbol_updates_keep_depth(w.env.scopes, variable(name.name@, TypeView::Error, false, false), name.name@);
                },
                _ => {},
            }
            assert(keeps_depth(w, stmt_run(w, st)));
        },
        Statement::If { condition, then_block, else_ifs, else_block, .. } => {
            if check_condition(w.env, *condition) is Ok {
                law_block_keeps_scope_depth(w, then_block);
                let (w1, r1) = block_run(w, then_block);
                if r1 is Ok {
                    law_else_ifs_keep_scope_depth(w1, else_ifs@);
                    let (w2, r2) = else_ifs_run(w1, else_ifs@);
                    if r2 is Ok {
                        match else_block {
                            Some(b) => law_block_keeps_scope_depth(w2, b),
                            None => {},
                        }
                    }
                }
            }
            assert(keeps_depth(w, stmt_run(w, st)));
        },
        Statement::WhileLoop { body, .. } => {
            law_scoped_body_keeps_scope_depth(w, None, body);
            assert(keeps_depth(w, stmt_run(w, st)));
        },
        Statement::ResourceScope { scope, .. } => {
            let w1 = entered(w);
            lemma_bind_resources_keep_depth(w1.env.scopes, scope.resources@);
            let (s, r) = bind_resources(w1.env.scopes, scope.resources@);
            if r is Ok {
                law_block_keeps_scope_depth(with_scopes(w1, s), scope.body);
            }
            assert(keeps_depth(w, resource_scope_run(w, scope)));
        },
        Statement::ForEachLoop { element_binding, element_type, body, .. } => {
            match convert_type(w.env, *element_type) {
                Ok(dt) => law_scoped_body_keeps_scope_depth(w, Some(variable(element_binding.name@, dt, false, true)), body),
                Err(_) => {},
            }
            assert(keeps_depth(w, stmt_run(w, st)));
        },
        Statement::FixedIterationLoop { counter, body, .. } => {
            law_scoped_body_keeps_scope_depth(
                w,
                Some(variable(counter.name@, TypeView::Primitive(PrimitiveType::Integer), false, true)),
                body,
            );
            assert(keeps_depth(w, stmt_run(w, st)));
        },
        Statement::Return { .. } => {
            assert(keeps_depth(w, stmt_run(w, st)));
        },
        Statement::Throw { .. } => {
            assert(keeps_depth(w, stmt_run(w, st)));
        },
        Statement::TryBlock { protected_block, catch_clauses, finally_block, .. } => {
            law_block_keeps_scope_depth(w, protected_block);
            let (w1, r1) = block_run(w, protected_block);
            if r1 is Ok {
                law_catches_keep_scope_depth(w1, catch_clauses@, Seq::empty());
                let (w2, r2) = catches_run(w1, catch_clauses@, Seq::empty());
                if r2 is Ok {
                    match finally_block {
                        Some(fb) => law_block_keeps_scope_depth(Walk { in_finally: true, ..w2 }, fb),
                        None => {},
                    }
                }
            }
            assert(keeps_depth(w, stmt_run(w, st)));
        },
        Statement::FunctionCall { .. } => {
            assert(keeps_depth(w, stmt_run(w, st)));
        },
        Statement::Expression { .. } => {
            assert(keeps_depth(w, stmt_run(w, st)));
        },
        Statement::Break { .. } => {
            assert(keeps_depth(w, stmt_run(w, st)));
        },
        Statement::Continue { .. } => {
            assert(keeps_depth(w, stmt_run(w, st)));
        },
    }
}

/// Scope balance for a body run in a scope of its own.
pub proof fn law_scoped_body_keeps_scope_depth(w: Walk, binding: Option<SymbolView>, body: Block)
    ensures
        keeps_depth(w, scoped_body(w, binding, body)),
    decreases body, 1int,
{
    let w1 = entered(w);
    match binding {
        None => {
            law_block_keeps_scope_depth(w1, body);
        },
        Some(b) => match add_symbol_spec(w1.env.scopes, b) {
            Err(_) => {},
            Ok(s) => {
                law_block_keeps_scope_depth(with_scopes(w1, s), body);
            },
        },
    }
}

/// Scope balance for a block.
pub proof fn law_block_keeps_scope_depth(w: Walk, b: Block)
    ensures
        keeps_depth(w, block_run(w, b)),
    decreases b, 0int,
{
    law_statements_keep_scope_depth(entered(w), b.statements@);
}

/// Scope balance for a list of statements, with a scope open.
pub proof fn law_statements_keep_scope_depth(w: Walk, s: Seq<Statement>)
    requires
        w.env.scopes.len() > 0,
    ensures
        keeps_depth(w, stmts_run(w, s)),
    decreases s, 0int,
{
    if s.len() > 0 {
        law_statement_keeps_scope_depth(w, s[0]);
        let (w1, r) = stmt_run(w, s[0]);
        if r is Ok {
            law_statements_keep_scope_depth(w1, s.subrange(1, s.len() as int));
        }
    }
}

/// Scope balance for the handlers of a `try` block.
pub proof fn law_catches_keep_scope_depth(w: Walk, cs: Seq<CatchClause>, caught: Seq<TypeView>)
    ensures
        keeps_depth(w, catches_run(w, cs, caught)),
    decreases cs, 0int,
{
    if cs.len() > 0 {
        let c = cs[0];
        match convert_type(w.env, *c.exception_type) {
            Err(_) => {},
            Ok(t) => if !caught.contains(t) {
                let w1 = entered(w);
                let bound = match c.binding_variable {
                    None => Ok(w1),
                    Some(b) => match add_symbol_spec(w1.env.scopes, variable(b.name@, t, false, true)) {
                        Err(f) => Err(f),
                        Ok(s) => Ok(with_scopes(w1, s)),
                    },
                };
                match bound {
                    Err(_) => {},
                    Ok(w2) => {
                        let wh = with_exceptions(w2, without(w2.exceptions, t));
                        law_block_keeps_scope_depth(wh, c.handler_block);
                        let (w3, r3) = block_run(wh, c.handler_block);
                        if r3 is Ok {
                            let w4 = with_exceptions(w3, w2.exceptions);
                            match exit_scope_spec(w4.env.scopes) {
                                Err(_) => {},
                                Ok(s) => law_catches_keep_scope_depth(
                                    with_scopes(w4, s),
                                    cs.subrange(1, cs.len() as int),
                                    caught.push(t),
                                ),
                            }
                        }
                    },
                }
            },
        }
    }
}

/// Scope balance for `else if` branches.
pub proof fn law_else_ifs_keep_scope_depth(w: Walk, s: Seq<ElseIf>)
    ensures
        keeps_depth(w, else_ifs_run(w, s)),
    decreases s, 0int,
{
    if s.len() > 0 && check_condition(w.env, *s[0].condition) is Ok {
        law_block_keeps_scope_depth(w, s[0].block);
        let (w1, r1) = block_run(w, s[0].block);
        if r1 is Ok {
            law_else_ifs_keep_scope_depth(w1, s.subrange(1, s.len() as int));
        }
    }
}

} // verus!
