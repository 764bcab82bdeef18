//! The resource lifecycle analysis: which resources each active scope
//! holds, and which acquisitions leak, which releases come twice and which
//! uses come after the release.

use vstd::prelude::*;
use crate::ast::{Argument, Block, Expression, Function, ResourceAcquisition, ResourceScope, SourceLocation, Statement};
use crate::error::{ErrorKind, SemanticError};
use crate::keyed::KeyedList;
use crate::semantic::agrees_unit;
use crate::semantic::symbols::Fault;
use crate::text::{concat, str_eq};

verus! {

/// Resource leak detection
#[derive(Debug, Clone)]
pub struct ResourceLeak {
    pub resource_type: String,
    pub binding: String,
    pub acquisition_location: SourceLocation,
    pub scope_exit_location: SourceLocation,
}

/// Double release detection
#[derive(Debug, Clone)]
pub struct DoubleRelease {
    pub resource_type: String,
    pub binding: String,
    pub first_release: SourceLocation,
    pub second_release: SourceLocation,
}

/// Use after release detection
#[derive(Debug, Clone)]
pub struct UseAfterRelease {
    pub resource_type: String,
    pub binding: String,
    pub release_location: SourceLocation,
    pub use_location: SourceLocation,
}

/// Contract violation
#[derive(Debug, Clone)]
pub struct ContractViolation {
    pub contract_type: String,
    pub limit: u64,
    pub actual: u64,
    pub location: SourceLocation,
}

#[derive(Debug, Clone)]
pub enum OptimizationType {
    /// Convert to resource pool
    UsePool,
    /// Reduce scope lifetime
    ReduceScope,
    /// Combine acquisitions
    BatchAcquisition,
    /// Early release
    EarlyRelease,
    /// Lazy acquisition
    LazyAcquisition,
}


/// A resource held by an active scope.
#[derive(Debug)]
pub struct TrackedResource {
    pub binding: String,
    pub resource_type: String,
    pub acquisition_location: SourceLocation,
    pub is_released: bool,
    pub usage_count: usize,
}

/// An active resource scope and the resources acquired in it.
#[derive(Debug)]
pub struct ScopeInfo {
    pub scope_id: String,
    pub resources: Vec<TrackedResource>,
    pub depth: usize,
    pub location: SourceLocation,
}

/// What the analysis keeps of a resource that has not been released.
#[derive(Debug)]
pub struct ResourceTracking {
    pub resource_type: String,
    pub acquired_location: SourceLocation,
    pub owner_scope: String,
    pub access_count: u64,
}

/// The findings so far.
#[derive(Debug)]
pub struct ResourceAnalysisResults {
    /// The most resources held at once.
    pub max_concurrent_resources: usize,
    pub leaks: Vec<ResourceLeak>,
    pub double_releases: Vec<DoubleRelease>,
    pub use_after_release: Vec<UseAfterRelease>,
    pub contract_violations: Vec<ContractViolation>,
}

/// A held resource as a mathematical value.
pub struct HeldView {
    pub binding: Seq<char>,
    pub resource_type: Seq<char>,
    pub released: bool,
    pub acquired_at: SourceLocation,
}

impl View for TrackedResource {
    type V = HeldView;

    open spec fn view(&self) -> HeldView {
        HeldView {
            binding: self.binding@,
            resource_type: self.resource_type@,
            released: self.is_released,
            acquired_at: self.acquisition_location,
        }
    }
}

/// The resources of a scope, in the order they were acquired.
pub open spec fn scope_view(s: ScopeInfo) -> Seq<HeldView> {
    s.resources@.map_values(|r: TrackedResource| r@)
}

/// A finding as a mathematical value: the resource's type, its binding and
/// two locations (for a leak where the resource was acquired and where the
/// function exits; for a double release where the resource was acquired and
/// where it was released again; for a use after release where the resource
/// was acquired and where it was used).
pub type Finding = (Seq<char>, Seq<char>, SourceLocation, SourceLocation);

/// The state of the analysis as a mathematical value.
pub struct ResourceState {
    pub scopes: Seq<Seq<HeldView>>,
    pub watched: Set<Seq<char>>,
    pub max_concurrent: usize,
    pub leaks: Seq<Finding>,
    pub double_releases: Seq<Finding>,
    pub uses_after_release: Seq<Finding>,
    /// The contract violations: the contract, its limit, the amount found
    /// and where.
    pub contract_violations: Seq<(Seq<char>, u64, u64, SourceLocation)>,
}

/// The state of an analysis that has not started.
pub open spec fn empty_resource_state() -> ResourceState {
    ResourceState {
        scopes: Seq::empty(),
        watched: Set::empty(),
        max_concurrent: 0,
        leaks: Seq::empty(),
        double_releases: Seq::empty(),
        uses_after_release: Seq::empty(),
        contract_violations: Seq::empty(),
    }
}

/// The findings of the results, as mathematical values.
pub open spec fn leak_views(v: Seq<ResourceLeak>) -> Seq<Finding> {
    v.map_values(|l: ResourceLeak| (l.resource_type@, l.binding@, l.acquisition_location, l.scope_exit_location))
}

pub open spec fn double_views(v: Seq<DoubleRelease>) -> Seq<Finding> {
    v.map_values(|d: DoubleRelease| (d.resource_type@, d.binding@, d.first_release, d.second_release))
}

pub open spec fn violation_views(v: Seq<ContractViolation>) -> Seq<(Seq<char>, u64, u64, SourceLocation)> {
    v.map_values(|c: ContractViolation| (c.contract_type@, c.limit, c.actual, c.location))
}

pub open spec fn use_views(v: Seq<UseAfterRelease>) -> Seq<Finding> {
    v.map_values(|u: UseAfterRelease| (u.resource_type@, u.binding@, u.release_location, u.use_location))
}

/// The position of the first resource bound to `b` in a scope, or -1.
pub open spec fn first_in(s: Seq<HeldView>, b: Seq<char>) -> int
    decreases s.len(),
{
    if s.len() == 0 {
        -1
    } else {
        let k = first_in(s.drop_last(), b);
        if k >= 0 {
            k
        } else if s.last().binding == b {
            s.len() - 1
        } else {
            -1
        }
    }
}

/// The resource that a release of `b` acts on: the first one bound to `b`
/// in the innermost scope holding one, as (scope, position); (-1, -1) when
/// no scope holds one.
pub open spec fn release_target(scopes: Seq<Seq<HeldView>>, b: Seq<char>) -> (int, int)
    decreases scopes.len(),
{
    if scopes.len() == 0 {
        (-1, -1)
    } else {
        let j = first_in(scopes.last(), b);
        if j >= 0 {
            (scopes.len() - 1, j)
        } else {
            release_target(scopes.drop_last(), b)
        }
    }
}

/// The released resource that a use of `b` runs into: looking at the scopes
/// outermost first, the first whose first resource bound to `b` has been
/// released.
pub open spec fn released_use(scopes: Seq<Seq<HeldView>>, b: Seq<char>) -> Option<HeldView>
    decreases scopes.len(),
{
    if scopes.len() == 0 {
        None
    } else {
        match released_use(scopes.drop_last(), b) {
            Some(h) => Some(h),
            None => {
                let j = first_in(scopes.last(), b);
                if j >= 0 && scopes.last()[j].released {
                    Some(scopes.last()[j])
                } else {
                    None
                }
            },
        }
    }
}

/// The number of resources of a scope not yet released.
pub open spec fn held_count(s: Seq<HeldView>) -> nat
    decreases s.len(),
{
    if s.len() == 0 {
        0
    } else {
        held_count(s.drop_last()) + if s.last().released { 0nat } else { 1nat }
    }
}

/// The number of resources held by all active scopes.
pub open spec fn active_count(scopes: Seq<Seq<HeldView>>) -> nat
    decreases scopes.len(),
{
    if scopes.len() == 0 {
        0
    } else {
        active_count(scopes.drop_last()) + held_count(scopes.last())
    }
}

/// A count as a `usize`, the largest one standing for any larger count.
pub open spec fn capped(n: nat) -> usize {
    if n > usize::MAX { usize::MAX } else { n as usize }
}

/// The resources of a scope not yet released, in order.
pub open spec fn unreleased(s: Seq<HeldView>, exit: SourceLocation) -> Seq<Finding>
    decreases s.len(),
{
    if s.len() == 0 {
        Seq::empty()
    } else {
        unreleased(s.drop_last(), exit) + if s.last().released {
            Seq::empty()
        } else {
            seq![(s.last().resource_type, s.last().binding, s.last().acquired_at, exit)]
        }
    }
}

/// The resources of all active scopes not yet released, outermost first.
pub open spec fn exit_leaks(scopes: Seq<Seq<HeldView>>, exit: SourceLocation) -> Seq<Finding>
    decreases scopes.len(),
{
    if scopes.len() == 0 {
        Seq::empty()
    } else {
        exit_leaks(scopes.drop_last(), exit) + unreleased(scopes.last(), exit)
    }
}

/// An acquisition at `at` of a resource bound to `b`: held by the innermost
/// scope, if there is one, and watched.
pub open spec fn acquired(st: ResourceState, b: Seq<char>, t: Seq<char>, at: SourceLocation) -> ResourceState {
    ResourceState {
        scopes: if st.scopes.len() > 0 {
            st.scopes.update(
                st.scopes.len() - 1,
                st.scopes.last().push(HeldView { binding: b, resource_type: t, released: false, acquired_at: at }),
            )
        } else {
            st.scopes
        },
        watched: st.watched.insert(b),
        ..st
    }
}

/// A release at `at` of the resource bound to `b`: an error when no scope
/// holds one, a double release when it was released already, else it is
/// marked released and no longer watched.
pub open spec fn released(st: ResourceState, b: Seq<char>, t: Seq<char>, at: SourceLocation) -> (ResourceState, Result<(), Fault>) {
    let (i, j) = release_target(st.scopes, b);
    if i < 0 {
        (st, Err((ErrorKind::UndefinedSymbol, b)))
    } else if st.scopes[i][j].released {
        (
            ResourceState { double_releases: st.double_releases.push((t, b, st.scopes[i][j].acquired_at, at)), ..st },
            Err((ErrorKind::InvalidOperation, Seq::empty())),
        )
    } else {
        (
            ResourceState {
                scopes: st.scopes.update(i, st.scopes[i].update(j, HeldView { released: true, ..st.scopes[i][j] })),
                watched: st.watched.remove(b),
                ..st
            },
            Ok(()),
        )
    }
}

/// The names an expression reads that the analysis looks at, in order.
pub open spec fn expr_names(e: Expression) -> Seq<(Seq<char>, SourceLocation)>
    decreases e,
{
    match e {
        Expression::Variable { name, source_location } => seq![(name.name@, source_location)],
        Expression::Add { left, right, .. } => expr_names(*left) + expr_names(*right),
        Expression::Subtract { left, right, .. } => expr_names(*left) + expr_names(*right),
        Expression::Multiply { left, right, .. } => expr_names(*left) + expr_names(*right),
        Expression::Divide { left, right, .. } => expr_names(*left) + expr_names(*right),
        Expression::FunctionCall { call, .. } => arg_names(call.arguments@),
        _ => Seq::empty(),
    }
}

/// The names read by arguments, in order.
pub open spec fn arg_names(args: Seq<Argument>) -> Seq<(Seq<char>, SourceLocation)>
    decreases args,
{
    if args.len() == 0 {
        Seq::empty()
    } else {
        expr_names(*args[0].value) + arg_names(args.subrange(1, args.len() as int))
    }
}

/// The names a statement reads that the analysis looks at, in order.
pub open spec fn stmt_names(s: Statement) -> Seq<(Seq<char>, SourceLocation)>
    decreases s,
{
    match s {
        Statement::FunctionCall { call, .. } => arg_names(call.arguments@),
        Statement::Assignment { value, .. } => expr_names(*value),
        Statement::If { condition, then_block, else_block, .. } => expr_names(*condition) + stmts_names(
            then_block.statements@,
        ) + match else_block {
            Some(b) => stmts_names(b.statements@),
            None => Seq::empty(),
        },
        Statement::WhileLoop { condition, body, .. } => expr_names(*condition) + stmts_names(body.statements@),
        Statement::Return { value, .. } => match value {
            Some(v) => expr_names(*v),
            None => Seq::empty(),
        },
        _ => Seq::empty(),
    }
}

/// The names read by statements, in order.
pub open spec fn stmts_names(ss: Seq<Statement>) -> Seq<(Seq<char>, SourceLocation)>
    decreases ss,
{
    if ss.len() == 0 {
        Seq::empty()
    } else {
        stmt_names(ss[0]) + stmts_names(ss.subrange(1, ss.len() as int))
    }
}

/// The first read, among `names` in order, of a watched binding whose
/// resource was released: the binding, where it was read, and that
/// resource.
pub open spec fn first_violation(st: ResourceState, names: Seq<(Seq<char>, SourceLocation)>) -> Option<(Seq<char>, SourceLocation, HeldView)>
    decreases names.len(),
{
    if names.len() == 0 {
        None
    } else if st.watched.contains(names[0].0) && released_use(st.scopes, names[0].0) is Some {
        Some((names[0].0, names[0].1, released_use(st.scopes, names[0].0)->0))
    } else {
        first_violation(st, names.subrange(1, names.len() as int))
    }
}

/// Reading `names` in order: the first use after a release is recorded and
/// reported.
pub open spec fn checked(st: ResourceState, names: Seq<(Seq<char>, SourceLocation)>) -> (ResourceState, Result<(), Fault>) {
    match first_violation(st, names) {
        None => (st, Ok(())),
        Some((n, at, h)) => (
            ResourceState { uses_after_release: st.uses_after_release.push((h.resource_type, n, h.acquired_at, at)), ..st },
            Err((ErrorKind::InvalidOperation, Seq::empty())),
        ),
    }
}

/// The acquisitions of a scope's resources, in order.
pub open spec fn acquire_all(st: ResourceState, rs: Seq<ResourceAcquisition>) -> ResourceState
    decreases rs.len(),
{
    if rs.len() == 0 {
        st
    } else {
        let last = rs.last();
        acquired(acquire_all(st, rs.drop_last()), last.binding.name@, last.resource_type@, last.binding.source_location)
    }
}

/// The releases at `at` of a scope's resources, the last acquired first, up
/// to the first error.
pub open spec fn release_all(st: ResourceState, rs: Seq<ResourceAcquisition>, at: SourceLocation) -> (ResourceState, Result<(), Fault>)
    decreases rs.len(),
{
    if rs.len() == 0 {
        (st, Ok(()))
    } else {
        let last = rs.last();
        let (s1, r1) = released(st, last.binding.name@, last.resource_type@, at);
        match r1 {
            Err(f) => (s1, Err(f)),
            Ok(_) => release_all(s1, rs.drop_last(), at),
        }
    }
}

/// A resource scope: entered, its resources acquired, the most resources
/// held at once updated, its body read, its resources released in reverse
/// order, and left.
pub open spec fn scope_run(st: ResourceState, scope: ResourceScope) -> (ResourceState, Result<(), Fault>) {
    let s1 = acquire_all(ResourceState { scopes: st.scopes.push(Seq::empty()), ..st }, scope.resources@);
    let count = capped(active_count(s1.scopes));
    let s2 = if count > s1.max_concurrent { ResourceState { max_concurrent: count, ..s1 } } else { s1 };
    let (s3, r3) = checked(s2, stmts_names(scope.body.statements@));
    match r3 {
        Err(f) => (s3, Err(f)),
        Ok(_) => {
            let (s4, r4) = release_all(s3, scope.resources@, scope.source_location);
            match r4 {
                Err(f) => (s4, Err(f)),
                Ok(_) => (ResourceState { scopes: s4.scopes.drop_last(), ..s4 }, Ok(())),
            }
        },
    }
}

/// A function: its body read, then every resource still held reported as a
/// leak at its exit.
pub open spec fn function_run(st: ResourceState, f: Function) -> (ResourceState, Result<(), Fault>) {
    let (s1, r1) = checked(st, stmts_names(f.body.statements@));
    match r1 {
        Err(e) => (s1, Err(e)),
        Ok(_) => (ResourceState { leaks: s1.leaks + exit_leaks(s1.scopes, f.source_location), ..s1 }, Ok(())),
    }
}

/// The first resource bound to `b` is found in a prefix as in the whole.
pub proof fn lemma_first_in_prefix(s: Seq<HeldView>, b: Seq<char>, m: int)
    requires
        0 <= m <= s.len(),
        first_in(s.subrange(0, m), b) >= 0,
    ensures
        first_in(s, b) == first_in(s.subrange(0, m), b),
    decreases s.len() - m,
{
    if m < s.len() {
        assert(s.subrange(0, m + 1).drop_last() =~= s.subrange(0, m));
        lemma_first_in_prefix(s, b, m + 1);
    } else {
        assert(s.subrange(0, m) =~= s);
    }
}

/// A released resource met in a prefix of the scopes is met in all of them.
pub proof fn lemma_released_use_prefix(scopes: Seq<Seq<HeldView>>, b: Seq<char>, m: int)
    requires
        0 <= m <= scopes.len(),
        released_use(scopes.subrange(0, m), b) is Some,
    ensures
        released_use(scopes, b) == released_use(scopes.subrange(0, m), b),
    decreases scopes.len() - m,
{
    if m < scopes.len() {
        assert(scopes.subrange(0, m + 1).drop_last() =~= scopes.subrange(0, m));
        lemma_released_use_prefix(scopes, b, m + 1);
    } else {
        assert(scopes.subrange(0, m) =~= scopes);
    }
}

/// Reading `a` then `b` meets the first violation of `a`, or else that of `b`.
pub proof fn lemma_first_violation_append(st: ResourceState, a: Seq<(Seq<char>, SourceLocation)>, b: Seq<(Seq<char>, SourceLocation)>)
    ensures
        first_violation(st, a + b) == match first_violation(st, a) {
            Some(v) => Some(v),
            None => first_violation(st, b),
        },
    decreases a.len(),
{
    if a.len() == 0 {
        assert(a + b =~= b);
    } else {
        assert((a + b).subrange(1, (a + b).len() as int) =~= a.subrange(1, a.len() as int) + b);
        assert((a + b)[0] == a[0]);
        lemma_first_violation_append(st, a.subrange(1, a.len() as int), b);
    }
}

/// Releasing a resource twice is reported: after a release of `b` succeeds,
/// a second release of `b` in the same state records a double release and
/// fails, unless another resource bound to `b` is held.
pub proof fn law_second_release_is_double(st: ResourceState, b: Seq<char>, t: Seq<char>, first: SourceLocation, second: SourceLocation)
    requires
        released(st, b, t, first).1 is Ok,
    ensures
        ({
            let s1 = released(st, b, t, first).0;
            let (s2, r2) = released(s1, b, t, second);
            let (i, j) = release_target(st.scopes, b);
            r2 is Err && s2.double_releases == s1.double_releases.push((t, b, st.scopes[i][j].acquired_at, second))
        }),
{
    let (i, j) = release_target(st.scopes, b);
    let s1 = released(st, b, t, first).0;
    lemma_release_target_stable(st.scopes, b, i, j);
}

/// A resource acquired in a scope and never released is reported as a leak
/// when the function exits.
pub proof fn law_unreleased_resource_leaks(st: ResourceState, b: Seq<char>, t: Seq<char>, at: SourceLocation, exit: SourceLocation)
    requires
        st.scopes.len() > 0,
    ensures
        exit_leaks(acquired(st, b, t, at).scopes, exit).contains((t, b, at, exit)),
{
    let s = acquired(st, b, t, at).scopes;
    let h = HeldView { binding: b, resource_type: t, released: false, acquired_at: at };
    assert(s.drop_last() =~= st.scopes.drop_last());
    assert(s.last() == st.scopes.last().push(h));
    assert(s.last().drop_last() =~= st.scopes.last());
    let leaks = exit_leaks(s, exit);
    assert(leaks == exit_leaks(s.drop_last(), exit) + unreleased(s.last(), exit));
    assert(unreleased(s.last(), exit) == unreleased(st.scopes.last(), exit) + seq![(t, b, at, exit)]);
    assert(leaks[leaks.len() - 1] == (t, b, at, exit));
}

/// Acquisitions keep the number of active scopes.
proof fn lemma_acquire_all_depth(st: ResourceState, rs: Seq<ResourceAcquisition>)
    ensures
        acquire_all(st, rs).scopes.len() == st.scopes.len(),
    decreases rs.len(),
{
    if rs.len() > 0 {
        lemma_acquire_all_depth(st, rs.drop_last());
    }
}

/// Releases keep the number of active scopes.
proof fn lemma_release_all_depth(st: ResourceState, rs: Seq<ResourceAcquisition>, at: SourceLocation)
    ensures
        release_all(st, rs, at).0.scopes.len() == st.scopes.len(),
    decreases rs.len(),
{
    if rs.len() > 0 {
        let last = rs.last();
        lemma_release_target_bounds(st.scopes, last.binding.name@);
        let (s1, r1) = released(st, last.binding.name@, last.resource_type@, at);
        if r1 is Ok {
            lemma_release_all_depth(s1, rs.drop_last(), at);
        }
    }
}

/// Scope balance: a resource scope analysed without error leaves as many
/// active scopes as there were before it.
pub proof fn law_resource_scope_keeps_depth(st: ResourceState, scope: ResourceScope)
    ensures
        scope_run(st, scope).1 is Ok ==> scope_run(st, scope).0.scopes.len() == st.scopes.len(),
{
    let base = ResourceState { scopes: st.scopes.push(Seq::empty()), ..st };
    lemma_acquire_all_depth(base, scope.resources@);
    let s1 = acquire_all(base, scope.resources@);
    let count = capped(active_count(s1.scopes));
    let s2 = if count > s1.max_concurrent { ResourceState { max_concurrent: count, ..s1 } } else { s1 };
    let (s3, r3) = checked(s2, stmts_names(scope.body.statements@));
    if r3 is Ok {
        lemma_release_all_depth(s3, scope.resources@, scope.source_location);
    }
}

/// Marking the resource that a release acts on as released leaves the
/// target of the next release of the same binding where it was.
proof fn lemma_release_target_stable(scopes: Seq<Seq<HeldView>>, b: Seq<char>, i: int, j: int)
    requires
        release_target(scopes, b) == (i, j),
        i >= 0,
    ensures
        0 <= i < scopes.len(),
        0 <= j < scopes[i].len(),
        scopes[i][j].binding == b,
        release_target(scopes.update(i, scopes[i].update(j, HeldView { released: true, ..scopes[i][j] })), b) == (i, j),
    decreases scopes.len(),
{
    let u = scopes.update(i, scopes[i].update(j, HeldView { released: true, ..scopes[i][j] }));
    lemma_first_in_bounds(scopes.last(), b);
    if first_in(scopes.last(), b) >= 0 {
        assert(u.last() == scopes.last().update(j, HeldView { released: true, ..scopes.last()[j] }));
        lemma_first_in_update(scopes.last(), b, j);
    } else {
        lemma_release_target_stable(scopes.drop_last(), b, i, j);
        assert(u.drop_last() =~= scopes.drop_last().update(
            i,
            scopes.drop_last()[i].update(j, HeldView { released: true, ..scopes.drop_last()[i][j] }),
        ));
        assert(u.last() == scopes.last());
    }
}

/// The resource a release acts on lies within the scopes and is bound to
/// the binding.
pub proof fn lemma_release_target_bounds(scopes: Seq<Seq<HeldView>>, b: Seq<char>)
    ensures
        ({
            let (i, j) = release_target(scopes, b);
            &&& i >= 0 ==> i < scopes.len() && 0 <= j < scopes[i].len() && scopes[i][j].binding == b
            &&& i < 0 ==> i == -1
        }),
    decreases scopes.len(),
{
    if scopes.len() > 0 {
        lemma_first_in_bounds(scopes.last(), b);
        lemma_release_target_bounds(scopes.drop_last(), b);
    }
}

/// The first position found is a resource bound to the binding.
proof fn lemma_first_in_bounds(s: Seq<HeldView>, b: Seq<char>)
    ensures
        first_in(s, b) >= 0 ==> first_in(s, b) < s.len() && s[first_in(s, b)].binding == b,
        first_in(s, b) >= -1,
    decreases s.len(),
{
    if s.len() > 0 {
        lemma_first_in_bounds(s.drop_last(), b);
    }
}

/// Marking the first resource bound to `b` as released keeps it first.
proof fn lemma_first_in_update(s: Seq<HeldView>, b: Seq<char>, j: int)
    requires
        first_in(s, b) == j,
        j >= 0,
    ensures
        first_in(s.update(j, HeldView { released: true, ..s[j] }), b) == j,
    decreases s.len(),
{
    lemma_first_in_bounds(s, b);
    let u = s.update(j, HeldView { released: true, ..s[j] });
    lemma_first_in_bounds(s.drop_last(), b);
    if first_in(s.drop_last(), b) >= 0 {
        lemma_first_in_update(s.drop_last(), b, j);
        assert(u.drop_last() =~= s.drop_last().update(j, HeldView { released: true, ..s.drop_last()[j] }));
    } else {
        assert(u.drop_last() =~= s.drop_last());
    }
}



/// The position of the first resource bound to `name`.
fn first_position(resources: &Vec<TrackedResource>, name: &str) -> (r: Option<usize>)
    ensures
        match r {
            Some(j) => first_in(resources@.map_values(|t: TrackedResource| t@), name@) == j,
            None => first_in(resources@.map_values(|t: TrackedResource| t@), name@) == -1,
        },
{
    let ghost s = resources@.map_values(|t: TrackedResource| t@);
    let n = resources.len();
    let mut k: usize = 0;
    assert(s.subrange(0, 0).len() == 0);
    while k < n
        invariant
            n == resources@.len(),
            s == resources@.map_values(|t: TrackedResource| t@),
            k <= n,
            first_in(s.subrange(0, k as int), name@) == -1,
        decreases n - k,
    {
        assert(s.subrange(0, k + 1).drop_last() =~= s.subrange(0, k as int));
        if str_eq(resources[k].binding.as_str(), name) {
            proof {
                lemma_first_in_prefix(s, name@, k + 1);
            }
            return Some(k);
        }
        k = k + 1;
    }
    assert(s.subrange(0, n as int) =~= s);
    None
}

/// The resource lifecycle analysis.
pub struct ResourceAnalyzer {
    active_scopes: Vec<ScopeInfo>,
    resource_tracking: KeyedList<ResourceTracking>,
    results: ResourceAnalysisResults,
}

impl ResourceAnalyzer {
    /// The state of the analysis.
    pub closed spec fn state(&self) -> ResourceState {
        ResourceState {
            scopes: self.active_scopes@.map_values(|s: ScopeInfo| scope_view(s)),
            watched: self.resource_tracking@.dom(),
            max_concurrent: self.results.max_concurrent_resources,
            leaks: leak_views(self.results.leaks@),
            double_releases: double_views(self.results.double_releases@),
            uses_after_release: use_views(self.results.use_after_release@),
            contract_violations: violation_views(self.results.contract_violations@),
        }
    }

    /// An analysis with no active scope and no finding.
    pub fn new() -> (r: Self)
        ensures
            r.state() == empty_resource_state(),
    {
        let r = ResourceAnalyzer {
            active_scopes: Vec::new(),
            resource_tracking: KeyedList::new(),
            results: ResourceAnalysisResults {
                max_concurrent_resources: 0,
                leaks: Vec::new(),
                double_releases: Vec::new(),
                use_after_release: Vec::new(),
                contract_violations: Vec::new(),
            },
        };
        assert(r.state().watched =~= Set::<Seq<char>>::empty());
        assert(r.state().scopes =~= Seq::<Seq<HeldView>>::empty());
        assert(r.state().leaks =~= Seq::<Finding>::empty());
        assert(r.state().double_releases =~= Seq::<Finding>::empty());
        assert(r.state().uses_after_release =~= Seq::<Finding>::empty());
        assert(r.state().contract_violations =~= Seq::<(Seq<char>, u64, u64, SourceLocation)>::empty());
        r
    }

    /// The findings so far.
    pub fn get_results(&self) -> (r: &ResourceAnalysisResults)
        ensures
            r.max_concurrent_resources == self.state().max_concurrent,
            leak_views(r.leaks@) == self.state().leaks,
            double_views(r.double_releases@) == self.state().double_releases,
            use_views(r.use_after_release@) == self.state().uses_after_release,
            violation_views(r.contract_violations@) == self.state().contract_violations,
    {
        &self.results
    }

    /// Opens a resource scope holding no resource yet.
    pub fn enter_scope(&mut self, scope_id: String, location: SourceLocation)
        ensures
            final(self).state() == (ResourceState { scopes: old(self).state().scopes.push(Seq::empty()), ..old(self).state() }),
    {
        let depth = self.active_scopes.len();
        let ghost before = self.active_scopes@;
        let info = ScopeInfo { scope_id, resources: Vec::new(), depth, location };
        assert(scope_view(info) =~= Seq::<HeldView>::empty());
        self.active_scopes.push(info);
        assert(self.active_scopes@.map_values(|s: ScopeInfo| scope_view(s)) =~= before.map_values(
            |s: ScopeInfo| scope_view(s),
        ).push(Seq::empty()));
    }

    /// Acquires a resource: the innermost scope, if there is one, holds it,
    /// and it is watched for uses.
    pub fn acquire_resource(&mut self, resource: &ResourceAcquisition) -> (r: Result<(), SemanticError>)
        ensures
            r is Ok,
            final(self).state() == acquired(
                old(self).state(),
                resource.binding.name@,
                resource.resource_type@,
                resource.binding.source_location,
            ),
    {
        let held = TrackedResource {
            binding: resource.binding.name.clone(),
            resource_type: resource.resource_type.clone(),
            acquisition_location: resource.binding.source_location.duplicate(),
            is_released: false,
            usage_count: 0,
        };
        let n = self.active_scopes.len();
        let ghost before = self.active_scopes@;
        let owner = if n > 0 { self.active_scopes[n - 1].scope_id.clone() } else { "".to_owned() };
        if n > 0 {
            let mut scopes: Vec<ScopeInfo> = Vec::new();
            std::mem::swap(&mut scopes, &mut self.active_scopes);
            let mut last = scopes.pop().unwrap();
            let ghost last_before = last;
            last.resources.push(held);
            assert(scope_view(last) =~= scope_view(last_before).push(
                HeldView {
                    binding: resource.binding.name@,
                    resource_type: resource.resource_type@,
                    released: false,
                    acquired_at: resource.binding.source_location,
                },
            ));
            scopes.push(last);
            self.active_scopes = scopes;
            assert(self.active_scopes@.map_values(|s: ScopeInfo| scope_view(s)) =~= old(self).state().scopes.update(
                n - 1,
                old(self).state().scopes.last().push(
                    HeldView {
                    binding: resource.binding.name@,
                    resource_type: resource.resource_type@,
                    released: false,
                    acquired_at: resource.binding.source_location,
                },
                ),
            ));
        }
        self.resource_tracking.insert(
            resource.binding.name.clone(),
            ResourceTracking {
                resource_type: resource.resource_type.clone(),
                acquired_location: resource.binding.source_location.duplicate(),
                owner_scope: owner,
                access_count: 0,
            },
        );
        assert(self.state().watched =~= old(self).state().watched.insert(resource.binding.name@));
        Ok(())
    }

    /// Where a release of `name` acts: the scope and the position.
    fn release_position(&self, name: &str) -> (r: Option<(usize, usize)>)
        ensures
            match r {
                Some((i, j)) => release_target(self.state().scopes, name@) == (i as int, j as int)
                    && i < self.active_scopes@.len() && j < self.active_scopes@[i as int].resources@.len(),
                None => release_target(self.state().scopes, name@).0 < 0,
            },
    {
        let ghost scopes = self.state().scopes;
        let n = self.active_scopes.len();
        let mut i: usize = n;
        assert(scopes.subrange(0, n as int) =~= scopes);
        while i > 0
            invariant
                n == self.active_scopes@.len(),
                scopes == self.state().scopes,
                scopes.len() == n,
                i <= n,
                release_target(scopes, name@) == release_target(scopes.subrange(0, i as int), name@),
            decreases i,
        {
            let ghost pre = scopes.subrange(0, i as int);
            assert(pre.drop_last() =~= scopes.subrange(0, i - 1));
            assert(pre.last() == scope_view(self.active_scopes@[i - 1]));
            match first_position(&self.active_scopes[i - 1].resources, name) {
                Some(j) => {
                    proof {
                        lemma_first_in_bounds(pre.last(), name@);
                    }
                    return Some((i - 1, j));
                },
                None => {},
            }
            i = i - 1;
        }
        None
    }

    /// Marks the resource at position `j` of scope `i` as released.
    fn mark_released(&mut self, i: usize, j: usize)
        requires
            i < old(self).active_scopes@.len(),
            j < old(self).active_scopes@[i as int].resources@.len(),
        ensures
            final(self).state() == (ResourceState {
                scopes: old(self).state().scopes.update(
                    i as int,
                    old(self).state().scopes[i as int].update(
                        j as int,
                        HeldView { released: true, ..old(self).state().scopes[i as int][j as int] },
                    ),
                ),
                ..old(self).state()
            }),
            final(self).resource_tracking@ == old(self).resource_tracking@,
    {
        let mut scopes: Vec<ScopeInfo> = Vec::new();
        std::mem::swap(&mut scopes, &mut self.active_scopes);
        let ghost before = scopes@;
        let mut scope = scopes.remove(i);
        let mut resources: Vec<TrackedResource> = Vec::new();
        std::mem::swap(&mut resources, &mut scope.resources);
        let ghost rs_before = resources@;
        let mut held = resources.remove(j);
        held.is_released = true;
        resources.insert(j, held);
        assert(resources@.map_values(|t: TrackedResource| t@) =~= rs_before.map_values(|t: TrackedResource| t@).update(
            j as int,
            HeldView { released: true, ..rs_before[j as int]@ },
        ));
        scope.resources = resources;
        scopes.insert(i, scope);
        self.active_scopes = scopes;
        assert(self.active_scopes@.map_values(|s: ScopeInfo| scope_view(s)) =~= old(self).state().scopes.update(
            i as int,
            old(self).state().scopes[i as int].update(
                j as int,
                HeldView { released: true, ..old(self).state().scopes[i as int][j as int] },
            ),
        ));
    }

    /// Releases the resource bound to `binding`: the first one in the
    /// innermost scope holding one. A second release is recorded and
    /// reported; a binding that no scope holds is reported.
    pub fn release_resource(&mut self, binding: &str, resource_type: &str, location: &SourceLocation) -> (r: Result<(), SemanticError>)
        ensures
            ({
                let (st, res) = released(old(self).state(), binding@, resource_type@, *location);
                final(self).state() == st && agrees_unit(r, res)
            }),
    {
        match self.release_position(binding) {
            None => Err(SemanticError::UndefinedSymbol { symbol: binding.to_owned(), location: location.duplicate() }),
            Some((i, j)) => {
                assert(self.state().scopes[i as int][j as int] == self.active_scopes@[i as int].resources@[j as int]@);
                if self.active_scopes[i].resources[j].is_released {
                    let first = self.active_scopes[i].resources[j].acquisition_location.duplicate();
                    let ghost before = self.results.double_releases@;
                    self.results.double_releases.push(DoubleRelease {
                        resource_type: resource_type.to_owned(),
                        binding: binding.to_owned(),
                        first_release: first,
                        second_release: location.duplicate(),
                    });
                    assert(double_views(self.results.double_releases@) =~= double_views(before).push(
                        (resource_type@, binding@, old(self).state().scopes[i as int][j as int].acquired_at, *location),
                    ));
                    return Err(SemanticError::InvalidOperation {
                        operation: "double release".to_owned(),
                        reason: concat(concat("Resource '", binding).as_str(), "' already released"),
                        location: location.duplicate(),
                    });
                }
                self.mark_released(i, j);
                self.resource_tracking.remove(binding);
                assert(self.state().watched =~= old(self).state().watched.remove(binding@));
                Ok(())
            },
        }
    }

    /// The scope and position of the released resource that a use of
    /// `name` runs into.
    fn released_resource(&self, name: &str) -> (r: Option<(usize, usize)>)
        ensures
            match r {
                Some((i, j)) => i < self.active_scopes@.len() && j < self.active_scopes@[i as int].resources@.len()
                    && released_use(self.state().scopes, name@) == Some(self.state().scopes[i as int][j as int]),
                None => released_use(self.state().scopes, name@) is None,
            },
    {
        let ghost scopes = self.state().scopes;
        let n = self.active_scopes.len();
        let mut i: usize = 0;
        while i < n
            invariant
                n == self.active_scopes@.len(),
                scopes == self.state().scopes,
                scopes.len() == n,
                i <= n,
                released_use(scopes.subrange(0, i as int), name@) is None,
            decreases n - i,
        {
            let ghost pre = scopes.subrange(0, i + 1);
            assert(pre.drop_last() =~= scopes.subrange(0, i as int));
            assert(pre.last() == scope_view(self.active_scopes@[i as int]));
            match first_position(&self.active_scopes[i].resources, name) {
                Some(j) => {
                    proof {
                        lemma_first_in_bounds(pre.last(), name@);
                    }
                    if self.active_scopes[i].resources[j].is_released {
                        proof {
                            lemma_released_use_prefix(scopes, name@, i + 1);
                        }
                        return Some((i, j));
                    }
                },
                None => {},
            }
            i = i + 1;
        }
        assert(scopes.subrange(0, n as int) =~= scopes);
        None
    }

    /// A read of `name`: counted when the name is watched, and reported when
    /// its resource was released.
    fn check_use(&mut self, name: &String, location: &SourceLocation) -> (r: Result<(), SemanticError>)
        ensures
            ({
                let (st, res) = checked(old(self).state(), seq![(name@, *location)]);
                final(self).state() == st && agrees_unit(r, res)
            }),
    {
        let ghost names = seq![(name@, *location)];
        assert(names.subrange(1, 1) =~= Seq::<(Seq<char>, SourceLocation)>::empty());
        assert(first_violation(old(self).state(), names.subrange(1, 1)) is None);
        if !self.resource_tracking.contains_key(name.as_str()) {
            return Ok(());
        }
        let updated = match self.resource_tracking.get(name.as_str()) {
            Some(t) => ResourceTracking {
                resource_type: t.resource_type.clone(),
                acquired_location: t.acquired_location.duplicate(),
                owner_scope: t.owner_scope.clone(),
                access_count: if t.access_count == u64::MAX { 0 } else { t.access_count + 1 },
            },
            None => {
                return Ok(());
            },
        };
        self.resource_tracking.insert(name.clone(), updated);
        assert(self.state().watched =~= old(self).state().watched);
        assert(self.state() == old(self).state());
        match self.released_resource(name.as_str()) {
            Some((i, j)) => {
                let rt = self.active_scopes[i].resources[j].resource_type.clone();
                let released_at = self.active_scopes[i].resources[j].acquisition_location.duplicate();
                let ghost before = self.results.use_after_release@;
                self.results.use_after_release.push(UseAfterRelease {
                    resource_type: rt,
                    binding: name.clone(),
                    release_location: released_at,
                    use_location: location.duplicate(),
                });
                assert(use_views(self.results.use_after_release@) =~= use_views(before).push(
                    (
                        old(self).state().scopes[i as int][j as int].resource_type,
                        name@,
                        old(self).state().scopes[i as int][j as int].acquired_at,
                        *location,
                    ),
                ));
                Err(SemanticError::InvalidOperation {
                    operation: "use after release".to_owned(),
                    reason: concat(concat("Resource '", name.as_str()).as_str(), "' used after release"),
                    location: location.duplicate(),
                })
            },
            None => Ok(()),
        }
    }

    /// The reads of an expression, in order.
    pub fn check_resource_usage_in_expression(&mut self, e: &Expression) -> (r: Result<(), SemanticError>)
        ensures
            ({
                let (st, res) = checked(old(self).state(), expr_names(*e));
                final(self).state() == st && agrees_unit(r, res)
            }),
        decreases e,
    {
        match e {
            Expression::Variable { name, source_location } => self.check_use(&name.name, source_location),
            Expression::Add { left, right, .. } | Expression::Subtract { left, right, .. }
            | Expression::Multiply { left, right, .. } | Expression::Divide { left, right, .. } => {
                let ghost st = self.state();
                proof {
                    lemma_first_violation_append(st, expr_names(**left), expr_names(**right));
                }
                self.check_resource_usage_in_expression(left)?;
                self.check_resource_usage_in_expression(right)
            },
            Expression::FunctionCall { call, .. } => self.check_arguments(&call.arguments),
            _ => Ok(()),
        }
    }

    /// The reads of arguments, in order.
    fn check_arguments(&mut self, args: &Vec<Argument>) -> (r: Result<(), SemanticError>)
        ensures
            ({
                let (st, res) = checked(old(self).state(), arg_names(args@));
                final(self).state() == st && agrees_unit(r, res)
            }),
        decreases args,
    {
        let ghost st = self.state();
        let n = args.len();
        let mut i: usize = 0;
        assert(args@.subrange(0, n as int) =~= args@);
        while i < n
            invariant
                n == args@.len(),
                i <= n,
                self.state() == st,
                old(self).state() == st,
                checked(st, arg_names(args@)) == checked(st, arg_names(args@.subrange(i as int, n as int))),
            decreases n - i,
        {
            let ghost rest = args@.subrange(i as int, n as int);
            assert(rest.subrange(1, rest.len() as int) =~= args@.subrange(i + 1, n as int));
            assert(rest[0] == args@[i as int]);
            proof {
                lemma_first_violation_append(st, expr_names(*args@[i as int].value), arg_names(args@.subrange(i + 1, n as int)));
                assert(decreases_to!(*args => args[i as int]));
            }
            self.check_resource_usage_in_expression(&args[i].value)?;
            i = i + 1;
        }
        Ok(())
    }

    /// The reads of a statement, in order: calls, assignments, conditions and
    /// the blocks of `if` and `while`, and returned values.
    fn analyze_statement(&mut self, s: &Statement) -> (r: Result<(), SemanticError>)
        ensures
            ({
                let (st, res) = checked(old(self).state(), stmt_names(*s));
                final(self).state() == st && agrees_unit(r, res)
            }),
        decreases s,
    {
        let ghost st = self.state();
        match s {
            Statement::FunctionCall { call, .. } => self.check_arguments(&call.arguments),
            Statement::Assignment { value, .. } => self.check_resource_usage_in_expression(value),
            Statement::If { condition, then_block, else_block, .. } => {
                let ghost a = expr_names(**condition);
                let ghost b = stmts_names(then_block.statements@);
                let ghost c = match else_block {
                    Some(eb) => stmts_names(eb.statements@),
                    None => Seq::empty(),
                };
                proof {
                    lemma_first_violation_append(st, a + b, c);
                    lemma_first_violation_append(st, a, b);
                }
                self.check_resource_usage_in_expression(condition)?;
                self.analyze_block(then_block)?;
                match else_block {
                    Some(eb) => self.analyze_block(eb),
                    None => {
                        assert(first_violation(st, c) is None);
                        Ok(())
                    },
                }
            },
            Statement::WhileLoop { condition, body, .. } => {
                proof {
                    lemma_first_violation_append(st, expr_names(**condition), stmts_names(body.statements@));
                }
                self.check_resource_usage_in_expression(condition)?;
                self.analyze_block(body)
            },
            Statement::Return { value, .. } => match value {
                Some(v) => self.check_resource_usage_in_expression(v),
                None => Ok(()),
            },
            _ => Ok(()),
        }
    }

    /// The reads of a block's statements, in order.
    fn analyze_block(&mut self, b: &Block) -> (r: Result<(), SemanticError>)
        ensures
            ({
                let (st, res) = checked(old(self).state(), stmts_names(b.statements@));
                final(self).state() == st && agrees_unit(r, res)
            }),
        decreases b,
    {
        let ghost st = self.state();
        let ghost ss = b.statements@;
        let n = b.statements.len();
        let mut i: usize = 0;
        assert(ss.subrange(0, n as int) =~= ss);
        while i < n
            invariant
                n == ss.len(),
                ss == b.statements@,
                i <= n,
                self.state() == st,
                old(self).state() == st,
                checked(st, stmts_names(ss)) == checked(st, stmts_names(ss.subrange(i as int, n as int))),
            decreases n - i,
        {
            let ghost rest = ss.subrange(i as int, n as int);
            assert(rest.subrange(1, rest.len() as int) =~= ss.subrange(i + 1, n as int));
            assert(rest[0] == ss[i as int]);
            proof {
                lemma_first_violation_append(st, stmt_names(ss[i as int]), stmts_names(ss.subrange(i + 1, n as int)));
                assert(decreases_to!(b.statements => b.statements[i as int]));
            }
            self.analyze_statement(&b.statements[i])?;
            i = i + 1;
        }
        Ok(())
    }

    /// The number of resources held by the active scopes.
    pub fn count_active_resources(&self) -> (r: usize)
        ensures
            r == capped(active_count(self.state().scopes)),
    {
        let ghost scopes = self.state().scopes;
        let n = self.active_scopes.len();
        let mut count: usize = 0;
        let mut i: usize = 0;
        while i < n
            invariant
                n == self.active_scopes@.len(),
                scopes == self.state().scopes,
                scopes.len() == n,
                i <= n,
                count == capped(active_count(scopes.subrange(0, i as int))),
            decreases n - i,
        {
            let ghost base = active_count(scopes.subrange(0, i as int));
            let ghost sv = scopes[i as int];
            assert(sv == scope_view(self.active_scopes@[i as int]));
            let resources = &self.active_scopes[i].resources;
            let m = resources.len();
            let mut k: usize = 0;
            while k < m
                invariant
                    m == resources@.len(),
                    sv == resources@.map_values(|t: TrackedResource| t@),
                    k <= m,
                    count == capped(base + held_count(sv.subrange(0, k as int))),
                decreases m - k,
            {
                assert(sv.subrange(0, k + 1).drop_last() =~= sv.subrange(0, k as int));
                if !resources[k].is_released && count < usize::MAX {
                    count = count + 1;
                }
                k = k + 1;
            }
            assert(sv.subrange(0, m as int) =~= sv);
            assert(scopes.subrange(0, i + 1).drop_last() =~= scopes.subrange(0, i as int));
            i = i + 1;
        }
        assert(scopes.subrange(0, n as int) =~= scopes);
        count
    }

    /// Records every resource still held as a leak at `exit_location`.
    pub fn check_function_exit_leaks(&mut self, exit_location: &SourceLocation)
        ensures
            final(self).state() == (ResourceState {
                leaks: old(self).state().leaks + exit_leaks(old(self).state().scopes, *exit_location),
                ..old(self).state()
            }),
    {
        let ghost scopes = self.state().scopes;
        let mut found: Vec<ResourceLeak> = Vec::new();
        let n = self.active_scopes.len();
        let mut i: usize = 0;
        while i < n
            invariant
                n == self.active_scopes@.len(),
                scopes == self.state().scopes,
                scopes.len() == n,
                i <= n,
                leak_views(found@) == exit_leaks(scopes.subrange(0, i as int), *exit_location),
            decreases n - i,
        {
            let ghost base = leak_views(found@);
            let ghost sv = scopes[i as int];
            assert(sv == scope_view(self.active_scopes@[i as int]));
            let resources = &self.active_scopes[i].resources;
            let m = resources.len();
            let mut k: usize = 0;
            while k < m
                invariant
                    m == resources@.len(),
                    sv == resources@.map_values(|t: TrackedResource| t@),
                    k <= m,
                    leak_views(found@) == base + unreleased(sv.subrange(0, k as int), *exit_location),
                decreases m - k,
            {
                assert(sv.subrange(0, k + 1).drop_last() =~= sv.subrange(0, k as int));
                if !resources[k].is_released {
                    let ghost before = found@;
                    found.push(ResourceLeak {
                        resource_type: resources[k].resource_type.clone(),
                        binding: resources[k].binding.clone(),
                        acquisition_location: resources[k].acquisition_location.duplicate(),
                        scope_exit_location: exit_location.duplicate(),
                    });
                    let ghost item = (sv[k as int].resource_type, sv[k as int].binding, sv[k as int].acquired_at, *exit_location);
                    assert(leak_views(found@) =~= leak_views(before).push(item));
                    assert(base + unreleased(sv.subrange(0, k + 1), *exit_location) =~= base + unreleased(
                        sv.subrange(0, k as int),
                        *exit_location,
                    ) + seq![item]);
                } else {
                    assert(unreleased(sv.subrange(0, k + 1), *exit_location) =~= unreleased(
                        sv.subrange(0, k as int),
                        *exit_location,
                    ));
                }
                k = k + 1;
            }
            assert(sv.subrange(0, m as int) =~= sv);
            assert(scopes.subrange(0, i + 1).drop_last() =~= scopes.subrange(0, i as int));
            assert(exit_leaks(scopes.subrange(0, i + 1), *exit_location) =~= base + unreleased(sv, *exit_location));
            i = i + 1;
        }
        assert(scopes.subrange(0, n as int) =~= scopes);
        let ghost before = self.results.leaks@;
        self.results.leaks.append(&mut found);
        assert(leak_views(self.results.leaks@) =~= leak_views(before) + exit_leaks(scopes, *exit_location));
    }

    /// A resource scope: see `scope_run`.
    #[verifier::loop_isolation(false)]
    pub fn analyze_resource_scope(&mut self, scope: &ResourceScope) -> (r: Result<(), SemanticError>)
        ensures
            ({
                let (st, res) = scope_run(old(self).state(), *scope);
                final(self).state() == st && agrees_unit(r, res)
            }),
    {
        self.enter_scope(scope.scope_id.clone(), scope.source_location.duplicate());
        let ghost s0 = self.state();
        let ghost rs = scope.resources@;
        let n = scope.resources.len();
        let mut i: usize = 0;
        assert(rs.subrange(0, 0) =~= Seq::<ResourceAcquisition>::empty());
        while i < n
            invariant
                n == rs.len(),
                rs == scope.resources@,
                i <= n,
                self.state() == acquire_all(s0, rs.subrange(0, i as int)),
            decreases n - i,
        {
            assert(rs.subrange(0, i + 1).drop_last() =~= rs.subrange(0, i as int));
            let _ = self.acquire_resource(&scope.resources[i]);
            i = i + 1;
        }
        assert(rs.subrange(0, n as int) =~= rs);
        let count = self.count_active_resources();
        if count > self.results.max_concurrent_resources {
            self.results.max_concurrent_resources = count;
        }
        self.analyze_block(&scope.body)?;
        let ghost s3 = self.state();
        let mut k: usize = 0;
        assert(rs.subrange(0, n as int) =~= rs);
        while k < n
            invariant
                n == rs.len(),
                rs == scope.resources@,
                k <= n,
                release_all(s3, rs, scope.source_location) == release_all(
                    self.state(),
                    rs.subrange(0, n - k),
                    scope.source_location,
                ),
                self.state().scopes.len() == s3.scopes.len(),
            decreases n - k,
        {
            let ghost pre = rs.subrange(0, n - k);
            assert(pre.drop_last() =~= rs.subrange(0, n - k - 1));
            assert(pre.last() == rs[n - k - 1]);
            let res = &scope.resources[n - 1 - k];
            proof {
                lemma_release_target_bounds(self.state().scopes, rs[n - k - 1].binding.name@);
            }
            self.release_resource(res.binding.name.as_str(), res.resource_type.as_str(), &scope.source_location)?;
            k = k + 1;
        }
        assert(rs.subrange(0, 0) =~= Seq::<ResourceAcquisition>::empty());
        let ghost before = self.active_scopes@;
        self.active_scopes.pop();
        assert(self.active_scopes@.map_values(|s: ScopeInfo| scope_view(s)) =~= before.map_values(
            |s: ScopeInfo| scope_view(s),
        ).drop_last());
        Ok(())
    }

    /// A function: see `function_run`.
    pub fn analyze_function(&mut self, function: &Function) -> (r: Result<(), SemanticError>)
        ensures
            ({
                let (st, res) = function_run(old(self).state(), *function);
                final(self).state() == st && agrees_unit(r, res)
            }),
    {
        self.analyze_block(&function.body)?;
        self.check_function_exit_leaks(&function.source_location);
        Ok(())
    }
}

} // verus!
