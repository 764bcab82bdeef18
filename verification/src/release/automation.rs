//! Release automation pipelines: stages, conditions, quality gates and
//! notifications, and the decisions the pipeline makes.

use vstd::prelude::*;
use std::collections::HashMap;
use crate::release::{
    AutoIncrementConfig, IncrementType, PrereleaseHandling, ProjectInfo, VersionInfo, VersionScheme,
};
use crate::error::SemanticError;
use crate::text::{
    chars_of, free_of, lemma_absent_when_free, lemma_join_free, lemma_other_absent, lemma_replace_single, line_between, line_end, next_newline, occurs_at, replace, replace_all, seq_contains, seq_ends_with,
    seq_starts_with, str_contains, str_eq, string_from_chars, trim, trim_range,
};

verus! {

/// Pipeline stage types
#[derive(Debug, Clone)]
pub enum StageType {
    /// Build stage
    Build,
    
    /// Test stage  
    Test,
    
    /// Quality check stage
    QualityCheck,
    
    /// Security scan stage
    SecurityScan,
    
    /// Package stage
    Package,
    
    /// Deploy stage
    Deploy,
    
    /// Notification stage
    Notification,
    
    /// Custom stage
    Custom(String),
}

/// Stage condition
#[derive(Debug, Clone)]
pub struct StageCondition {
    /// Condition type
    pub condition_type: ConditionType,
    
    /// Condition value
    pub value: String,
    
    /// Operator
    pub operator: ConditionOperator,
}

/// Condition types
#[derive(Debug, Clone)]
pub enum ConditionType {
    /// Environment variable condition
    Environment,
    
    /// Branch condition
    Branch,
    
    /// Tag condition
    Tag,
    
    /// File exists condition
    FileExists,
    
    /// Previous stage result
    StageResult,
}

/// Condition operators
#[derive(Debug, Clone)]
pub enum ConditionOperator {
    Equals,
    NotEquals,
    Contains,
    NotContains,
    Matches,
    NotMatches,
}

/// Backoff strategies
#[derive(Debug, Clone)]
pub enum BackoffStrategy {
    /// Fixed delay
    Fixed,
    
    /// Linear backoff
    Linear,
    
    /// Exponential backoff
    Exponential,
}

/// Retry conditions
#[derive(Debug, Clone)]
pub enum RetryCondition {
    /// Exit code condition
    ExitCode(i32),
    
    /// Output contains text
    OutputContains(String),
    
    /// Timeout occurred
    Timeout,
    
    /// Network error
    NetworkError,
}

/// Stage status
#[derive(Debug, Clone)]
pub enum StageStatus {
    /// Stage is pending
    Pending,
    
    /// Stage is running
    Running,
    
    /// Stage completed successfully
    Success,
    
    /// Stage failed
    Failed(String),
    
    /// Stage was skipped
    Skipped(String),
    
    /// Stage was cancelled
    Cancelled,
}

/// Stage result
#[derive(Debug, Clone)]
pub struct StageResult {
    /// Stage name
    pub stage_name: String,
    
    /// Stage status
    pub status: StageStatus,
    
    /// Execution duration
    pub duration: u64,
    
    /// Stage output
    pub output: String,
    
    /// Stage error output
    pub error_output: String,
    
    /// Exit code
    pub exit_code: Option<i32>,
    
    /// Artifacts produced
    pub artifacts: Vec<String>,
    
    /// Metrics
    pub metrics: HashMap<String, String>,
}

/// Stage executor
#[derive(Debug)]
pub struct StageExecutor {
    /// Working directory
    pub working_dir: String,
    
    /// Environment variables
    pub environment: HashMap<String, String>,
    
    /// Executor type
    pub executor_type: ExecutorType,
}

/// Executor types
#[derive(Debug)]
pub enum ExecutorType {
    /// Shell executor
    Shell,
    
    /// Docker executor
    Docker(DockerConfig),
    
    /// Kubernetes executor
    Kubernetes(KubernetesConfig),
    
    /// Custom executor
    Custom(String),
}

/// Docker executor configuration
#[derive(Debug)]
pub struct DockerConfig {
    /// Docker image
    pub image: String,
    
    /// Docker volumes
    pub volumes: Vec<String>,
    
    /// Docker environment
    pub environment: HashMap<String, String>,
    
    /// Docker network
    pub network: Option<String>,
}

/// Kubernetes executor configuration
#[derive(Debug)]
pub struct KubernetesConfig {
    /// Kubernetes namespace
    pub namespace: String,
    
    /// Pod template
    pub pod_template: String,
    
    /// Resource limits
    pub resources: HashMap<String, String>,
}

/// Pipeline context
#[derive(Debug)]
pub struct PipelineContext {
    /// Project information
    pub project: ProjectInfo,
    
    /// Version information
    pub version: VersionInfo,
    
    /// Build metadata
    pub build_metadata: HashMap<String, String>,
    
    /// Git information
    pub git: GitInfo,
    
    /// Environment information
    pub environment: EnvironmentInfo,
}

/// Git information
#[derive(Debug, Clone)]
pub struct GitInfo {
    /// Current branch
    pub branch: String,
    
    /// Current commit hash
    pub commit_hash: String,
    
    /// Commit message
    pub commit_message: String,
    
    /// Commit author
    pub author: String,
    
    /// Commit timestamp
    pub timestamp: String,
    
    /// Repository URL
    pub repository_url: String,
    
    /// Tags
    pub tags: Vec<String>,
}

/// Environment information
#[derive(Debug, Clone)]
pub struct EnvironmentInfo {
    /// Operating system
    pub os: String,
    
    /// Architecture
    pub arch: String,
    
    /// Environment type (dev, staging, prod)
    pub env_type: String,
    
    /// CI/CD system
    pub ci_system: Option<String>,
    
    /// Build number
    pub build_number: Option<String>,
}

/// Timeout configuration
#[derive(Debug, Clone)]
pub struct TimeoutConfig {
    /// Default stage timeout (seconds)
    pub default_stage: u64,
    
    /// Pipeline timeout (seconds)
    pub pipeline: u64,
    
    /// Build timeout (seconds)
    pub build: u64,
    
    /// Test timeout (seconds)
    pub test: u64,
    
    /// Deploy timeout (seconds)
    pub deploy: u64,
}

/// Parallel execution configuration
#[derive(Debug, Clone)]
pub struct ParallelConfig {
    /// Enable parallel execution
    pub enabled: bool,
    
    /// Maximum parallel stages
    pub max_parallel: usize,
    
    /// Stage groups for parallel execution
    pub stage_groups: Vec<Vec<String>>,
}

/// Quality gate types
#[derive(Debug, Clone)]
pub enum QualityGateType {
    /// Code coverage gate
    Coverage,
    
    /// Test results gate
    TestResults,
    
    /// Code quality gate
    CodeQuality,
    
    /// Security scan gate
    Security,
    
    /// Performance gate
    Performance,
    
    /// Custom gate
    Custom(String),
}

/// Comparison operators
#[derive(Debug, Clone)]
pub enum ComparisonOperator {
    GreaterThan,
    GreaterThanOrEqual,
    LessThan,
    LessThanOrEqual,
    Equal,
    NotEqual,
}

/// Criteria severity levels
#[derive(Debug, Clone)]
pub enum CriteriaSeverity {
    Info,
    Warning,
    Error,
    Critical,
}

/// Quality gate actions
#[derive(Debug, Clone)]
pub enum QualityGateAction {
    /// Continue pipeline
    Continue,
    
    /// Stop pipeline
    Stop,
    
    /// Send notification
    Notify,
    
    /// Mark as unstable
    MarkUnstable,
}

/// Notification configuration
#[derive(Debug, Clone)]
pub struct NotificationConfig {
    /// Notification channels
    pub channels: Vec<NotificationChannel>,
    
    /// Notification triggers
    pub triggers: Vec<NotificationTrigger>,
    
    /// Message templates
    pub templates: HashMap<String, String>,
}

/// Notification channel
#[derive(Debug, Clone)]
pub struct NotificationChannel {
    /// Channel type
    pub channel_type: ChannelType,
    
    /// Channel configuration
    pub config: HashMap<String, String>,
    
    /// Channel filters
    pub filters: Vec<NotificationFilter>,
}

/// Notification channel types
#[derive(Debug, Clone)]
pub enum ChannelType {
    Email,
    Slack,
    Teams,
    Discord,
    Webhook,
    SMS,
}

/// Notification triggers
#[derive(Debug, Clone)]
pub enum NotificationTrigger {
    /// On pipeline start
    PipelineStart,
    
    /// On pipeline success
    PipelineSuccess,
    
    /// On pipeline failure
    PipelineFailure,
    
    /// On stage failure
    StageFailure(String),
    
    /// On quality gate failure
    QualityGateFailure(String),
}

/// Notification filter
#[derive(Debug, Clone)]
pub struct NotificationFilter {
    /// Filter type
    pub filter_type: FilterType,
    
    /// Filter value
    pub value: String,
    
    /// Filter action
    pub action: FilterAction,
}

/// Filter types
#[derive(Debug, Clone)]
pub enum FilterType {
    Branch,
    Environment,
    Severity,
    Stage,
}

/// Filter actions
#[derive(Debug, Clone)]
pub enum FilterAction {
    Include,
    Exclude,
}

/// Pipeline status
#[derive(Debug, Clone)]
pub enum PipelineStatus {
    Pending,
    Running,
    Completed,
    Failed,
    Cancelled,
}

/// `command` with the pipeline variables `${PROJECT_NAME}`, `${VERSION}`,
/// `${BRANCH}` and `${COMMIT_HASH}` replaced, in that order.
pub open spec fn expanded_command(command: Seq<char>, context: PipelineContext) -> Seq<char> {
    replace_all(
        replace_all(
            replace_all(
                replace_all(command, "${PROJECT_NAME}"@, context.project.name@),
                "${VERSION}"@,
                context.version.current@,
            ),
            "${BRANCH}"@,
            context.git.branch@,
        ),
        "${COMMIT_HASH}"@,
        context.git.commit_hash@,
    )
}

/// The index of the first `':'` in `l`, if any.
pub open spec fn first_colon(l: Seq<char>) -> Option<int>
    decreases l.len(),
{
    if l.len() == 0 {
        None
    } else if l[0] == ':' {
        Some(0)
    } else {
        match first_colon(l.drop_first()) {
            Some(i) => Some(i + 1),
            None => None,
        }
    }
}

/// The metric a line of output reports: a line `KEY: value` whose trimmed
/// key starts with `METRIC_` or ends with `_METRIC`, split at its first colon
/// and trimmed on both sides.
pub open spec fn metric_of_line(l: Seq<char>) -> Option<(Seq<char>, Seq<char>)> {
    match first_colon(l) {
        Some(p) => {
            let key = trim(l.subrange(0, p));
            let value = trim(l.subrange(p + 1, l.len() as int));
            if seq_starts_with(key, "METRIC_"@) || seq_ends_with(key, "_METRIC"@) {
                Some((key, value))
            } else {
                None
            }
        },
        None => None,
    }
}

/// The metrics reported by the lines of `s` from position `i` on, in order.
pub open spec fn metrics_from(s: Seq<char>, i: int) -> Seq<(Seq<char>, Seq<char>)>
    decreases s.len() - i,
{
    if i < 0 || i >= s.len() {
        seq![]
    } else {
        let e = next_newline(s, i);
        proof {
            crate::text::lemma_next_newline_bounds_pub(s, i);
        }
        let rest = if e >= s.len() { seq![] } else { metrics_from(s, e + 1) };
        match metric_of_line(line_between(s, i, e)) {
            Some(m) => seq![m] + rest,
            None => rest,
        }
    }
}

/// The views of a list of key and value strings.
pub open spec fn pairs_view(v: Seq<(String, String)>) -> Seq<(Seq<char>, Seq<char>)> {
    v.map_values(|p: (String, String)| (p.0@, p.1@))
}

proof fn lemma_first_colon(l: Seq<char>)
    ensures
        match first_colon(l) {
            Some(p) => 0 <= p < l.len() && l[p] == ':' && forall|k: int| 0 <= k < p ==> l[k] != ':',
            None => forall|k: int| 0 <= k < l.len() ==> l[k] != ':',
        },
    decreases l.len(),
{
    if l.len() > 0 && l[0] != ':' {
        let rest = l.drop_first();
        lemma_first_colon(rest);
        assert forall|k: int| 0 < k < l.len() implies l[k] == rest[k - 1] by {}
    }
}

/// The first colon of `v[lo..hi]`, as an offset from `lo`.
fn find_colon(v: &Vec<char>, lo: usize, hi: usize) -> (r: Option<usize>)
    requires
        lo <= hi <= v@.len(),
    ensures
        r == (match first_colon(v@.subrange(lo as int, hi as int)) {
            Some(p) => Some(p as usize),
            None => None::<usize>,
        }),
{
    let ghost l = v@.subrange(lo as int, hi as int);
    proof {
        lemma_first_colon(l);
    }
    let mut k = lo;
    while k < hi
        invariant
            lo <= k <= hi <= v@.len(),
            l == v@.subrange(lo as int, hi as int),
            forall|j: int| lo <= j < k ==> v@[j] != ':',
        decreases hi - k,
    {
        if v[k] == ':' {
            proof {
                lemma_first_colon(l);
                assert(l[k - lo] == ':');
                match first_colon(l) {
                    Some(p) => {
                        if p < k - lo {
                            assert(v@[lo + p] == ':');
                        }
                        if p > k - lo {
                            assert(l[k - lo] != ':');
                        }
                        assert(p == k - lo);
                    },
                    None => {
                        assert(l[k - lo] != ':');
                    },
                }
            }
            return Some(k - lo);
        }
        k = k + 1;
    }
    proof {
        lemma_first_colon(l);
        match first_colon(l) {
            Some(p) => {
                assert(l[p] == ':');
                assert(v@[lo + p] == ':');
            },
            None => {},
        }
    }
    None
}

/// The metric reported by `v[lo..hi]`, if it reports one.
fn metric_of_range(v: &Vec<char>, lo: usize, hi: usize) -> (r: Option<(String, String)>)
    requires
        lo <= hi <= v@.len(),
    ensures
        match metric_of_line(v@.subrange(lo as int, hi as int)) {
            Some(m) => r matches Some(p) && p.0@ == m.0 && p.1@ == m.1,
            None => r is None,
        },
{
    let ghost l = v@.subrange(lo as int, hi as int);
    proof {
        lemma_first_colon(l);
    }
    match find_colon(v, lo, hi) {
        Some(p) => {
            let key = trim_range(v, lo, lo + p);
            let value = trim_range(v, lo + p + 1, hi);
            assert(v@.subrange(lo as int, lo + p) =~= l.subrange(0, p as int));
            assert(v@.subrange(lo + p + 1, hi as int) =~= l.subrange(p + 1, l.len() as int));
            let key_s = string_from_chars(key.as_slice());
            let value_s = string_from_chars(value.as_slice());
            let is_metric = crate::text::str_starts_with(key_s.as_str(), "METRIC_")
                || crate::text::str_ends_with(key_s.as_str(), "_METRIC");
            if is_metric {
                Some((key_s, value_s))
            } else {
                None
            }
        },
        None => None,
    }
}

impl StageExecutor {
    /// Replaces the pipeline variables in a command.
    pub fn expand_variables(&self, command: &str, context: &PipelineContext) -> (r: String)
        ensures
            r@ == expanded_command(command@, *context),
    {
        proof {
            reveal_strlit("${PROJECT_NAME}");
            reveal_strlit("${VERSION}");
            reveal_strlit("${BRANCH}");
            reveal_strlit("${COMMIT_HASH}");
        }
        let a = replace(command, "${PROJECT_NAME}", context.project.name.as_str());
        let b = replace(a.as_str(), "${VERSION}", context.version.current.as_str());
        let c = replace(b.as_str(), "${BRANCH}", context.git.branch.as_str());
        replace(c.as_str(), "${COMMIT_HASH}", context.git.commit_hash.as_str())
    }

    /// The metrics reported in command output, in the order of their lines:
    /// one `(key, value)` pair per line `KEY: value` whose key starts with
    /// `METRIC_` or ends with `_METRIC`. A later pair for the same key
    /// supersedes an earlier one when they are collected into a map.
    pub fn extract_metrics(&self, output: &str) -> (r: Vec<(String, String)>)
        ensures
            pairs_view(r@) == metrics_from(output@, 0),
    {
        let v = chars_of(output);
        let n = v.len();
        let mut r: Vec<(String, String)> = Vec::new();
        let mut i: usize = 0;
        while i < n
            invariant
                n == v@.len(),
                v@ == output@,
                i <= n,
                pairs_view(r@) + metrics_from(v@, i as int) == metrics_from(v@, 0),
            decreases n - i,
        {
            let e = line_end(&v, i);
            proof {
                crate::text::lemma_next_newline_bounds_pub(v@, i as int);
            }
            let ghost old_i = i as int;
            let lo = i;
            let hi = if e < n && e > i && v[e - 1] == '\r' { e - 1 } else { e };
            assert(v@.subrange(lo as int, hi as int) == line_between(v@, i as int, e as int));
            let m = metric_of_range(&v, lo, hi);
            let ghost before = r@;
            let ghost rest = if e >= n { Seq::<(Seq<char>, Seq<char>)>::empty() } else { metrics_from(v@, e + 1) };
            assert(metrics_from(v@, old_i) == (match metric_of_line(line_between(v@, old_i, e as int)) {
                Some(mm) => seq![mm] + rest,
                None => rest,
            }));
            match m {
                Some(p) => {
                    r.push(p);
                    assert(pairs_view(r@) =~= pairs_view(before).push((r@.last().0@, r@.last().1@)));
                },
                None => {},
            }
            if e >= n {
                i = n;
            } else {
                i = e + 1;
            }
            proof {
                assert(metrics_from(v@, i as int) == rest);
                assert(pairs_view(r@) + metrics_from(v@, i as int) =~= metrics_from(v@, 0));
            }
        }
        proof {
            assert(pairs_view(r@) =~= pairs_view(r@) + metrics_from(v@, i as int));
        }
        r
    }
}

/// Whether every dependency of a stage is among the completed stages.
pub open spec fn dependencies_met(depends_on: Seq<String>, completed: Seq<String>) -> bool {
    forall|d: int| 0 <= d < depends_on.len() ==> listed(completed, (#[trigger] depends_on[d])@)
}

/// Whether one of `names` is `name`.
pub open spec fn listed(names: Seq<String>, name: Seq<char>) -> bool {
    exists|c: int| 0 <= c < names.len() && (#[trigger] names[c])@ == name
}

/// Whether every stage's dependencies have completed.
pub open spec fn all_dependencies_met(depends_on: Seq<Vec<String>>, completed: Seq<String>) -> bool {
    forall|i: int| 0 <= i < depends_on.len() ==> dependencies_met(#[trigger] depends_on[i]@, completed)
}

/// Whether `name` is among `names`.
fn name_listed(names: &Vec<String>, name: &String) -> (r: bool)
    ensures
        r == listed(names@, name@),
{
    let mut i: usize = 0;
    while i < names.len()
        invariant
            i <= names@.len(),
            forall|c: int| 0 <= c < i ==> (#[trigger] names@[c])@ != name@,
        decreases names@.len() - i,
    {
        if str_eq(names[i].as_str(), name.as_str()) {
            return true;
        }
        i = i + 1;
    }
    false
}

/// Whether every dependency in `depends_on` has completed.
fn dependencies_satisfied(depends_on: &Vec<String>, completed: &Vec<String>) -> (r: bool)
    ensures
        r == dependencies_met(depends_on@, completed@),
{
    let mut i: usize = 0;
    while i < depends_on.len()
        invariant
            i <= depends_on@.len(),
            forall|d: int| 0 <= d < i ==> listed(completed@, (#[trigger] depends_on@[d])@),
        decreases depends_on@.len() - i,
    {
        if !name_listed(completed, &depends_on[i]) {
            assert(!listed(completed@, depends_on@[i as int]@));
            return false;
        }
        i = i + 1;
    }
    true
}

/// Groups stages for parallel execution. A stage can run once all the stages
/// it depends on have completed; completion is judged by `completed`, the
/// names of the stages that have results. When every stage is ready they form
/// one group (no stages, no groups); when some stage is not ready the
/// dependencies are reported as circular.
pub fn create_stage_groups(depends_on: &Vec<Vec<String>>, completed: &Vec<String>) -> (r: Result<
    Vec<Vec<usize>>,
    SemanticError,
>)
    ensures
        all_dependencies_met(depends_on@, completed@) ==> (r matches Ok(groups) && (if depends_on@.len() == 0 {
            groups@.len() == 0
        } else {
            groups@.len() == 1 && groups@[0]@ == Seq::new(depends_on@.len(), |i: int| i as usize)
        })),
        !all_dependencies_met(depends_on@, completed@) ==> (r matches Err(SemanticError::Internal { message })
            && message@ == "Circular dependency detected in pipeline stages"@),
{
    let n = depends_on.len();
    let mut groups: Vec<Vec<usize>> = Vec::new();
    let mut remaining: Vec<usize> = Vec::new();
    let mut k: usize = 0;
    while k < n
        invariant
            k <= n == depends_on@.len(),
            remaining@ == Seq::new(k as nat, |i: int| i as usize),
        decreases n - k,
    {
        remaining.push(k);
        k = k + 1;
        assert(remaining@ =~= Seq::new(k as nat, |i: int| i as usize));
    }
    let ghost all_met = all_dependencies_met(depends_on@, completed@);
    let ghost ready = |s: usize| dependencies_met(depends_on@[s as int]@, completed@);
    let mut round: usize = 0;
    while remaining.len() > 0
        invariant
            n == depends_on@.len(),
            all_met == all_dependencies_met(depends_on@, completed@),
            ready == (|s: usize| dependencies_met(depends_on@[s as int]@, completed@)),
            forall|x: int| 0 <= x < remaining@.len() ==> (#[trigger] remaining@[x]) < n,
            round == 0 ==> remaining@ == Seq::new(n as nat, |i: int| i as usize) && groups@.len() == 0,
            round == 1 ==> groups@.len() == 1 && (all_met ==> groups@[0]@ == Seq::new(n as nat, |i: int| i as usize))
                && (forall|x: int| 0 <= x < remaining@.len() ==> !ready(#[trigger] remaining@[x])) && (!all_met
                ==> remaining@.len() > 0),
            round <= 1,
            round == 1 ==> n > 0,
        decreases remaining@.len() + 2 - round,
    {
        let mut current: Vec<usize> = Vec::new();
        let mut next: Vec<usize> = Vec::new();
        let mut j: usize = 0;
        while j < remaining.len()
            invariant
                n == depends_on@.len(),
                all_met == all_dependencies_met(depends_on@, completed@),
                ready == (|s: usize| dependencies_met(depends_on@[s as int]@, completed@)),
                j <= remaining@.len(),
                forall|x: int| 0 <= x < remaining@.len() ==> (#[trigger] remaining@[x]) < n,
                round == 0 ==> remaining@ == Seq::new(n as nat, |i: int| i as usize),
                round >= 1 ==> forall|x: int| 0 <= x < remaining@.len() ==> !ready(#[trigger] remaining@[x]),
                forall|k: int| 0 <= k < current@.len() ==> (#[trigger] current@[k]) < n && ready(current@[k]),
                forall|k: int| 0 <= k < next@.len() ==> (#[trigger] next@[k]) < n && !ready(next@[k]),
                all_met ==> current@ == remaining@.subrange(0, j as int) && next@.len() == 0,
                round == 0 && next@.len() == 0 ==> forall|x: int| 0 <= x < j ==> ready(#[trigger] remaining@[x]),
                round >= 1 ==> current@.len() == 0 && next@ == remaining@.subrange(0, j as int),
                current@.len() + next@.len() == j,
            decreases remaining@.len() - j,
        {
            let s = remaining[j];
            let ok = dependencies_satisfied(&depends_on[s], completed);
            assert(ok == ready(s));
            if ok {
                current.push(s);
            } else {
                next.push(s);
            }
            j = j + 1;
            proof {
                if all_met {
                    assert(ready(s));
                }
                assert(remaining@.subrange(0, j as int) =~= remaining@.subrange(0, j - 1).push(s));
            }
        }
        if current.len() == 0 && next.len() > 0 {
            proof {
                if all_met {
                    let x = next@[0];
                    assert(!ready(x));
                    assert(dependencies_met(depends_on@[x as int]@, completed@));
                }
            }
            return Err(SemanticError::Internal {
                message: "Circular dependency detected in pipeline stages".to_owned(),
            });
        }
        proof {
            assert(remaining@.subrange(0, remaining@.len() as int) =~= remaining@);
            if round == 0 && !all_met {
                if next@.len() == 0 {
                    assert forall|i: int| 0 <= i < depends_on@.len() implies dependencies_met(
                        #[trigger] depends_on@[i]@,
                        completed@,
                    ) by {
                        assert(remaining@[i] == i as usize);
                        assert(ready(remaining@[i]));
                    }
                }
            }
        }
        groups.push(current);
        remaining = next;
        round = round + 1;
    }
    Ok(groups)
}

/// The tags joined by commas.
pub open spec fn joined_with_commas(tags: Seq<String>) -> Seq<char>
    decreases tags.len(),
{
    if tags.len() == 0 {
        seq![]
    } else if tags.len() == 1 {
        tags[0]@
    } else {
        joined_with_commas(tags.drop_last()) + ","@ + tags.last()@
    }
}

/// The tags joined by commas (`tags.join(",")`).
pub fn join_tags(tags: &Vec<String>) -> (r: String)
    ensures
        r@ == joined_with_commas(tags@),
{
    let mut out: Vec<char> = Vec::new();
    let mut i: usize = 0;
    while i < tags.len()
        invariant
            i <= tags@.len(),
            out@ == joined_with_commas(tags@.subrange(0, i as int)),
        decreases tags@.len() - i,
    {
        let ghost before = out@;
        if i > 0 {
            crate::text::push_str_chars(&mut out, ",");
        }
        crate::text::push_str_chars(&mut out, tags[i].as_str());
        i = i + 1;
        proof {
            let t = tags@.subrange(0, i as int);
            assert(t.drop_last() =~= tags@.subrange(0, i - 1));
            if i == 1 {
                assert(before =~= Seq::<char>::empty());
                assert(out@ =~= t[0]@);
            }
        }
    }
    assert(tags@.subrange(0, tags@.len() as int) =~= tags@);
    string_from_chars(out.as_slice())
}

/// The word for a stage's outcome in stage conditions.
pub open spec fn stage_outcome_word(status: Option<StageStatus>) -> Seq<char> {
    match status {
        Some(StageStatus::Success) => "success"@,
        Some(StageStatus::Failed(_)) => "failed"@,
        Some(StageStatus::Skipped(_)) => "skipped"@,
        Some(_) => "unknown"@,
        None => "not_executed"@,
    }
}

/// The value a condition inspects. The environment variable's value (empty
/// when unset), whether the named file exists, and the status of the named
/// stage are observed by the caller.
pub open spec fn condition_subject(
    condition_type: ConditionType,
    git: GitInfo,
    environment_value: Seq<char>,
    file_exists: bool,
    stage_status: Option<StageStatus>,
) -> Seq<char> {
    match condition_type {
        ConditionType::Environment => environment_value,
        ConditionType::Branch => git.branch@,
        ConditionType::Tag => joined_with_commas(git.tags@),
        ConditionType::FileExists => if file_exists { "true"@ } else { "false"@ },
        ConditionType::StageResult => stage_outcome_word(stage_status),
    }
}

/// Whether `actual` relates to `expected` as the operator asks; pattern
/// matching is a substring test.
pub open spec fn operator_holds(actual: Seq<char>, operator: ConditionOperator, expected: Seq<char>) -> bool {
    match operator {
        ConditionOperator::Equals => actual == expected,
        ConditionOperator::NotEquals => actual != expected,
        ConditionOperator::Contains => seq_contains(actual, expected),
        ConditionOperator::NotContains => !seq_contains(actual, expected),
        ConditionOperator::Matches => seq_contains(actual, expected),
        ConditionOperator::NotMatches => !seq_contains(actual, expected),
    }
}

/// What a stage-result condition sees: a stage that failed reads `failed`,
/// one that succeeded `success`, one that was skipped `skipped`, and a
/// stage with no result `not_executed`. So an `Equals` condition on the
/// result holds exactly when its value is that word.
pub proof fn law_stage_result_words(
    git: GitInfo,
    environment_value: Seq<char>,
    file_exists: bool,
    message: String,
    expected: Seq<char>,
)
    ensures
        operator_holds(
            condition_subject(ConditionType::StageResult, git, environment_value, file_exists, Some(StageStatus::Failed(message))),
            ConditionOperator::Equals,
            expected,
        ) <==> expected == "failed"@,
        operator_holds(
            condition_subject(ConditionType::StageResult, git, environment_value, file_exists, Some(StageStatus::Success)),
            ConditionOperator::Equals,
            expected,
        ) <==> expected == "success"@,
        operator_holds(
            condition_subject(ConditionType::StageResult, git, environment_value, file_exists, Some(StageStatus::Skipped(message))),
            ConditionOperator::Equals,
            expected,
        ) <==> expected == "skipped"@,
        operator_holds(
            condition_subject(ConditionType::StageResult, git, environment_value, file_exists, None),
            ConditionOperator::Equals,
            expected,
        ) <==> expected == "not_executed"@,
{
}

/// What the other conditions see: the branch, the environment variable's
/// value, `true` or `false` for a file's existence; a stage still pending or
/// running reads `unknown`.
pub proof fn law_condition_subjects(
    git: GitInfo,
    environment_value: Seq<char>,
    file_exists: bool,
    expected: Seq<char>,
)
    ensures
        operator_holds(
            condition_subject(ConditionType::Branch, git, environment_value, file_exists, None),
            ConditionOperator::Equals,
            expected,
        ) <==> expected == git.branch@,
        operator_holds(
            condition_subject(ConditionType::Environment, git, environment_value, file_exists, None),
            ConditionOperator::Equals,
            expected,
        ) <==> expected == environment_value,
        operator_holds(
            condition_subject(ConditionType::FileExists, git, environment_value, file_exists, None),
            ConditionOperator::Equals,
            expected,
        ) <==> expected == (if file_exists { "true"@ } else { "false"@ }),
        operator_holds(
            condition_subject(ConditionType::StageResult, git, environment_value, file_exists, Some(StageStatus::Pending)),
            ConditionOperator::Equals,
            expected,
        ) <==> expected == "unknown"@,
        operator_holds(
            condition_subject(ConditionType::StageResult, git, environment_value, file_exists, Some(StageStatus::Running)),
            ConditionOperator::Equals,
            expected,
        ) <==> expected == "unknown"@,
{
}

/// The operators: each negative one is the negation of its positive one,
/// `Contains` and `Matches` hold when the value occurs in what is observed,
/// and `Equals` when the two are the same.
pub proof fn law_condition_operators(actual: Seq<char>, expected: Seq<char>)
    ensures
        operator_holds(actual, ConditionOperator::Equals, expected) <==> actual == expected,
        operator_holds(actual, ConditionOperator::NotEquals, expected) <==> !operator_holds(
            actual,
            ConditionOperator::Equals,
            expected,
        ),
        operator_holds(actual, ConditionOperator::Contains, expected) <==> exists|i: int| occurs_at(actual, i, expected),
        operator_holds(actual, ConditionOperator::NotContains, expected) <==> !operator_holds(
            actual,
            ConditionOperator::Contains,
            expected,
        ),
        operator_holds(actual, ConditionOperator::Matches, expected) <==> operator_holds(
            actual,
            ConditionOperator::Contains,
            expected,
        ),
        operator_holds(actual, ConditionOperator::NotMatches, expected) <==> !operator_holds(
            actual,
            ConditionOperator::Contains,
            expected,
        ),
{
}

/// Expanding a pipeline variable: a command that holds one variable once,
/// and no other `$`, becomes the command with the variable's value in its
/// place (the project name, the version, the git branch or the commit
/// hash), when none of the values substituted holds a `$`.
pub proof fn law_variable_expansion(a: Seq<char>, b: Seq<char>, context: PipelineContext)
    requires
        free_of(a, '$'),
        free_of(b, '$'),
        free_of(context.project.name@, '$'),
        free_of(context.version.current@, '$'),
        free_of(context.git.branch@, '$'),
        free_of(context.git.commit_hash@, '$'),
    ensures
        expanded_command(a + "${PROJECT_NAME}"@ + b, context) == a + context.project.name@ + b,
        expanded_command(a + "${VERSION}"@ + b, context) == a + context.version.current@ + b,
        expanded_command(a + "${BRANCH}"@ + b, context) == a + context.git.branch@ + b,
        expanded_command(a + "${COMMIT_HASH}"@ + b, context) == a + context.git.commit_hash@ + b,
{
    reveal_strlit("${PROJECT_NAME}");
    reveal_strlit("${VERSION}");
    reveal_strlit("${BRANCH}");
    reveal_strlit("${COMMIT_HASH}");
    let pn = "${PROJECT_NAME}"@;
    let vs = "${VERSION}"@;
    let br = "${BRANCH}"@;
    let ch = "${COMMIT_HASH}"@;
    let name = context.project.name@;
    let version = context.version.current@;
    let branch = context.git.branch@;
    let commit = context.git.commit_hash@;
    assert forall|k: int| 0 < k < pn.len() implies pn[k] != '$' by {}
    assert forall|k: int| 0 < k < vs.len() implies vs[k] != '$' by {}
    assert forall|k: int| 0 < k < br.len() implies br[k] != '$' by {}
    assert forall|k: int| 0 < k < ch.len() implies ch[k] != '$' by {}
    // `${PROJECT_NAME}`
    lemma_replace_single(a, pn, b, name);
    lemma_join_free(a, name, b, '$');
    let t = a + name + b;
    lemma_absent_when_free(t, vs);
    crate::text::law_replace_absent_pattern(t, vs, version);
    lemma_absent_when_free(t, br);
    crate::text::law_replace_absent_pattern(t, br, branch);
    lemma_absent_when_free(t, ch);
    crate::text::law_replace_absent_pattern(t, ch, commit);
    // `${VERSION}`
    lemma_other_absent(a, vs, b, pn, 2);
    crate::text::law_replace_absent_pattern(a + vs + b, pn, name);
    lemma_replace_single(a, vs, b, version);
    lemma_join_free(a, version, b, '$');
    let u = a + version + b;
    lemma_absent_when_free(u, br);
    crate::text::law_replace_absent_pattern(u, br, branch);
    lemma_absent_when_free(u, ch);
    crate::text::law_replace_absent_pattern(u, ch, commit);
    // `${BRANCH}`
    lemma_other_absent(a, br, b, pn, 2);
    crate::text::law_replace_absent_pattern(a + br + b, pn, name);
    lemma_other_absent(a, br, b, vs, 2);
    crate::text::law_replace_absent_pattern(a + br + b, vs, version);
    lemma_replace_single(a, br, b, branch);
    lemma_join_free(a, branch, b, '$');
    let w = a + branch + b;
    lemma_absent_when_free(w, ch);
    crate::text::law_replace_absent_pattern(w, ch, commit);
    // `${COMMIT_HASH}`
    lemma_other_absent(a, ch, b, pn, 2);
    crate::text::law_replace_absent_pattern(a + ch + b, pn, name);
    lemma_other_absent(a, ch, b, vs, 2);
    crate::text::law_replace_absent_pattern(a + ch + b, vs, version);
    lemma_other_absent(a, ch, b, br, 2);
    crate::text::law_replace_absent_pattern(a + ch + b, br, branch);
    lemma_replace_single(a, ch, b, commit);
}

/// Evaluates a stage condition against the observed values.
pub fn evaluate_condition(
    condition: &StageCondition,
    git: &GitInfo,
    environment_value: &str,
    file_exists: bool,
    stage_status: Option<&StageStatus>,
) -> (r: bool)
    ensures
        r == operator_holds(
            condition_subject(
                condition.condition_type,
                *git,
                environment_value@,
                file_exists,
                match stage_status {
                    Some(st) => Some(*st),
                    None => None,
                },
            ),
            condition.operator,
            condition.value@,
        ),
{
    let actual: String = match condition.condition_type {
        ConditionType::Environment => environment_value.to_owned(),
        ConditionType::Branch => git.branch.as_str().to_owned(),
        ConditionType::Tag => join_tags(&git.tags),
        ConditionType::FileExists => if file_exists {
            "true".to_owned()
        } else {
            "false".to_owned()
        },
        ConditionType::StageResult => match stage_status {
            Some(StageStatus::Success) => "success".to_owned(),
            Some(StageStatus::Failed(_)) => "failed".to_owned(),
            Some(StageStatus::Skipped(_)) => "skipped".to_owned(),
            Some(_) => "unknown".to_owned(),
            None => "not_executed".to_owned(),
        },
    };
    match condition.operator {
        ConditionOperator::Equals => str_eq(actual.as_str(), condition.value.as_str()),
        ConditionOperator::NotEquals => !str_eq(actual.as_str(), condition.value.as_str()),
        ConditionOperator::Contains => str_contains(actual.as_str(), condition.value.as_str()),
        ConditionOperator::NotContains => !str_contains(actual.as_str(), condition.value.as_str()),
        ConditionOperator::Matches => str_contains(actual.as_str(), condition.value.as_str()),
        ConditionOperator::NotMatches => !str_contains(actual.as_str(), condition.value.as_str()),
    }
}

/// The status of a pipeline: completed once the current stage is past the
/// last, failed once a stage has failed, running once a stage has started,
/// pending otherwise.
pub fn pipeline_status(current_stage: usize, stage_count: usize, any_failed: bool) -> (r: PipelineStatus)
    ensures
        current_stage >= stage_count ==> r is Completed,
        current_stage < stage_count && any_failed ==> r is Failed,
        current_stage < stage_count && !any_failed && current_stage > 0 ==> r is Running,
        current_stage < stage_count && !any_failed && current_stage == 0 ==> r is Pending,
{
    if current_stage >= stage_count {
        PipelineStatus::Completed
    } else if any_failed {
        PipelineStatus::Failed
    } else if current_stage > 0 {
        PipelineStatus::Running
    } else {
        PipelineStatus::Pending
    }
}

/// The step a sequential run of a pipeline takes next.
#[derive(Debug, Clone, Copy, PartialEq, Eq, Structural)]
pub enum RunStep {
    /// Evaluate the conditions of the stage.
    CheckConditions(usize),
    /// Execute the stage.
    Execute(usize),
    /// Check the quality gates against the stage's result.
    CheckGates(usize),
    /// Nothing is left to do.
    Done,
}

/// What the runner learnt from the step it took.
#[derive(Debug, Clone, Copy, PartialEq, Eq, Structural)]
pub enum RunOutcome {
    /// Whether every condition of the stage holds.
    Conditions(bool),
    /// Whether the executed stage failed.
    Executed(bool),
    /// The quality gates let the run go on.
    GatesPassed,
}

/// What the runner records after a step.
#[derive(Debug, Clone, Copy, PartialEq, Eq, Structural)]
pub enum RunEffect {
    /// Nothing.
    Nothing,
    /// The stage is skipped: a condition does not hold.
    RecordSkipped(usize),
    /// The stage's result is recorded; when it failed, the run stops with
    /// that failure.
    RecordResult { stage: usize, failed: bool },
}

/// The first step for the stage at `index`, or the end of the run.
pub open spec fn step_for(index: int, stage_count: usize) -> RunStep {
    if index < stage_count { RunStep::CheckConditions(index as usize) } else { RunStep::Done }
}

/// Whether an outcome answers a step.
pub open spec fn answers(step: RunStep, outcome: RunOutcome) -> bool {
    match step {
        RunStep::CheckConditions(_) => outcome is Conditions,
        RunStep::Execute(_) => outcome is Executed,
        RunStep::CheckGates(_) => outcome is GatesPassed,
        RunStep::Done => false,
    }
}

/// The decisions of a sequential pipeline run, stage after stage: a stage
/// whose conditions do not all hold is skipped; a stage that runs has its
/// result checked by the quality gates and recorded; a failed stage stops
/// the run.
pub struct SequentialRun {
    stage_count: usize,
    current_stage: usize,
    step: RunStep,
    failed: bool,
}

impl SequentialRun {
    /// The step's stage is the current one, and lies among the stages.
    #[verifier::type_invariant]
    spec fn well_formed(&self) -> bool {
        match self.step {
            RunStep::CheckConditions(i) => i < self.stage_count && i == self.current_stage,
            RunStep::Execute(i) => i < self.stage_count && i == self.current_stage,
            RunStep::CheckGates(i) => i < self.stage_count && i == self.current_stage,
            RunStep::Done => self.current_stage <= self.stage_count,
        }
    }

    /// The number of stages.
    pub closed spec fn stage_count(&self) -> usize {
        self.stage_count
    }

    /// The index of the stage being handled.
    pub closed spec fn current(&self) -> usize {
        self.current_stage
    }

    /// The step to take next.
    pub closed spec fn step(&self) -> RunStep {
        self.step
    }

    /// Whether the last executed stage failed.
    pub closed spec fn failed(&self) -> bool {
        self.failed
    }

    /// A run of `stage_count` stages, before its first step.
    pub fn new(stage_count: usize) -> (r: Self)
        ensures
            r.stage_count() == stage_count,
            r.current() == 0,
            r.step() == step_for(0, stage_count),
            !r.failed(),
    {
        let step = if 0 < stage_count { RunStep::CheckConditions(0) } else { RunStep::Done };
        SequentialRun { stage_count, current_stage: 0, step, failed: false }
    }

    /// The step to take next.
    pub fn next_step(&self) -> (r: RunStep)
        ensures
            r == self.step(),
    {
        self.step
    }

    /// The index of the stage being handled.
    pub fn current_stage(&self) -> (r: usize)
        ensures
            r == self.current(),
    {
        self.current_stage
    }

    /// Takes in the outcome of the step taken and says what to record.
    pub fn advance(&mut self, outcome: RunOutcome) -> (r: RunEffect)
        requires
            answers(old(self).step(), outcome),
        ensures
            final(self).stage_count() == old(self).stage_count(),
            match (old(self).step(), outcome) {
                (RunStep::CheckConditions(i), RunOutcome::Conditions(true)) => r == RunEffect::Nothing
                    && final(self).step() == RunStep::Execute(i) && final(self).current() == i
                    && final(self).failed() == old(self).failed(),
                (RunStep::CheckConditions(i), RunOutcome::Conditions(false)) => r == RunEffect::RecordSkipped(i)
                    && final(self).step() == step_for(i + 1, old(self).stage_count())
                    && final(self).current() == i + 1 && final(self).failed() == old(self).failed(),
                (RunStep::Execute(i), RunOutcome::Executed(f)) => r == RunEffect::Nothing
                    && final(self).step() == RunStep::CheckGates(i) && final(self).current() == i
                    && final(self).failed() == f,
                (RunStep::CheckGates(i), RunOutcome::GatesPassed) => r == (RunEffect::RecordResult {
                    stage: i,
                    failed: old(self).failed(),
                }) && final(self).step() == (if old(self).failed() {
                    RunStep::Done
                } else {
                    step_for(i + 1, old(self).stage_count())
                }) && final(self).current() == (if old(self).failed() { i } else { (i + 1) as usize })
                    && final(self).failed() == old(self).failed(),
                _ => false,
            },
    {
        proof {
            use_type_invariant(&*self);
        }
        let count = self.stage_count;
        match (self.step, outcome) {
            (RunStep::CheckConditions(i), RunOutcome::Conditions(true)) => {
                *self = SequentialRun { stage_count: count, current_stage: i, step: RunStep::Execute(i), failed: self.failed };
                RunEffect::Nothing
            },
            (RunStep::CheckConditions(i), RunOutcome::Conditions(false)) => {
                let step = if i + 1 < count { RunStep::CheckConditions(i + 1) } else { RunStep::Done };
                *self = SequentialRun { stage_count: count, current_stage: i + 1, step, failed: self.failed };
                RunEffect::RecordSkipped(i)
            },
            (RunStep::Execute(i), RunOutcome::Executed(f)) => {
                *self = SequentialRun { stage_count: count, current_stage: i, step: RunStep::CheckGates(i), failed: f };
                RunEffect::Nothing
            },
            (RunStep::CheckGates(i), _) => {
                let failed = self.failed;
                if failed {
                    *self = SequentialRun { stage_count: count, current_stage: i, step: RunStep::Done, failed };
                } else {
                    let step = if i + 1 < count { RunStep::CheckConditions(i + 1) } else { RunStep::Done };
                    *self = SequentialRun { stage_count: count, current_stage: i + 1, step, failed };
                }
                RunEffect::RecordResult { stage: i, failed }
            },
            _ => RunEffect::Nothing,
        }
    }
}

impl GitInfo {
    /// The repository information the pipeline works with.
    pub fn from_git() -> (r: Result<Self, SemanticError>)
        ensures
            r matches Ok(g) && {
                &&& g.branch@ == "main"@
                &&& g.commit_hash@ == "abcd1234"@
                &&& g.commit_message@ == "Latest commit"@
                &&& g.author@ == "Developer"@
                &&& g.timestamp@ == "2024-01-01T00:00:00Z"@
                &&& g.repository_url@ == "https://github.com/user/aetherscript"@
                &&& g.tags@.len() == 1
                &&& g.tags@[0]@ == "v1.0.0"@
            },
    {
        Ok(GitInfo {
            branch: "main".to_owned(),
            commit_hash: "abcd1234".to_owned(),
            commit_message: "Latest commit".to_owned(),
            author: "Developer".to_owned(),
            timestamp: "2024-01-01T00:00:00Z".to_owned(),
            repository_url: "https://github.com/user/aetherscript".to_owned(),
            tags: vec!["v1.0.0".to_owned()],
        })
    }
}

impl PipelineContext {
    /// The pipeline context for the AetherScript project, with the given
    /// description of the machine it runs on.
    pub fn from_environment(environment: EnvironmentInfo) -> (r: Result<Self, SemanticError>)
        ensures
            r matches Ok(c) && {
                &&& c.project.name@ == "aetherscript"@
                &&& c.project.description@ == "AetherScript Programming Language"@
                &&& c.project.homepage@ == "https://aetherscript.dev"@
                &&& c.project.repository@ == "https://github.com/user/aetherscript"@
                &&& c.project.license@ == "MIT"@
                &&& c.version.current@ == "1.0.0"@
                &&& c.version.scheme is SemVer
                &&& c.version.prerelease is None
                &&& c.version.build_metadata is None
                &&& c.version.version_file@ == "version.txt"@
                &&& !c.version.auto_increment.enabled
                &&& c.project.authors@.len() == 1 && c.project.authors@[0]@ == "AetherScript Team"@
                &&& c.project.keywords@.len() == 2 && c.project.keywords@[0]@ == "compiler"@
                    && c.project.keywords@[1]@ == "language"@
                &&& c.project.categories@.len() == 1 && c.project.categories@[0]@ == "development"@
                &&& c.version.auto_increment.increment_type is Patch
                &&& c.version.auto_increment.prerelease_handling is Keep
                &&& c.build_metadata@ == Map::<String, String>::empty()
                &&& c.git.branch@ == "main"@
                &&& c.git.commit_hash@ == "abcd1234"@
                &&& c.git.commit_message@ == "Latest commit"@
                &&& c.git.author@ == "Developer"@
                &&& c.git.timestamp@ == "2024-01-01T00:00:00Z"@
                &&& c.git.repository_url@ == "https://github.com/user/aetherscript"@
                &&& c.git.repository_url@ == c.project.repository@
                &&& c.git.tags@.len() == 1 && c.git.tags@[0]@ == "v1.0.0"@
                &&& c.environment == environment
            },
    {
        let git = match GitInfo::from_git() {
            Ok(g) => g,
            Err(e) => return Err(e),
        };
        let repository = git.repository_url.clone();
        Ok(PipelineContext {
            project: ProjectInfo {
                name: "aetherscript".to_owned(),
                description: "AetherScript Programming Language".to_owned(),
                homepage: "https://aetherscript.dev".to_owned(),
                repository,
                license: "MIT".to_owned(),
                authors: vec!["AetherScript Team".to_owned()],
                keywords: vec!["compiler".to_owned(), "language".to_owned()],
                categories: vec!["development".to_owned()],
            },
            version: VersionInfo {
                current: "1.0.0".to_owned(),
                scheme: VersionScheme::SemVer,
                prerelease: None,
                build_metadata: None,
                version_file: "version.txt".to_owned(),
                auto_increment: AutoIncrementConfig {
                    enabled: false,
                    increment_type: IncrementType::Patch,
                    prerelease_handling: PrereleaseHandling::Keep,
                },
            },
            build_metadata: HashMap::new(),
            git,
            environment,
        })
    }
}


impl Default for NotificationConfig {
    /// No channels, triggers or templates.
    fn default() -> (r: Self)
        ensures
            r.channels@.len() == 0,
            r.triggers@.len() == 0,
            r.templates@ == Map::<String, String>::empty(),
    {
        NotificationConfig { channels: Vec::new(), triggers: Vec::new(), templates: HashMap::new() }
    }
}

impl Default for TimeoutConfig {
    /// Five minutes a stage, an hour for the pipeline, half an hour to build,
    /// twenty minutes to test and ten to deploy.
    fn default() -> (r: Self)
        ensures
            r.default_stage == 300,
            r.pipeline == 3600,
            r.build == 1800,
            r.test == 1200,
            r.deploy == 600,
    {
        TimeoutConfig { default_stage: 300, pipeline: 3600, build: 1800, test: 1200, deploy: 600 }
    }
}

impl Default for ParallelConfig {
    /// Sequential, at most four stages at once when enabled, no groups.
    fn default() -> (r: Self)
        ensures
            !r.enabled,
            r.max_parallel == 4,
            r.stage_groups@.len() == 0,
    {
        ParallelConfig { enabled: false, max_parallel: 4, stage_groups: Vec::new() }
    }
}

} // verus!
