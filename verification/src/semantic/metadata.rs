//! Semantic metadata attached to types, functions and blocks.

use vstd::prelude::*;
use std::collections::HashMap;
use crate::keyed::KeyedList;
use crate::text::{concat, push_str_chars, string_from_chars};

verus! {

/// Semantic type definition beyond primitive types
#[derive(Debug, Clone)]
pub struct SemanticType {
    /// Name of the semantic type (e.g., "email_address")
    pub name: String,
    /// Base primitive type
    pub base_type: String,
    /// Regex or other constraint
    pub constraint: Option<String>,
    /// Semantic category for LLM understanding
    pub semantic_category: String,
    /// Privacy level for data handling
    pub privacy_level: Option<PrivacyLevel>,
    /// Additional semantic hints
    pub hints: Vec<String>,
}

#[derive(Debug, Clone)]
pub enum PrivacyLevel {
    Public,
    Internal,
    Confidential,
    PersonallyIdentifiable,
    HighlySensitive,
}

#[derive(Debug, Clone)]
pub struct SideEffect {
    /// Type of side effect
    pub effect_type: SideEffectType,
    /// Target of the effect (e.g., "database", "file_system")
    pub target: String,
    /// Description of the effect
    pub description: String,
}

#[derive(Debug, Clone)]
pub enum SideEffectType {
    ModifiesState,
    PerformsIO,
    NetworkRequest,
    ModifiesDatabase,
    SendsNotification,
    ModifiesFileSystem,
    AllocatesResources,
}

#[derive(Debug, Clone)]
pub struct StateChange {
    /// What was modified
    pub target: String,
    /// Type of modification
    pub change_type: String,
    /// Description
    pub description: String,
}

/// Proof specification for formal verification
#[derive(Debug, Clone)]
pub struct ProofSpec {
    /// Theorem being proved
    pub theorem: String,
    /// Given conditions
    pub givens: Vec<String>,
    /// Proof steps
    pub steps: Vec<ProofStep>,
    /// Verification method used
    pub method: VerificationMethod,
    /// QED marker
    pub qed: bool,
}

#[derive(Debug, Clone)]
pub struct ProofStep {
    /// Step identifier
    pub id: String,
    /// Statement in this step
    pub statement: String,
    /// Justification for the step
    pub justification: String,
    /// References to previous steps
    pub references: Vec<String>,
}

#[derive(Debug, Clone)]
pub enum VerificationMethod {
    DirectProof,
    Induction,
    Contradiction,
    ModelChecking,
    SymbolicExecution,
    SMTSolver,
}

/// Resource contract specification
#[derive(Debug, Clone)]
pub struct ResourceContract {
    /// Maximum memory usage in MB
    pub max_memory_mb: Option<u64>,
    /// Maximum number of file handles
    pub max_file_handles: Option<u32>,
    /// Maximum execution time in ms
    pub max_execution_time_ms: Option<u64>,
    /// Maximum network bandwidth in KB/s
    pub max_bandwidth_kbps: Option<u64>,
    /// Maximum CPU cores to use
    pub max_cpu_cores: Option<u32>,
    /// Enforcement mechanism
    pub enforcement: EnforcementLevel,
}

#[derive(Debug, Clone)]
pub enum EnforcementLevel {
    /// Just monitor and log
    Monitor,
    /// Warn when approaching limits
    Warn,
    /// Hard enforce with runtime errors
    Enforce,
    /// Enforce with graceful degradation
    GracefulDegrade,
}

/// Generation hints for LLMs
#[derive(Debug, Clone)]
pub struct GenerationHints {
    /// Preferred coding style
    pub style_preference: StylePreference,
    /// Patterns to include
    pub include_patterns: Vec<String>,
    /// Patterns to avoid
    pub avoid_patterns: Vec<String>,
    /// Optimization level
    pub optimization_level: OptimizationLevel,
    /// Additional hints
    pub custom_hints: HashMap<String, String>,
}

#[derive(Debug, Clone)]
pub enum StylePreference {
    Defensive,      // Lots of validation
    Performance,    // Optimize for speed
    Readable,       // Optimize for clarity
    Minimal,        // Least code possible
    Comprehensive,  // Handle all edge cases
}

#[derive(Debug, Clone)]
pub enum OptimizationLevel {
    NoOptimization,
    Size,
    Speed,
    Memory,
    Energy,
}

#[derive(Debug, Clone)]
pub enum ImpactLevel {
    Negligible,
    Minor,
    Moderate,
    Major,
    Critical,
}

/// Semantic block for compositional building
#[derive(Debug, Clone)]
pub struct SemanticBlock {
    /// Block name
    pub name: String,
    /// What this block guarantees
    pub guarantees: BlockGuarantees,
    /// Composition rules
    pub composition_rules: CompositionRules,
    /// Required context
    pub required_context: Vec<String>,
    /// Provided capabilities
    pub provides: Vec<String>,
}

#[derive(Debug, Clone)]
pub struct BlockGuarantees {
    /// Atomicity guarantee
    pub atomicity: bool,
    /// Consistency level
    pub consistency: ConsistencyLevel,
    /// Isolation level
    pub isolation: IsolationLevel,
    /// Durability guarantee
    pub durability: bool,
    /// Additional guarantees
    pub custom: HashMap<String, String>,
}

#[derive(Debug, Clone)]
pub enum ConsistencyLevel {
    Eventual,
    Strong,
    Linearizable,
    Sequential,
    Causal,
}

#[derive(Debug, Clone)]
pub enum IsolationLevel {
    ReadUncommitted,
    ReadCommitted,
    RepeatableRead,
    Serializable,
    Snapshot,
}

#[derive(Debug, Clone)]
pub struct CompositionRules {
    /// Can this block be nested?
    pub can_nest: bool,
    /// Can instances run in parallel?
    pub can_parallelize: bool,
    /// Maximum nesting depth
    pub max_nesting_depth: Option<u32>,
    /// Incompatible with these blocks
    pub incompatible_with: Vec<String>,
    /// Required wrapper blocks
    pub requires_wrapper: Vec<String>,
}

#[derive(Debug, Clone)]
pub struct SemanticVersion {
    /// Major version (breaking changes)
    pub major: u32,
    /// Minor version (new features)
    pub minor: u32,
    /// Patch version (bug fixes)
    pub patch: u32,
    /// Breaking changes description
    pub breaking_changes: Vec<String>,
    /// Migration guide
    pub migration_guide: Option<String>,
}


/// Semantic types and blocks by name, and the generation hints that hold
/// everywhere.
pub struct MetadataRepository {
    /// Semantic types
    pub types: KeyedList<SemanticType>,
    /// Semantic blocks
    pub blocks: KeyedList<SemanticBlock>,
    /// Global generation hints
    pub global_hints: GenerationHints,
}

impl MetadataRepository {
    /// A repository with no type and no block, whose hints ask for defensive
    /// code with validation and error handling, without `unsafe` or `unwrap`,
    /// and no optimisation.
    pub fn new() -> (r: Self)
        ensures
            r.types@ == Map::<Seq<char>, SemanticType>::empty(),
            r.blocks@ == Map::<Seq<char>, SemanticBlock>::empty(),
            r.global_hints.style_preference is Defensive,
            r.global_hints.include_patterns@.map_values(|p: String| p@) == seq!["validation"@, "error_handling"@],
            r.global_hints.avoid_patterns@.map_values(|p: String| p@) == seq!["unsafe"@, "unwrap"@],
            r.global_hints.optimization_level is NoOptimization,
    {
        let mut include_patterns: Vec<String> = Vec::new();
        include_patterns.push("validation".to_owned());
        include_patterns.push("error_handling".to_owned());
        let mut avoid_patterns: Vec<String> = Vec::new();
        avoid_patterns.push("unsafe".to_owned());
        avoid_patterns.push("unwrap".to_owned());
        assert(include_patterns@.map_values(|p: String| p@) =~= seq!["validation"@, "error_handling"@]);
        assert(avoid_patterns@.map_values(|p: String| p@) =~= seq!["unsafe"@, "unwrap"@]);
        MetadataRepository {
            types: KeyedList::new(),
            blocks: KeyedList::new(),
            global_hints: GenerationHints {
                style_preference: StylePreference::Defensive,
                include_patterns,
                avoid_patterns,
                optimization_level: OptimizationLevel::NoOptimization,
                custom_hints: HashMap::new(),
            },
        }
    }

    /// Registers a semantic type under its name, replacing one registered
    /// under that name.
    pub fn register_type(&mut self, semantic_type: SemanticType)
        ensures
            final(self).types@ == old(self).types@.insert(semantic_type.name@, semantic_type),
            final(self).blocks@ == old(self).blocks@,
    {
        let name = semantic_type.name.clone();
        self.types.insert(name, semantic_type);
    }

    /// Registers a semantic block under its name, replacing one registered
    /// under that name.
    pub fn register_block(&mut self, block: SemanticBlock)
        ensures
            final(self).blocks@ == old(self).blocks@.insert(block.name@, block),
            final(self).types@ == old(self).types@,
    {
        let name = block.name.clone();
        self.blocks.insert(name, block);
    }

    /// Checks a value against the semantic type named `semantic_name`: the type
    /// must be registered, and a type with a constraint takes no empty value.
    pub fn validate_semantic_type(&self, semantic_name: &str, value: &str) -> (r: Result<(), String>)
        ensures
            !self.types@.contains_key(semantic_name@) ==> (r matches Err(m) && m@ == "Unknown semantic type: "@ + semantic_name@),
            self.types@.contains_key(semantic_name@) && self.types@[semantic_name@].constraint is Some && value@.len() == 0 ==> (
            r matches Err(m) && m@ == "Value for "@ + semantic_name@ + " cannot be empty"@),
            self.types@.contains_key(semantic_name@) && !(self.types@[semantic_name@].constraint is Some && value@.len() == 0)
                ==> r is Ok,
    {
        match self.types.get(semantic_name) {
            Some(semantic_type) => {
                if semantic_type.constraint.is_some() && value.unicode_len() == 0 {
                    let mut message: Vec<char> = Vec::new();
                    push_str_chars(&mut message, "Value for ");
                    push_str_chars(&mut message, semantic_name);
                    push_str_chars(&mut message, " cannot be empty");
                    return Err(string_from_chars(message.as_slice()));
                }
                Ok(())
            },
            None => Err(concat("Unknown semantic type: ", semantic_name)),
        }
    }
}

} // verus!
