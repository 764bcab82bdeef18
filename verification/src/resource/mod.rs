//! Resource lifecycle analysis, and the check of a module's functions
//! against it.

pub mod analysis;

use vstd::prelude::*;
use crate::ast::{Function, Module};
use crate::error::{ErrorKind, SemanticError};
use crate::resource::analysis::{empty_resource_state, function_run, ResourceAnalysisResults, ResourceAnalyzer, ResourceState};
use crate::semantic::agrees_unit;
use crate::semantic::symbols::Fault;
use crate::text::concat;

verus! {

/// The functions of a module in order, up to the first error.
pub open spec fn functions_run(st: ResourceState, fs: Seq<Function>) -> (ResourceState, Result<(), Fault>)
    decreases fs.len(),
{
    if fs.len() == 0 {
        (st, Ok(()))
    } else {
        let (s1, r1) = function_run(st, fs[0]);
        match r1 {
            Err(f) => (s1, Err(f)),
            Ok(_) => functions_run(s1, fs.subrange(1, fs.len() as int)),
        }
    }
}

/// The findings reported as an error: the first leak, else the first double
/// release, else the first use after a release.
pub open spec fn findings_report(st: ResourceState) -> Result<(), Fault> {
    if st.leaks.len() > 0 {
        Err((ErrorKind::ResourceLeak, st.leaks[0].1))
    } else if st.double_releases.len() > 0 {
        Err((ErrorKind::InvalidOperation, Seq::empty()))
    } else if st.uses_after_release.len() > 0 {
        Err((ErrorKind::InvalidOperation, Seq::empty()))
    } else {
        Ok(())
    }
}

/// Checks the resource usage of modules; the findings accumulate over the
/// modules it checks.
pub struct ResourceManager {
    analyzer: ResourceAnalyzer,
}

impl ResourceManager {
    /// The state of the underlying analysis.
    pub closed spec fn state(&self) -> ResourceState {
        self.analyzer.state()
    }

    /// A manager with no finding.
    pub fn new() -> (r: Self)
        ensures
            r.state() == empty_resource_state(),
    {
        ResourceManager { analyzer: ResourceAnalyzer::new() }
    }

    /// Analyses each function of the module in order, then reports the first
    /// finding recorded so far.
    pub fn validate_module(&mut self, module: &Module) -> (r: Result<(), SemanticError>)
        ensures
            ({
                let (st, res) = functions_run(old(self).state(), module.function_definitions@);
                &&& final(self).state() == st
                &&& agrees_unit(r, match res {
                    Err(f) => Err(f),
                    Ok(_) => findings_report(st),
                })
            }),
    {
        let ghost fs = module.function_definitions@;
        let n = module.function_definitions.len();
        let mut i: usize = 0;
        assert(fs.subrange(0, n as int) =~= fs);
        while i < n
            invariant
                n == fs.len(),
                fs == module.function_definitions@,
                i <= n,
                functions_run(old(self).state(), fs) == functions_run(self.state(), fs.subrange(i as int, n as int)),
            decreases n - i,
        {
            let ghost rest = fs.subrange(i as int, n as int);
            assert(rest.subrange(1, rest.len() as int) =~= fs.subrange(i + 1, n as int));
            assert(rest[0] == fs[i as int]);
            self.analyzer.analyze_function(&module.function_definitions[i])?;
            i = i + 1;
        }
        assert(fs.subrange(n as int, n as int).len() == 0);
        let results = self.analyzer.get_results();
        if results.leaks.len() > 0 {
            let leak = &results.leaks[0];
            return Err(SemanticError::ResourceLeak {
                resource_type: leak.resource_type.clone(),
                binding: leak.binding.clone(),
                location: leak.acquisition_location.duplicate(),
            });
        }
        if results.double_releases.len() > 0 {
            let double = &results.double_releases[0];
            return Err(SemanticError::InvalidOperation {
                operation: "double release".to_owned(),
                reason: concat(concat("Resource '", double.binding.as_str()).as_str(), "' was released twice"),
                location: double.second_release.duplicate(),
            });
        }
        if results.use_after_release.len() > 0 {
            let late = &results.use_after_release[0];
            return Err(SemanticError::InvalidOperation {
                operation: "use after release".to_owned(),
                reason: concat(concat("Resource '", late.binding.as_str()).as_str(), "' used after being released"),
                location: late.use_location.duplicate(),
            });
        }
        Ok(())
    }

    /// The findings so far.
    pub fn get_results(&self) -> (r: &ResourceAnalysisResults)
        ensures
            r.max_concurrent_resources == self.state().max_concurrent,
            crate::resource::analysis::leak_views(r.leaks@) == self.state().leaks,
            crate::resource::analysis::double_views(r.double_releases@) == self.state().double_releases,
            crate::resource::analysis::use_views(r.use_after_release@) == self.state().uses_after_release,
            crate::resource::analysis::violation_views(r.contract_violations@) == self.state().contract_violations,
    {
        self.analyzer.get_results()
    }
}

} // verus!
