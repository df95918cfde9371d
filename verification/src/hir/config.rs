use vstd::prelude::*;
use crate::hir::aggregate_registry::{AggregateRegistry, builtin_aggregate_names};

verus! {

/// Settings for the HIR lowering pass.
pub struct LowerConfig {
    /// The function names that lowering treats as aggregates.
    pub aggregates: AggregateRegistry,
}

impl Default for LowerConfig {
    /// A configuration whose registry holds exactly the built-in aggregates.
    fn default() -> (r: Self)
        ensures
            r.aggregates@ == builtin_aggregate_names(),
            r.aggregates@ == set![
                "COUNT"@,
                "SUM"@,
                "AVG"@,
                "MIN"@,
                "MAX"@,
                "COLLECT"@,
                "PERCENTILE_CONT"@,
                "PERCENTILE_DISC"@,
                "STDEV"@,
                "STDEVP"@,
                "VAR"@,
                "VARP"@,
            ],
    {
        LowerConfig { aggregates: AggregateRegistry::default() }
    }
}

} // verus!
