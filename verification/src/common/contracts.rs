//! Values handed from routing to execution.

use vstd::prelude::*;

verus! {

/// One hop of a route and the hops configured to follow it.
#[derive(Debug)]
pub struct RoutePlan {
    /// Vendor identifier (e.g., "openai")
    pub vendor_id: String,
    /// Catalog target identity, used for circuits and pricing
    pub target_id: String,
    /// Provider model sent on the wire
    pub model_id: String,
    /// Largest completion that the target may be asked for
    pub max_output_tokens: u32,
    /// Configured fallback hops in catalog order
    pub fallback_plans: Vec<RoutePlan>,
}

impl RoutePlan {
    /// Number of hops: the primary and its fallbacks.
    pub open spec fn hop_count(self) -> nat {
        1 + self.fallback_plans@.len()
    }

    /// Hop `index`: the plan itself, then its fallbacks in order.
    pub open spec fn hop(self, index: nat) -> RoutePlan {
        if index == 0 {
            self
        } else {
            self.fallback_plans@[index - 1]
        }
    }
}

} // verus!
