//! Endpoint fallback for the Polymarket API.
use vstd::prelude::*;

verus! {

/// Fallback manager for handling Polymarket API failures.
pub struct FallbackManager {
    pub primary_endpoint: String,
    pub fallback_endpoints: Vec<String>,
    /// 0 selects the primary endpoint, `i > 0` the fallback `i - 1`.
    pub current_endpoint_index: usize,
    pub max_retries: u8,
}

impl FallbackManager {
    /// The index selects an endpoint that exists.
    pub open spec fn wf(&self) -> bool {
        self.current_endpoint_index <= self.fallback_endpoints@.len()
    }

    /// The endpoint currently selected.
    pub open spec fn spec_current_endpoint(&self) -> Seq<char> {
        if self.current_endpoint_index == 0 {
            self.primary_endpoint@
        } else {
            self.fallback_endpoints@[self.current_endpoint_index - 1]@
        }
    }

    /// A manager on the primary endpoint, with three retries.
    pub fn new(primary: String, fallbacks: Vec<String>) -> (r: Self)
        ensures
            r.wf(),
            r.primary_endpoint == primary,
            r.fallback_endpoints == fallbacks,
            r.current_endpoint_index == 0,
            r.max_retries == 3,
    {
        FallbackManager { primary_endpoint: primary, fallback_endpoints: fallbacks, current_endpoint_index: 0, max_retries: 3 }
    }

    /// The endpoint in use.
    pub fn get_current_endpoint(&self) -> (r: &str)
        requires
            self.wf(),
        ensures
            r@ == self.spec_current_endpoint(),
    {
        if self.current_endpoint_index == 0 {
            self.primary_endpoint.as_str()
        } else {
            self.fallback_endpoints[self.current_endpoint_index - 1].as_str()
        }
    }

    /// Moves to the next fallback; `false` when none is left.
    pub fn switch_to_fallback(&mut self) -> (r: bool)
        ensures
            r == (old(self).current_endpoint_index < old(self).fallback_endpoints@.len()),
            final(self).current_endpoint_index == if r { old(self).current_endpoint_index + 1 } else { old(self).current_endpoint_index as int },
            final(self).primary_endpoint == old(self).primary_endpoint,
            final(self).fallback_endpoints == old(self).fallback_endpoints,
            final(self).max_retries == old(self).max_retries,
    {
        if self.current_endpoint_index < self.fallback_endpoints.len() {
            self.current_endpoint_index = self.current_endpoint_index + 1;
            true
        } else {
            false
        }
    }

    /// Returns to the primary endpoint.
    pub fn reset(&mut self)
        ensures
            final(self).current_endpoint_index == 0,
            final(self).primary_endpoint == old(self).primary_endpoint,
            final(self).fallback_endpoints == old(self).fallback_endpoints,
            final(self).max_retries == old(self).max_retries,
    {
        self.current_endpoint_index = 0;
    }
}

} // verus!
