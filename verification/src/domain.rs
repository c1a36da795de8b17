//! The evaluation domain of a computation, as far as the low-degree
//! extension of a polynomial reads it.

use crate::base::BaseElement;
use vstd::prelude::*;

verus! {

/// The parameters of a low-degree extension: the twiddle factors of the trace
/// domain, the offset of the coset over which polynomials are evaluated, and
/// the factor by which that coset is larger than the trace domain.
pub struct StarkDomain {
    trace_twiddles: Vec<BaseElement>,
    domain_offset: BaseElement,
    blowup_factor: usize,
}

impl StarkDomain {
    /// The twiddle factors of the trace domain, half as many as the trace is
    /// long.
    pub closed spec fn twiddles(&self) -> Seq<BaseElement> {
        self.trace_twiddles@
    }

    /// The offset of the coset of evaluation.
    pub closed spec fn coset_offset(&self) -> BaseElement {
        self.domain_offset
    }

    /// The size of the coset of evaluation divided by the length of the trace.
    pub closed spec fn blowup(&self) -> usize {
        self.blowup_factor
    }

    /// The length of the trace domain fits in a machine word.
    pub open spec fn wf(&self) -> bool {
        2 * self.twiddles().len() <= usize::MAX
    }

    /// Returns the domain with the given parameters.
    pub fn new(
        trace_twiddles: Vec<BaseElement>,
        domain_offset: BaseElement,
        blowup_factor: usize,
    ) -> (r: StarkDomain)
        requires
            2 * trace_twiddles.len() <= usize::MAX,
        ensures
            r.wf(),
            r.twiddles() == trace_twiddles@,
            r.coset_offset() == domain_offset,
            r.blowup() == blowup_factor,
    {
        StarkDomain { trace_twiddles, domain_offset, blowup_factor }
    }

    /// Returns the length of the trace domain, twice the number of twiddle
    /// factors.
    pub fn trace_length(&self) -> (r: usize)
        requires
            self.wf(),
        ensures
            r == 2 * self.twiddles().len(),
    {
        self.trace_twiddles.len() * 2
    }

    /// Returns the twiddle factors of the trace domain.
    pub fn trace_twiddles(&self) -> (r: &Vec<BaseElement>)
        ensures
            r@ == self.twiddles(),
    {
        &self.trace_twiddles
    }

    /// Returns the offset of the coset of evaluation.
    pub fn offset(&self) -> (r: BaseElement)
        ensures
            r == self.coset_offset(),
    {
        self.domain_offset
    }

    /// Returns the size of the coset of evaluation divided by the length of
    /// the trace.
    pub fn trace_to_lde_blowup(&self) -> (r: usize)
        ensures
            r == self.blowup(),
    {
        self.blowup_factor
    }
}

} // verus!
