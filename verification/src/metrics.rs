//! Labels of the reconcile metrics.
use vstd::prelude::*;
use crate::reconciler::encryption::hex_lower;

verus! {

/// Exemplar label of a reconcile duration: the trace the pass ran in.
#[derive(Debug, Clone)]
pub struct TraceLabel {
    pub trace_id: String,
}

/// Labels of a failed reconcile: the resource and its error.
#[derive(Debug, Clone)]
pub struct ErrorLabels {
    pub instance: String,
    pub error: String,
}

/// `TraceId::from_bytes(bytes).to_string()` from opentelemetry. Claimed: the
/// text of the id (`{:032x}` of the big-endian number in the crate's source),
/// which is the lower-case hexadecimal of the 16 bytes, two digits each.
#[verifier::external_body]
fn trace_id_text(bytes: &[u8; 16]) -> (r: String)
    ensures
        r@ == hex_lower(bytes@),
{
    opentelemetry::trace::TraceId::from_bytes(*bytes).to_string()
}

impl TraceLabel {
    /// The label of the trace whose id has these big-endian bytes; none for the
    /// invalid id, which is all zero.
    pub fn from_trace_id(bytes: &[u8; 16]) -> (r: Option<TraceLabel>)
        ensures
            r is None <==> forall|i: int| 0 <= i < 16 ==> bytes@[i] == 0,
            r matches Some(l) ==> l.trace_id@ == hex_lower(bytes@),
    {
        let mut i: usize = 0;
        while i < 16
            invariant
                i <= 16,
                bytes@.len() == 16,
                forall|j: int| 0 <= j < i ==> bytes@[j] == 0,
            decreases 16 - i,
        {
            if bytes[i] != 0 {
                return Some(TraceLabel { trace_id: trace_id_text(bytes) });
            }
            i = i + 1;
        }
        None
    }
}

} // verus!
