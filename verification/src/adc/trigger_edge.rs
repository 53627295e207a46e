use vstd::prelude::*;

verus! {

/// The edge of an external trigger that starts a conversion.
#[derive(Debug, Clone, Copy, PartialEq, Eq, Structural)]
pub enum ExternalTriggerEdge {
    Rising,
    Falling,
    Both,
}

/// The `EXTEN`/`JEXTEN` field value of a disabled external trigger.
pub const EXTEN_DISABLED: u8 = 0;

pub open spec fn spec_exten(edge: ExternalTriggerEdge) -> u8 {
    match edge {
        ExternalTriggerEdge::Rising => 1,
        ExternalTriggerEdge::Falling => 2,
        ExternalTriggerEdge::Both => 3,
    }
}

/// The edge codes of the reference manual: `0` disables the external
/// trigger, and the rising, falling and both edges follow as `1`, `2` and
/// `3`, in the order the enum lists them; each edge has its own code.
pub proof fn lemma_exten_is_manual_code(edge: ExternalTriggerEdge, other: ExternalTriggerEdge)
    ensures
        spec_exten(edge) == edge as u8 + 1,
        spec_exten(edge) != EXTEN_DISABLED,
        edge != other ==> spec_exten(edge) != spec_exten(other),
{
}

impl ExternalTriggerEdge {
    /// The `EXTEN`/`JEXTEN` field value that selects this edge.
    pub fn exten(self) -> (r: u8)
        ensures
            r == spec_exten(self),
            1 <= r <= 3,
    {
        match self {
            ExternalTriggerEdge::Rising => 1,
            ExternalTriggerEdge::Falling => 2,
            ExternalTriggerEdge::Both => 3,
        }
    }
}

} // verus!
