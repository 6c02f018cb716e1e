use vstd::prelude::*;

verus! {

/// The partitioning strategies that the engine offers.
#[derive(Debug, Clone, Copy, PartialEq, Eq, Structural)]
pub enum Mode {
    Fast,
    Eco,
    Strong,
    FastSocial,
    EcoSocial,
    StrongSocial,
}

} // verus!
