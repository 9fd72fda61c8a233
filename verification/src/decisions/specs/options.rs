//! Option selection specifications.

use vstd::prelude::*;
use crate::ids::ObjectId;
use crate::decisions::spec::DisplayOption;

verus! {

/// The modes of a modal spell and how many of them may be chosen.
#[derive(Debug, Clone)]
pub struct ModesSpec {
    /// The modal spell.
    pub source: ObjectId,
    /// The modes, in printed order.
    pub modes: Vec<DisplayOption>,
    /// Fewest modes to choose.
    pub min_modes: usize,
    /// Most modes to choose.
    pub max_modes: usize,
}

} // verus!
