use crate::view_models::PostProcessEffects;
use vstd::prelude::*;

verus! {

/// A screen effect, alive while `running_time < max_running_time`
/// (microseconds).
#[derive(Clone, Copy, Debug, PartialEq, Eq, Structural)]
pub struct PostProcessEffectMetaData {
    pub name: PostProcessEffects,
    pub running_time: u64,
    pub max_running_time: u64,
}

} // verus!
