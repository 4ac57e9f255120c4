use crate::model::model_utils::Vector2;
use vstd::prelude::*;

verus! {

/// A particle burst: fixed at `position`, growing at `max_speed` ticks per
/// second, alive while `running_time < max_running_time` (microseconds).
#[derive(Clone, Copy, Debug, PartialEq, Eq, Structural)]
pub struct ParticleSystemMetaData {
    pub position: Vector2,
    pub max_speed: i64,
    pub running_time: u64,
    pub max_running_time: u64,
}

} // verus!
