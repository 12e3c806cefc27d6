use std::collections::HashMap;
use vstd::prelude::*;

use crate::time_state::TimeState;

verus! {

/// The number of speed units that make a speed multiplier of one: speeds are
/// held in thousandths.
pub const SPEED_UNIT: u32 = 1000;

/// The time management message informs connected applications on time
/// progression and changes.
///
/// Timestamps are milliseconds since the Unix epoch. The speed multiplier is
/// held in thousandths (`SPEED_UNIT` stands for a speed of one).
pub struct TimeManagement {
    pub state: TimeState,
    pub tags: Option<HashMap<String, String>>,
    pub timestamp: Option<i64>,
    pub simulation_time: Option<i64>,
    pub simulation_speed: Option<u32>,
}

impl TimeManagement {
    /// A message that carries a state and nothing else.
    pub fn with_state(state: TimeState) -> (r: TimeManagement)
        ensures
            r.state == state,
            r.tags is None,
            r.timestamp is None,
            r.simulation_time is None,
            r.simulation_speed is None,
    {
        TimeManagement {
            state,
            tags: default_timemanagement_tags(),
            timestamp: default_timemanagement_timestamp(),
            simulation_time: default_timemanagement_simulation_time(),
            simulation_speed: default_timemanagement_simulation_speed(),
        }
    }
}

/// Value of an absent `tags` field of a time management message.
pub fn default_timemanagement_tags() -> (r: Option<HashMap<String, String>>)
    ensures
        r is None,
{
    None
}

/// Value of an absent `timestamp` field of a time management message.
pub fn default_timemanagement_timestamp() -> (r: Option<i64>)
    ensures
        r is None,
{
    None
}

/// Value of an absent `simulationTime` field of a time management message.
pub fn default_timemanagement_simulation_time() -> (r: Option<i64>)
    ensures
        r is None,
{
    None
}

/// Value of an absent `simulationSpeed` field of a time management message.
pub fn default_timemanagement_simulation_speed() -> (r: Option<u32>)
    ensures
        r is None,
{
    None
}

/// A start inject request is a specific request for starting a pre-defined
/// sequence of events defined at one or more connected applications.
pub struct RequestStartInject {
    pub id: String,
    pub applicant: String,
    pub inject: String,
    pub tags: Option<HashMap<String, String>>,
}

/// Value of an absent `tags` field of a start inject request.
pub fn default_requeststartinject_tags() -> (r: Option<HashMap<String, String>>)
    ensures
        r is None,
{
    None
}

/// Straight – move in a direct line to all waypoints without taking into
/// account the terrain; CrossCountry – move directly to all waypoints without
/// taking into account the roads; OnlyRoads – stay on the roads to get to the
/// closest point to the waypoints that is still on a road;
/// RoadsAndCrossCountry – move to the waypoints by taking into account the
/// roads; it is allowed to go off the road.
#[derive(Debug, Clone, Copy, PartialEq, Eq, Structural, Hash, PartialOrd, Ord)]
pub enum MoveType {
    Straight,
    CrossCountry,
    OnlyRoads,
    RoadsAndCrossCountry,
}

/// Value of an absent `route` field of a move request.
pub fn default_requestmove_route() -> (r: Option<String>)
    ensures
        r is None,
{
    None
}

/// Value of an absent `tags` field of a move request.
pub fn default_requestmove_tags() -> (r: Option<HashMap<String, String>>)
    ensures
        r is None,
{
    None
}

} // verus!
