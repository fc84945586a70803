//! Models of the FoxESS scheduler: time segments, each with a work mode and
//! optional parameters.
//!
//! The numeric parameters are of the type `N` that the caller decodes them to.

use vstd::prelude::*;
use crate::models::fox_scheduler::id::FoxWorkModes;

verus! {

/// Work mode information including available modes and their units.
pub struct WorkMode<N> {
    /// List of available work modes.
    pub enum_list: Vec<FoxWorkModes>,
    /// Unit of measurement for the work mode values.
    pub unit: String,
    /// Precision for values in this work mode.
    pub precision: N,
}

/// A numeric range with minimum and maximum values.
pub struct Range<N> {
    /// Minimum value in the range.
    pub min: N,
    /// Maximum value in the range.
    pub max: N,
}

/// Detailed structure for a parameter including unit, precision, and range.
pub struct MetaData<N> {
    /// Unit of measurement for the parameter.
    pub unit: String,
    /// Precision of the parameter value.
    pub precision: N,
    /// Valid range of the parameter value.
    pub range: Range<N>,
}

/// Metadata properties defining the constraints for scheduler parameters.
pub struct Properties<N> {
    /// Start minute constraints.
    pub start_minute: MetaData<N>,
    /// Feed-in power (or charge/discharge power) constraints.
    pub fd_pwr: MetaData<N>,
    /// End hour constraints.
    pub end_hour: MetaData<N>,
    /// End minute constraints.
    pub end_minute: MetaData<N>,
    /// Feed-in State of Charge (SoC) constraints.
    pub fd_soc: MetaData<N>,
    /// Start hour constraints.
    pub start_hour: MetaData<N>,
    /// Work mode constraints and options.
    pub work_mode: WorkMode<N>,
    /// Minimum State of Charge (SoC) when on grid.
    pub min_soc_on_grid: MetaData<N>,
    /// Maximum State of Charge (SoC).
    pub max_soc: MetaData<N>,
}

/// Additional parameters for specific work modes or settings.
pub struct ExtraParam<N> {
    /// The maximum charging or discharging power allowed in Force Charge/Force Discharge Mode.
    pub fd_pwr: Option<N>,
    /// Minimum State of Charge (SoC) when on grid.
    pub min_soc_on_grid: Option<N>,
    /// The SoC at which the system stops charging or discharging in Force Charge/Force Discharge Mode.
    pub fd_soc: Option<N>,
    /// Maximum State of Charge (SoC).
    pub max_soc: Option<N>,
    /// Import power limit from the grid.
    pub import_limit: Option<N>,
    /// Export power limit to the grid.
    pub export_limit: Option<N>,
    /// Photovoltaic (PV) power limit.
    pub pv_limit: Option<N>,
    /// Reactive power settings.
    pub reactive_power: Option<N>,
}

impl<N> ExtraParam<N> {
    /// Whether no parameter is given.
    pub open spec fn empty(&self) -> bool {
        &&& self.fd_pwr is None
        &&& self.min_soc_on_grid is None
        &&& self.fd_soc is None
        &&& self.max_soc is None
        &&& self.import_limit is None
        &&& self.export_limit is None
        &&& self.pv_limit is None
        &&& self.reactive_power is None
    }

    /// True if *all* fields are `None`.
    pub fn is_empty(&self) -> (r: bool)
        ensures
            r == self.empty(),
    {
        self.fd_pwr.is_none()
            && self.min_soc_on_grid.is_none()
            && self.fd_soc.is_none()
            && self.max_soc.is_none()
            && self.import_limit.is_none()
            && self.export_limit.is_none()
            && self.pv_limit.is_none()
            && self.reactive_power.is_none()
    }
}

/// Whether a group's parameters are left out of a request: when there are
/// none, or all of them are `None`.
pub fn extra_param_is_none_or_empty<N>(v: &Option<ExtraParam<N>>) -> (r: bool)
    ensures
        r == match v {
            Some(p) => p.empty(),
            None => true,
        },
{
    match v {
        Some(p) => p.is_empty(),
        None => true,
    }
}

/// A scheduled task group defining a work mode for a specific time window.
pub struct Group<N> {
    /// Start hour of the scheduled window.
    pub start_hour: i64,
    /// Start minute of the scheduled window.
    pub start_minute: i64,
    /// End hour of the scheduled window.
    pub end_hour: i64,
    /// End minute of the scheduled window.
    pub end_minute: i64,
    /// Work mode to be used during this time window.
    pub work_mode: FoxWorkModes,
    /// Additional parameters specific to this group.
    pub extra_param: Option<ExtraParam<N>>,
}

/// Information about a time-segments based scheduler configuration.
pub struct TimeSegmentsData<N> {
    /// Whether the scheduler is enabled (1) or disabled (0).
    pub enable: i64,
    /// Maximum number of schedule groups allowed.
    pub max_group_count: i64,
    /// List of scheduled groups.
    pub groups: Vec<Group<N>>,
    /// Metadata properties for the schedule.
    pub properties: Properties<N>,
}

/// Data to set as time-segments for the scheduler.
pub struct TimeSegmentsDataRequest<N> {
    /// * 'false' - Parameters not provided in `extraParam` remain unchanged. This is the default value if not provided.
    /// * 'true' - Parameters not provided in `extraParam` are restored to system defaults.
    pub is_default: Option<bool>,
    /// List of groups to schedule.
    pub groups: Vec<Group<N>>,
}

impl<N> TimeSegmentsDataRequest<N> {
    /// Whether the request restores the parameters that it does not give to
    /// their defaults; it does not unless it says so.
    pub fn restores_defaults(&self) -> (r: bool)
        ensures
            r == match self.is_default {
                Some(b) => b,
                None => false,
            },
    {
        match self.is_default {
            Some(b) => b,
            None => false,
        }
    }
}

/// The work modes that a list of names stands for, in order; a name that
/// the registry does not hold stands for [`FoxWorkModes::Unknown`].
pub fn work_modes_from_names(names: &Vec<String>) -> (r: Vec<FoxWorkModes>)
    ensures
        r@.len() == names@.len(),
        forall|i: int| 0 <= i < names@.len() ==> r@[i] == FoxWorkModes::from_name_spec(#[trigger] names@[i]@),
{
    let mut out: Vec<FoxWorkModes> = Vec::new();
    let mut i: usize = 0;
    while i < names.len()
        invariant
            i <= names@.len(),
            out@.len() == i,
            forall|j: int| 0 <= j < i ==> out@[j] == FoxWorkModes::from_name_spec(#[trigger] names@[j]@),
        decreases names@.len() - i,
    {
        out.push(FoxWorkModes::from_name(names[i].as_str()));
        i = i + 1;
    }
    out
}

} // verus!
