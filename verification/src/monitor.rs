//! What a monitor of the clock's tracking state is told, and when.

use vstd::prelude::*;

verus! {

/// A change that a monitor is told of. It says what the protocol and the filter do;
/// it does not establish that the clock is accurate.
#[derive(Clone, Copy, Debug, PartialEq, Eq, Structural)]
pub enum MonitorUpdate {
    /// The clock was stepped: earlier readings do not compare with later ones.
    Unavailable,
    /// Whether the clock's timescale is that of PTP.
    PtpTimescale(bool),
    /// The clock runs on without new measurements.
    Holdover,
    /// The filter took a measurement.
    Tracking,
}

/// `update`, if there is a monitor to be told.
pub open spec fn told(monitored: bool, update: MonitorUpdate) -> Option<MonitorUpdate> {
    if monitored {
        Some(update)
    } else {
        None
    }
}

/// What a monitor is told after a step of the clock: a step that went through makes
/// the clock unavailable, a failed one changes nothing.
pub fn after_step_clock(monitored: bool, stepped: bool) -> (r: Option<MonitorUpdate>)
    ensures
        r == if stepped {
            told(monitored, MonitorUpdate::Unavailable)
        } else {
            None
        },
{
    if stepped && monitored {
        Some(MonitorUpdate::Unavailable)
    } else {
        None
    }
}

/// What a monitor is told after the clock's properties were set: the timescale, if
/// the clock took it.
pub fn after_set_properties(monitored: bool, accepted: bool, ptp_timescale: bool) -> (r: Option<
    MonitorUpdate,
>)
    ensures
        r == if accepted {
            told(monitored, MonitorUpdate::PtpTimescale(ptp_timescale))
        } else {
            None
        },
{
    if accepted && monitored {
        Some(MonitorUpdate::PtpTimescale(ptp_timescale))
    } else {
        None
    }
}

/// A monitor hears of a step of the clock exactly if there is a monitor and the step
/// went through, and hears that the clock is unavailable.
pub proof fn monitor_hears_of_steps(monitored: bool, stepped: bool, r: Option<MonitorUpdate>)
    requires
        call_ensures(after_step_clock, (monitored, stepped), r),
    ensures
        r is Some <==> monitored && stepped,
        r matches Some(update) ==> update is Unavailable,
{
}

/// A monitor hears of the timescale exactly if there is a monitor and the clock took the
/// properties, and hears of the timescale that was set.
pub proof fn monitor_hears_of_the_timescale(
    monitored: bool,
    accepted: bool,
    ptp_timescale: bool,
    r: Option<MonitorUpdate>,
)
    requires
        call_ensures(after_set_properties, (monitored, accepted, ptp_timescale), r),
    ensures
        r is Some <==> monitored && accepted,
        r matches Some(update) ==> update == MonitorUpdate::PtpTimescale(ptp_timescale),
{
}

} // verus!
