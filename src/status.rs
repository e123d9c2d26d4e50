use vstd::prelude::*;

verus! {

/// The duty status of a driver during one interval of the day.
#[derive(Debug, Clone, Copy, PartialEq, Eq, Structural)]
pub enum DutyStatus {
    OffDuty,
    Sleeper,
    Driving,
    OnDuty,
    PersonalConveyance,
    YardMove,
}

/// Number of status rows on the chart.
pub const ROW_COUNT: u32 = 4;

/// The chart row of a status, counted from the top, or `None` for the
/// statuses that the chart does not plot.
pub open spec fn status_row(s: DutyStatus) -> Option<int> {
    match s {
        DutyStatus::OffDuty => Some(0),
        DutyStatus::Sleeper => Some(1),
        DutyStatus::Driving => Some(2),
        DutyStatus::OnDuty => Some(3),
        DutyStatus::PersonalConveyance => None,
        DutyStatus::YardMove => None,
    }
}

/// The identifier under which a status is written out.
pub open spec fn status_name(s: DutyStatus) -> Seq<char> {
    match s {
        DutyStatus::OffDuty => "OffDuty"@,
        DutyStatus::Sleeper => "Sleeper"@,
        DutyStatus::Driving => "Driving"@,
        DutyStatus::OnDuty => "OnDuty"@,
        DutyStatus::PersonalConveyance => "PersonalConveyance"@,
        DutyStatus::YardMove => "YardMove"@,
    }
}

/// The caption of a chart row, top to bottom.
pub open spec fn row_caption_text(row: int) -> Seq<char> {
    if row == 0 {
        "Off Duty"@
    } else if row == 1 {
        "Sleeper"@
    } else if row == 2 {
        "Driving"@
    } else {
        "On Duty"@
    }
}

impl DutyStatus {
    /// The status's identifier, as in `"OffDuty"`.
    pub fn as_str(&self) -> (r: &'static str)
        ensures
            r@ == status_name(*self),
    {
        match self {
            DutyStatus::OffDuty => "OffDuty",
            DutyStatus::Sleeper => "Sleeper",
            DutyStatus::Driving => "Driving",
            DutyStatus::OnDuty => "OnDuty",
            DutyStatus::PersonalConveyance => "PersonalConveyance",
            DutyStatus::YardMove => "YardMove",
        }
    }

    /// The row the status is plotted on: 0 for off duty, 1 for sleeper,
    /// 2 for driving, 3 for on duty. Personal conveyance and yard move have
    /// no row and are not plotted.
    pub fn row(&self) -> (r: Option<u32>)
        ensures
            r matches Some(v) ==> status_row(*self) == Some(v as int),
            r is None ==> status_row(*self) is None,
    {
        match self {
            DutyStatus::OffDuty => Some(0),
            DutyStatus::Sleeper => Some(1),
            DutyStatus::Driving => Some(2),
            DutyStatus::OnDuty => Some(3),
            DutyStatus::PersonalConveyance => None,
            DutyStatus::YardMove => None,
        }
    }
}

/// The caption written at the left of a chart row.
pub fn row_caption(row: u32) -> (r: &'static str)
    requires
        row < ROW_COUNT,
    ensures
        r@ == row_caption_text(row as int),
{
    if row == 0 {
        "Off Duty"
    } else if row == 1 {
        "Sleeper"
    } else if row == 2 {
        "Driving"
    } else {
        "On Duty"
    }
}

} // verus!
