use vstd::prelude::*;
use crate::status::DutyStatus;

verus! {

/// How the chart looks: its size, colours and fonts.
#[derive(Debug, Clone, Copy, PartialEq)]
pub struct ChartProps {
    /// Width of the chart in pixels.
    pub width: u32,
    /// Height of the chart in pixels.
    pub height: u32,
    /// Colour behind the grid and the segments.
    pub background_color: &'static str,
    /// Colour of the grid lines.
    pub grid_color: &'static str,
    /// Font of the row captions.
    pub font: &'static str,
    /// Colour of every caption.
    pub label_color: &'static str,
    /// Colour of off-duty segments.
    pub off_duty_color: &'static str,
    /// Colour of sleeper-berth segments.
    pub sleeper_color: &'static str,
    /// Colour of driving segments.
    pub driving_color: &'static str,
    /// Colour of on-duty segments.
    pub on_duty_color: &'static str,
}

/// The colour a status is drawn in, or `None` for the statuses that the
/// chart does not plot.
pub open spec fn status_color(props: ChartProps, s: DutyStatus) -> Option<Seq<char>> {
    match s {
        DutyStatus::OffDuty => Some(props.off_duty_color@),
        DutyStatus::Sleeper => Some(props.sleeper_color@),
        DutyStatus::Driving => Some(props.driving_color@),
        DutyStatus::OnDuty => Some(props.on_duty_color@),
        DutyStatus::PersonalConveyance => None,
        DutyStatus::YardMove => None,
    }
}

impl ChartProps {
    /// The colour a status is drawn in; `None` where the status is not
    /// plotted.
    pub fn color_of(&self, s: DutyStatus) -> (r: Option<&'static str>)
        ensures
            r matches Some(c) ==> status_color(*self, s) == Some(c@),
            r is None ==> status_color(*self, s) is None,
    {
        match s {
            DutyStatus::OffDuty => Some(self.off_duty_color),
            DutyStatus::Sleeper => Some(self.sleeper_color),
            DutyStatus::Driving => Some(self.driving_color),
            DutyStatus::OnDuty => Some(self.on_duty_color),
            DutyStatus::PersonalConveyance => None,
            DutyStatus::YardMove => None,
        }
    }
}

impl Default for ChartProps {
    /// A 900 by 300 chart on white, with light grey grid lines, dark grey
    /// captions in bold 14px Arial, and grey, black, green and orange
    /// segments for off duty, sleeper, driving and on duty.
    fn default() -> (r: ChartProps)
        ensures
            r.width == 900,
            r.height == 300,
            r.background_color@ == "#FFFFFF"@,
            r.grid_color@ == "#CCCCCC"@,
            r.font@ == "bold 14px Arial"@,
            r.label_color@ == "#444444"@,
            r.off_duty_color@ == "#8E8E8E"@,
            r.sleeper_color@ == "black"@,
            r.driving_color@ == "green"@,
            r.on_duty_color@ == "orange"@,
    {
        ChartProps {
            width: 900,
            height: 300,
            background_color: "#FFFFFF",
            grid_color: "#CCCCCC",
            font: "bold 14px Arial",
            label_color: "#444444",
            off_duty_color: "#8E8E8E",
            sleeper_color: "black",
            driving_color: "green",
            on_duty_color: "orange",
        }
    }
}

} // verus!
