//! Platform-neutral drag-and-drop protocol reporting types.

use vstd::prelude::*;

use crate::platform::{DragCompletion, DragFailureKind};
use crate::text::{decimal, decimal_text};

verus! {

/// What kind of window a drag is over.
#[derive(Clone, Copy, Debug, PartialEq, Eq, Structural)]
pub enum DragTargetKind {
    RealXWindow,
    AnonymousBridge,
    OriginWindow,
    NativeWayland,
    Unknown,
}

impl DragTargetKind {
    /// The machine-readable name.
    pub open spec fn name(self) -> Seq<char> {
        match self {
            DragTargetKind::RealXWindow => "real_x_window"@,
            DragTargetKind::AnonymousBridge => "anonymous_bridge"@,
            DragTargetKind::OriginWindow => "origin_window"@,
            DragTargetKind::NativeWayland => "native_wayland"@,
            DragTargetKind::Unknown => "unknown"@,
        }
    }

    /// The human-readable name.
    pub open spec fn title(self) -> Seq<char> {
        match self {
            DragTargetKind::RealXWindow => "X11 window"@,
            DragTargetKind::AnonymousBridge => "anonymous bridge"@,
            DragTargetKind::OriginWindow => "origin window"@,
            DragTargetKind::NativeWayland => "native Wayland target"@,
            DragTargetKind::Unknown => "unknown target"@,
        }
    }

    /// Stable machine-readable name.
    #[must_use]
    pub fn as_str(self) -> (text: &'static str)
        ensures
            text@ == self.name(),
    {
        match self {
            DragTargetKind::RealXWindow => "real_x_window",
            DragTargetKind::AnonymousBridge => "anonymous_bridge",
            DragTargetKind::OriginWindow => "origin_window",
            DragTargetKind::NativeWayland => "native_wayland",
            DragTargetKind::Unknown => "unknown",
        }
    }

    /// Human-readable target summary.
    #[must_use]
    pub fn summary(self) -> (text: &'static str)
        ensures
            text@ == self.title(),
    {
        match self {
            DragTargetKind::RealXWindow => "X11 window",
            DragTargetKind::AnonymousBridge => "anonymous bridge",
            DragTargetKind::OriginWindow => "origin window",
            DragTargetKind::NativeWayland => "native Wayland target",
            DragTargetKind::Unknown => "unknown target",
        }
    }
}

/// How far a drag session has come.
#[derive(Clone, Copy, Debug, PartialEq, Eq, Structural)]
pub enum DragPhase {
    Started,
    EnteredTarget,
    TargetInspectedData,
    TargetAccepted,
    Released,
    DropSent,
    Finished,
    Completed,
}

impl DragPhase {
    /// The machine-readable name.
    pub open spec fn name(self) -> Seq<char> {
        match self {
            DragPhase::Started => "started"@,
            DragPhase::EnteredTarget => "entered_target"@,
            DragPhase::TargetInspectedData => "target_inspected_data"@,
            DragPhase::TargetAccepted => "target_accepted"@,
            DragPhase::Released => "released"@,
            DragPhase::DropSent => "drop_sent"@,
            DragPhase::Finished => "finished"@,
            DragPhase::Completed => "completed"@,
        }
    }

    /// The human-readable name.
    pub open spec fn title(self) -> Seq<char> {
        match self {
            DragPhase::Started => "Drag started"@,
            DragPhase::EnteredTarget => "Entered drop target"@,
            DragPhase::TargetInspectedData => "Target inspected drag data"@,
            DragPhase::TargetAccepted => "Target accepted drag"@,
            DragPhase::Released => "Drag released"@,
            DragPhase::DropSent => "Drop sent"@,
            DragPhase::Finished => "Drag finished"@,
            DragPhase::Completed => "Drag completed"@,
        }
    }

    /// Stable machine-readable name.
    #[must_use]
    pub fn as_str(self) -> (text: &'static str)
        ensures
            text@ == self.name(),
    {
        match self {
            DragPhase::Started => "started",
            DragPhase::EnteredTarget => "entered_target",
            DragPhase::TargetInspectedData => "target_inspected_data",
            DragPhase::TargetAccepted => "target_accepted",
            DragPhase::Released => "released",
            DragPhase::DropSent => "drop_sent",
            DragPhase::Finished => "finished",
            DragPhase::Completed => "completed",
        }
    }

    /// Human-readable phase summary.
    #[must_use]
    pub fn summary(self) -> (text: &'static str)
        ensures
            text@ == self.title(),
    {
        match self {
            DragPhase::Started => "Drag started",
            DragPhase::EnteredTarget => "Entered drop target",
            DragPhase::TargetInspectedData => "Target inspected drag data",
            DragPhase::TargetAccepted => "Target accepted drag",
            DragPhase::Released => "Drag released",
            DragPhase::DropSent => "Drop sent",
            DragPhase::Finished => "Drag finished",
            DragPhase::Completed => "Drag completed",
        }
    }
}

/// How often the target asked for data, by occasion.
#[derive(Clone, Copy, Debug, PartialEq, Eq, Structural)]
pub struct DragSessionStats {
    pub selection_requests: u32,
    pub pre_drop_data_requests: u32,
    pub post_drop_data_requests: u32,
    pub drop_target_data_requests: u32,
}

impl Default for DragSessionStats {
    fn default() -> (stats: Self)
        ensures
            stats == (DragSessionStats {
                selection_requests: 0,
                pre_drop_data_requests: 0,
                post_drop_data_requests: 0,
                drop_target_data_requests: 0,
            }),
    {
        DragSessionStats {
            selection_requests: 0,
            pre_drop_data_requests: 0,
            post_drop_data_requests: 0,
            drop_target_data_requests: 0,
        }
    }
}

impl DragSessionStats {
    /// The sum of all data requests.
    pub open spec fn data_requests(self) -> int {
        self.pre_drop_data_requests + self.post_drop_data_requests + self.drop_target_data_requests
    }

    /// The diagnostic line.
    pub open spec fn line(self) -> Seq<char> {
        "selection_requests="@ + decimal(self.selection_requests as nat)
            + ", pre_drop_data_requests="@ + decimal(self.pre_drop_data_requests as nat)
            + ", post_drop_data_requests="@ + decimal(self.post_drop_data_requests as nat)
            + ", drop_target_data_requests="@ + decimal(self.drop_target_data_requests as nat)
    }

    /// Total number of data requests.
    #[must_use]
    pub fn total_data_requests(self) -> (total: u32)
        requires
            self.data_requests() <= u32::MAX,
        ensures
            total == self.data_requests(),
    {
        self.pre_drop_data_requests + self.post_drop_data_requests + self.drop_target_data_requests
    }

    /// Whether the drop target itself asked for data.
    #[must_use]
    pub fn has_target_data_request(self) -> (has: bool)
        ensures
            has == (self.drop_target_data_requests != 0),
    {
        self.drop_target_data_requests > 0
    }
}

/// How a drag session ended.
#[derive(Clone, Debug, PartialEq, Eq)]
pub struct DragSessionReport {
    pub completion: DragCompletion,
    pub stats: DragSessionStats,
    pub detail: String,
}

impl DragSessionReport {
    /// The diagnostic line.
    pub open spec fn line(self) -> Seq<char> {
        if self.detail@.len() == 0 {
            self.completion.title()
        } else {
            self.completion.title() + ": "@ + self.detail@
        }
    }

    /// The target confirmed the drop.
    #[must_use]
    pub fn completed_confirmed(stats: DragSessionStats, detail: &str) -> (report: Self)
        ensures
            report.completion == DragCompletion::Confirmed,
            report.stats == stats,
            report.detail@ == detail@,
    {
        DragSessionReport {
            completion: DragCompletion::Confirmed,
            stats,
            detail: detail.to_owned(),
        }
    }

    /// The drop most likely went through.
    #[must_use]
    pub fn completed_inferred(stats: DragSessionStats, detail: &str) -> (report: Self)
        ensures
            report.completion == DragCompletion::Inferred,
            report.stats == stats,
            report.detail@ == detail@,
    {
        DragSessionReport { completion: DragCompletion::Inferred, stats, detail: detail.to_owned() }
    }

    /// The drop failed.
    #[must_use]
    pub fn failed(kind: DragFailureKind, stats: DragSessionStats, detail: &str) -> (report: Self)
        ensures
            report.completion == DragCompletion::Failed(kind),
            report.stats == stats,
            report.detail@ == detail@,
    {
        DragSessionReport {
            completion: DragCompletion::Failed(kind),
            stats,
            detail: detail.to_owned(),
        }
    }

    /// Whether the drop went through, as far as known.
    #[must_use]
    pub fn is_success(&self) -> (success: bool)
        ensures
            success == !(self.completion is Failed),
    {
        self.completion.is_success()
    }

    /// Completion and detail in one line.
    #[must_use]
    pub fn summary(&self) -> (text: String)
        ensures
            text@ == self.line(),
    {
        let head = self.completion.summary().to_owned();
        if self.detail.as_str().is_empty() {
            head
        } else {
            head.concat(": ").concat(self.detail.as_str())
        }
    }

    /// The request counters in one line.
    #[must_use]
    pub fn stats_summary(&self) -> (text: String)
        ensures
            text@ == self.stats.line(),
    {
        let selection = decimal_text(self.stats.selection_requests as u64);
        let before = decimal_text(self.stats.pre_drop_data_requests as u64);
        let after = decimal_text(self.stats.post_drop_data_requests as u64);
        let target = decimal_text(self.stats.drop_target_data_requests as u64);
        "selection_requests=".to_owned().concat(selection.as_str()).concat(
            ", pre_drop_data_requests=",
        ).concat(before.as_str()).concat(", post_drop_data_requests=").concat(
            after.as_str(),
        ).concat(", drop_target_data_requests=").concat(target.as_str())
    }
}

/// The total of data requests is the sum of those before the drop, after it, and of the
/// drop target.
pub proof fn data_requests_add_up(stats: DragSessionStats)
    ensures
        stats.data_requests() == stats.pre_drop_data_requests + stats.post_drop_data_requests
            + stats.drop_target_data_requests,
        stats.data_requests() == 0 <==> stats.pre_drop_data_requests == 0
            && stats.post_drop_data_requests == 0 && stats.drop_target_data_requests == 0,
{
}

/// A report reads as how the drag ended, followed by its detail where there is one.
pub proof fn report_line_starts_with_the_end(report: DragSessionReport)
    ensures
        ({
            let line = report.line();
            let head = report.completion.title();
            &&& line.len() >= head.len()
            &&& line.take(head.len() as int) == head
            &&& report.detail@.len() == 0 ==> line == head
            &&& report.detail@.len() > 0 ==> line.len() == head.len() + 2 + report.detail@.len()
                && line.skip(head.len() as int + 2) == report.detail@
        }),
{
    reveal_strlit(": ");
    let line = report.line();
    let head = report.completion.title();
    assert(line.take(head.len() as int) =~= head);
    if report.detail@.len() > 0 {
        assert(line.skip(head.len() as int + 2) =~= report.detail@);
    }
}

/// Different targets and phases have different names and titles.
pub proof fn session_names_tell_values_apart(
    target: DragTargetKind,
    other_target: DragTargetKind,
    phase: DragPhase,
    other_phase: DragPhase,
)
    ensures
        target.name() == other_target.name() ==> target == other_target,
        target.title() == other_target.title() ==> target == other_target,
        phase.name() == other_phase.name() ==> phase == other_phase,
        phase.title() == other_phase.title() ==> phase == other_phase,
{
    reveal_strlit("real_x_window");
    reveal_strlit("anonymous_bridge");
    reveal_strlit("origin_window");
    reveal_strlit("native_wayland");
    reveal_strlit("unknown");
    if target.name() == other_target.name() {
        assert(target.name().len() == other_target.name().len());
        assert(target.name()[0] == other_target.name()[0]);
    }
    assert("origin_window"@[0] == 'o');
    assert("real_x_window"@[0] == 'r');
    reveal_strlit("X11 window");
    reveal_strlit("anonymous bridge");
    reveal_strlit("origin window");
    reveal_strlit("native Wayland target");
    reveal_strlit("unknown target");
    if target.title() == other_target.title() {
        assert(target.title().len() == other_target.title().len());
    }
    reveal_strlit("started");
    reveal_strlit("entered_target");
    reveal_strlit("target_inspected_data");
    reveal_strlit("target_accepted");
    reveal_strlit("released");
    reveal_strlit("drop_sent");
    reveal_strlit("finished");
    reveal_strlit("completed");
    if phase.name() == other_phase.name() {
        assert(phase.name().len() == other_phase.name().len());
        assert(phase.name()[0] == other_phase.name()[0]);
    }
    assert("completed"@[0] == 'c');
    assert("drop_sent"@[0] == 'd');
    assert("finished"@[0] == 'f');
    assert("released"@[0] == 'r');
    reveal_strlit("Drag started");
    reveal_strlit("Entered drop target");
    reveal_strlit("Target inspected drag data");
    reveal_strlit("Target accepted drag");
    reveal_strlit("Drag released");
    reveal_strlit("Drop sent");
    reveal_strlit("Drag finished");
    reveal_strlit("Drag completed");
    if phase.title() == other_phase.title() {
        assert(phase.title().len() == other_phase.title().len());
        assert(phase.title()[5] == other_phase.title()[5]);
    }
    assert("Drag finished"@[5] == 'f');
    assert("Drag released"@[5] == 'r');
}

/// A target is known by its name.
pub proof fn targets_are_known_by_their_names(target: DragTargetKind)
    ensures
        target.name() == "real_x_window"@ <==> target is RealXWindow,
        target.name() == "anonymous_bridge"@ <==> target is AnonymousBridge,
        target.name() == "origin_window"@ <==> target is OriginWindow,
        target.name() == "native_wayland"@ <==> target is NativeWayland,
        target.name() == "unknown"@ <==> target is Unknown,
{
    reveal_strlit("real_x_window");
    reveal_strlit("anonymous_bridge");
    reveal_strlit("origin_window");
    reveal_strlit("native_wayland");
    reveal_strlit("unknown");
    assert("real_x_window"@.len() == 13);
    assert("anonymous_bridge"@.len() == 16);
    assert("origin_window"@.len() == 13);
    assert("native_wayland"@.len() == 14);
    assert("unknown"@.len() == 7);
    assert("origin_window"@[0] == 'o');
    assert("real_x_window"@[0] == 'r');
}

/// A target is known by its title.
pub proof fn targets_are_known_by_their_titles(target: DragTargetKind)
    ensures
        target.title() == "X11 window"@ <==> target is RealXWindow,
        target.title() == "anonymous bridge"@ <==> target is AnonymousBridge,
        target.title() == "origin window"@ <==> target is OriginWindow,
        target.title() == "native Wayland target"@ <==> target is NativeWayland,
        target.title() == "unknown target"@ <==> target is Unknown,
{
    reveal_strlit("X11 window");
    reveal_strlit("anonymous bridge");
    reveal_strlit("origin window");
    reveal_strlit("native Wayland target");
    reveal_strlit("unknown target");
    assert("X11 window"@.len() == 10);
    assert("anonymous bridge"@.len() == 16);
    assert("origin window"@.len() == 13);
    assert("native Wayland target"@.len() == 21);
    assert("unknown target"@.len() == 14);
}

/// A phase is known by its name.
pub proof fn phases_are_known_by_their_names(phase: DragPhase)
    ensures
        phase.name() == "started"@ <==> phase is Started,
        phase.name() == "entered_target"@ <==> phase is EnteredTarget,
        phase.name() == "target_inspected_data"@ <==> phase is TargetInspectedData,
        phase.name() == "target_accepted"@ <==> phase is TargetAccepted,
        phase.name() == "released"@ <==> phase is Released,
        phase.name() == "drop_sent"@ <==> phase is DropSent,
        phase.name() == "finished"@ <==> phase is Finished,
        phase.name() == "completed"@ <==> phase is Completed,
{
    reveal_strlit("started");
    reveal_strlit("entered_target");
    reveal_strlit("target_inspected_data");
    reveal_strlit("target_accepted");
    reveal_strlit("released");
    reveal_strlit("drop_sent");
    reveal_strlit("finished");
    reveal_strlit("completed");
    assert("started"@.len() == 7);
    assert("entered_target"@.len() == 14);
    assert("target_inspected_data"@.len() == 21);
    assert("target_accepted"@.len() == 15);
    assert("released"@.len() == 8);
    assert("drop_sent"@.len() == 9);
    assert("finished"@.len() == 8);
    assert("completed"@.len() == 9);
    assert("completed"@[0] == 'c');
    assert("drop_sent"@[0] == 'd');
    assert("finished"@[0] == 'f');
    assert("released"@[0] == 'r');
}

/// A phase is known by its title.
pub proof fn phases_are_known_by_their_titles(phase: DragPhase)
    ensures
        phase.title() == "Drag started"@ <==> phase is Started,
        phase.title() == "Entered drop target"@ <==> phase is EnteredTarget,
        phase.title() == "Target inspected drag data"@ <==> phase is TargetInspectedData,
        phase.title() == "Target accepted drag"@ <==> phase is TargetAccepted,
        phase.title() == "Drag released"@ <==> phase is Released,
        phase.title() == "Drop sent"@ <==> phase is DropSent,
        phase.title() == "Drag finished"@ <==> phase is Finished,
        phase.title() == "Drag completed"@ <==> phase is Completed,
{
    reveal_strlit("Drag started");
    reveal_strlit("Entered drop target");
    reveal_strlit("Target inspected drag data");
    reveal_strlit("Target accepted drag");
    reveal_strlit("Drag released");
    reveal_strlit("Drop sent");
    reveal_strlit("Drag finished");
    reveal_strlit("Drag completed");
    assert("Drag started"@.len() == 12);
    assert("Entered drop target"@.len() == 19);
    assert("Target inspected drag data"@.len() == 26);
    assert("Target accepted drag"@.len() == 20);
    assert("Drag released"@.len() == 13);
    assert("Drop sent"@.len() == 9);
    assert("Drag finished"@.len() == 13);
    assert("Drag completed"@.len() == 14);
    assert("Drag finished"@[5] == 'f');
    assert("Drag released"@[5] == 'r');
}

} // verus!
