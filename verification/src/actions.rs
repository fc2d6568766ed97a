//! What a menu entry does when it is confirmed.

use crate::app::AppView;
use vstd::prelude::*;

verus! {

/// The long-running operations that a menu entry can start. The engine
/// only names them: running one is the caller's business, and all the
/// engine hears back is a success message or a failure reason.
#[derive(Clone, Copy, PartialEq, Eq, Debug, Structural)]
pub enum Task {
    CreateSnapshot,
    DeploySnapshot,
    CreateIso,
    InspectSystem,
    FlashIso,
    ManualWipeDisk,
    ManualPartitionDisk,
    ManualFormatPartitions,
    ManualMountPartitions,
    ManualPacstrap,
    ManualChrootGrub,
}

/// The operation bound to a menu entry: leave the session, show another
/// view, or run a task. Navigation is always one of the first two; a task's
/// outcome is text to show and never navigates.
#[derive(Clone, Copy, PartialEq, Eq, Debug, Structural)]
pub enum Action {
    Quit,
    SetView(AppView),
    Execute(Task),
}

} // verus!
