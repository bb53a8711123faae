//! Arguments of the check command.

use vstd::prelude::*;

verus! {

/// Which check families to run.
#[derive(Debug, PartialEq, Eq, Copy, Clone, Structural)]
pub enum CheckItem {
    CommunityEcology,
    QualityEvaluation,
    All,
}

/// The check command's arguments: an optional configuration path, an
/// optional project path, and the check families to run.
#[derive(Debug)]
pub struct Args {
    pub config: Option<String>,
    pub project: Option<String>,
    pub check_item: CheckItem,
}

} // verus!
