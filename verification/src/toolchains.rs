//! The tools behind the checks: each one runs the four-phase protocol
//! (collect, classify, score, merge) over the raw output of one external
//! engine.

use vstd::prelude::*;

pub mod cargo_deny;
pub mod clippy;
pub mod rust_code_analysis;

use crate::config;
use crate::result;

verus! {

/// The four-phase protocol every tool follows, in order: collect the raw
/// engine output, classify it into findings, score the findings against the
/// configuration, and merge the score into the aggregate report.
///
/// Each implementation pins the exact meaning of its phases in the relation
/// spec functions; the methods promise those relations.
pub trait CheckToolOption: Sized {
    /// Which raw collections this tool accepts.
    spec fn spec_raw_ok(raw: result::CheckResultDetail) -> bool;

    /// What the collect phase does to the tool's state.
    spec fn spec_check_rel(pre: Self, post: Self, raw: result::CheckResultDetail) -> bool;

    /// When classification is defined on the collected raw output.
    spec fn spec_parse_pre(&self) -> bool;

    /// What the classify phase does to the tool's state.
    spec fn spec_parse_rel(pre: Self, post: Self) -> bool;

    /// When scoring is defined on the configuration.
    spec fn spec_count_pre(&self) -> bool;

    /// What the score phase does to the tool's state.
    spec fn spec_count_rel(pre: Self, post: Self) -> bool;

    /// What the merge phase does to the aggregate report.
    spec fn spec_result_rel(
        pre: Self,
        post: Self,
        pre_report: result::CheckReport,
        post_report: result::CheckReport,
    ) -> bool;

    /// Collect: record what the external engine produced.
    fn check(&mut self, raw: result::CheckResultDetail)
        requires
            Self::spec_raw_ok(raw),
        ensures
            Self::spec_check_rel(*old(self), *final(self), raw),
    ;

    /// Classify: turn the raw output into counted findings.
    fn parse(&mut self)
        requires
            old(self).spec_parse_pre(),
        ensures
            Self::spec_parse_rel(*old(self), *final(self)),
    ;

    /// Score: compute the check's score from the findings.
    fn count(&mut self)
        requires
            old(self).spec_count_pre(),
        ensures
            Self::spec_count_rel(*old(self), *final(self)),
    ;

    /// Merge: write the score into this check's slot of the report.
    fn result(&mut self, result: &mut result::CheckReport)
        ensures
            Self::spec_result_rel(*old(self), *final(self), *old(result), *final(result)),
    ;
}

/// Which tool a check runs.
pub enum CheckTool {
    ClippyForStaticCheck,
    CargoDenyForLicenseCheck,
    RustCodeAnalysisForMeasure,
}

/// The file that stores a tool's raw output, under the result directory.
pub open spec fn spec_tool_result_path(c: CheckTool, dir: Seq<char>) -> Seq<char> {
    match c {
        CheckTool::ClippyForStaticCheck => dir + "/static_check.txt"@,
        CheckTool::CargoDenyForLicenseCheck => dir + "/license_check.txt"@,
        CheckTool::RustCodeAnalysisForMeasure => dir + "/measure_check.txt"@,
    }
}

/// Where a tool stores its raw output for the user to inspect.
fn make_result_path(c: &CheckTool, dir: &String) -> (r: String)
    ensures
        r@ == spec_tool_result_path(*c, dir@),
{
    let result_path = dir.clone();
    match c {
        CheckTool::ClippyForStaticCheck => result_path.concat("/static_check.txt"),
        CheckTool::CargoDenyForLicenseCheck => result_path.concat("/license_check.txt"),
        CheckTool::RustCodeAnalysisForMeasure => result_path.concat("/measure_check.txt"),
    }
}

/// One built tool, keyed by [`CheckTool`].
#[derive(Debug)]
pub enum CheckToolBox {
    Clippy(clippy::Clippy),
    CargoDeny(cargo_deny::LicenseCheck),
    RustCodeAnalysis(rust_code_analysis::RustCodeAnalysis),
}

/// Build the tool a check runs: an idle instance holding the configuration
/// and the project paths, its result file under the check's result
/// directory.
pub fn make_check(
    cfg: config::Config,
    tool: CheckTool,
    project_cfg: &config::ProjectInfoConfig,
) -> (t: CheckToolBox)
    ensures
        match tool {
            CheckTool::ClippyForStaticCheck => t matches CheckToolBox::Clippy(c) && {
                &&& c.config == cfg
                &&& c.project_cfg.dir == project_cfg.dir
                &&& c.project_cfg.manifest == project_cfg.manifest
                &&& c.project_cfg.result@ == spec_tool_result_path(tool, project_cfg.result@)
                &&& c.lint_info@ == Seq::<clippy::LintInfo>::empty()
                &&& c.check_result is None
                &&& c.parse_result is None
                &&& c.count_result is None
            },
            CheckTool::CargoDenyForLicenseCheck => t matches CheckToolBox::CargoDeny(c) && {
                &&& c.config == cfg
                &&& c.project_cfg.dir == project_cfg.dir
                &&& c.project_cfg.manifest == project_cfg.manifest
                &&& c.project_cfg.result@ == spec_tool_result_path(tool, project_cfg.result@)
                &&& c.unlicense_crates@ == Seq::<String>::empty()
                &&& c.result@ == Seq::<cargo_deny::CrateLicenseInfo>::empty()
                &&& c.check_result is None
                &&& c.parse_result is None
                &&& c.count_result is None
            },
            CheckTool::RustCodeAnalysisForMeasure => t matches CheckToolBox::RustCodeAnalysis(c)
                && {
                &&& c.config == cfg
                &&& c.project_cfg.dir == project_cfg.dir
                &&& c.project_cfg.manifest == project_cfg.manifest
                &&& c.project_cfg.result@ == spec_tool_result_path(tool, project_cfg.result@)
                &&& c.func_info@ == Seq::<rust_code_analysis::FuncInfo>::empty()
                &&& c.check_result is None
                &&& c.parse_result is None
                &&& c.count_result is None
            },
        },
{
    let project = config::ProjectInfoConfig {
        dir: project_cfg.dir.clone(),
        manifest: project_cfg.manifest.clone(),
        result: make_result_path(&tool, &project_cfg.result),
    };
    match tool {
        CheckTool::ClippyForStaticCheck => CheckToolBox::Clippy(
            clippy::Clippy {
                project_cfg: project,
                config: cfg,
                lint_info: Vec::new(),
                check_result: None,
                parse_result: None,
                count_result: None,
            },
        ),
        CheckTool::CargoDenyForLicenseCheck => CheckToolBox::CargoDeny(
            cargo_deny::LicenseCheck {
                project_cfg: project,
                config: cfg,
                unlicense_crates: Vec::new(),
                result: Vec::new(),
                check_result: None,
                parse_result: None,
                count_result: None,
            },
        ),
        CheckTool::RustCodeAnalysisForMeasure => CheckToolBox::RustCodeAnalysis(
            rust_code_analysis::RustCodeAnalysis {
                project_cfg: project,
                config: cfg,
                func_info: Vec::new(),
                check_result: None,
                parse_result: None,
                count_result: None,
            },
        ),
    }
}

} // verus!
