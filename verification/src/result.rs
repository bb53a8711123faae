//! The aggregate report: one optional scored section per check kind, plus
//! the intermediate per-phase results each tool threads through its run.

use vstd::prelude::*;

use crate::config::QualityEvaluation;
use crate::toolchains::cargo_deny::DepLicense;
use crate::toolchains::cargo_deny::DepLicenseV;
use crate::toolchains::rust_code_analysis::FuncInfo;
use crate::toolchains::rust_code_analysis::FuncInfoV;

verus! {

/// What the collect phase produced: the raw engine output, tagged by tool,
/// or `None` where the engine invocation failed.
#[derive(Debug)]
pub enum CheckResultDetail {
    Clippy { result: Option<Vec<String>> },
    CodeAnalysis { result: Option<Vec<FuncInfo>> },
    CargoLicense { result: Option<Vec<DepLicense>> },
}

/// Mathematical model of [`CheckResultDetail`].
pub enum CheckResultDetailV {
    Clippy { result: Option<Seq<Seq<char>>> },
    CodeAnalysis { result: Option<Seq<FuncInfoV>> },
    CargoLicense { result: Option<Seq<DepLicenseV>> },
}

impl DeepView for CheckResultDetail {
    type V = CheckResultDetailV;

    open spec fn deep_view(&self) -> CheckResultDetailV {
        match self {
            CheckResultDetail::Clippy { result } => CheckResultDetailV::Clippy {
                result: result.deep_view(),
            },
            CheckResultDetail::CodeAnalysis { result } => CheckResultDetailV::CodeAnalysis {
                result: result.deep_view(),
            },
            CheckResultDetail::CargoLicense { result } => CheckResultDetailV::CargoLicense {
                result: result.deep_view(),
            },
        }
    }
}

/// What the classification phase counted, tagged by tool.
#[derive(Debug, Clone, Copy, PartialEq, Eq)]
pub enum ParseResultDetail {
    Clippy { error: Option<u64>, warn: Option<u64> },
    CodeAnalysis {
        large_cyclomatic_complexity: Option<u64>,
        large_cognitive_complexity: Option<u64>,
        large_num_rows_file: Option<u64>,
        large_num_rows_function: Option<u64>,
    },
    CargoLicense {
        deny_license: Option<u64>,
        unlicense: Option<u64>,
        default_license: Option<u64>,
    },
}

/// What the scoring phase computed, tagged by tool.
#[derive(Debug, Clone, Copy, PartialEq, Eq)]
pub enum CountResultDetail {
    Clippy { score: Option<u64>, normalized_score: Option<u64> },
    CodeAnalysis { score: Option<u64>, normalized_score: Option<u64> },
    CargoLicense { score: Option<u64>, normalized_score: Option<u64> },
}

/// The static-check section of the report.
#[derive(Debug, Clone, Copy, PartialEq, Eq)]
pub struct StaticCheck {
    pub score: Option<u64>,
    pub normalized_score: Option<u64>,
}

/// The code-measure section of the report.
#[derive(Debug, Clone, Copy, PartialEq, Eq)]
pub struct CodeMeasure {
    pub score: Option<u64>,
    pub normalized_score: Option<u64>,
}

/// The code-duplication section of the report.
#[derive(Debug, Clone, Copy, PartialEq, Eq)]
pub struct CodeDuplication {
    pub score: Option<u64>,
    pub normalized_score: Option<u64>,
}

/// The dependent-crate section of the report.
#[derive(Debug, Clone, Copy, PartialEq, Eq)]
pub struct DependentCrate {
    pub score: Option<u64>,
    pub normalized_score: Option<u64>,
}

/// The security-check section of the report.
#[derive(Debug, Clone, Copy, PartialEq, Eq)]
pub struct SecurityCheck {
    pub score: Option<u64>,
    pub normalized_score: Option<u64>,
}

/// The dynamic-check section of the report.
#[derive(Debug, Clone, Copy, PartialEq, Eq)]
pub struct DynamicCheck {
    pub score: Option<u64>,
    pub normalized_score: Option<u64>,
}

/// The vulnerability-scan section of the report.
#[derive(Debug, Clone, Copy, PartialEq, Eq)]
pub struct VulnerabilityScan {
    pub score: Option<u64>,
    pub normalized_score: Option<u64>,
}

/// The license-check section of the report.
#[derive(Debug, Clone, Copy, PartialEq, Eq)]
pub struct LicenseCheck {
    pub score: Option<u64>,
    pub normalized_score: Option<u64>,
}

/// The build-information section of the report.
#[derive(Debug, Clone, Copy, PartialEq, Eq)]
pub struct CompileBuildInfoCheck {
    pub score: Option<u64>,
    pub normalized_score: Option<u64>,
}

/// The documentation section of the report.
#[derive(Debug, Clone, Copy, PartialEq, Eq)]
pub struct DocCheck {
    pub score: Option<u64>,
    pub normalized_score: Option<u64>,
}

/// The test section of the report.
#[derive(Debug, Clone, Copy, PartialEq, Eq)]
pub struct TestCheck {
    pub score: Option<u64>,
    pub normalized_score: Option<u64>,
}

/// The architecture-design section of the report.
#[derive(Debug, Clone, Copy, PartialEq, Eq)]
pub struct ArchitectureDesignCheck {
    pub score: Option<u64>,
    pub normalized_score: Option<u64>,
}

/// The aggregate report of one pipeline run: a slot per check kind, absent
/// until that check ran to completion.
#[derive(Debug, Clone, Copy, PartialEq, Eq)]
pub struct CheckReport {
    pub static_check: Option<StaticCheck>,
    pub code_measure: Option<CodeMeasure>,
    pub code_duplication: Option<CodeDuplication>,
    pub dependent_crate: Option<DependentCrate>,
    pub security_check: Option<SecurityCheck>,
    pub dynamic_check: Option<DynamicCheck>,
    pub vulnerability_scan: Option<VulnerabilityScan>,
    pub license_check: Option<LicenseCheck>,
    pub compile_build_info_check: Option<CompileBuildInfoCheck>,
    pub doc_check: Option<DocCheck>,
    pub test_check: Option<TestCheck>,
    pub architecture_design_check: Option<ArchitectureDesignCheck>,
}

impl CheckReport {
    /// The two reports differ at most in the static-check slot.
    pub open spec fn agrees_except_static(self, o: CheckReport) -> bool {
        &&& self.code_measure == o.code_measure
        &&& self.code_duplication == o.code_duplication
        &&& self.dependent_crate == o.dependent_crate
        &&& self.security_check == o.security_check
        &&& self.dynamic_check == o.dynamic_check
        &&& self.vulnerability_scan == o.vulnerability_scan
        &&& self.license_check == o.license_check
        &&& self.compile_build_info_check == o.compile_build_info_check
        &&& self.doc_check == o.doc_check
        &&& self.test_check == o.test_check
        &&& self.architecture_design_check == o.architecture_design_check
    }

    /// The two reports differ at most in the license-check slot.
    pub open spec fn agrees_except_license(self, o: CheckReport) -> bool {
        &&& self.static_check == o.static_check
        &&& self.code_measure == o.code_measure
        &&& self.code_duplication == o.code_duplication
        &&& self.dependent_crate == o.dependent_crate
        &&& self.security_check == o.security_check
        &&& self.dynamic_check == o.dynamic_check
        &&& self.vulnerability_scan == o.vulnerability_scan
        &&& self.compile_build_info_check == o.compile_build_info_check
        &&& self.doc_check == o.doc_check
        &&& self.test_check == o.test_check
        &&& self.architecture_design_check == o.architecture_design_check
    }

    /// The two reports differ at most in the code-measure slot.
    pub open spec fn agrees_except_measure(self, o: CheckReport) -> bool {
        &&& self.static_check == o.static_check
        &&& self.code_duplication == o.code_duplication
        &&& self.dependent_crate == o.dependent_crate
        &&& self.security_check == o.security_check
        &&& self.dynamic_check == o.dynamic_check
        &&& self.vulnerability_scan == o.vulnerability_scan
        &&& self.license_check == o.license_check
        &&& self.compile_build_info_check == o.compile_build_info_check
        &&& self.doc_check == o.doc_check
        &&& self.test_check == o.test_check
        &&& self.architecture_design_check == o.architecture_design_check
    }

    /// The slot that belongs to check kind `k` holds the same value in both
    /// reports.
    pub open spec fn spec_slot_unchanged(pre: CheckReport, post: CheckReport, k: QualityEvaluation) -> bool {
        match k {
            QualityEvaluation::StaticCheck => post.static_check == pre.static_check,
            QualityEvaluation::License => post.license_check == pre.license_check,
            QualityEvaluation::Measure => post.code_measure == pre.code_measure,
        }
    }
}

impl Default for CheckReport {
    /// The report of a run that has not merged anything yet: every slot
    /// absent.
    fn default() -> (res: Self)
        ensures
            res == CheckReport::spec_default(),
    {
        CheckReport {
            static_check: None,
            code_measure: None,
            code_duplication: None,
            dependent_crate: None,
            security_check: None,
            dynamic_check: None,
            vulnerability_scan: None,
            license_check: None,
            compile_build_info_check: None,
            doc_check: None,
            test_check: None,
            architecture_design_check: None,
        }
    }
}

impl CheckReport {
    /// The empty report: every slot absent.
    pub open spec fn spec_default() -> CheckReport {
        CheckReport {
            static_check: None,
            code_measure: None,
            code_duplication: None,
            dependent_crate: None,
            security_check: None,
            dynamic_check: None,
            vulnerability_scan: None,
            license_check: None,
            compile_build_info_check: None,
            doc_check: None,
            test_check: None,
            architecture_design_check: None,
        }
    }
}

/// What every scored check result can report of itself.
pub trait ResultInfo {
    fn score(&self) -> Option<u64>;

    fn normalized_score(&self) -> Option<u64>;

    fn details(&self) -> Option<String>;
}

} // verus!
