//! Per-project configuration: which checks run, and the thresholds, penalty
//! values, base scores and weights each analyzer scores against.
//!
//! Every configuration type has a mathematical model reached through
//! `deep_view()`; contracts elsewhere in the crate speak of those models.

use vstd::prelude::*;

use crate::text::{eq_ignore_ascii_case, spec_lower};

verus! {

/// The community-ecology checks a project can select.
#[derive(Debug, PartialEq, Eq, Copy, Clone, Structural)]
pub enum CommunityEcology {
    DeveloperCount,
}

/// The quality-evaluation checks a project can select.
#[derive(Debug, PartialEq, Eq, Copy, Clone, Structural)]
pub enum QualityEvaluation {
    StaticCheck,
    License,
    Measure,
}

impl DeepView for CommunityEcology {
    type V = CommunityEcology;

    open spec fn deep_view(&self) -> CommunityEcology {
        *self
    }
}

impl DeepView for QualityEvaluation {
    type V = QualityEvaluation;

    open spec fn deep_view(&self) -> QualityEvaluation {
        *self
    }
}

/// The community-ecology check a lower-cased name selects.
pub open spec fn spec_community_ecology_of(s: Seq<char>) -> Option<CommunityEcology> {
    if spec_lower(s) == "developer_count"@ {
        Option::Some(CommunityEcology::DeveloperCount)
    } else {
        Option::None
    }
}

/// The quality-evaluation check a lower-cased name selects.
pub open spec fn spec_quality_evaluation_of(s: Seq<char>) -> Option<QualityEvaluation> {
    if spec_lower(s) == "static_check"@ {
        Option::Some(QualityEvaluation::StaticCheck)
    } else if spec_lower(s) == "license"@ {
        Option::Some(QualityEvaluation::License)
    } else if spec_lower(s) == "measure"@ {
        Option::Some(QualityEvaluation::Measure)
    } else {
        Option::None
    }
}

impl CommunityEcology {
    /// Every community-ecology check, in a fixed order.
    pub fn get_all() -> (r: Vec<CommunityEcology>)
        ensures
            r@ == seq![CommunityEcology::DeveloperCount],
    {
        let mut v: Vec<CommunityEcology> = Vec::new();
        v.push(CommunityEcology::DeveloperCount);
        proof {
            assert(v@ =~= seq![CommunityEcology::DeveloperCount]);
        }
        v
    }

    /// Parse a check name, ignoring ASCII case.
    pub fn from_str(s: &str) -> (r: Result<CommunityEcology, String>)
        ensures
            match r {
                Ok(v) => spec_community_ecology_of(s@) == Option::Some(v),
                Err(_) => spec_community_ecology_of(s@) is None,
            },
    {
        proof {
            reveal_strlit("developer_count");
            assert(spec_lower("developer_count"@) =~= "developer_count"@);
        }
        if eq_ignore_ascii_case(s, "developer_count") {
            Ok(CommunityEcology::DeveloperCount)
        } else {
            Err("unknown CommunityEcology option".to_owned())
        }
    }
}

impl QualityEvaluation {
    /// Every quality-evaluation check, in the order the pipeline runs them.
    pub fn get_all() -> (r: Vec<QualityEvaluation>)
        ensures
            r@ == seq![
                QualityEvaluation::StaticCheck,
                QualityEvaluation::License,
                QualityEvaluation::Measure,
            ],
    {
        let mut v: Vec<QualityEvaluation> = Vec::new();
        v.push(QualityEvaluation::StaticCheck);
        v.push(QualityEvaluation::License);
        v.push(QualityEvaluation::Measure);
        proof {
            assert(v@ =~= seq![
                QualityEvaluation::StaticCheck,
                QualityEvaluation::License,
                QualityEvaluation::Measure,
            ]);
        }
        v
    }

    /// Parse a check name, ignoring ASCII case.
    pub fn from_str(s: &str) -> (r: Result<QualityEvaluation, String>)
        ensures
            match r {
                Ok(v) => spec_quality_evaluation_of(s@) == Option::Some(v),
                Err(_) => spec_quality_evaluation_of(s@) is None,
            },
    {
        proof {
            reveal_strlit("static_check");
            reveal_strlit("license");
            reveal_strlit("measure");
            assert(spec_lower("static_check"@) =~= "static_check"@);
            assert(spec_lower("license"@) =~= "license"@);
            assert(spec_lower("measure"@) =~= "measure"@);
        }
        if eq_ignore_ascii_case(s, "static_check") {
            Ok(QualityEvaluation::StaticCheck)
        } else if eq_ignore_ascii_case(s, "license") {
            Ok(QualityEvaluation::License)
        } else if eq_ignore_ascii_case(s, "measure") {
            Ok(QualityEvaluation::Measure)
        } else {
            Err("unknown QualityEvaluation option".to_owned())
        }
    }
}

/// Thresholds and weights for the static (lint) check.
#[derive(Debug, Clone, Copy, PartialEq, Eq, Structural)]
pub struct StaticCheckEvaluationConfig {
    pub error_score: Option<u64>,
    pub warn_score: Option<u64>,
    pub static_check_score: Option<u64>,
    pub static_check_weight: Option<u64>,
}

/// Thresholds and weights for the code-measure check.
#[derive(Debug, Clone, Copy, PartialEq, Eq, Structural)]
pub struct MeasureEvaluationConfig {
    pub large_cyclomatic_complexity: Option<u64>,
    pub large_cyclomatic_complexity_score: Option<u64>,
    pub large_cognitive_complexity: Option<u64>,
    pub large_cognitive_complexity_score: Option<u64>,
    pub large_num_rows_function: Option<u64>,
    pub large_num_rows_function_score: Option<u64>,
    pub large_num_rows_file: Option<u64>,
    pub large_num_rows_file_score: Option<u64>,
    pub measure_score: Option<u64>,
    pub measure_weight: Option<u64>,
}

impl DeepView for StaticCheckEvaluationConfig {
    type V = StaticCheckEvaluationConfig;

    open spec fn deep_view(&self) -> StaticCheckEvaluationConfig {
        *self
    }
}

impl DeepView for MeasureEvaluationConfig {
    type V = MeasureEvaluationConfig;

    open spec fn deep_view(&self) -> MeasureEvaluationConfig {
        *self
    }
}

/// License allow/deny sets and the license scoring parameters.
#[derive(Debug)]
pub struct LicenseEvaluationConfig {
    pub allow_licenses: Option<Vec<String>>,
    pub deny_licenses: Option<Vec<String>>,
    pub deny_license_score: Option<u64>,
    pub default_license_score: Option<u64>,
    pub unlicense_score: Option<u64>,
    pub license_eval_score: Option<u64>,
    pub license_eval_weight: Option<u64>,
}

/// Mathematical model of [`LicenseEvaluationConfig`].
#[verifier::ext_equal]
pub struct LicenseEvaluationConfigV {
    pub allow_licenses: Option<Seq<Seq<char>>>,
    pub deny_licenses: Option<Seq<Seq<char>>>,
    pub deny_license_score: Option<u64>,
    pub default_license_score: Option<u64>,
    pub unlicense_score: Option<u64>,
    pub license_eval_score: Option<u64>,
    pub license_eval_weight: Option<u64>,
}

impl DeepView for LicenseEvaluationConfig {
    type V = LicenseEvaluationConfigV;

    open spec fn deep_view(&self) -> LicenseEvaluationConfigV {
        LicenseEvaluationConfigV {
            allow_licenses: self.allow_licenses.deep_view(),
            deny_licenses: self.deny_licenses.deep_view(),
            deny_license_score: self.deny_license_score,
            default_license_score: self.default_license_score,
            unlicense_score: self.unlicense_score,
            license_eval_score: self.license_eval_score,
            license_eval_weight: self.license_eval_weight,
        }
    }
}

impl Clone for LicenseEvaluationConfig {
    fn clone(&self) -> (res: Self)
        ensures
            res.deep_view() == self.deep_view(),
    {
        let res = LicenseEvaluationConfig {
            allow_licenses: match &self.allow_licenses {
                Some(v) => Some(v.clone()),
                None => None,
            },
            deny_licenses: match &self.deny_licenses {
                Some(v) => Some(v.clone()),
                None => None,
            },
            deny_license_score: self.deny_license_score,
            default_license_score: self.default_license_score,
            unlicense_score: self.unlicense_score,
            license_eval_score: self.license_eval_score,
            license_eval_weight: self.license_eval_weight,
        };
        proof {
            assert(res.deep_view().allow_licenses =~~= self.deep_view().allow_licenses);
            assert(res.deep_view().deny_licenses =~~= self.deep_view().deny_licenses);
            assert(res.deep_view() =~= self.deep_view());
        }
        res
    }
}

/// The three per-analyzer score configurations.
#[derive(Debug)]
pub struct QualityEvaluationConfig {
    pub static_check_cfg: Option<StaticCheckEvaluationConfig>,
    pub measeure_cfg: Option<MeasureEvaluationConfig>,
    pub license_cfg: Option<LicenseEvaluationConfig>,
}

/// Mathematical model of [`QualityEvaluationConfig`].
#[verifier::ext_equal]
pub struct QualityEvaluationConfigV {
    pub static_check_cfg: Option<StaticCheckEvaluationConfig>,
    pub measeure_cfg: Option<MeasureEvaluationConfig>,
    pub license_cfg: Option<LicenseEvaluationConfigV>,
}

impl DeepView for QualityEvaluationConfig {
    type V = QualityEvaluationConfigV;

    open spec fn deep_view(&self) -> QualityEvaluationConfigV {
        QualityEvaluationConfigV {
            static_check_cfg: self.static_check_cfg,
            measeure_cfg: self.measeure_cfg,
            license_cfg: self.license_cfg.deep_view(),
        }
    }
}

impl Clone for QualityEvaluationConfig {
    fn clone(&self) -> (res: Self)
        ensures
            res.deep_view() == self.deep_view(),
    {
        let res = QualityEvaluationConfig {
            static_check_cfg: self.static_check_cfg,
            measeure_cfg: self.measeure_cfg,
            license_cfg: match &self.license_cfg {
                Some(c) => Some(c.clone()),
                None => None,
            },
        };
        proof {
            assert(res.deep_view() =~= self.deep_view());
        }
        res
    }
}

/// Name used by the community-ecology checks.
#[derive(Debug)]
pub struct CommunityEcologyConfig {
    pub name: Option<String>,
}

/// Mathematical model of [`CommunityEcologyConfig`].
#[verifier::ext_equal]
pub struct CommunityEcologyConfigV {
    pub name: Option<Seq<char>>,
}

impl DeepView for CommunityEcologyConfig {
    type V = CommunityEcologyConfigV;

    open spec fn deep_view(&self) -> CommunityEcologyConfigV {
        CommunityEcologyConfigV { name: self.name.deep_view() }
    }
}

impl Clone for CommunityEcologyConfig {
    fn clone(&self) -> (res: Self)
        ensures
            res == *self,
    {
        CommunityEcologyConfig {
            name: match &self.name {
                Some(n) => Some(n.clone()),
                None => None,
            },
        }
    }
}

/// Where one project run reads its sources and writes its results.
#[derive(Debug)]
pub struct ProjectInfoConfig {
    pub manifest: String,
    pub dir: String,
    pub result: String,
}

/// Mathematical model of [`ProjectInfoConfig`].
#[verifier::ext_equal]
pub struct ProjectInfoConfigV {
    pub manifest: Seq<char>,
    pub dir: Seq<char>,
    pub result: Seq<char>,
}

impl DeepView for ProjectInfoConfig {
    type V = ProjectInfoConfigV;

    open spec fn deep_view(&self) -> ProjectInfoConfigV {
        ProjectInfoConfigV {
            manifest: self.manifest@,
            dir: self.dir@,
            result: self.result@,
        }
    }
}

impl Clone for ProjectInfoConfig {
    fn clone(&self) -> (res: Self)
        ensures
            res == *self,
    {
        ProjectInfoConfig {
            manifest: self.manifest.clone(),
            dir: self.dir.clone(),
            result: self.result.clone(),
        }
    }
}

/// The whole per-project configuration.
#[derive(Debug)]
pub struct Config {
    pub check_quality_item: Option<Vec<QualityEvaluation>>,
    pub exclude_dir: Option<Vec<String>>,
    pub check_community_ecology_item: Option<Vec<CommunityEcology>>,
    pub community_ecology_cfg: Option<CommunityEcologyConfig>,
    pub quality_evaluation_cfg: Option<QualityEvaluationConfig>,
    pub project_info_config: Option<ProjectInfoConfig>,
}

/// Mathematical model of [`Config`].
#[verifier::ext_equal]
pub struct ConfigV {
    pub check_quality_item: Option<Seq<QualityEvaluation>>,
    pub exclude_dir: Option<Seq<Seq<char>>>,
    pub check_community_ecology_item: Option<Seq<CommunityEcology>>,
    pub community_ecology_cfg: Option<CommunityEcologyConfigV>,
    pub quality_evaluation_cfg: Option<QualityEvaluationConfigV>,
    pub project_info_config: Option<ProjectInfoConfigV>,
}

impl DeepView for Config {
    type V = ConfigV;

    open spec fn deep_view(&self) -> ConfigV {
        ConfigV {
            check_quality_item: self.check_quality_item.deep_view(),
            exclude_dir: self.exclude_dir.deep_view(),
            check_community_ecology_item: self.check_community_ecology_item.deep_view(),
            community_ecology_cfg: self.community_ecology_cfg.deep_view(),
            quality_evaluation_cfg: self.quality_evaluation_cfg.deep_view(),
            project_info_config: self.project_info_config.deep_view(),
        }
    }
}

impl Clone for Config {
    fn clone(&self) -> (res: Self)
        ensures
            res.deep_view() == self.deep_view(),
    {
        let res = Config {
            check_quality_item: match &self.check_quality_item {
                Some(v) => Some(v.clone()),
                None => None,
            },
            exclude_dir: match &self.exclude_dir {
                Some(v) => Some(v.clone()),
                None => None,
            },
            check_community_ecology_item: match &self.check_community_ecology_item {
                Some(v) => Some(v.clone()),
                None => None,
            },
            community_ecology_cfg: match &self.community_ecology_cfg {
                Some(c) => Some(c.clone()),
                None => None,
            },
            quality_evaluation_cfg: match &self.quality_evaluation_cfg {
                Some(c) => Some(c.clone()),
                None => None,
            },
            project_info_config: match &self.project_info_config {
                Some(c) => Some(c.clone()),
                None => None,
            },
        };
        proof {
            assert(res.deep_view().check_quality_item =~~= self.deep_view().check_quality_item);
            assert(res.deep_view().exclude_dir =~~= self.deep_view().exclude_dir);
            assert(res.deep_view().check_community_ecology_item =~~= self.deep_view()
                .check_community_ecology_item);
            assert(res.deep_view() =~= self.deep_view());
        }
        res
    }
}

impl Default for Config {
    /// A configuration that selects nothing and configures nothing.
    fn default() -> (res: Self)
        ensures
            res.check_quality_item is None,
            res.exclude_dir is None,
            res.check_community_ecology_item is None,
            res.community_ecology_cfg is None,
            res.quality_evaluation_cfg is None,
            res.project_info_config is None,
    {
        Config {
            check_quality_item: None,
            exclude_dir: None,
            check_community_ecology_item: None,
            community_ecology_cfg: None,
            quality_evaluation_cfg: None,
            project_info_config: None,
        }
    }
}

} // verus!
