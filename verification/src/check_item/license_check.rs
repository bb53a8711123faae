//! The license check item: resolved dependency graph in, license-check slot
//! out.

use vstd::prelude::*;

use crate::config;
use crate::result;
use crate::toolchains;
use crate::toolchains::CheckToolOption;
use crate::toolchains::cargo_deny;

verus! {

/// The license check's scored outcome.
#[derive(Debug)]
pub struct LicenseCheckResult {
    score: Option<u64>,
    normalized_score: Option<u64>,
}

impl result::ResultInfo for LicenseCheckResult {
    fn score(&self) -> Option<u64> {
        self.score
    }

    fn normalized_score(&self) -> Option<u64> {
        self.normalized_score
    }

    fn details(&self) -> Option<String> {
        None
    }
}

/// What the license-check slot holds after a run over the given raw
/// collection: the computed score where the graph was gathered, both license
/// sets are configured, and the license scoring configuration is complete;
/// the old slot value otherwise.
pub open spec fn spec_license_slot(
    c: config::ConfigV,
    raw: result::CheckResultDetail,
    old_slot: Option<result::LicenseCheck>,
) -> Option<result::LicenseCheck> {
    match raw {
        result::CheckResultDetail::CargoLicense { result: Option::Some(deps) } => match c
            .quality_evaluation_cfg {
            Option::Some(q) => match q.license_cfg {
                Option::Some(l) => match (l.allow_licenses, l.deny_licenses) {
                    (Option::Some(allow), Option::Some(deny)) => {
                        match cargo_deny::spec_license_count_value(
                            c,
                            Option::Some(
                                result::ParseResultDetail::CargoLicense {
                                    deny_license: Option::Some(
                                        cargo_deny::spec_deny_count(
                                            deps.deep_view(),
                                            allow,
                                            deny,
                                        ) as u64,
                                    ),
                                    unlicense: Option::Some(
                                        cargo_deny::spec_unlicensed_count(deps.deep_view()) as u64,
                                    ),
                                    default_license: Option::Some(
                                        cargo_deny::spec_default_count(
                                            deps.deep_view(),
                                            allow,
                                            deny,
                                        ) as u64,
                                    ),
                                },
                            ),
                        ) {
                            Option::Some(
                                result::CountResultDetail::CargoLicense {
                                    score: Option::Some(s),
                                    normalized_score: Option::Some(n),
                                },
                            ) => Option::Some(
                                result::LicenseCheck {
                                    score: Option::Some(s),
                                    normalized_score: Option::Some(n),
                                },
                            ),
                            _ => old_slot,
                        }
                    },
                    _ => old_slot,
                },
                Option::None => old_slot,
            },
            Option::None => old_slot,
        },
        _ => old_slot,
    }
}

/// The license check item.
#[derive(Debug)]
pub struct LicenseCheck {
    pub project: config::ProjectInfoConfig,
    pub config: config::Config,
}

impl super::CheckItem for LicenseCheck {
    open spec fn spec_raw_ok(raw: result::CheckResultDetail) -> bool {
        raw is CargoLicense
    }

    open spec fn spec_check_pre(&self) -> bool {
        cargo_deny::spec_license_cfg_ok(self.config.deep_view())
    }

    /// The run writes the license-check slot as [`spec_license_slot`] says
    /// and touches nothing else.
    open spec fn spec_check_rel(
        pre: Self,
        post: Self,
        raw: result::CheckResultDetail,
        pre_report: result::CheckReport,
        post_report: result::CheckReport,
    ) -> bool {
        &&& post == pre
        &&& post_report.license_check == spec_license_slot(
            pre.config.deep_view(),
            raw,
            pre_report.license_check,
        )
        &&& pre_report.agrees_except_license(post_report)
    }

    /// Drive the license tool through all four phases over one collection.
    fn check(&mut self, raw: result::CheckResultDetail, result: &mut result::CheckReport) {
        let tool = toolchains::make_check(
            self.config.clone(),
            toolchains::CheckTool::CargoDenyForLicenseCheck,
            &self.project,
        );
        match tool {
            toolchains::CheckToolBox::CargoDeny(mut c) => {
                c.check(raw);
                c.parse();
                c.count();
                c.result(result);
            },
            _ => {
                proof {
                    assert(false);
                }
            },
        }
    }
}

} // verus!
