//! The static check item: lint output in, static-check slot out.

use vstd::prelude::*;

use crate::config;
use crate::result;
use crate::toolchains;
use crate::toolchains::CheckToolOption;
use crate::toolchains::clippy;

verus! {

/// The static check's scored outcome.
#[derive(Debug)]
pub struct StaticCheckResult {
    score: Option<u64>,
    normalized_score: Option<u64>,
}

impl result::ResultInfo for StaticCheckResult {
    fn score(&self) -> Option<u64> {
        self.score
    }

    fn normalized_score(&self) -> Option<u64> {
        self.normalized_score
    }

    fn details(&self) -> Option<String> {
        None
    }
}

/// What the static-check slot holds after a run over the given raw
/// collection: the computed score where the lint output was collected and
/// the static scoring configuration is complete, the old slot value
/// otherwise.
pub open spec fn spec_static_slot(
    c: config::ConfigV,
    raw: result::CheckResultDetail,
    old_slot: Option<result::StaticCheck>,
) -> Option<result::StaticCheck> {
    match raw {
        result::CheckResultDetail::Clippy { result: Option::Some(lines) } => {
            let cls = clippy::spec_classify(lines.deep_view());
            match clippy::spec_static_count_value(
                c,
                Option::Some(
                    result::ParseResultDetail::Clippy {
                        error: Option::Some(clippy::spec_count_err(cls) as u64),
                        warn: Option::Some(clippy::spec_count_warn(cls) as u64),
                    },
                ),
            ) {
                Option::Some(
                    result::CountResultDetail::Clippy {
                        score: Option::Some(s),
                        normalized_score: Option::Some(n),
                    },
                ) => Option::Some(
                    result::StaticCheck {
                        score: Option::Some(s),
                        normalized_score: Option::Some(n),
                    },
                ),
                _ => old_slot,
            }
        },
        _ => old_slot,
    }
}

/// A failed lint engine invocation leaves the static-check slot exactly as
/// it was, whatever the configuration: nothing was collected, so nothing is
/// classified, scored or merged.
pub proof fn lemma_engine_failure_leaves_slot(
    c: config::ConfigV,
    old_slot: Option<result::StaticCheck>,
)
    ensures
        spec_static_slot(
            c,
            result::CheckResultDetail::Clippy { result: Option::None },
            old_slot,
        ) == old_slot,
{
}

/// The static check item.
#[derive(Debug)]
pub struct StaticCheck {
    pub project: config::ProjectInfoConfig,
    pub config: config::Config,
}

impl super::CheckItem for StaticCheck {
    open spec fn spec_raw_ok(raw: result::CheckResultDetail) -> bool {
        match raw {
            result::CheckResultDetail::Clippy { result } => match result {
                Option::Some(lines) => lines@.len() < u32::MAX,
                Option::None => true,
            },
            _ => false,
        }
    }

    open spec fn spec_check_pre(&self) -> bool {
        clippy::spec_static_cfg_ok(self.config.deep_view())
    }

    /// The run writes the static-check slot as [`spec_static_slot`] says and
    /// touches nothing else.
    open spec fn spec_check_rel(
        pre: Self,
        post: Self,
        raw: result::CheckResultDetail,
        pre_report: result::CheckReport,
        post_report: result::CheckReport,
    ) -> bool {
        &&& post == pre
        &&& post_report.static_check == spec_static_slot(
            pre.config.deep_view(),
            raw,
            pre_report.static_check,
        )
        &&& pre_report.agrees_except_static(post_report)
    }

    /// Drive the lint tool through all four phases over one collection.
    fn check(&mut self, raw: result::CheckResultDetail, result: &mut result::CheckReport) {
        let tool = toolchains::make_check(
            self.config.clone(),
            toolchains::CheckTool::ClippyForStaticCheck,
            &self.project,
        );
        match tool {
            toolchains::CheckToolBox::Clippy(mut c) => {
                c.check(raw);
                c.parse();
                c.count();
                c.result(result);
            },
            _ => {
                proof {
                    assert(false);
                }
            },
        }
    }
}

} // verus!
