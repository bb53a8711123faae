//! The measure check item: flattened space records in, code-measure slot
//! out.

use vstd::prelude::*;

use crate::config;
use crate::result;
use crate::toolchains;
use crate::toolchains::CheckToolOption;
use crate::toolchains::rust_code_analysis;

verus! {

/// The measure check's scored outcome.
#[derive(Debug)]
pub struct MeasureCheckResult {
    score: Option<u64>,
    normalized_score: Option<u64>,
}

impl result::ResultInfo for MeasureCheckResult {
    fn score(&self) -> Option<u64> {
        self.score
    }

    fn normalized_score(&self) -> Option<u64> {
        self.normalized_score
    }

    fn details(&self) -> Option<String> {
        None
    }
}

/// What the code-measure slot holds after a run over the given raw
/// collection: the computed score where the records were collected, all four
/// thresholds are configured, and the measure scoring configuration is
/// complete; the old slot value otherwise.
pub open spec fn spec_measure_slot(
    c: config::ConfigV,
    raw: result::CheckResultDetail,
    old_slot: Option<result::CodeMeasure>,
) -> Option<result::CodeMeasure> {
    match raw {
        result::CheckResultDetail::CodeAnalysis { result: Option::Some(recs) } => match c
            .quality_evaluation_cfg {
            Option::Some(q) => match q.measeure_cfg {
                Option::Some(m) => if rust_code_analysis::spec_measure_thresholds_complete(m) {
                    match rust_code_analysis::spec_measure_count_value(
                        c,
                        Option::Some(
                            result::ParseResultDetail::CodeAnalysis {
                                large_cyclomatic_complexity: Option::Some(
                                    rust_code_analysis::spec_large_cyclomatic_count(
                                        recs.deep_view(),
                                        m,
                                    ) as u64,
                                ),
                                large_cognitive_complexity: Option::Some(
                                    rust_code_analysis::spec_large_cognitive_count(
                                        recs.deep_view(),
                                        m,
                                    ) as u64,
                                ),
                                large_num_rows_file: Option::Some(
                                    rust_code_analysis::spec_large_file_count(
                                        recs.deep_view(),
                                        m,
                                    ) as u64,
                                ),
                                large_num_rows_function: Option::Some(
                                    rust_code_analysis::spec_large_function_count(
                                        recs.deep_view(),
                                        m,
                                    ) as u64,
                                ),
                            },
                        ),
                    ) {
                        Option::Some(
                            result::CountResultDetail::CodeAnalysis {
                                score: Option::Some(s),
                                normalized_score: Option::Some(n),
                            },
                        ) => Option::Some(
                            result::CodeMeasure {
                                score: Option::Some(s),
                                normalized_score: Option::Some(n),
                            },
                        ),
                        _ => old_slot,
                    }
                } else {
                    old_slot
                },
                Option::None => old_slot,
            },
            Option::None => old_slot,
        },
        _ => old_slot,
    }
}

/// The measure check item.
#[derive(Debug)]
pub struct MeasureCheck {
    pub project: config::ProjectInfoConfig,
    pub config: config::Config,
}

impl super::CheckItem for MeasureCheck {
    open spec fn spec_raw_ok(raw: result::CheckResultDetail) -> bool {
        match raw {
            result::CheckResultDetail::CodeAnalysis { result } => match result {
                Option::Some(recs) => rust_code_analysis::spec_records_wf(recs.deep_view()),
                Option::None => true,
            },
            _ => false,
        }
    }

    open spec fn spec_check_pre(&self) -> bool {
        rust_code_analysis::spec_measure_cfg_ok(self.config.deep_view())
    }

    /// The run writes the code-measure slot as [`spec_measure_slot`] says
    /// and touches nothing else.
    open spec fn spec_check_rel(
        pre: Self,
        post: Self,
        raw: result::CheckResultDetail,
        pre_report: result::CheckReport,
        post_report: result::CheckReport,
    ) -> bool {
        &&& post == pre
        &&& post_report.code_measure == spec_measure_slot(
            pre.config.deep_view(),
            raw,
            pre_report.code_measure,
        )
        &&& pre_report.agrees_except_measure(post_report)
    }

    /// Drive the metrics tool through all four phases over one collection.
    fn check(&mut self, raw: result::CheckResultDetail, result: &mut result::CheckReport) {
        let tool = toolchains::make_check(
            self.config.clone(),
            toolchains::CheckTool::RustCodeAnalysisForMeasure,
            &self.project,
        );
        match tool {
            toolchains::CheckToolBox::RustCodeAnalysis(mut c) => {
                c.check(raw);
                c.parse();
                c.count();
                c.result(result);
            },
            _ => {
                proof {
                    assert(false);
                }
            },
        }
    }
}

} // verus!
