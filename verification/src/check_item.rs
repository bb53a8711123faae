//! The check items the pipeline drives: one adapter per check kind, each
//! running its tool through the four-phase protocol against one raw
//! collection and merging the outcome into the aggregate report.

use vstd::prelude::*;

pub mod license_check;
pub mod measure_check;
pub mod static_check;

use crate::config;
use crate::result;

verus! {

/// One check item: given the raw collection its engine produced, drive the
/// tool through collect, classify, score and merge. The report changes only
/// in the item's own slot, and only where the raw collection and the item's
/// scoring configuration are both complete.
pub trait CheckItem: Sized {
    /// Which raw collections this item accepts.
    spec fn spec_raw_ok(raw: result::CheckResultDetail) -> bool;

    /// Machine bounds on the item's scoring configuration.
    spec fn spec_check_pre(&self) -> bool;

    /// What one run does to the item and to the report.
    spec fn spec_check_rel(
        pre: Self,
        post: Self,
        raw: result::CheckResultDetail,
        pre_report: result::CheckReport,
        post_report: result::CheckReport,
    ) -> bool;

    /// Run the whole check against one raw collection.
    fn check(&mut self, raw: result::CheckResultDetail, result: &mut result::CheckReport)
        requires
            Self::spec_raw_ok(raw),
            old(self).spec_check_pre(),
        ensures
            Self::spec_check_rel(*old(self), *final(self), raw, *old(result), *final(result)),
    ;
}

/// The directory a check kind's results live in, under the run's result
/// root.
pub open spec fn spec_item_result_path(q: config::QualityEvaluation, dir: Seq<char>) -> Seq<char> {
    match q {
        config::QualityEvaluation::StaticCheck => dir + "/static_check"@,
        config::QualityEvaluation::License => dir + "/license_check"@,
        config::QualityEvaluation::Measure => dir + "/measure_check"@,
    }
}

/// Where a check kind stores its results, for the user to inspect.
fn make_result_path(c: &config::QualityEvaluation, dir: &String) -> (r: String)
    ensures
        r@ == spec_item_result_path(*c, dir@),
{
    let result_path = dir.clone();
    match c {
        config::QualityEvaluation::StaticCheck => result_path.concat("/static_check"),
        config::QualityEvaluation::License => result_path.concat("/license_check"),
        config::QualityEvaluation::Measure => result_path.concat("/measure_check"),
    }
}

/// One built check item, keyed by [`config::QualityEvaluation`].
#[derive(Debug)]
pub enum CheckItemBox {
    Static(static_check::StaticCheck),
    License(license_check::LicenseCheck),
    Measure(measure_check::MeasureCheck),
}

/// Build the check item a kind selects: it holds the configuration and the
/// project paths, its result directory keyed by the kind's name.
pub fn make_check(
    c: config::Config,
    q: &config::QualityEvaluation,
    p: &config::ProjectInfoConfig,
) -> (r: CheckItemBox)
    ensures
        match *q {
            config::QualityEvaluation::StaticCheck => r matches CheckItemBox::Static(s) && {
                &&& s.config == c
                &&& s.project.dir == p.dir
                &&& s.project.manifest == p.manifest
                &&& s.project.result@ == spec_item_result_path(*q, p.result@)
            },
            config::QualityEvaluation::License => r matches CheckItemBox::License(s) && {
                &&& s.config == c
                &&& s.project.dir == p.dir
                &&& s.project.manifest == p.manifest
                &&& s.project.result@ == spec_item_result_path(*q, p.result@)
            },
            config::QualityEvaluation::Measure => r matches CheckItemBox::Measure(s) && {
                &&& s.config == c
                &&& s.project.dir == p.dir
                &&& s.project.manifest == p.manifest
                &&& s.project.result@ == spec_item_result_path(*q, p.result@)
            },
        },
{
    let project_cfg = config::ProjectInfoConfig {
        dir: p.dir.clone(),
        manifest: p.manifest.clone(),
        result: make_result_path(q, &p.result),
    };
    match q {
        config::QualityEvaluation::StaticCheck => CheckItemBox::Static(
            static_check::StaticCheck { project: project_cfg, config: c },
        ),
        config::QualityEvaluation::License => CheckItemBox::License(
            license_check::LicenseCheck { project: project_cfg, config: c },
        ),
        config::QualityEvaluation::Measure => CheckItemBox::Measure(
            measure_check::MeasureCheck { project: project_cfg, config: c },
        ),
    }
}

} // verus!
