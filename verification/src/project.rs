//! The evaluation pipeline: one project run drives the configured check
//! items in order, each against the raw collection its engine produced, and
//! gathers their scores into one aggregate report.

use vstd::prelude::*;

use crate::check_item;
use crate::check_item::CheckItem;
use crate::config;
use crate::result;

verus! {

/// The checks a configuration selects, in order; selecting nothing selects
/// them all.
pub open spec fn spec_selected(c: config::ConfigV) -> Seq<config::QualityEvaluation> {
    match c.check_quality_item {
        Option::Some(v) => v,
        Option::None => seq![
            config::QualityEvaluation::StaticCheck,
            config::QualityEvaluation::License,
            config::QualityEvaluation::Measure,
        ],
    }
}

/// The check item built for kind `q` under configuration `cfg`, for a
/// project at `dir` whose results go under `result_root`.
pub open spec fn spec_item_matches(
    it: check_item::CheckItemBox,
    q: config::QualityEvaluation,
    cfg: config::ConfigV,
    dir: Seq<char>,
    result_root: Seq<char>,
) -> bool {
    match (it, q) {
        (check_item::CheckItemBox::Static(s), config::QualityEvaluation::StaticCheck) => {
            &&& s.config.deep_view() == cfg
            &&& s.project.dir@ == dir
            &&& s.project.manifest@ == dir + "/Cargo.toml"@
            &&& s.project.result@ == check_item::spec_item_result_path(q, result_root)
        },
        (check_item::CheckItemBox::License(s), config::QualityEvaluation::License) => {
            &&& s.config.deep_view() == cfg
            &&& s.project.dir@ == dir
            &&& s.project.manifest@ == dir + "/Cargo.toml"@
            &&& s.project.result@ == check_item::spec_item_result_path(q, result_root)
        },
        (check_item::CheckItemBox::Measure(s), config::QualityEvaluation::Measure) => {
            &&& s.config.deep_view() == cfg
            &&& s.project.dir@ == dir
            &&& s.project.manifest@ == dir + "/Cargo.toml"@
            &&& s.project.result@ == check_item::spec_item_result_path(q, result_root)
        },
        _ => false,
    }
}

/// Which raw collections a check item accepts.
pub open spec fn spec_item_raw_ok(
    it: check_item::CheckItemBox,
    raw: result::CheckResultDetail,
) -> bool {
    match it {
        check_item::CheckItemBox::Static(_) => check_item::static_check::StaticCheck::spec_raw_ok(
            raw,
        ),
        check_item::CheckItemBox::License(_) => check_item::license_check::LicenseCheck::spec_raw_ok(
            raw,
        ),
        check_item::CheckItemBox::Measure(_) => check_item::measure_check::MeasureCheck::spec_raw_ok(
            raw,
        ),
    }
}

/// Machine bounds on a check item's scoring configuration.
pub open spec fn spec_item_pre(it: check_item::CheckItemBox) -> bool {
    match it {
        check_item::CheckItemBox::Static(s) => s.spec_check_pre(),
        check_item::CheckItemBox::License(s) => s.spec_check_pre(),
        check_item::CheckItemBox::Measure(s) => s.spec_check_pre(),
    }
}

/// One check item's effect on the report: its own slot is written as the
/// item's slot function says, every other slot keeps its value.
pub open spec fn spec_apply_item(
    rep: result::CheckReport,
    it: check_item::CheckItemBox,
    raw: result::CheckResultDetail,
) -> result::CheckReport {
    match it {
        check_item::CheckItemBox::Static(s) => result::CheckReport {
            static_check: check_item::static_check::spec_static_slot(
                s.config.deep_view(),
                raw,
                rep.static_check,
            ),
            ..rep
        },
        check_item::CheckItemBox::License(s) => result::CheckReport {
            license_check: check_item::license_check::spec_license_slot(
                s.config.deep_view(),
                raw,
                rep.license_check,
            ),
            ..rep
        },
        check_item::CheckItemBox::Measure(s) => result::CheckReport {
            code_measure: check_item::measure_check::spec_measure_slot(
                s.config.deep_view(),
                raw,
                rep.code_measure,
            ),
            ..rep
        },
    }
}

/// The report after the first `i` check items ran, each against its raw
/// collection.
pub open spec fn spec_run_upto(
    rep: result::CheckReport,
    items: Seq<check_item::CheckItemBox>,
    raws: Seq<result::CheckResultDetail>,
    i: int,
) -> result::CheckReport
    decreases i,
{
    if i <= 0 {
        rep
    } else {
        spec_apply_item(spec_run_upto(rep, items, raws, i - 1), items[i - 1], raws[i - 1])
    }
}

/// Whether a check item is of kind `k`.
pub open spec fn spec_item_is_kind(
    it: check_item::CheckItemBox,
    k: config::QualityEvaluation,
) -> bool {
    match (it, k) {
        (check_item::CheckItemBox::Static(_), config::QualityEvaluation::StaticCheck) => true,
        (check_item::CheckItemBox::License(_), config::QualityEvaluation::License) => true,
        (check_item::CheckItemBox::Measure(_), config::QualityEvaluation::Measure) => true,
        _ => false,
    }
}

/// A slot whose kind no check item in the run has keeps its value: a run
/// over a subset of the kinds populates only that subset's slots.
pub proof fn lemma_unselected_slot_unchanged(
    rep: result::CheckReport,
    items: Seq<check_item::CheckItemBox>,
    raws: Seq<result::CheckResultDetail>,
    i: int,
    k: config::QualityEvaluation,
)
    requires
        0 <= i <= items.len(),
        forall|j: int| 0 <= j < items.len() ==> !spec_item_is_kind(#[trigger] items[j], k),
    ensures
        result::CheckReport::spec_slot_unchanged(rep, spec_run_upto(rep, items, raws, i), k),
    decreases i,
{
    if i > 0 {
        lemma_unselected_slot_unchanged(rep, items, raws, i - 1, k);
    }
}

/// Check items built for kinds other than `k` are not of kind `k`.
pub proof fn lemma_selected_kinds_only(
    items: Seq<check_item::CheckItemBox>,
    selected: Seq<config::QualityEvaluation>,
    cfg: config::ConfigV,
    dir: Seq<char>,
    result_root: Seq<char>,
    k: config::QualityEvaluation,
)
    requires
        items.len() == selected.len(),
        forall|i: int|
            0 <= i < items.len() ==> spec_item_matches(
                #[trigger] items[i],
                selected[i],
                cfg,
                dir,
                result_root,
            ),
        forall|i: int| 0 <= i < selected.len() ==> #[trigger] selected[i] != k,
    ensures
        forall|i: int| 0 <= i < items.len() ==> !spec_item_is_kind(#[trigger] items[i], k),
{
}

/// A pipeline run over a selection that leaves kind `k` out never populates
/// `k`'s slot: only the selected kinds' slots can be filled.
pub proof fn lemma_subset_populates_only_selected(
    rep: result::CheckReport,
    items: Seq<check_item::CheckItemBox>,
    selected: Seq<config::QualityEvaluation>,
    cfg: config::ConfigV,
    dir: Seq<char>,
    result_root: Seq<char>,
    raws: Seq<result::CheckResultDetail>,
    k: config::QualityEvaluation,
)
    requires
        items.len() == selected.len(),
        forall|i: int|
            0 <= i < items.len() ==> spec_item_matches(
                #[trigger] items[i],
                selected[i],
                cfg,
                dir,
                result_root,
            ),
        forall|i: int| 0 <= i < selected.len() ==> #[trigger] selected[i] != k,
    ensures
        result::CheckReport::spec_slot_unchanged(
            rep,
            spec_run_upto(rep, items, raws, items.len() as int),
            k,
        ),
{
    lemma_selected_kinds_only(items, selected, cfg, dir, result_root, k);
    lemma_unselected_slot_unchanged(rep, items, raws, items.len() as int, k);
}

/// A run touches only the three slots that have check kinds: every other
/// section of the report keeps its value.
pub proof fn lemma_untouched_sections(
    rep: result::CheckReport,
    items: Seq<check_item::CheckItemBox>,
    raws: Seq<result::CheckResultDetail>,
    i: int,
)
    requires
        0 <= i,
    ensures
        spec_run_upto(rep, items, raws, i).code_duplication == rep.code_duplication,
        spec_run_upto(rep, items, raws, i).dependent_crate == rep.dependent_crate,
        spec_run_upto(rep, items, raws, i).security_check == rep.security_check,
        spec_run_upto(rep, items, raws, i).dynamic_check == rep.dynamic_check,
        spec_run_upto(rep, items, raws, i).vulnerability_scan == rep.vulnerability_scan,
        spec_run_upto(rep, items, raws, i).compile_build_info_check == rep.compile_build_info_check,
        spec_run_upto(rep, items, raws, i).doc_check == rep.doc_check,
        spec_run_upto(rep, items, raws, i).test_check == rep.test_check,
        spec_run_upto(rep, items, raws, i).architecture_design_check
            == rep.architecture_design_check,
    decreases i,
{
    if i > 0 {
        lemma_untouched_sections(rep, items, raws, i - 1);
    }
}

/// One project run: the selected check items and the report they fill.
#[derive(Debug)]
pub struct Project {
    pub manifest: String,
    pub result_path: String,
    pub cfg: config::Config,
    pub check_item: Vec<check_item::CheckItemBox>,
    pub result: result::CheckReport,
}

impl Project {
    /// Set up a run: build one check item per selected kind, each keyed to
    /// its own result directory under `result_dir`. The report starts with
    /// every slot absent.
    pub fn new(project_path: String, result_dir: String, config: &config::Config) -> (p: Project)
        ensures
            p.manifest == project_path,
            p.result_path == result_dir,
            p.cfg.deep_view() == config.deep_view(),
            p.result == result::CheckReport::spec_default(),
            p.check_item@.len() == spec_selected(config.deep_view()).len(),
            forall|i: int|
                0 <= i < p.check_item@.len() ==> spec_item_matches(
                    #[trigger] p.check_item@[i],
                    spec_selected(config.deep_view())[i],
                    config.deep_view(),
                    project_path@,
                    result_dir@,
                ),
    {
        let selected: Vec<config::QualityEvaluation> = match &config.check_quality_item {
            Some(v) => {
                let s = v.clone();
                proof {
                    assert(s@ =~= v@);
                }
                s
            },
            None => config::QualityEvaluation::get_all(),
        };
        proof {
            assert(selected@ == spec_selected(config.deep_view()));
        }
        let manifest_file = project_path.clone().concat("/Cargo.toml");
        let project_cfg = config::ProjectInfoConfig {
            dir: project_path.clone(),
            manifest: manifest_file,
            result: result_dir.clone(),
        };
        let mut items: Vec<check_item::CheckItemBox> = Vec::new();
        let mut i: usize = 0;
        while i < selected.len()
            invariant
                0 <= i <= selected@.len(),
                selected@ == spec_selected(config.deep_view()),
                project_cfg.dir@ == project_path@,
                project_cfg.manifest@ == project_path@ + "/Cargo.toml"@,
                project_cfg.result@ == result_dir@,
                items@.len() == i,
                forall|j: int|
                    0 <= j < i ==> spec_item_matches(
                        #[trigger] items@[j],
                        selected@[j],
                        config.deep_view(),
                        project_path@,
                        result_dir@,
                    ),
            decreases selected@.len() - i,
        {
            let q = selected[i];
            items.push(check_item::make_check(config.clone(), &q, &project_cfg));
            i += 1;
        }
        Project {
            manifest: project_path,
            result_path: result_dir,
            cfg: config.clone(),
            check_item: items,
            result: Default::default(),
        }
    }

    /// Run every check item in order, the i-th against the i-th raw
    /// collection, merging each outcome into the report.
    pub fn execute(&mut self, raws: Vec<result::CheckResultDetail>)
        requires
            raws@.len() == old(self).check_item@.len(),
            forall|i: int|
                0 <= i < raws@.len() ==> spec_item_raw_ok(
                    #[trigger] old(self).check_item@[i],
                    raws@[i],
                ),
            forall|i: int|
                0 <= i < old(self).check_item@.len() ==> spec_item_pre(
                    #[trigger] old(self).check_item@[i],
                ),
        ensures
            final(self).result == spec_run_upto(
                old(self).result,
                old(self).check_item@,
                raws@,
                raws@.len() as int,
            ),
            final(self).check_item@ == old(self).check_item@,
            final(self).cfg == old(self).cfg,
            final(self).manifest == old(self).manifest,
            final(self).result_path == old(self).result_path,
    {
        let ghost items0 = self.check_item@;
        let ghost raws0 = raws@;
        let ghost rep0 = self.result;
        let mut raws = raws;
        let n = self.check_item.len();
        let mut i: usize = 0;
        while i < n
            invariant
                0 <= i <= n,
                n == items0.len(),
                raws0.len() == items0.len(),
                self.check_item@ == items0,
                raws@ == raws0.skip(i as int),
                self.result == spec_run_upto(rep0, items0, raws0, i as int),
                self.cfg == old(self).cfg,
                self.manifest == old(self).manifest,
                self.result_path == old(self).result_path,
                forall|j: int| 0 <= j < n ==> spec_item_raw_ok(#[trigger] items0[j], raws0[j]),
                forall|j: int| 0 <= j < n ==> spec_item_pre(#[trigger] items0[j]),
            decreases n - i,
        {
            proof {
                assert(raws@[0] == raws0[i as int]);
            }
            let raw = raws.remove(0);
            proof {
                assert(raws@ =~= raws0.skip(i + 1));
            }
            let mut it = self.check_item.remove(i);
            let ghost pre_rep = self.result;
            match &mut it {
                check_item::CheckItemBox::Static(s) => {
                    s.check(raw, &mut self.result);
                },
                check_item::CheckItemBox::License(s) => {
                    s.check(raw, &mut self.result);
                },
                check_item::CheckItemBox::Measure(s) => {
                    s.check(raw, &mut self.result);
                },
            }
            proof {
                assert(self.result =~= spec_apply_item(pre_rep, items0[i as int], raws0[i as int]));
            }
            self.check_item.insert(i, it);
            proof {
                assert(self.check_item@ =~= items0);
            }
            i += 1;
        }
        proof {
            assert(raws0.skip(n as int) =~= Seq::<result::CheckResultDetail>::empty());
        }
    }

    /// The report as the run left it.
    pub fn get_result(&self) -> (r: result::CheckReport)
        ensures
            r == self.result,
    {
        self.result
    }
}

} // verus!
