//! The license check: classifies every dependency's license expressions
//! against the configured allow and deny sets, and scores the tallies.
//!
//! Each dependency is counted in exactly one tally. A dependency with no
//! license expressions is unlicensed. One with at least one denied license
//! counts once toward the deny tally, however many denied licenses it has
//! and whatever else it is allowed: deny dominates allow. One with neither
//! a denied nor an allowed license counts toward the default tally. The
//! per-dependency record keeps all the flags for the user to inspect.

use vstd::prelude::*;

use crate::config;
use crate::result;
use crate::scoring::{
    penalty_add, penalty_mul, raw_score, normalized_score, spec_raw_score, spec_normalized_score,
    lemma_clamp_add, lemma_clamped_penalty_same_score, SCORE_INPUT_MAX,
};

verus! {

/// One dependency as the resolution engine reports it: its identifier and
/// its license expressions. No expressions means the dependency is
/// unlicensed.
#[derive(Debug)]
pub struct DepLicense {
    pub name: String,
    pub licenses: Vec<String>,
}

/// Mathematical model of [`DepLicense`].
#[verifier::ext_equal]
pub struct DepLicenseV {
    pub name: Seq<char>,
    pub licenses: Seq<Seq<char>>,
}

impl DeepView for DepLicense {
    type V = DepLicenseV;

    open spec fn deep_view(&self) -> DepLicenseV {
        DepLicenseV { name: self.name@, licenses: self.licenses.deep_view() }
    }
}

/// License details for one crate, as presented to the user.
#[derive(Debug)]
pub struct CrateLicenseInfo {
    pub name: String,
    pub license: Vec<String>,
    pub if_has_allow_license: bool,
    pub if_has_deny_license: bool,
    pub if_has_default_license: bool,
    pub if_unlicense: bool,
}

/// Mathematical model of [`CrateLicenseInfo`].
#[verifier::ext_equal]
pub struct CrateLicenseInfoV {
    pub name: Seq<char>,
    pub license: Seq<Seq<char>>,
    pub if_has_allow_license: bool,
    pub if_has_deny_license: bool,
    pub if_has_default_license: bool,
    pub if_unlicense: bool,
}

impl DeepView for CrateLicenseInfo {
    type V = CrateLicenseInfoV;

    open spec fn deep_view(&self) -> CrateLicenseInfoV {
        CrateLicenseInfoV {
            name: self.name@,
            license: self.license.deep_view(),
            if_has_allow_license: self.if_has_allow_license,
            if_has_deny_license: self.if_has_deny_license,
            if_has_default_license: self.if_has_default_license,
            if_unlicense: self.if_unlicense,
        }
    }
}

/// Whether a license set holds the expression `l`.
pub open spec fn spec_set_contains(set: Seq<Seq<char>>, l: Seq<char>) -> bool {
    exists|i: int| 0 <= i < set.len() && set[i] == l
}

/// The dependency has at least one denied license.
pub open spec fn spec_dep_has_deny(d: DepLicenseV, deny: Seq<Seq<char>>) -> bool {
    exists|i: int| 0 <= i < d.licenses.len() && spec_set_contains(deny, d.licenses[i])
}

/// The dependency has at least one allowed license; a license that is also
/// denied counts as denied, not allowed.
pub open spec fn spec_dep_has_allow(
    d: DepLicenseV,
    allow: Seq<Seq<char>>,
    deny: Seq<Seq<char>>,
) -> bool {
    exists|i: int|
        0 <= i < d.licenses.len() && !spec_set_contains(deny, d.licenses[i]) && spec_set_contains(
            allow,
            d.licenses[i],
        )
}

/// The dependency has at least one license in neither set.
pub open spec fn spec_dep_has_default(
    d: DepLicenseV,
    allow: Seq<Seq<char>>,
    deny: Seq<Seq<char>>,
) -> bool {
    exists|i: int|
        0 <= i < d.licenses.len() && !spec_set_contains(deny, d.licenses[i]) && !spec_set_contains(
            allow,
            d.licenses[i],
        )
}

/// The record classification writes for one dependency.
pub open spec fn spec_dep_record(
    d: DepLicenseV,
    allow: Seq<Seq<char>>,
    deny: Seq<Seq<char>>,
) -> CrateLicenseInfoV {
    if d.licenses.len() == 0 {
        CrateLicenseInfoV {
            name: d.name,
            license: Seq::empty(),
            if_has_allow_license: false,
            if_has_deny_license: false,
            if_has_default_license: true,
            if_unlicense: true,
        }
    } else {
        CrateLicenseInfoV {
            name: d.name,
            license: d.licenses,
            if_has_allow_license: spec_dep_has_allow(d, allow, deny),
            if_has_deny_license: spec_dep_has_deny(d, deny),
            if_has_default_license: spec_dep_has_default(d, allow, deny),
            if_unlicense: false,
        }
    }
}

/// The records classification writes, one per dependency in order.
pub open spec fn spec_license_records(
    deps: Seq<DepLicenseV>,
    allow: Seq<Seq<char>>,
    deny: Seq<Seq<char>>,
) -> Seq<CrateLicenseInfoV> {
    Seq::new(deps.len(), |i: int| spec_dep_record(deps[i], allow, deny))
}

/// How many dependencies count toward the deny tally.
pub open spec fn spec_deny_count(
    deps: Seq<DepLicenseV>,
    allow: Seq<Seq<char>>,
    deny: Seq<Seq<char>>,
) -> int
    decreases deps.len(),
{
    if deps.len() == 0 {
        0
    } else {
        spec_deny_count(deps.drop_last(), allow, deny) + if deps.last().licenses.len() > 0
            && spec_dep_has_deny(deps.last(), deny) {
            1int
        } else {
            0int
        }
    }
}

/// How many dependencies count toward the default tally: those with
/// licenses, none denied, none allowed.
pub open spec fn spec_default_count(
    deps: Seq<DepLicenseV>,
    allow: Seq<Seq<char>>,
    deny: Seq<Seq<char>>,
) -> int
    decreases deps.len(),
{
    if deps.len() == 0 {
        0
    } else {
        spec_default_count(deps.drop_last(), allow, deny) + if deps.last().licenses.len() > 0
            && !spec_dep_has_deny(deps.last(), deny) && !spec_dep_has_allow(
            deps.last(),
            allow,
            deny,
        ) {
            1int
        } else {
            0int
        }
    }
}

/// How many dependencies are unlicensed.
pub open spec fn spec_unlicensed_count(deps: Seq<DepLicenseV>) -> int
    decreases deps.len(),
{
    if deps.len() == 0 {
        0
    } else {
        spec_unlicensed_count(deps.drop_last()) + if deps.last().licenses.len() == 0 {
            1int
        } else {
            0int
        }
    }
}

/// The names of the unlicensed dependencies, in order.
pub open spec fn spec_unlicensed_names(deps: Seq<DepLicenseV>) -> Seq<Seq<char>>
    decreases deps.len(),
{
    if deps.len() == 0 {
        Seq::empty()
    } else if deps.last().licenses.len() == 0 {
        spec_unlicensed_names(deps.drop_last()).push(deps.last().name)
    } else {
        spec_unlicensed_names(deps.drop_last())
    }
}

/// Deny dominates allow: a dependency holding a license that stands in both
/// the allow set and the deny set is counted exactly once in the deny tally
/// and never in the default tally.
pub proof fn lemma_deny_dominates_allow(
    deps: Seq<DepLicenseV>,
    allow: Seq<Seq<char>>,
    deny: Seq<Seq<char>>,
    k: int,
)
    requires
        0 <= k < deps.len(),
        exists|i: int|
            0 <= i < deps[k].licenses.len() && spec_set_contains(allow, deps[k].licenses[i])
                && spec_set_contains(deny, deps[k].licenses[i]),
    ensures
        spec_deny_count(deps.take(k + 1), allow, deny) == spec_deny_count(
            deps.take(k),
            allow,
            deny,
        ) + 1,
        spec_default_count(deps.take(k + 1), allow, deny) == spec_default_count(
            deps.take(k),
            allow,
            deny,
        ),
{
    assert(deps.take(k + 1).drop_last() =~= deps.take(k));
    assert(deps.take(k + 1).last() == deps[k]);
    let i = choose|i: int|
        0 <= i < deps[k].licenses.len() && spec_set_contains(allow, deps[k].licenses[i])
            && spec_set_contains(deny, deps[k].licenses[i]);
    assert(spec_dep_has_deny(deps[k], deny));
}

/// Whether the license scoring configuration is complete.
pub open spec fn spec_license_scoring_complete(l: config::LicenseEvaluationConfigV) -> bool {
    &&& l.deny_license_score is Some
    &&& l.default_license_score is Some
    &&& l.license_eval_score is Some
    &&& l.license_eval_weight is Some
}

/// Machine bounds on a complete license scoring configuration.
pub open spec fn spec_license_cfg_ok(c: config::ConfigV) -> bool {
    match c.quality_evaluation_cfg {
        Option::Some(q) => match q.license_cfg {
            Option::Some(l) => spec_license_scoring_complete(l) ==> {
                &&& 1 <= l.license_eval_score->0 <= SCORE_INPUT_MAX
                &&& l.license_eval_weight->0 <= SCORE_INPUT_MAX
            },
            Option::None => true,
        },
        Option::None => true,
    }
}

/// The score the license check earns from its parse counts under a
/// configuration, or nothing where either is incomplete.
pub open spec fn spec_license_count_value(
    c: config::ConfigV,
    pr: Option<result::ParseResultDetail>,
) -> Option<result::CountResultDetail> {
    match (c.quality_evaluation_cfg, pr) {
        (
            Option::Some(q),
            Option::Some(
                result::ParseResultDetail::CargoLicense {
                    deny_license: Option::Some(dc),
                    unlicense: _,
                    default_license: Option::Some(fc),
                },
            ),
        ) => match q.license_cfg {
            Option::Some(l) => match (
                l.deny_license_score,
                l.default_license_score,
                l.license_eval_score,
                l.license_eval_weight,
            ) {
                (
                    Option::Some(ds),
                    Option::Some(fs),
                    Option::Some(base),
                    Option::Some(wt),
                ) => {
                    let raw = spec_raw_score(base as int, dc * ds + fc * fs);
                    Option::Some(
                        result::CountResultDetail::CargoLicense {
                            score: Option::Some(raw as u64),
                            normalized_score: Option::Some(
                                spec_normalized_score(raw, wt as int) as u64,
                            ),
                        },
                    )
                },
                _ => Option::None,
            },
            Option::None => Option::None,
        },
        _ => Option::None,
    }
}

/// Every license score the check computes is weight-normalized by integer
/// truncation: `normalized == score * weight / 100`.
pub proof fn lemma_license_normalized_score(
    c: config::ConfigV,
    pr: Option<result::ParseResultDetail>,
)
    requires
        spec_license_cfg_ok(c),
        spec_license_count_value(c, pr) is Some,
    ensures
        match (spec_license_count_value(c, pr), c.quality_evaluation_cfg) {
            (
                Option::Some(
                    result::CountResultDetail::CargoLicense {
                        score: Option::Some(s),
                        normalized_score: Option::Some(n),
                    },
                ),
                Option::Some(q),
            ) => match q.license_cfg {
                Option::Some(l) => n == s * l.license_eval_weight->0 / 100 && s <= 100,
                Option::None => false,
            },
            _ => false,
        },
{
    match (c.quality_evaluation_cfg, pr) {
        (
            Option::Some(q),
            Option::Some(
                result::ParseResultDetail::CargoLicense {
                    deny_license: Option::Some(dc),
                    unlicense: _,
                    default_license: Option::Some(fc),
                },
            ),
        ) => match q.license_cfg {
            Option::Some(l) => {
                let base = l.license_eval_score->0;
                let ds = l.deny_license_score->0;
                let fs = l.default_license_score->0;
                let wt = l.license_eval_weight->0;
                assert(dc * ds >= 0 && fc * fs >= 0) by (nonlinear_arith);
                crate::scoring::lemma_raw_score_bounded(base as int, dc * ds + fc * fs);
                let raw = spec_raw_score(base as int, dc * ds + fc * fs);
                assert(0 <= raw * (wt as int) <= 100 * (wt as int)) by (nonlinear_arith)
                    requires
                        0 <= raw <= 100,
                        0 <= wt,
                ;
                assert(0 <= spec_normalized_score(raw, wt as int) <= wt as int);
            },
            Option::None => {},
        },
        _ => {},
    }
}

/// Whether a license list holds the string `l`, executable form.
fn vec_contains_str(set: &Vec<String>, l: &String) -> (r: bool)
    ensures
        r == spec_set_contains(set.deep_view(), l@),
{
    let mut i: usize = 0;
    while i < set.len()
        invariant
            0 <= i <= set@.len(),
            set@.len() == set.deep_view().len(),
            forall|j: int| 0 <= j < i ==> set.deep_view()[j] != l@,
        decreases set@.len() - i,
    {
        if set[i].eq(l) {
            proof {
                assert(set.deep_view()[i as int] == l@);
            }
            return true;
        }
        i += 1;
    }
    false
}

/// The license check over one project's resolved dependency graph.
#[derive(Debug)]
pub struct LicenseCheck {
    pub project_cfg: config::ProjectInfoConfig,
    pub config: config::Config,
    pub unlicense_crates: Vec<String>,
    pub result: Vec<CrateLicenseInfo>,
    pub check_result: Option<result::CheckResultDetail>,
    pub parse_result: Option<result::ParseResultDetail>,
    pub count_result: Option<result::CountResultDetail>,
}

/// Classify one dependency into its record.
fn classify_dep(d: &DepLicense, allow: &Vec<String>, deny: &Vec<String>) -> (r: CrateLicenseInfo)
    ensures
        r.deep_view() == spec_dep_record(d.deep_view(), allow.deep_view(), deny.deep_view()),
{
    let ghost dv = d.deep_view();
    let ghost allowv = allow.deep_view();
    let ghost denyv = deny.deep_view();
    if d.licenses.len() == 0 {
        let r = CrateLicenseInfo {
            name: d.name.clone(),
            license: Vec::new(),
            if_has_allow_license: false,
            if_has_deny_license: false,
            if_has_default_license: true,
            if_unlicense: true,
        };
        proof {
            assert(r.deep_view() =~= spec_dep_record(dv, allowv, denyv));
        }
        r
    } else {
        let mut if_has_allow_license = false;
        let mut if_has_deny_license = false;
        let mut if_has_default_license = false;
        let mut j: usize = 0;
        while j < d.licenses.len()
            invariant
                0 <= j <= d.licenses@.len(),
                dv == d.deep_view(),
                allowv == allow.deep_view(),
                denyv == deny.deep_view(),
                dv.licenses.len() == d.licenses@.len(),
                if_has_deny_license == exists|i: int|
                    0 <= i < j && spec_set_contains(denyv, dv.licenses[i]),
                if_has_allow_license == exists|i: int|
                    0 <= i < j && !spec_set_contains(denyv, dv.licenses[i]) && spec_set_contains(
                        allowv,
                        dv.licenses[i],
                    ),
                if_has_default_license == exists|i: int|
                    0 <= i < j && !spec_set_contains(denyv, dv.licenses[i]) && !spec_set_contains(
                        allowv,
                        dv.licenses[i],
                    ),
            decreases d.licenses@.len() - j,
        {
            proof {
                assert(dv.licenses[j as int] == d.licenses[j as int]@);
            }
            if vec_contains_str(deny, &d.licenses[j]) {
                if_has_deny_license = true;
            } else if vec_contains_str(allow, &d.licenses[j]) {
                if_has_allow_license = true;
            } else {
                if_has_default_license = true;
            }
            j += 1;
        }
        let r = CrateLicenseInfo {
            name: d.name.clone(),
            license: d.licenses.clone(),
            if_has_allow_license,
            if_has_deny_license,
            if_has_default_license,
            if_unlicense: false,
        };
        proof {
            assert(r.license.deep_view() =~~= dv.licenses);
            assert(r.deep_view() =~= spec_dep_record(dv, allowv, denyv));
        }
        r
    }
}

impl super::CheckToolOption for LicenseCheck {
    /// The raw collection must be a resolved dependency graph.
    open spec fn spec_raw_ok(raw: result::CheckResultDetail) -> bool {
        raw is CargoLicense
    }

    /// Collect records the gathered graph and changes nothing else.
    open spec fn spec_check_rel(pre: Self, post: Self, raw: result::CheckResultDetail) -> bool {
        &&& post.check_result == Option::Some(raw)
        &&& post.project_cfg == pre.project_cfg
        &&& post.config == pre.config
        &&& post.unlicense_crates == pre.unlicense_crates
        &&& post.result == pre.result
        &&& post.parse_result == pre.parse_result
        &&& post.count_result == pre.count_result
    }

    open spec fn spec_parse_pre(&self) -> bool {
        true
    }

    /// Classification partitions every gathered dependency against the allow
    /// and deny sets; without a gathered graph, or without both configured
    /// sets, it leaves the state alone.
    open spec fn spec_parse_rel(pre: Self, post: Self) -> bool {
        &&& match (pre.check_result, pre.config.quality_evaluation_cfg) {
            (
                Option::Some(result::CheckResultDetail::CargoLicense { result: Option::Some(deps) }),
                Option::Some(q),
            ) => match q.license_cfg {
                Option::Some(
                    config::LicenseEvaluationConfig {
                        allow_licenses: Option::Some(allow),
                        deny_licenses: Option::Some(deny),
                        ..
                    },
                ) => {
                    &&& post.result.deep_view() == pre.result.deep_view()
                        + spec_license_records(
                        deps.deep_view(),
                        allow.deep_view(),
                        deny.deep_view(),
                    )
                    &&& post.unlicense_crates.deep_view() == pre.unlicense_crates.deep_view()
                        + spec_unlicensed_names(deps.deep_view())
                    &&& post.parse_result == Option::Some(
                        result::ParseResultDetail::CargoLicense {
                            deny_license: Option::Some(
                                spec_deny_count(
                                    deps.deep_view(),
                                    allow.deep_view(),
                                    deny.deep_view(),
                                ) as u64,
                            ),
                            unlicense: Option::Some(
                                spec_unlicensed_count(deps.deep_view()) as u64,
                            ),
                            default_license: Option::Some(
                                spec_default_count(
                                    deps.deep_view(),
                                    allow.deep_view(),
                                    deny.deep_view(),
                                ) as u64,
                            ),
                        },
                    )
                },
                _ => {
                    &&& post.result == pre.result
                    &&& post.unlicense_crates == pre.unlicense_crates
                    &&& post.parse_result == pre.parse_result
                },
            },
            _ => {
                &&& post.result == pre.result
                &&& post.unlicense_crates == pre.unlicense_crates
                &&& post.parse_result == pre.parse_result
            },
        }
        &&& post.project_cfg == pre.project_cfg
        &&& post.config == pre.config
        &&& post.check_result == pre.check_result
        &&& post.count_result == pre.count_result
    }

    open spec fn spec_count_pre(&self) -> bool {
        spec_license_cfg_ok(self.config.deep_view())
    }

    /// Scoring computes the license score exactly where both the counts and
    /// the full license scoring configuration are present.
    open spec fn spec_count_rel(pre: Self, post: Self) -> bool {
        &&& post.count_result == match spec_license_count_value(
            pre.config.deep_view(),
            pre.parse_result,
        ) {
            Option::Some(c) => Option::Some(c),
            Option::None => pre.count_result,
        }
        &&& post.project_cfg == pre.project_cfg
        &&& post.config == pre.config
        &&& post.unlicense_crates == pre.unlicense_crates
        &&& post.result == pre.result
        &&& post.check_result == pre.check_result
        &&& post.parse_result == pre.parse_result
    }

    /// Merging writes the computed score into the license-check slot and
    /// touches nothing else of the report.
    open spec fn spec_result_rel(
        pre: Self,
        post: Self,
        pre_report: result::CheckReport,
        post_report: result::CheckReport,
    ) -> bool {
        &&& post == pre
        &&& match pre.count_result {
            Option::Some(
                result::CountResultDetail::CargoLicense {
                    score: Option::Some(s),
                    normalized_score: Option::Some(n),
                },
            ) => post_report.license_check == Option::Some(
                result::LicenseCheck { score: Option::Some(s), normalized_score: Option::Some(n) },
            ),
            _ => post_report.license_check == pre_report.license_check,
        }
        &&& pre_report.agrees_except_license(post_report)
    }

    fn check(&mut self, raw: result::CheckResultDetail) {
        self.check_result = Some(raw);
    }

    fn parse(&mut self) {
        match (&self.check_result, &self.config.quality_evaluation_cfg) {
            (
                Some(result::CheckResultDetail::CargoLicense { result: Some(deps) }),
                Some(config::QualityEvaluationConfig {
                    license_cfg: Some(config::LicenseEvaluationConfig {
                        allow_licenses: Some(allow),
                        deny_licenses: Some(deny),
                        ..
                    }),
                    ..
                }),
            ) => {
                let mut records: Vec<CrateLicenseInfo> = Vec::new();
                let mut unlicensed: Vec<String> = Vec::new();
                let mut deny_license_count: u64 = 0;
                let mut default_license_count: u64 = 0;
                let mut unlicense_count: u64 = 0;
                let ghost depsv = deps.deep_view();
                let ghost allowv = allow.deep_view();
                let ghost denyv = deny.deep_view();
                let mut i: usize = 0;
                proof {
                    assert(depsv.take(0) =~= Seq::<DepLicenseV>::empty());
                    assert(records.deep_view() =~= spec_license_records(
                        depsv.take(0),
                        allowv,
                        denyv,
                    ));
                    assert(unlicensed.deep_view() =~= spec_unlicensed_names(depsv.take(0)));
                }
                while i < deps.len()
                    invariant
                        0 <= i <= deps@.len(),
                        depsv == deps.deep_view(),
                        allowv == allow.deep_view(),
                        denyv == deny.deep_view(),
                        depsv.len() == deps@.len(),
                        records.deep_view() == spec_license_records(
                            depsv.take(i as int),
                            allowv,
                            denyv,
                        ),
                        unlicensed.deep_view() == spec_unlicensed_names(depsv.take(i as int)),
                        deny_license_count == spec_deny_count(depsv.take(i as int), allowv, denyv),
                        default_license_count == spec_default_count(
                            depsv.take(i as int),
                            allowv,
                            denyv,
                        ),
                        unlicense_count == spec_unlicensed_count(depsv.take(i as int)),
                        deny_license_count <= i,
                        default_license_count <= i,
                        unlicense_count <= i,
                    decreases deps@.len() - i,
                {
                    proof {
                        assert(depsv.take(i + 1).drop_last() =~= depsv.take(i as int));
                        assert(depsv.take(i + 1).last() == depsv[i as int]);
                        assert(depsv[i as int] == deps[i as int].deep_view());
                    }
                    let d = &deps[i];
                    let rec = classify_dep(d, allow, deny);
                    let ghost drec = spec_dep_record(depsv[i as int], allowv, denyv);
                    let ghost recs0 = records.deep_view();
                    let ghost unl0 = unlicensed.deep_view();
                    proof {
                        let dvi = depsv[i as int];
                        if dvi.licenses.len() > 0 && !spec_dep_has_deny(dvi, denyv)
                            && !spec_dep_has_allow(dvi, allowv, denyv) {
                            assert(!spec_set_contains(denyv, dvi.licenses[0]));
                            assert(!spec_set_contains(allowv, dvi.licenses[0]));
                            assert(spec_dep_has_default(dvi, allowv, denyv));
                        }
                    }
                    if d.licenses.len() == 0 {
                        unlicensed.push(d.name.clone());
                        unlicense_count += 1;
                        proof {
                            assert(unlicensed.deep_view() =~= unl0.push(depsv[i as int].name));
                        }
                    } else {
                        if rec.if_has_deny_license {
                            deny_license_count += 1;
                        } else if !rec.if_has_allow_license && rec.if_has_default_license {
                            default_license_count += 1;
                        }
                    }
                    records.push(rec);
                    proof {
                        assert(records.deep_view() =~= recs0.push(drec));
                        assert(records.deep_view() =~= spec_license_records(
                            depsv.take(i + 1),
                            allowv,
                            denyv,
                        ));
                        assert(unlicensed.deep_view() =~= spec_unlicensed_names(depsv.take(i + 1)));
                    }
                    i += 1;
                }
                proof {
                    assert(depsv.take(depsv.len() as int) =~= depsv);
                }
                self.result.append(&mut records);
                self.unlicense_crates.append(&mut unlicensed);
                self.parse_result = Some(
                    result::ParseResultDetail::CargoLicense {
                        deny_license: Some(deny_license_count),
                        unlicense: Some(unlicense_count),
                        default_license: Some(default_license_count),
                    },
                );
                proof {
                    assert(self.result.deep_view() =~= old(self).result.deep_view()
                        + spec_license_records(depsv, allowv, denyv));
                    assert(self.unlicense_crates.deep_view() =~= old(
                        self,
                    ).unlicense_crates.deep_view() + spec_unlicensed_names(depsv));
                }
            },
            _ => {},
        }
    }

    fn count(&mut self) {
        let computed: Option<result::CountResultDetail> = match &self.config.quality_evaluation_cfg {
            Some(q) => match (&q.license_cfg, &self.parse_result) {
                (
                    Some(l),
                    Some(result::ParseResultDetail::CargoLicense {
                        deny_license: Some(dc),
                        unlicense: _,
                        default_license: Some(fc),
                    }),
                ) => match (
                    l.deny_license_score,
                    l.default_license_score,
                    l.license_eval_score,
                    l.license_eval_weight,
                ) {
                    (Some(ds), Some(fs), Some(base), Some(wt)) => {
                        let penalty = penalty_add(penalty_mul(*dc, ds), penalty_mul(*fc, fs));
                        let score = raw_score(base, penalty);
                        let normalized = normalized_score(score, wt);
                        proof {
                            lemma_clamp_add(*dc * ds, *fc * fs);
                            lemma_clamped_penalty_same_score(base as int, *dc * ds + *fc * fs);
                        }
                        Some(
                            result::CountResultDetail::CargoLicense {
                                score: Some(score),
                                normalized_score: Some(normalized),
                            },
                        )
                    },
                    _ => None,
                },
                _ => None,
            },
            None => None,
        };
        match computed {
            Some(c) => {
                self.count_result = Some(c);
            },
            None => {},
        }
    }

    fn result(&mut self, result: &mut result::CheckReport) {
        match &self.count_result {
            Some(result::CountResultDetail::CargoLicense {
                score: Some(s),
                normalized_score: Some(n),
            }) => {
                result.license_check = Some(
                    result::LicenseCheck { score: Some(*s), normalized_score: Some(*n) },
                );
            },
            _ => {},
        }
    }
}

} // verus!
