//! The license classifier and its scoring on concrete dependency graphs.

use cargo_quality::config::{Config, LicenseEvaluationConfig, ProjectInfoConfig,
    QualityEvaluationConfig};
use cargo_quality::result::{CheckReport, CheckResultDetail, CountResultDetail, ParseResultDetail};
use cargo_quality::toolchains::cargo_deny::{DepLicense, LicenseCheck};
use cargo_quality::toolchains::CheckToolOption;

fn dep(name: &str, licenses: &[&str]) -> DepLicense {
    DepLicense {
        name: name.to_string(),
        licenses: licenses.iter().map(|l| l.to_string()).collect(),
    }
}

fn project() -> ProjectInfoConfig {
    ProjectInfoConfig {
        manifest: "proj/Cargo.toml".to_string(),
        dir: "proj".to_string(),
        result: "res/license_check.txt".to_string(),
    }
}

fn license_config(
    allow: &[&str],
    deny: &[&str],
    deny_score: u64,
    default_score: u64,
    base: u64,
    weight: u64,
) -> Config {
    Config {
        check_quality_item: None,
        exclude_dir: None,
        check_community_ecology_item: None,
        community_ecology_cfg: None,
        quality_evaluation_cfg: Some(QualityEvaluationConfig {
            static_check_cfg: None,
            measeure_cfg: None,
            license_cfg: Some(LicenseEvaluationConfig {
                allow_licenses: Some(allow.iter().map(|l| l.to_string()).collect()),
                deny_licenses: Some(deny.iter().map(|l| l.to_string()).collect()),
                deny_license_score: Some(deny_score),
                default_license_score: Some(default_score),
                unlicense_score: None,
                license_eval_score: Some(base),
                license_eval_weight: Some(weight),
            }),
        }),
        project_info_config: None,
    }
}

fn fresh_check(cfg: Config) -> LicenseCheck {
    LicenseCheck {
        project_cfg: project(),
        config: cfg,
        unlicense_crates: Vec::new(),
        result: Vec::new(),
        check_result: None,
        parse_result: None,
        count_result: None,
    }
}

#[test]
fn dependency_in_both_sets_counts_once_as_denied() {
    let cfg = license_config(&["MIT"], &["MIT"], 20, 10, 100, 50);
    let mut c = fresh_check(cfg);
    c.check(CheckResultDetail::CargoLicense { result: Some(vec![dep("both", &["MIT"])]) });
    c.parse();
    assert_eq!(
        c.parse_result,
        Some(ParseResultDetail::CargoLicense {
            deny_license: Some(1),
            unlicense: Some(0),
            default_license: Some(0),
        })
    );
    assert_eq!(c.result.len(), 1);
    assert!(c.result[0].if_has_deny_license);
    assert!(!c.result[0].if_has_allow_license);
    assert!(!c.result[0].if_has_default_license);
    assert!(!c.result[0].if_unlicense);
}

#[test]
fn deny_dominates_allow_across_licenses() {
    // one allowed and one denied license: still one deny count, flags keep
    // both facts for the user
    let cfg = license_config(&["MIT"], &["GPL-3.0"], 20, 10, 100, 50);
    let mut c = fresh_check(cfg);
    c.check(CheckResultDetail::CargoLicense {
        result: Some(vec![dep("mixed", &["MIT", "GPL-3.0"])]),
    });
    c.parse();
    assert_eq!(
        c.parse_result,
        Some(ParseResultDetail::CargoLicense {
            deny_license: Some(1),
            unlicense: Some(0),
            default_license: Some(0),
        })
    );
    assert!(c.result[0].if_has_deny_license);
    assert!(c.result[0].if_has_allow_license);
}

#[test]
fn classification_partitions_dependencies() {
    let cfg = license_config(&["MIT"], &["GPL-3.0"], 20, 10, 100, 50);
    let mut c = fresh_check(cfg);
    c.check(CheckResultDetail::CargoLicense {
        result: Some(vec![
            dep("allowed", &["MIT"]),
            dep("denied", &["GPL-3.0"]),
            dep("other", &["Apache-2.0"]),
            dep("bare", &[]),
        ]),
    });
    c.parse();
    assert_eq!(
        c.parse_result,
        Some(ParseResultDetail::CargoLicense {
            deny_license: Some(1),
            unlicense: Some(1),
            default_license: Some(1),
        })
    );
    assert_eq!(c.unlicense_crates, vec!["bare".to_string()]);
    // the unlicensed record keeps the default flag for the user
    assert!(c.result[3].if_unlicense);
    assert!(c.result[3].if_has_default_license);
    assert!(c.result[3].license.is_empty());
}

#[test]
fn two_denied_dependencies_score_sixty_normalized_thirty() {
    // base=100, penalty per denied dependency=20, two denied dependencies,
    // weight=50: raw = (100 - 40) * 100 / 100 = 60, normalized = 30
    let cfg = license_config(&[], &["GPL-3.0"], 20, 10, 100, 50);
    let mut c = fresh_check(cfg);
    c.check(CheckResultDetail::CargoLicense {
        result: Some(vec![dep("a", &["GPL-3.0"]), dep("b", &["GPL-3.0"])]),
    });
    c.parse();
    c.count();
    assert_eq!(
        c.count_result,
        Some(CountResultDetail::CargoLicense { score: Some(60), normalized_score: Some(30) })
    );
    let mut report = CheckReport::default();
    c.result(&mut report);
    let slot = report.license_check.expect("slot filled");
    assert_eq!(slot.score, Some(60));
    assert_eq!(slot.normalized_score, Some(30));
}

#[test]
fn a_dependency_with_many_denied_licenses_counts_once() {
    let cfg = license_config(&[], &["GPL-3.0", "AGPL-3.0"], 20, 10, 100, 50);
    let mut c = fresh_check(cfg);
    c.check(CheckResultDetail::CargoLicense {
        result: Some(vec![dep("multi", &["GPL-3.0", "AGPL-3.0"])]),
    });
    c.parse();
    assert_eq!(
        c.parse_result,
        Some(ParseResultDetail::CargoLicense {
            deny_license: Some(1),
            unlicense: Some(0),
            default_license: Some(0),
        })
    );
}

#[test]
fn missing_license_sets_disable_classification() {
    let mut cfg = license_config(&[], &[], 20, 10, 100, 50);
    if let Some(q) = cfg.quality_evaluation_cfg.as_mut() {
        if let Some(l) = q.license_cfg.as_mut() {
            l.allow_licenses = None;
        }
    }
    let mut c = fresh_check(cfg);
    c.check(CheckResultDetail::CargoLicense { result: Some(vec![dep("a", &["MIT"])]) });
    c.parse();
    c.count();
    assert_eq!(c.parse_result, None);
    assert_eq!(c.count_result, None);
    let mut report = CheckReport::default();
    c.result(&mut report);
    assert!(report.license_check.is_none());
}

#[test]
fn gather_failure_leaves_slot_absent() {
    let cfg = license_config(&["MIT"], &["GPL-3.0"], 20, 10, 100, 50);
    let mut c = fresh_check(cfg);
    c.check(CheckResultDetail::CargoLicense { result: None });
    c.parse();
    c.count();
    let mut report = CheckReport::default();
    c.result(&mut report);
    assert!(report.license_check.is_none());
}

#[test]
fn no_dependencies_score_full() {
    let cfg = license_config(&["MIT"], &["GPL-3.0"], 20, 10, 100, 50);
    let mut c = fresh_check(cfg);
    c.check(CheckResultDetail::CargoLicense { result: Some(Vec::new()) });
    c.parse();
    c.count();
    assert_eq!(
        c.parse_result,
        Some(ParseResultDetail::CargoLicense {
            deny_license: Some(0),
            unlicense: Some(0),
            default_license: Some(0),
        })
    );
    assert_eq!(
        c.count_result,
        Some(CountResultDetail::CargoLicense { score: Some(100), normalized_score: Some(50) })
    );
}

#[test]
fn repeated_denied_license_counts_once() {
    let cfg = license_config(&[], &["GPL-3.0"], 20, 10, 100, 50);
    let mut c = fresh_check(cfg);
    c.check(CheckResultDetail::CargoLicense {
        result: Some(vec![dep("twice", &["GPL-3.0", "GPL-3.0"])]),
    });
    c.parse();
    assert_eq!(
        c.parse_result,
        Some(ParseResultDetail::CargoLicense {
            deny_license: Some(1),
            unlicense: Some(0),
            default_license: Some(0),
        })
    );
}

#[test]
fn catastrophic_penalties_clamp_the_score_at_zero() {
    // six denied dependencies at 20 each pass the base of 100
    let cfg = license_config(&[], &["GPL-3.0"], 20, 10, 100, 50);
    let mut c = fresh_check(cfg);
    let deps: Vec<DepLicense> = (0..6).map(|i| dep(&format!("d{}", i), &["GPL-3.0"])).collect();
    c.check(CheckResultDetail::CargoLicense { result: Some(deps) });
    c.parse();
    c.count();
    assert_eq!(
        c.count_result,
        Some(CountResultDetail::CargoLicense { score: Some(0), normalized_score: Some(0) })
    );
}
