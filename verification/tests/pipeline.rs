//! The pipeline over whole runs: slot population follows the selected
//! checks and the engines' outcomes.

use cargo_quality::check_item::{make_check, CheckItemBox};
use cargo_quality::config::{Config, LicenseEvaluationConfig, ProjectInfoConfig,
    QualityEvaluationConfig, QualityEvaluation, StaticCheckEvaluationConfig,
    MeasureEvaluationConfig};
use cargo_quality::project::Project;
use cargo_quality::result::{CheckResultDetail};
use cargo_quality::toolchains;
use cargo_quality::toolchains::cargo_deny::DepLicense;

fn full_config(selected: Option<Vec<QualityEvaluation>>) -> Config {
    Config {
        check_quality_item: selected,
        exclude_dir: None,
        check_community_ecology_item: None,
        community_ecology_cfg: None,
        quality_evaluation_cfg: Some(QualityEvaluationConfig {
            static_check_cfg: Some(StaticCheckEvaluationConfig {
                error_score: Some(20),
                warn_score: Some(10),
                static_check_score: Some(100),
                static_check_weight: Some(50),
            }),
            measeure_cfg: Some(MeasureEvaluationConfig {
                large_cyclomatic_complexity: Some(10),
                large_cyclomatic_complexity_score: Some(5),
                large_cognitive_complexity: Some(15),
                large_cognitive_complexity_score: Some(5),
                large_num_rows_function: Some(50),
                large_num_rows_function_score: Some(10),
                large_num_rows_file: Some(400),
                large_num_rows_file_score: Some(20),
                measure_score: Some(100),
                measure_weight: Some(40),
            }),
            license_cfg: Some(LicenseEvaluationConfig {
                allow_licenses: Some(vec!["MIT".to_string()]),
                deny_licenses: Some(vec!["GPL-3.0".to_string()]),
                deny_license_score: Some(20),
                default_license_score: Some(10),
                unlicense_score: Some(30),
                license_eval_score: Some(100),
                license_eval_weight: Some(50),
            }),
        }),
        project_info_config: None,
    }
}

fn license_deps() -> Vec<DepLicense> {
    vec![
        DepLicense { name: "ok".to_string(), licenses: vec!["MIT".to_string()] },
        DepLicense { name: "bad".to_string(), licenses: vec!["GPL-3.0".to_string()] },
    ]
}

#[test]
fn license_only_subset_populates_only_license_slot() {
    let cfg = full_config(Some(vec![QualityEvaluation::License]));
    let mut p = Project::new("proj".to_string(), "res".to_string(), &cfg);
    assert_eq!(p.check_item.len(), 1);
    p.execute(vec![CheckResultDetail::CargoLicense { result: Some(license_deps()) }]);
    let report = p.get_result();
    // one denied dependency: raw = (100 - 20) * 100 / 100 = 80, normalized 40
    let slot = report.license_check.expect("license slot filled");
    assert_eq!(slot.score, Some(80));
    assert_eq!(slot.normalized_score, Some(40));
    assert!(report.static_check.is_none());
    assert!(report.code_measure.is_none());
    assert!(report.code_duplication.is_none());
    assert!(report.dependent_crate.is_none());
    assert!(report.security_check.is_none());
    assert!(report.dynamic_check.is_none());
    assert!(report.vulnerability_scan.is_none());
    assert!(report.compile_build_info_check.is_none());
    assert!(report.doc_check.is_none());
    assert!(report.test_check.is_none());
    assert!(report.architecture_design_check.is_none());
}

#[test]
fn failed_lint_engine_leaves_static_slot_absent() {
    // default selection runs all three checks, in order
    let cfg = full_config(None);
    let mut p = Project::new("proj".to_string(), "res".to_string(), &cfg);
    assert_eq!(p.check_item.len(), 3);
    p.execute(vec![
        CheckResultDetail::Clippy { result: None },
        CheckResultDetail::CargoLicense { result: Some(license_deps()) },
        CheckResultDetail::CodeAnalysis { result: Some(Vec::new()) },
    ]);
    let report = p.get_result();
    assert!(report.static_check.is_none());
    assert!(report.license_check.is_some());
    // no records at all still scores a full measure
    let measure = report.code_measure.expect("measure slot filled");
    assert_eq!(measure.score, Some(100));
    assert_eq!(measure.normalized_score, Some(40));
}

#[test]
fn successful_run_fills_all_three_slots() {
    let cfg = full_config(None);
    let mut p = Project::new("proj".to_string(), "res".to_string(), &cfg);
    p.execute(vec![
        CheckResultDetail::Clippy {
            result: Some(vec!["#[warn(unused)]".to_string(), "fn f() {}".to_string()]),
        },
        CheckResultDetail::CargoLicense { result: Some(license_deps()) },
        CheckResultDetail::CodeAnalysis { result: Some(Vec::new()) },
    ]);
    let report = p.get_result();
    // one warning: raw = (100 - 10) * 100 / 100 = 90, normalized 45
    let s = report.static_check.expect("static slot filled");
    assert_eq!(s.score, Some(90));
    assert_eq!(s.normalized_score, Some(45));
    assert!(report.license_check.is_some());
    assert!(report.code_measure.is_some());
}

#[test]
fn new_run_starts_with_an_empty_report() {
    let cfg = full_config(Some(Vec::new()));
    let mut p = Project::new("proj".to_string(), "res".to_string(), &cfg);
    assert_eq!(p.check_item.len(), 0);
    p.execute(Vec::new());
    let report = p.get_result();
    assert!(report.static_check.is_none());
    assert!(report.license_check.is_none());
    assert!(report.code_measure.is_none());
}

#[test]
fn project_paths_are_derived_from_the_kind() {
    let cfg = full_config(None);
    let p = Project::new("proj".to_string(), "res".to_string(), &cfg);
    assert_eq!(p.manifest, "proj");
    assert_eq!(p.result_path, "res");
    match &p.check_item[0] {
        CheckItemBox::Static(s) => {
            assert_eq!(s.project.dir, "proj");
            assert_eq!(s.project.manifest, "proj/Cargo.toml");
            assert_eq!(s.project.result, "res/static_check");
        },
        _ => panic!("first item is the static check"),
    }
    match &p.check_item[1] {
        CheckItemBox::License(s) => {
            assert_eq!(s.project.result, "res/license_check");
        },
        _ => panic!("second item is the license check"),
    }
    match &p.check_item[2] {
        CheckItemBox::Measure(s) => {
            assert_eq!(s.project.result, "res/measure_check");
        },
        _ => panic!("third item is the measure check"),
    }
}

#[test]
fn factories_key_tools_and_items_by_kind() {
    let cfg = full_config(None);
    let project_cfg = ProjectInfoConfig {
        manifest: "proj/Cargo.toml".to_string(),
        dir: "proj".to_string(),
        result: "res".to_string(),
    };
    let item = make_check(cfg, &QualityEvaluation::Measure, &project_cfg);
    match item {
        CheckItemBox::Measure(m) => {
            let tool = toolchains::make_check(
                m.config,
                toolchains::CheckTool::RustCodeAnalysisForMeasure,
                &m.project,
            );
            match tool {
                toolchains::CheckToolBox::RustCodeAnalysis(t) => {
                    assert_eq!(t.project_cfg.result, "res/measure_check/measure_check.txt");
                    assert!(t.check_result.is_none());
                    assert!(t.func_info.is_empty());
                },
                _ => panic!("measure kind builds the metrics tool"),
            }
        },
        _ => panic!("measure kind builds the measure item"),
    }
}
