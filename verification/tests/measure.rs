//! The space-tree flattening, the measure classifier and its scoring on
//! concrete records.

use cargo_quality::config::{Config, MeasureEvaluationConfig, ProjectInfoConfig,
    QualityEvaluationConfig};
use cargo_quality::result::{CheckReport, CheckResultDetail, CountResultDetail, ParseResultDetail};
use cargo_quality::toolchains::rust_code_analysis::{get_space_kind_name, save_funcspace, FuncInfo,
    FuncKind, Format, RustCodeAnalysis, SpaceNode};
use cargo_quality::toolchains::CheckToolOption;

fn project() -> ProjectInfoConfig {
    ProjectInfoConfig {
        manifest: "proj/Cargo.toml".to_string(),
        dir: "proj".to_string(),
        result: "res/measure_check.txt".to_string(),
    }
}

fn measure_config() -> Config {
    Config {
        check_quality_item: None,
        exclude_dir: None,
        check_community_ecology_item: None,
        community_ecology_cfg: None,
        quality_evaluation_cfg: Some(QualityEvaluationConfig {
            static_check_cfg: None,
            measeure_cfg: Some(MeasureEvaluationConfig {
                large_cyclomatic_complexity: Some(10),
                large_cyclomatic_complexity_score: Some(5),
                large_cognitive_complexity: Some(15),
                large_cognitive_complexity_score: Some(5),
                large_num_rows_function: Some(50),
                large_num_rows_function_score: Some(10),
                large_num_rows_file: Some(400),
                large_num_rows_file_score: Some(20),
                measure_score: Some(100),
                measure_weight: Some(40),
            }),
            license_cfg: None,
        }),
        project_info_config: None,
    }
}

fn fresh_check(cfg: Config) -> RustCodeAnalysis {
    RustCodeAnalysis {
        project_cfg: project(),
        config: cfg,
        func_info: Vec::new(),
        check_result: None,
        parse_result: None,
        count_result: None,
    }
}

fn leaf(name: &str, kind: FuncKind, start: usize, end: usize, cog: usize, cyc: usize) -> SpaceNode {
    SpaceNode {
        name: Some(name.to_string()),
        kind,
        start_line: start,
        end_line: end,
        cognitive: cog,
        cyclomatic: cyc,
        spaces: Vec::new(),
    }
}

#[test]
fn flattening_records_units_and_functions() {
    let tree = SpaceNode {
        name: Some("file.rs".to_string()),
        kind: FuncKind::Unit,
        start_line: 1,
        end_line: 500,
        cognitive: 0,
        cyclomatic: 0,
        spaces: vec![leaf("f", FuncKind::Function, 10, 80, 20, 12)],
    };
    let mut out: Vec<FuncInfo> = Vec::new();
    save_funcspace(String::new(), &tree, &mut out);
    assert_eq!(out.len(), 2);
    assert_eq!(out[0].name, "file.rs");
    assert_eq!(out[0].path, "file.rs");
    assert_eq!(out[0].kind, FuncKind::Unit);
    assert_eq!(out[0].cognitive, 0);
    assert_eq!(out[1].name, "f");
    assert_eq!(out[1].path, "file.rs&&&FuncName:f&&&Kind:function");
    assert_eq!(out[1].kind, FuncKind::Function);
    assert_eq!(out[1].cognitive, 20);
    assert_eq!(out[1].cyclomatic, 12);
    assert!(!out[0].if_large_file && !out[0].if_large_function);
    assert!(!out[1].if_large_cognitive && !out[1].if_large_cyclomatic);
}

#[test]
fn flattening_prefixes_nested_paths() {
    let tree = SpaceNode {
        name: Some("file.rs".to_string()),
        kind: FuncKind::Unit,
        start_line: 1,
        end_line: 100,
        cognitive: 0,
        cyclomatic: 0,
        spaces: vec![SpaceNode {
            name: Some("Widget".to_string()),
            kind: FuncKind::Impl,
            start_line: 5,
            end_line: 60,
            cognitive: 0,
            cyclomatic: 0,
            spaces: vec![leaf("draw", FuncKind::Function, 6, 20, 1, 1)],
        }],
    };
    let mut out: Vec<FuncInfo> = Vec::new();
    save_funcspace(String::new(), &tree, &mut out);
    // the impl space itself yields no record, only the unit and the function
    assert_eq!(out.len(), 2);
    assert_eq!(
        out[1].path,
        "file.rs&&&Name:Widget&&&Kind:impl&&&FuncName:draw&&&Kind:function"
    );
}

#[test]
fn unit_record_gets_only_file_flag() {
    // a huge compilation unit with huge complexities on the record: only the
    // file flag may be set by classification
    let unit = FuncInfo {
        name: "big.rs".to_string(),
        path: "big.rs".to_string(),
        start_line: 1,
        end_line: 1000,
        if_large_file: false,
        if_large_function: false,
        kind: FuncKind::Unit,
        cognitive: 999,
        if_large_cognitive: false,
        cyclomatic: 999,
        if_large_cyclomatic: false,
    };
    let mut c = fresh_check(measure_config());
    c.check(CheckResultDetail::CodeAnalysis { result: Some(vec![unit]) });
    c.parse();
    assert_eq!(c.func_info.len(), 1);
    assert!(c.func_info[0].if_large_file);
    assert!(!c.func_info[0].if_large_function);
    assert!(!c.func_info[0].if_large_cognitive);
    assert!(!c.func_info[0].if_large_cyclomatic);
    assert_eq!(
        c.parse_result,
        Some(ParseResultDetail::CodeAnalysis {
            large_cyclomatic_complexity: Some(0),
            large_cognitive_complexity: Some(0),
            large_num_rows_file: Some(1),
            large_num_rows_function: Some(0),
        })
    );
}

#[test]
fn function_flags_are_independent() {
    let f = FuncInfo {
        name: "f".to_string(),
        path: "file.rs&&&FuncName:f&&&Kind:function".to_string(),
        start_line: 1,
        // span 60 > 50, cognitive 16 > 15, cyclomatic 3 <= 10
        end_line: 61,
        if_large_file: false,
        if_large_function: false,
        kind: FuncKind::Function,
        cognitive: 16,
        if_large_cognitive: false,
        cyclomatic: 3,
        if_large_cyclomatic: false,
    };
    let mut c = fresh_check(measure_config());
    c.check(CheckResultDetail::CodeAnalysis { result: Some(vec![f]) });
    c.parse();
    assert!(c.func_info[0].if_large_function);
    assert!(c.func_info[0].if_large_cognitive);
    assert!(!c.func_info[0].if_large_cyclomatic);
    assert!(!c.func_info[0].if_large_file);
}

#[test]
fn measure_scoring_combines_tallies() {
    // one too-long function (penalty 10) and one too-long file (penalty 20)
    // against base 100, weight 40: raw = (100 - 30) * 100 / 100 = 70,
    // normalized = 70 * 40 / 100 = 28
    let f = FuncInfo {
        name: "f".to_string(),
        path: "p".to_string(),
        start_line: 1,
        end_line: 100,
        if_large_file: false,
        if_large_function: false,
        kind: FuncKind::Function,
        cognitive: 1,
        if_large_cognitive: false,
        cyclomatic: 1,
        if_large_cyclomatic: false,
    };
    let u = FuncInfo {
        name: "file.rs".to_string(),
        path: "file.rs".to_string(),
        start_line: 1,
        end_line: 500,
        if_large_file: false,
        if_large_function: false,
        kind: FuncKind::Unit,
        cognitive: 0,
        if_large_cognitive: false,
        cyclomatic: 0,
        if_large_cyclomatic: false,
    };
    let mut c = fresh_check(measure_config());
    c.check(CheckResultDetail::CodeAnalysis { result: Some(vec![f, u]) });
    c.parse();
    c.count();
    assert_eq!(
        c.count_result,
        Some(CountResultDetail::CodeAnalysis { score: Some(70), normalized_score: Some(28) })
    );
    let mut report = CheckReport::default();
    c.result(&mut report);
    let slot = report.code_measure.expect("slot filled");
    assert_eq!(slot.score, Some(70));
    assert_eq!(slot.normalized_score, Some(28));
}

#[test]
fn missing_thresholds_disable_classification() {
    let mut cfg = measure_config();
    if let Some(q) = cfg.quality_evaluation_cfg.as_mut() {
        if let Some(m) = q.measeure_cfg.as_mut() {
            m.large_num_rows_file = None;
        }
    }
    let mut c = fresh_check(cfg);
    c.check(CheckResultDetail::CodeAnalysis {
        result: Some(vec![leaf("f", FuncKind::Function, 1, 2, 0, 0)].into_iter().map(|n| FuncInfo {
            name: n.name.clone().unwrap(),
            path: "p".to_string(),
            start_line: n.start_line,
            end_line: n.end_line,
            if_large_file: false,
            if_large_function: false,
            kind: n.kind,
            cognitive: n.cognitive,
            if_large_cognitive: false,
            cyclomatic: n.cyclomatic,
            if_large_cyclomatic: false,
        }).collect()),
    });
    c.parse();
    c.count();
    assert_eq!(c.parse_result, None);
    assert_eq!(c.count_result, None);
}

#[test]
fn space_kind_names() {
    assert_eq!(get_space_kind_name(&FuncKind::Unit), "unit");
    assert_eq!(get_space_kind_name(&FuncKind::Function), "function");
    assert_eq!(get_space_kind_name(&FuncKind::Namespace), "namespace");
}

#[test]
fn format_names_round_trip() {
    assert_eq!(Format::all(), vec!["cbor", "json", "toml", "yaml"]);
    assert!(matches!(Format::from_str("json"), Ok(Format::Json)));
    assert!(matches!(Format::from_str("cbor"), Ok(Format::Cbor)));
    assert!(matches!(Format::from_str("toml"), Ok(Format::Toml)));
    assert!(matches!(Format::from_str("yaml"), Ok(Format::Yaml)));
    assert!(Format::from_str("ron").is_err());
    assert!(Format::from_str("JSON").is_err());
}
