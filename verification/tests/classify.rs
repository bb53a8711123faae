//! The lint-output classifier on concrete inputs.

use cargo_quality::config::{Config, ProjectInfoConfig, QualityEvaluationConfig,
    StaticCheckEvaluationConfig};
use cargo_quality::result::{CheckReport, CheckResultDetail, ParseResultDetail, CountResultDetail};
use cargo_quality::toolchains::clippy::{classify_lines, get_lint_kind, Clippy, LintKind};
use cargo_quality::toolchains::CheckToolOption;

fn lines(raw: &str) -> Vec<String> {
    raw.lines().map(|l| l.to_string()).collect()
}

fn project() -> ProjectInfoConfig {
    ProjectInfoConfig {
        manifest: "proj/Cargo.toml".to_string(),
        dir: "proj".to_string(),
        result: "res/static_check.txt".to_string(),
    }
}

fn static_config() -> Config {
    Config {
        check_quality_item: None,
        exclude_dir: None,
        check_community_ecology_item: None,
        community_ecology_cfg: None,
        quality_evaluation_cfg: Some(QualityEvaluationConfig {
            static_check_cfg: Some(StaticCheckEvaluationConfig {
                error_score: Some(20),
                warn_score: Some(10),
                static_check_score: Some(100),
                static_check_weight: Some(50),
            }),
            measeure_cfg: None,
            license_cfg: None,
        }),
        project_info_config: None,
    }
}

fn fresh_clippy(cfg: Config) -> Clippy {
    Clippy {
        project_cfg: project(),
        config: cfg,
        lint_info: Vec::new(),
        check_result: None,
        parse_result: None,
        count_result: None,
    }
}

#[test]
fn one_warn_one_deny_block() {
    let input = "#[warn(unused)]\nfn f() {}\n\n#[deny(missing_docs)]\nfn g() {}\n";
    let mut c = fresh_clippy(static_config());
    c.check(CheckResultDetail::Clippy { result: Some(lines(input)) });
    c.parse();
    assert_eq!(
        c.parse_result,
        Some(ParseResultDetail::Clippy { error: Some(1), warn: Some(1) })
    );
    assert_eq!(c.lint_info.len(), 2);
    assert_eq!(c.lint_info[0].ind, 1);
    assert_eq!(c.lint_info[0].lint_kind, LintKind::RustWarn("#[warn(unused".to_string()));
    assert_eq!(c.lint_info[0].content, vec!["#[warn(unused)]".to_string(), "fn f() {}".to_string()]);
    assert_eq!(c.lint_info[1].ind, 2);
    assert_eq!(c.lint_info[1].lint_kind, LintKind::RustDeny("#[deny(missing_docs".to_string()));
    assert_eq!(c.lint_info[1].content, vec![
        "#[deny(missing_docs)]".to_string(),
        "fn g() {}".to_string(),
    ]);
}

#[test]
fn tagless_block_is_discarded() {
    let found = classify_lines(&lines("some text\nmore text\n\n"));
    assert!(found.is_empty());
}

#[test]
fn tag_does_not_leak_into_next_block() {
    // The second block has no annotation of its own: it is discarded even
    // though the first block was tagged.
    let found = classify_lines(&lines("#[warn(dead_code)]\n\nplain line\n"));
    assert_eq!(found.len(), 1);
    assert_eq!(found[0].ind, 1);
}

#[test]
fn first_tagged_line_wins() {
    let found = classify_lines(&lines("#[warn(a)]\n#[deny(b)]\n"));
    assert_eq!(found.len(), 1);
    assert_eq!(found[0].lint_kind, LintKind::RustWarn("#[warn(a".to_string()));
}

#[test]
fn empty_input_yields_nothing() {
    let found = classify_lines(&Vec::new());
    assert!(found.is_empty());
}

#[test]
fn lint_kind_generic_marker_wins() {
    // A linter-specific annotation also holds the generic marker, so the
    // generic tag is awarded.
    assert_eq!(
        get_lint_kind("#[warn(clippy::needless_return)]"),
        LintKind::RustWarn("#[warn(clippy::needless_return".to_string())
    );
    assert_eq!(get_lint_kind("#[deny(unsafe_code)]"),
        LintKind::RustDeny("#[deny(unsafe_code".to_string()));
}

#[test]
fn lint_kind_tolerates_malformed_lines() {
    // no closing parenthesis
    assert_eq!(get_lint_kind("#[warn(unclosed"), LintKind::Untagged);
    // closing parenthesis before the marker
    assert_eq!(get_lint_kind(") #[warn(late"), LintKind::Untagged);
    // no marker at all
    assert_eq!(get_lint_kind("fn main() {}"), LintKind::Untagged);
}

#[test]
fn static_check_scores_counts() {
    // one warning (10) and one error (20) against base 100, weight 50:
    // raw = (100 - 30) * 100 / 100 = 70, normalized = 70 * 50 / 100 = 35
    let input = "#[warn(unused)]\nx\n\n#[deny(bad)]\ny\n";
    let mut c = fresh_clippy(static_config());
    c.check(CheckResultDetail::Clippy { result: Some(lines(input)) });
    c.parse();
    c.count();
    assert_eq!(
        c.count_result,
        Some(CountResultDetail::Clippy { score: Some(70), normalized_score: Some(35) })
    );
    let mut report = CheckReport::default();
    c.result(&mut report);
    let slot = report.static_check.expect("slot filled");
    assert_eq!(slot.score, Some(70));
    assert_eq!(slot.normalized_score, Some(35));
}

#[test]
fn engine_failure_keeps_state_empty() {
    let mut c = fresh_clippy(static_config());
    c.check(CheckResultDetail::Clippy { result: None });
    c.parse();
    c.count();
    assert_eq!(c.parse_result, None);
    assert_eq!(c.count_result, None);
    let mut report = CheckReport::default();
    c.result(&mut report);
    assert!(report.static_check.is_none());
}

#[test]
fn incomplete_config_skips_scoring() {
    let mut cfg = static_config();
    if let Some(q) = cfg.quality_evaluation_cfg.as_mut() {
        if let Some(s) = q.static_check_cfg.as_mut() {
            s.static_check_weight = None;
        }
    }
    let mut c = fresh_clippy(cfg);
    c.check(CheckResultDetail::Clippy { result: Some(lines("#[warn(a)]\n")) });
    c.parse();
    c.count();
    assert!(c.parse_result.is_some());
    assert_eq!(c.count_result, None);
}

#[test]
fn save_lint_item_skips_untagged() {
    let mut c = fresh_clippy(static_config());
    c.save_lint_item(1, LintKind::Untagged, vec!["x".to_string()]);
    assert!(c.lint_info.is_empty());
    c.save_lint_item(2, LintKind::RustWarn("#[warn(a".to_string()), vec!["y".to_string()]);
    assert_eq!(c.lint_info.len(), 1);
    assert_eq!(c.lint_info[0].ind, 2);
}
