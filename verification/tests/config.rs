//! Configuration parsing helpers and defaults.

use cargo_quality::config::{CommunityEcology, Config, QualityEvaluation};

#[test]
fn quality_evaluation_names_ignore_case() {
    assert_eq!(QualityEvaluation::from_str("static_check"), Ok(QualityEvaluation::StaticCheck));
    assert_eq!(QualityEvaluation::from_str("LICENSE"), Ok(QualityEvaluation::License));
    assert_eq!(QualityEvaluation::from_str("Measure"), Ok(QualityEvaluation::Measure));
}

#[test]
fn unknown_quality_evaluation_name_is_refused() {
    assert!(QualityEvaluation::from_str("coverage").is_err());
    assert!(QualityEvaluation::from_str("").is_err());
}

#[test]
fn community_ecology_names_ignore_case() {
    assert_eq!(
        CommunityEcology::from_str("Developer_Count"),
        Ok(CommunityEcology::DeveloperCount)
    );
    assert!(CommunityEcology::from_str("stars").is_err());
}

#[test]
fn get_all_lists_every_check() {
    assert_eq!(
        QualityEvaluation::get_all(),
        vec![
            QualityEvaluation::StaticCheck,
            QualityEvaluation::License,
            QualityEvaluation::Measure,
        ]
    );
    assert_eq!(CommunityEcology::get_all(), vec![CommunityEcology::DeveloperCount]);
}

#[test]
fn default_config_selects_nothing() {
    let c = Config::default();
    assert!(c.check_quality_item.is_none());
    assert!(c.exclude_dir.is_none());
    assert!(c.check_community_ecology_item.is_none());
    assert!(c.community_ecology_cfg.is_none());
    assert!(c.quality_evaluation_cfg.is_none());
    assert!(c.project_info_config.is_none());
}
