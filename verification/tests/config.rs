use process_priority_enforcer::config::{
    collect_globs, config_text_to_parse, AppConfig, AppGroupConfig, AppPriorityConfig, ConfigError,
    ConfigReadError, PathGlobs,
};
use process_priority_enforcer::priority::{CpuPriority, IoPriority, PowerQos};

fn globs(patterns: &[&str]) -> PathGlobs {
    PathGlobs::compile(&patterns.iter().map(|p| p.to_string()).collect()).unwrap()
}

fn prio(cpu: CpuPriority) -> AppPriorityConfig {
    AppPriorityConfig { cpu: Some(cpu), io: None, power: None }
}

#[test]
fn empty_pattern_list_matches_nothing() {
    let g = globs(&[]);
    assert!(!g.is_match("/usr/bin/anything"));
    assert!(!g.is_match(""));
}

#[test]
fn patterns_match_paths() {
    let g = globs(&["/opt/**/*.exe", "**/SomeFile.exe"]);
    assert!(g.is_match("/opt/a/b/tool.exe"));
    assert!(g.is_match("/home/me/SomeFile.exe"));
    assert!(!g.is_match("/home/me/other.exe"));
}

#[test]
fn star_does_not_cross_separators() {
    let g = globs(&["/opt/*.exe"]);
    assert!(g.is_match("/opt/tool.exe"));
    assert!(!g.is_match("/opt/sub/tool.exe"));
}

#[test]
fn patterns_are_case_sensitive() {
    let g = globs(&["/opt/Tool.exe"]);
    assert!(g.is_match("/opt/Tool.exe"));
    assert!(!g.is_match("/opt/tool.exe"));
}

#[test]
fn invalid_pattern_is_an_error() {
    let r = PathGlobs::compile(&vec!["/opt/[a".to_string()]);
    assert!(matches!(r, Err(ConfigError::InvalidPattern(_))));
    let r = PathGlobs::compile(&vec!["/opt/{a,b".to_string()]);
    assert!(matches!(r, Err(ConfigError::InvalidPattern(_))));
}

fn sample_config() -> AppConfig {
    AppConfig {
        groups: vec![
            AppGroupConfig { paths: globs(&["/opt/games/**/*.exe"]), priorities: prio(CpuPriority::VeryHigh) },
            AppGroupConfig { paths: globs(&["/opt/**/*.exe"]), priorities: prio(CpuPriority::VeryLow) },
            AppGroupConfig { paths: globs(&[]), priorities: prio(CpuPriority::Normal) },
        ],
    }
}

#[test]
fn first_matching_group_is_used() {
    let c = sample_config();
    assert_eq!(c.matching_priorities("/opt/games/x/game.exe"), Some(prio(CpuPriority::VeryHigh)));
    assert_eq!(c.matching_priorities("/opt/tools/tool.exe"), Some(prio(CpuPriority::VeryLow)));
    assert_eq!(c.matching_priorities("/usr/bin/ls"), None);
}

#[test]
fn select_first_match_takes_first_marked_group() {
    let c = sample_config();
    assert_eq!(c.select_first_match(&vec![false, true, true]), Some(prio(CpuPriority::VeryLow)));
    assert_eq!(c.select_first_match(&vec![true, true, false]), Some(prio(CpuPriority::VeryHigh)));
    assert_eq!(c.select_first_match(&vec![false, false, false]), None);
    assert_eq!(c.select_first_match(&vec![]), None);
    assert_eq!(c.select_first_match(&vec![false, false, false, true]), None);
}

#[test]
fn config_text_decisions() {
    assert_eq!(config_text_to_parse(Ok("{\"groups\": []}".to_string())), Ok("{\"groups\": []}".to_string()));
    assert_eq!(config_text_to_parse(Ok("   \n\t ".to_string())), Err(ConfigError::Empty));
    assert_eq!(config_text_to_parse(Ok(String::new())), Err(ConfigError::Empty));
    assert_eq!(config_text_to_parse(Err(ConfigReadError::NotFound)), Err(ConfigError::NotFound));
    assert_eq!(
        config_text_to_parse(Err(ConfigReadError::Other("denied".to_string()))),
        Err(ConfigError::Read("denied".to_string()))
    );
}

#[test]
fn config_error_messages() {
    assert_eq!(ConfigError::Empty.message(), "Config file is empty, please fill it with valid JSON");
    assert_eq!(ConfigError::NotFound.message(), "Config file not found");
    assert_eq!(ConfigError::Read("denied".to_string()).message(), "Error reading config file: denied");
    assert_eq!(ConfigError::Parse("bad".to_string()).message(), "Error parsing config file: bad");
    assert_eq!(ConfigError::InvalidPattern("bad glob".to_string()).message(), "bad glob");
}

#[test]
fn priority_config_is_copy_and_comparable() {
    let a = AppPriorityConfig { cpu: None, io: Some(IoPriority::Low), power: Some(PowerQos::Eco) };
    let b = a;
    assert_eq!(a, b);
}

#[test]
fn collect_globs_reports_first_failure() {
    assert!(matches!(collect_globs(vec![]), Ok(v) if v.is_empty()));
    let first = globset::Glob::new("/opt/[a").unwrap_err();
    let second = globset::Glob::new("/opt/{a,b").unwrap_err();
    let expected = first.to_string();
    assert_ne!(expected, second.to_string());
    assert_eq!(
        collect_globs(vec![Err(first), Err(second)]).map(|v| v.len()),
        Err(ConfigError::InvalidPattern(expected))
    );
}

#[test]
fn compile_error_names_the_first_bad_pattern() {
    let r = PathGlobs::compile(&vec!["/ok/*.exe".to_string(), "/opt/[a".to_string(), "/opt/{a,b".to_string()]);
    match r {
        Err(ConfigError::InvalidPattern(m)) => assert!(m.contains("[a"), "{}", m),
        other => panic!("unexpected: {:?}", other.map(|_| ())),
    }
}
