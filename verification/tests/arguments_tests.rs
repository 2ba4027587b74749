use gitql::arguments::{parse_arguments, Command};

fn args_of(parts: &[&str]) -> Vec<String> {
    parts.iter().map(|p| p.to_string()).collect()
}

#[test]
fn test_empty_arguments() {
    let arguments = vec!["gitql".to_string()];
    let command = parse_arguments(&arguments, Some("."));
    assert!(matches!(command, Command::ReplMode { .. }));
}

#[test]
fn test_repl_arguments() {
    let arguments = vec!["gitql".to_string(), "--repos".to_string(), ".".to_string()];
    let command = parse_arguments(&arguments, Some("."));
    assert!(matches!(command, Command::ReplMode { .. }));
}

#[test]
fn test_query_arguments() {
    let arguments = vec![
        "gitql".to_string(),
        "-q".to_string(),
        "Select * from table".to_string(),
    ];
    let command = parse_arguments(&arguments, Some("."));
    assert!(matches!(command, Command::QueryMode { .. }));
}

#[test]
fn test_arguments_with_help() {
    let arguments = vec![
        "gitql".to_string(),
        "dummy".to_string(),
        "--help".to_string(),
    ];
    let command = parse_arguments(&arguments, Some("."));
    assert_eq!(command, Command::Help);
}

#[test]
fn test_arguments_with_version() {
    let arguments = vec![
        "gitql".to_string(),
        "dummy".to_string(),
        "--version".to_string(),
    ];
    let command = parse_arguments(&arguments, Some("."));
    assert_eq!(command, Command::Version);
}

#[test]
fn test_arguments_with_valid_page_size() {
    let arguments = vec![
        "gitql".to_string(),
        "--pagesize".to_string(),
        "10".to_string(),
    ];
    let command = parse_arguments(&arguments, Some("."));
    assert!(!matches!(command, Command::Error { .. }));
}

#[test]
fn test_arguments_with_invalid_page_size() {
    let arguments = vec![
        "gitql".to_string(),
        "--pagesize".to_string(),
        "-".to_string(),
    ];
    let command = parse_arguments(&arguments, Some("."));
    assert!(matches!(command, Command::Error { .. }));
}

#[test]
fn test_arguments_with_valid_output_format() {
    let arguments = vec![
        "gitql".to_string(),
        "--output".to_string(),
        "csv".to_string(),
    ];
    let command = parse_arguments(&arguments, Some("."));
    assert!(!matches!(command, Command::Error { .. }));
}

#[test]
fn test_arguments_with_invalid_output_format() {
    let arguments = vec![
        "gitql".to_string(),
        "--output".to_string(),
        "text".to_string(),
    ];
    let command = parse_arguments(&arguments, Some("."));
    assert!(matches!(command, Command::Error { .. }));
}

#[test]
fn test_script_mode_and_settings() {
    let arguments = args_of(&[
        "gitql", "--script", "run.gql", "--analysis", "--pagination", "--editor", "--pagesize",
        "25", "--output", "JSON", "--repos", "x", "y",
    ]);
    let command = parse_arguments(&arguments, None);
    match command {
        Command::ScriptMode(file, settings) => {
            assert_eq!(file, "run.gql");
            assert!(settings.analysis);
            assert!(settings.pagination);
            assert!(settings.enable_line_editor);
            assert_eq!(settings.page_size, 25);
            assert_eq!(
                settings.output_format,
                gitql::arguments::OutputFormatKind::JSON
            );
            assert_eq!(settings.repos, vec!["x".to_string(), "y".to_string()]);
        }
        other => panic!("expected script mode, got {:?}", other),
    }
}

#[test]
fn test_missing_repositories_without_current_dir() {
    let arguments = args_of(&["gitql"]);
    let command = parse_arguments(&arguments, None);
    assert!(matches!(command, Command::Error { .. }));
}

#[test]
fn test_plus_prefixed_page_size() {
    let arguments = args_of(&["gitql", "--pagesize", "+12"]);
    let command = parse_arguments(&arguments, Some("."));
    match command {
        Command::ReplMode(settings) => assert_eq!(settings.page_size, 12),
        other => panic!("expected repl mode, got {:?}", other),
    }
}
