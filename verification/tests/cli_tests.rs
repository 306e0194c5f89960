use mumu_search::{confirm_download, parse_args, usage_message};

fn args_of(parts: &[&str]) -> Vec<String> {
    parts.iter().map(|s| s.to_string()).collect()
}

#[test]
fn rejects_wrong_arity() {
    assert!(parse_args(&args_of(&["prog"])).is_none());
    assert!(parse_args(&args_of(&["prog", "x"])).is_none());
    assert!(parse_args(&args_of(&["prog", "x", "y", "dir", "extra"])).is_none());
}

#[test]
fn accepts_two_arguments_without_download_dir() {
    let c = parse_args(&args_of(&["prog", "4.1.21.3664", "0325"])).unwrap();
    assert_eq!(c.version_major, "4.1.21.3664");
    assert_eq!(c.version_minor, "0325");
    assert!(c.download_dir.is_none());
}

#[test]
fn accepts_three_arguments_with_download_dir() {
    let c = parse_args(&args_of(&["prog", "1.0", "0001", "./downloads"])).unwrap();
    assert_eq!(c.version_major, "1.0");
    assert_eq!(c.version_minor, "0001");
    assert_eq!(c.download_dir, Some("./downloads".to_string()));
}

#[test]
fn usage_names_the_program() {
    assert_eq!(
        usage_message("prog"),
        "Usage: prog <X> <Y> [download_dir]\nExample: prog 4.1.21.3664 0325 [./downloads]"
    );
}

#[test]
fn affirmative_answers() {
    assert!(confirm_download("y"));
    assert!(confirm_download("Y"));
    assert!(confirm_download("y\n"));
    assert!(confirm_download("  Y  \r\n"));
}

#[test]
fn non_affirmative_answers_skip_the_download() {
    assert!(!confirm_download("n"));
    assert!(!confirm_download("n\n"));
    assert!(!confirm_download(""));
    assert!(!confirm_download("\n"));
    assert!(!confirm_download("yes"));
    assert!(!confirm_download("yy"));
    assert!(!confirm_download(" "));
}
