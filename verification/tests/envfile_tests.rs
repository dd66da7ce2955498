use fs_proxy::envfile::parse_env_file;
use fs_proxy::envfile::write_to_default_env_file;

#[test]
fn test_write_to_default_env_file() {
    let env_data: Vec<(Vec<u8>, Vec<u8>)> = Vec::new();
    let content = write_to_default_env_file(&env_data);
    assert!(content.is_empty());
}

#[test]
fn test_parse_env_file() {
    let entries = parse_env_file(b"");
    assert_eq!(entries, Vec::new());
}

#[test]
fn write_renders_lines_in_order() {
    let env_data = vec![
        (b"KEY".to_vec(), b"VALUE".to_vec()),
        (b"PORT".to_vec(), b"8080".to_vec()),
    ];
    let content = write_to_default_env_file(&env_data);
    assert_eq!(content, b"KEY=VALUE\nPORT=8080\n".to_vec());
}

#[test]
fn parse_plain_entries() {
    let entries = parse_env_file(b"A=1\nB=2\n");
    assert_eq!(
        entries,
        vec![
            (b"A".to_vec(), b"1".to_vec()),
            (b"B".to_vec(), b"2".to_vec()),
        ]
    );
}

#[test]
fn parse_skips_comments_and_blanks() {
    let entries = parse_env_file(b"# a comment\n\n   \nA=1\nno equals sign\n");
    assert_eq!(entries, vec![(b"A".to_vec(), b"1".to_vec())]);
}

#[test]
fn parse_trims_and_unquotes() {
    let entries = parse_env_file(b"  KEY  =  \"quoted value\"  \nSINGLE='x'\n");
    assert_eq!(
        entries,
        vec![
            (b"KEY".to_vec(), b"quoted value".to_vec()),
            (b"SINGLE".to_vec(), b"x".to_vec()),
        ]
    );
}

#[test]
fn parse_splits_at_first_equals() {
    let entries = parse_env_file(b"A=b=c\n");
    assert_eq!(entries, vec![(b"A".to_vec(), b"b=c".to_vec())]);
}

#[test]
fn parse_last_line_without_newline() {
    let entries = parse_env_file(b"A=1\nB=2");
    assert_eq!(
        entries,
        vec![
            (b"A".to_vec(), b"1".to_vec()),
            (b"B".to_vec(), b"2".to_vec()),
        ]
    );
}

#[test]
fn parse_tolerates_carriage_returns() {
    let entries = parse_env_file(b"A=1\r\nB=2\r\n");
    assert_eq!(
        entries,
        vec![
            (b"A".to_vec(), b"1".to_vec()),
            (b"B".to_vec(), b"2".to_vec()),
        ]
    );
}

#[test]
fn write_then_parse_round_trip() {
    let env_data = vec![
        (b"ONE".to_vec(), b"first".to_vec()),
        (b"TWO".to_vec(), b"second".to_vec()),
    ];
    let content = write_to_default_env_file(&env_data);
    assert_eq!(parse_env_file(&content), env_data);
}
