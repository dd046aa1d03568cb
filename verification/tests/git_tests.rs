use auto_commit_rs::git;

#[test]
fn compute_next_minor_tag_handles_valid_and_invalid_input() {
    assert_eq!(
        git::compute_next_minor_tag(None).expect("default version"),
        "0.1.0"
    );
    assert_eq!(
        git::compute_next_minor_tag(Some("1.4.9")).expect("increment"),
        "1.5.0"
    );
    assert!(git::compute_next_minor_tag(Some("v1.2.3")).is_err());
    assert!(git::compute_next_minor_tag(Some("1.2")).is_err());
}

#[test]
fn parse_semver_tag_trims_and_validates() {
    assert_eq!(git::parse_semver_tag("1.2.3"), Ok((1, 2, 3)));
    assert_eq!(git::parse_semver_tag("  10.20.30\n"), Ok((10, 20, 30)));
    assert!(git::parse_semver_tag("1.2.x").is_err());
    assert!(git::parse_semver_tag("1.2.3.4").is_err());
    assert!(git::parse_semver_tag("").is_err());
}

#[test]
fn is_head_commit_compares_identities_not_refs() {
    assert!(git::is_head_commit("abc123", "abc123"));
    assert!(!git::is_head_commit("abc123", "def456"));
}

#[test]
fn parent_count_reads_rev_list_output() {
    assert_eq!(git::parent_count_from_rev_list(""), 0);
    assert_eq!(git::parent_count_from_rev_list("abc\n"), 0);
    assert_eq!(git::parent_count_from_rev_list("abc def\n"), 1);
    assert_eq!(git::parent_count_from_rev_list("abc def 123\n"), 2);
    assert_eq!(git::parent_count_from_rev_list("  abc   def  "), 1);
}

#[test]
fn remote_contains_skips_blank_and_symbolic_lines() {
    assert!(!git::remote_contains(""));
    assert!(!git::remote_contains("\n  \n"));
    assert!(!git::remote_contains("  origin/HEAD -> origin/main\n"));
    assert!(git::remote_contains("  origin/main\n"));
    assert!(git::remote_contains("  origin/HEAD -> origin/main\n  origin/main\n"));
}
