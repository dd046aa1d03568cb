use auto_commit_rs::rewrite::{
    amend_outcome, classify, join_lines, message_editor_name, message_env_var, plan_rewrite,
    reword_first_pick, script_command, sequence_editor_name, split_lines, RepoFacts,
    RewriteError, RewritePlan, ScriptedRewriteSession,
};

fn facts(target: Option<&str>, tip: &str, parents: usize, ancestor: bool) -> RepoFacts {
    RepoFacts {
        target_id: target.map(|s| s.to_string()),
        tip_id: tip.to_string(),
        parent_count: parents,
        is_ancestor_of_tip: ancestor,
    }
}

#[test]
fn classify_head_target_is_tip() {
    // Scenario: the target resolves to the same identity as the tip.
    let f = facts(Some("aaa111"), "aaa111", 1, true);
    let t = classify(&"HEAD".to_string(), &f).expect("tip classifies");
    assert!(t.is_tip);
    assert!(!t.is_merge);
    assert!(t.is_ancestor_of_tip);
    assert_eq!(t.identity, "aaa111");
    assert_eq!(t.ref_name, "HEAD");
}

#[test]
fn classify_tip_ignores_parent_and_ancestry_facts() {
    // Even with a merge-looking parent count and a false ancestry answer,
    // an identity match classifies as the tip.
    let f = facts(Some("aaa111"), "aaa111", 5, false);
    let t = classify(&"HEAD".to_string(), &f).expect("tip classifies");
    assert!(t.is_tip);
}

#[test]
fn classify_merge_commit_is_rejected() {
    // Scenario: a merge commit (two parents) below the tip.
    let f = facts(Some("mmm000"), "tip999", 2, true);
    let err = classify(&"mmm000".to_string(), &f).expect_err("merge rejected");
    assert_eq!(err, RewriteError::UnsupportedMergeRewrite);
}

#[test]
fn classify_diverged_commit_is_rejected() {
    // Scenario: a commit only reachable via a diverged branch.
    let f = facts(Some("ccc111"), "tip999", 1, false);
    let err = classify(&"ccc111".to_string(), &f).expect_err("non-ancestor rejected");
    assert_eq!(err, RewriteError::NotOnCurrentBranch);
}

#[test]
fn classify_unresolved_ref_is_rejected() {
    let f = facts(None, "tip999", 0, false);
    let err = classify(&"nope".to_string(), &f).expect_err("unknown rejected");
    assert_eq!(err, RewriteError::UnknownCommit);
}

#[test]
fn plan_for_tip_is_in_place_amend() {
    let f = facts(Some("aaa111"), "aaa111", 1, true);
    let plan = plan_rewrite(&"HEAD".to_string(), &f, &"feat: new".to_string(), true, 42)
        .expect("plan");
    match plan {
        RewritePlan::AmendTip { message, suppress_output } => {
            assert_eq!(message, "feat: new");
            assert!(suppress_output);
        }
        RewritePlan::Scripted(_) => panic!("tip must amend in place"),
    }
}

#[test]
fn plan_for_ancestor_is_scripted_over_parent_range() {
    let f = facts(Some("c2hash"), "c3hash", 1, true);
    let plan = plan_rewrite(&"c2hash".to_string(), &f, &"feat: new".to_string(), true, 42)
        .expect("plan");
    match plan {
        RewritePlan::Scripted(sp) => {
            assert_eq!(sp.rebase_base, "c2hash^");
            assert_eq!(sp.message, "feat: new");
            assert!(sp.suppress_output);
            assert_eq!(sp.sequence_editor_name, "cgen-seq-editor-42.sh");
            assert_eq!(sp.message_editor_name, "cgen-msg-editor-42.sh");
        }
        RewritePlan::AmendTip { .. } => panic!("ancestor must use the scripted path"),
    }
}

#[test]
fn plan_propagates_classification_errors() {
    let merge = facts(Some("mmm000"), "tip999", 2, true);
    assert_eq!(
        plan_rewrite(&"m".to_string(), &merge, &"x".to_string(), true, 1).unwrap_err(),
        RewriteError::UnsupportedMergeRewrite
    );
    let diverged = facts(Some("ccc111"), "tip999", 1, false);
    assert_eq!(
        plan_rewrite(&"c1".to_string(), &diverged, &"x".to_string(), true, 1).unwrap_err(),
        RewriteError::NotOnCurrentBranch
    );
}

#[test]
fn reword_changes_exactly_the_first_pick_line() {
    let lines: Vec<Vec<u8>> = vec![
        b"# comment".to_vec(),
        b"pick c2hash old message".to_vec(),
        b"pick c3hash later".to_vec(),
    ];
    let out = reword_first_pick(&lines);
    assert_eq!(out.len(), 3);
    assert_eq!(out[0], b"# comment".to_vec());
    assert_eq!(out[1], b"reword c2hash old message".to_vec());
    assert_eq!(out[2], b"pick c3hash later".to_vec());
}

#[test]
fn reword_without_pick_line_changes_nothing() {
    let lines: Vec<Vec<u8>> = vec![b"# nothing to do".to_vec(), b"noop".to_vec()];
    let out = reword_first_pick(&lines);
    assert_eq!(out, lines);
}

#[test]
fn step_list_split_join_round_trip() {
    let todo = b"pick c2 old\npick c3 later\n".to_vec();
    let lines = split_lines(&todo);
    assert_eq!(lines.len(), 2);
    assert_eq!(lines[0], b"pick c2 old".to_vec());
    assert_eq!(lines[1], b"pick c3 later".to_vec());
    let back = join_lines(&lines);
    assert_eq!(back, todo);

    let unterminated = b"pick only".to_vec();
    let lines2 = split_lines(&unterminated);
    assert_eq!(lines2, vec![b"pick only".to_vec()]);
    assert_eq!(join_lines(&lines2), b"pick only\n".to_vec());
}

#[test]
fn whole_todo_file_reword_keeps_later_steps() {
    let todo = b"pick c2 old subject\npick c3 untouched\n".to_vec();
    let lines = split_lines(&todo);
    let reworded = reword_first_pick(&lines);
    let out = join_lines(&reworded);
    assert_eq!(out, b"reword c2 old subject\npick c3 untouched\n".to_vec());
}

#[test]
fn scripted_session_conflict_still_cleans_up() {
    // Scenario: the replay hits a conflict; the scripts are removed and
    // the call reports the conflict.
    let mut s = ScriptedRewriteSession::start();
    s.scripts_written();
    s.operation_started();
    s.operation_finished(false);
    s.cleanup();
    assert!(!s.scripts_present);
    assert_eq!(s.conclude(), Err(RewriteError::RewriteConflict));
}

#[test]
fn scripted_session_success_cleans_up_and_succeeds() {
    let mut s = ScriptedRewriteSession::start();
    s.scripts_written();
    s.operation_started();
    s.operation_finished(true);
    s.cleanup();
    assert!(!s.scripts_present);
    assert_eq!(s.conclude(), Ok(()));
}

#[test]
fn scripted_session_resource_failure_cleans_up() {
    // Scenario: writing a helper script fails before the operation runs.
    let mut s = ScriptedRewriteSession::start();
    s.scripts_written();
    s.resource_failure();
    s.cleanup();
    assert!(!s.scripts_present);
    assert_eq!(s.conclude(), Err(RewriteError::ResourceError));
}

#[test]
fn amend_outcome_normalizes_the_exit_status() {
    assert_eq!(amend_outcome(true, 0), Ok(()));
    assert_eq!(
        amend_outcome(false, 1),
        Err(RewriteError::ToolExecutionFailed { exit_code: 1 })
    );
}

#[test]
fn helper_names_are_distinct_per_process() {
    assert_eq!(sequence_editor_name(7), "cgen-seq-editor-7.sh");
    assert_eq!(message_editor_name(7), "cgen-msg-editor-7.sh");
    assert_ne!(sequence_editor_name(7), sequence_editor_name(8));
    assert_ne!(sequence_editor_name(7), message_editor_name(7));
    assert_eq!(message_env_var(), "CGEN_NEW_MESSAGE");
}

#[test]
fn script_command_normalizes_separators() {
    let path = b"C:\\temp\\cgen-seq-editor-1.sh".to_vec();
    assert_eq!(script_command(&path), b"C:/temp/cgen-seq-editor-1.sh".to_vec());
    let unix = b"/tmp/cgen-seq-editor-1.sh".to_vec();
    assert_eq!(script_command(&unix), unix);
}
