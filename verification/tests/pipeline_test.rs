use comment_purge::pipeline::collect_flagged_comments;
use comment_purge::pipeline::count_skipped_threads;
use comment_purge::pipeline::plan_purge;
use comment_purge::purger::failure_count;
use comment_purge::purger::DeletionOutcome;
use comment_purge::purger::PurgeSession;
use comment_purge::records::CommentData;
use comment_purge::records::CommentSnippetData;
use comment_purge::records::CommentThreadData;
use comment_purge::records::CommentThreadListData;
use comment_purge::records::ThreadSnippetData;
use comment_purge::records::extract_record;

fn full_thread(id: &str, text: &str) -> CommentThreadData {
    CommentThreadData {
        id: Some(id.to_string()),
        snippet: Some(ThreadSnippetData {
            top_level_comment: Some(CommentData {
                snippet: Some(CommentSnippetData {
                    text_display: Some(text.to_string()),
                }),
            }),
        }),
    }
}

fn thread_missing_snippet(id: &str) -> CommentThreadData {
    CommentThreadData {
        id: Some(id.to_string()),
        snippet: None,
    }
}

fn response(threads: Vec<CommentThreadData>) -> CommentThreadListData {
    CommentThreadListData {
        items: Some(threads),
    }
}

#[test]
fn test_three_threads_one_flagged_one_deletion() {
    // One clean comment, one fullwidth (flagged) comment, one thread with
    // missing nested snippet fields (skipped).
    let resp = response(vec![
        full_thread("c1", "Hello"),
        full_thread("c2", "Ｈｅｌｌｏ"),
        thread_missing_snippet("c3"),
    ]);

    let flagged = collect_flagged_comments(&resp);
    assert_eq!(flagged, vec!["c2".to_string()]);

    // The malformed thread is reported as skipped, apart from any
    // deletion failure.
    assert_eq!(count_skipped_threads(&resp), 1);

    // Exactly one deletion is attempted.
    let mut session = PurgeSession::begin(flagged);
    assert!(!session.is_complete());
    assert_eq!(session.next_target(), Some("c2".to_string()));
    session.record_outcome(DeletionOutcome::Removed);
    assert!(session.is_complete());
    assert_eq!(session.next_target(), None);

    let report = session.into_report();
    assert_eq!(report.len(), 1);
    assert_eq!(report[0].id, "c2");
    assert!(matches!(report[0].outcome, DeletionOutcome::Removed));
    assert_eq!(failure_count(&report), 0);
}

#[test]
fn test_deletion_failure_does_not_abort_run() {
    let resp = response(vec![
        full_thread("c1", "Hello"),
        full_thread("c2", "Ｈｅｌｌｏ"),
        thread_missing_snippet("c3"),
    ]);

    // The fetch succeeded, so the run plans normally.
    let flagged = plan_purge(Ok(resp)).expect("a successful fetch must yield a plan");
    assert_eq!(flagged, vec!["c2".to_string()]);

    // The single deletion fails; the session completes anyway and the
    // report marks that identifier as failed.
    let mut session = PurgeSession::begin(flagged);
    let target = session.next_target().expect("one deletion is pending");
    assert_eq!(target, "c2");
    session.record_outcome(DeletionOutcome::Failed("forbidden".to_string()));
    assert!(session.is_complete());

    let report = session.into_report();
    assert_eq!(report.len(), 1);
    assert_eq!(report[0].id, "c2");
    match &report[0].outcome {
        DeletionOutcome::Failed(cause) => assert_eq!(cause, "forbidden"),
        DeletionOutcome::Removed => panic!("the outcome must be the recorded failure"),
    }
    assert_eq!(failure_count(&report), 1);
}

#[test]
fn test_fetch_failure_is_fatal() {
    // A failed fetch aborts the run before any classification or deletion.
    let outcome = plan_purge(Err("quota exceeded".to_string()));
    match outcome {
        Err(cause) => assert_eq!(cause, "quota exceeded"),
        Ok(_) => panic!("a failed fetch must fail the run"),
    }
}

#[test]
fn test_extract_record_requires_every_link() {
    let full = full_thread("c9", "text");
    let rec = extract_record(&full).expect("a fully populated thread resolves");
    assert_eq!(rec.id, "c9");
    assert_eq!(rec.text, "text");

    // Missing thread id.
    let mut t = full_thread("c9", "text");
    t.id = None;
    assert!(extract_record(&t).is_none());

    // Missing thread snippet.
    assert!(extract_record(&thread_missing_snippet("c9")).is_none());

    // Missing top-level comment.
    let t = CommentThreadData {
        id: Some("c9".to_string()),
        snippet: Some(ThreadSnippetData {
            top_level_comment: None,
        }),
    };
    assert!(extract_record(&t).is_none());

    // Missing comment snippet.
    let t = CommentThreadData {
        id: Some("c9".to_string()),
        snippet: Some(ThreadSnippetData {
            top_level_comment: Some(CommentData { snippet: None }),
        }),
    };
    assert!(extract_record(&t).is_none());

    // Missing display text.
    let t = CommentThreadData {
        id: Some("c9".to_string()),
        snippet: Some(ThreadSnippetData {
            top_level_comment: Some(CommentData {
                snippet: Some(CommentSnippetData { text_display: None }),
            }),
        }),
    };
    assert!(extract_record(&t).is_none());
}

#[test]
fn test_flagged_order_and_duplicates_kept() {
    // Flagged identifiers come out in fetch order; a duplicated
    // identifier is kept as it comes, never deduplicated.
    let resp = response(vec![
        full_thread("a", "ﬁrst"),
        full_thread("b", "plain"),
        full_thread("a", "Ｗｏｒｌｄ"),
        full_thread("c", "①"),
    ]);
    let flagged = collect_flagged_comments(&resp);
    assert_eq!(
        flagged,
        vec!["a".to_string(), "a".to_string(), "c".to_string()]
    );
}

#[test]
fn test_absent_item_list_yields_no_flags() {
    let resp = CommentThreadListData { items: None };
    assert!(collect_flagged_comments(&resp).is_empty());
    assert_eq!(count_skipped_threads(&resp), 0);

    let empty = response(vec![]);
    assert!(collect_flagged_comments(&empty).is_empty());
    assert_eq!(count_skipped_threads(&empty), 0);
}

#[test]
fn test_empty_plan_means_purger_never_invoked() {
    // With nothing flagged, the session is complete at once: zero
    // deletions attempted, empty report.
    let mut session = PurgeSession::begin(Vec::new());
    assert!(session.is_complete());
    assert_eq!(session.next_target(), None);
    let report = session.into_report();
    assert!(report.is_empty());
    assert_eq!(failure_count(&report), 0);
}

#[test]
fn test_failure_count_mixed_outcomes() {
    let mut session = PurgeSession::begin(vec![
        "x".to_string(),
        "y".to_string(),
        "z".to_string(),
    ]);
    session.record_outcome(DeletionOutcome::Removed);
    session.record_outcome(DeletionOutcome::Failed("not found".to_string()));
    session.record_outcome(DeletionOutcome::Failed("transient".to_string()));
    assert!(session.is_complete());

    let report = session.into_report();
    assert_eq!(report.len(), 3);
    assert_eq!(report[0].id, "x");
    assert_eq!(report[1].id, "y");
    assert_eq!(report[2].id, "z");
    assert_eq!(failure_count(&report), 2);
}
