use upv_cli::purge::{PurgeAction, PurgePhase, PurgeRun};

fn names(v: &[&str]) -> Vec<String> {
    v.iter().map(|s| s.to_string()).collect()
}

#[test]
fn sparing_every_profile_leaves_nothing_to_delete() {
    for force in [false, true] {
        let run = PurgeRun::new(force, &names(&["A", "B"]), &names(&["B", "A", "C"]));
        assert_eq!(run.phase(), PurgePhase::NothingToDelete);
        assert!(run.is_over());
        assert!(run.targets().is_empty());
        assert!(matches!(run.next_action(), PurgeAction::ReportNothingToDelete));
    }
}

#[test]
fn empty_registry_leaves_nothing_to_delete() {
    let run = PurgeRun::new(false, &names(&[]), &names(&[]));
    assert_eq!(run.phase(), PurgePhase::NothingToDelete);
}

#[test]
fn exceptions_match_exactly() {
    let run = PurgeRun::new(true, &names(&["A", "b", "C"]), &names(&["a", "B", "C"]));
    assert_eq!(run.targets(), &names(&["A", "b"]));
}

#[test]
fn declining_the_question_cancels() {
    let mut run = PurgeRun::new(false, &names(&["A", "B"]), &names(&[]));
    assert!(matches!(run.next_action(), PurgeAction::AskConfirmation { count: 2 }));
    run.answer("n\n");
    assert_eq!(run.phase(), PurgePhase::Cancelled);
    assert!(run.is_over());
    assert_eq!(run.deleted(), 0);
    assert!(matches!(run.next_action(), PurgeAction::ReportCancelled));
}

#[test]
fn wrong_word_cancels() {
    let mut run = PurgeRun::new(false, &names(&["A"]), &names(&[]));
    run.answer("yes\n");
    assert!(matches!(run.next_action(), PurgeAction::AskDeleteWord));
    run.answer("delete\n");
    assert_eq!(run.phase(), PurgePhase::Cancelled);
    assert_eq!(run.deleted(), 0);
    assert_eq!(run.failed(), 0);
}

#[test]
fn confirmed_purge_deletes_each_and_counts_failures() {
    let mut run = PurgeRun::new(false, &names(&["A", "Keep", "B", "C"]), &names(&["Keep"]));
    run.answer(" Y ");
    run.answer("DELETE\n");
    assert_eq!(run.phase(), PurgePhase::Deleting);
    let mut asked = Vec::new();
    let mut outcomes = vec![true, false, true].into_iter();
    while !run.is_over() {
        match run.next_action() {
            PurgeAction::Delete { name } => {
                asked.push(name);
                run.record_deletion(outcomes.next().unwrap());
            }
            other => panic!("unexpected {other:?}"),
        }
    }
    assert_eq!(asked, names(&["A", "B", "C"]));
    assert_eq!(run.phase(), PurgePhase::Completed);
    assert!(matches!(run.next_action(), PurgeAction::ReportSummary { deleted: 2, failed: 1 }));
}

#[test]
fn forced_purge_skips_questions() {
    let mut run = PurgeRun::new(true, &names(&["A"]), &names(&[]));
    assert!(matches!(run.next_action(), PurgeAction::Delete { ref name } if name == "A"));
    run.record_deletion(false);
    assert!(matches!(run.next_action(), PurgeAction::ReportSummary { deleted: 0, failed: 1 }));
}
