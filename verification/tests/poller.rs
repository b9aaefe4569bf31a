use bubbles::poller::{judge, Verdict};

#[test]
fn a_failed_probe_is_retried() {
    assert_eq!(judge(false), Verdict::Retry);
}

#[test]
fn a_successful_probe_resolves() {
    assert_eq!(judge(true), Verdict::Resolved);
}

#[test]
fn polling_resolves_at_the_first_success() {
    let outcomes = [false, false, false, true, false, true];
    let mut attempts = 0;
    for outcome in outcomes {
        attempts += 1;
        if judge(outcome) == Verdict::Resolved {
            break;
        }
    }
    assert_eq!(attempts, 4);
}
