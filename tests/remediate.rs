use luap::dependency::GithubDependency;
use luap::remediate::{UpdateAction, UpdateError, UpdateMachine, UpdatePhase};

fn gh(branch: Option<&str>, tag: Option<&str>, hash: Option<&str>) -> GithubDependency {
    GithubDependency {
        url: "org/repo".to_string(),
        tag: tag.map(|t| t.to_string()),
        branch: branch.map(|b| b.to_string()),
        hash: hash.map(|h| h.to_string()),
    }
}

#[test]
fn unreachable_hash_fetches_once_then_fails() {
    let (mut m, a) = UpdateMachine::start(gh(None, None, Some("abc123")), Some("main".to_string()));
    assert_eq!(a, UpdateAction::ResetTo("abc123".to_string()));
    assert_eq!(m.step(false), UpdateAction::FetchBranch("main".to_string()));
    assert_eq!(m.step(true), UpdateAction::ResetTo("abc123".to_string()));
    assert_eq!(m.step(false), UpdateAction::Finish(Err(UpdateError::ResetFailed)));
    assert_eq!(m.step(false), UpdateAction::Finish(Err(UpdateError::ResetFailed)));
    assert_eq!(m.phase, UpdatePhase::Done(Err(UpdateError::ResetFailed)));
}

#[test]
fn reset_succeeds_after_fetch() {
    let (mut m, _) = UpdateMachine::start(gh(None, Some("v2"), None), Some("main".to_string()));
    assert_eq!(m.step(false), UpdateAction::FetchBranch("main".to_string()));
    assert_eq!(m.step(true), UpdateAction::ResetTo("v2".to_string()));
    assert_eq!(m.step(true), UpdateAction::Finish(Ok(())));
}

#[test]
fn branch_switch_comes_first() {
    let (mut m, a) = UpdateMachine::start(gh(Some("dev"), None, Some("h")), Some("main".to_string()));
    assert_eq!(a, UpdateAction::SwitchBranch("dev".to_string()));
    assert_eq!(m.step(true), UpdateAction::ResetTo("h".to_string()));
    assert_eq!(m.step(false), UpdateAction::FetchBranch("dev".to_string()));
    assert_eq!(m.step(false), UpdateAction::Finish(Err(UpdateError::FetchFailed)));
}

#[test]
fn branch_switch_failure_stops() {
    let (mut m, _) = UpdateMachine::start(gh(Some("dev"), None, Some("h")), None);
    assert_eq!(m.step(false), UpdateAction::Finish(Err(UpdateError::BranchSwitchFailed)));
}

#[test]
fn branch_only_pin_succeeds_after_switch() {
    let (mut m, a) = UpdateMachine::start(gh(Some("dev"), None, None), Some("main".to_string()));
    assert_eq!(a, UpdateAction::SwitchBranch("dev".to_string()));
    assert_eq!(m.step(true), UpdateAction::Finish(Ok(())));
    assert_eq!(m.head_branch, Some("dev".to_string()));
    let (_, a) = UpdateMachine::start(gh(Some("dev"), None, None), Some("dev".to_string()));
    assert_eq!(a, UpdateAction::Finish(Ok(())));
}

#[test]
fn unpinned_node_moves_to_default_branch() {
    let (mut m, a) = UpdateMachine::start(gh(None, None, None), Some("trunk".to_string()));
    assert_eq!(a, UpdateAction::SwitchBranch("main".to_string()));
    assert_eq!(m.phase, UpdatePhase::SwitchingMain);
    assert_eq!(m.step(true), UpdateAction::Finish(Ok(())));
    assert_eq!(m.head_branch, Some("main".to_string()));
}

#[test]
fn default_branch_falls_back_to_master() {
    let (mut m, _) = UpdateMachine::start(gh(None, None, None), None);
    assert_eq!(m.step(false), UpdateAction::SwitchBranch("master".to_string()));
    assert_eq!(m.step(true), UpdateAction::Finish(Ok(())));
    let (mut m, _) = UpdateMachine::start(gh(None, None, None), Some("trunk".to_string()));
    assert_eq!(m.step(false), UpdateAction::SwitchBranch("master".to_string()));
    assert_eq!(m.step(false), UpdateAction::Finish(Err(UpdateError::BranchSwitchFailed)));
}

#[test]
fn hash_pin_off_default_branch_switches_then_resets() {
    let (mut m, a) = UpdateMachine::start(gh(None, None, Some("h")), Some("feature".to_string()));
    assert_eq!(a, UpdateAction::SwitchBranch("main".to_string()));
    assert_eq!(m.step(true), UpdateAction::ResetTo("h".to_string()));
    assert_eq!(m.step(false), UpdateAction::FetchBranch("main".to_string()));
    assert_eq!(m.step(true), UpdateAction::ResetTo("h".to_string()));
    assert_eq!(m.step(true), UpdateAction::Finish(Ok(())));
}

#[test]
fn fetch_is_of_named_branch_after_switch() {
    let (mut m, a) = UpdateMachine::start(gh(Some("release"), Some("v2"), None), Some("main".to_string()));
    assert_eq!(a, UpdateAction::SwitchBranch("release".to_string()));
    assert_eq!(m.step(true), UpdateAction::ResetTo("v2".to_string()));
    assert_eq!(m.step(false), UpdateAction::FetchBranch("release".to_string()));
    assert_eq!(m.step(true), UpdateAction::ResetTo("v2".to_string()));
    assert_eq!(m.step(false), UpdateAction::Finish(Err(UpdateError::ResetFailed)));
}
