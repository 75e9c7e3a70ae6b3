use train_lib::artifact::{Artifact, ArtifactStatus, NEVER_SCHEDULED};
use train_lib::error::GeneralError;
use train_lib::instance::{Instance, InstanceNumbers, InstanceStatus};
use train_lib::rollout::{rollout_step, RunAction, RunEvent, RunSession};
use train_lib::scheduler::{numbers_to_deploy, plan, process, record_dispatch, statistic_instances, Dispatch};

fn numbers(running: u32, fail: u32, done_clean: u32, done_dirt: u32) -> InstanceNumbers {
    InstanceNumbers { running, fail, done_clean, done_dirt }
}

fn instance(is_dirt: bool, stat: InstanceStatus) -> Instance {
    Instance {
        id: "inst-1".to_owned(),
        art_id: "art-1".to_owned(),
        run_name: "".to_owned(),
        dirt: is_dirt,
        stat,
        results: None,
    }
}

fn running(id: &str) -> Instance {
    Instance::started(id.to_owned(), "art-1".to_owned(), format!("build-art-1-run-{}", id))
}

#[test]
fn test_numbers_to_deploy_simple() {
    let artifact = Artifact::new("art-number-to-dep-test", 1, 1);
    let num = numbers_to_deploy(&artifact, &numbers(0, 0, 0, 0));
    assert_eq!(num, 1);
}

#[test]
fn test_numbers_to_deploy_build() {
    let artifact = Artifact::new("art-number-to-dep-test", 5, 2);
    let num = numbers_to_deploy(&artifact, &numbers(1, 1, 0, 1));
    assert_eq!(num, 1);
}

#[test]
fn test_numbers_to_deploy_clean() {
    let artifact = Artifact::new("art-number-to-dep-test", 5, 2);
    let num = numbers_to_deploy(&artifact, &numbers(1, 1, 2, 1));
    assert_eq!(num, -1);
}

#[test]
fn test_numbers_to_deploy_capped() {
    let artifact = Artifact::new("art-number-to-dep-test", 4, 2);
    let num = numbers_to_deploy(&artifact, &numbers(0, 1, 0, 2));
    assert_eq!(num, 1);
}

#[test]
fn test_statistic_instances() {
    let instances = vec![
        instance(false, InstanceStatus::Running),
        instance(false, InstanceStatus::Failed(String::new())),
        instance(false, InstanceStatus::Failed(String::new())),
        instance(false, InstanceStatus::Succeeded),
        instance(false, InstanceStatus::Succeeded),
        instance(false, InstanceStatus::Succeeded),
        instance(true, InstanceStatus::Succeeded),
        instance(true, InstanceStatus::Succeeded),
        instance(true, InstanceStatus::Succeeded),
        instance(true, InstanceStatus::Succeeded),
    ];
    let stats = statistic_instances(&instances).unwrap();
    assert_eq!(stats.running, 1);
    assert_eq!(stats.fail, 2);
    assert_eq!(stats.done_clean, 3);
    assert_eq!(stats.done_dirt, 4);
}

#[test]
fn unknown_instances_are_not_counted() {
    let instances = vec![instance(false, InstanceStatus::Unknown), instance(true, InstanceStatus::Unknown)];
    let stats = statistic_instances(&instances).unwrap();
    assert_eq!(stats, numbers(0, 0, 0, 0));
    assert_eq!(statistic_instances(&[]).unwrap(), numbers(0, 0, 0, 0));
}

#[test]
fn numbers_to_deploy_is_the_smaller_of_buffer_and_need() {
    // buffer = 10 - 1 - 2 - 3 - 1 = 3, need = 8 - 2 - 1 = 5
    let artifact = Artifact::new("a", 10, 8);
    assert_eq!(numbers_to_deploy(&artifact, &numbers(1, 3, 2, 1)), 3);
    // buffer = 10 - 0 - 1 - 0 - 1 = 8, need = 3 - 1 - 1 = 1
    let artifact = Artifact::new("a", 10, 3);
    assert_eq!(numbers_to_deploy(&artifact, &numbers(1, 0, 1, 0)), 1);
}

#[test]
fn numbers_to_deploy_does_not_overflow_at_the_largest_counts() {
    let artifact = Artifact::new("a", 0, 0);
    let n = numbers(u32::MAX, u32::MAX, u32::MAX, u32::MAX);
    assert_eq!(numbers_to_deploy(&artifact, &n), -4 * (u32::MAX as i64));
    let artifact = Artifact::new("a", u32::MAX, u32::MAX);
    assert_eq!(numbers_to_deploy(&artifact, &numbers(0, 0, 0, 0)), u32::MAX as i64);
}

#[test]
fn target_above_total_never_converges() {
    // total = 3, target = 5: once ready and running fill the capacity the number to
    // deploy is the headroom, and the shortfall stays positive.
    let artifact = Artifact::new("a", 3, 5);
    assert_eq!(numbers_to_deploy(&artifact, &numbers(1, 0, 2, 0)), 0);
    assert_eq!(numbers_to_deploy(&artifact, &numbers(1, 1, 2, 1)), -2);
    assert_eq!(numbers_to_deploy(&artifact, &numbers(0, 0, 0, 0)), 3);
}

#[test]
fn plan_chooses_build_clean_or_nothing() {
    let artifact = Artifact::new("art-1", 5, 2);
    assert_eq!(plan(&artifact, &[]), Dispatch::Build(2));
    let instances = vec![
        instance(false, InstanceStatus::Running),
        instance(false, InstanceStatus::Failed("x".to_owned())),
        instance(false, InstanceStatus::Succeeded),
        instance(false, InstanceStatus::Succeeded),
        instance(true, InstanceStatus::Succeeded),
    ];
    assert_eq!(plan(&artifact, &instances), Dispatch::Clean(1));
    let instances = vec![running("a"), running("b")];
    assert_eq!(plan(&artifact, &instances), Dispatch::Nothing);
}

#[test]
fn second_dequeue_after_a_build_asks_for_nothing() {
    let mut artifact = Artifact::new("art-1", 5, 3);
    let mut instances = vec![instance(false, InstanceStatus::Succeeded)];
    let d = plan(&artifact, &instances);
    assert_eq!(d, Dispatch::Build(2));
    let created = vec![running("a"), running("b")];
    let persisted = record_dispatch(&mut artifact, d, Ok(created), 1_700_000_000);
    instances.extend(persisted);
    assert_eq!(plan(&artifact, &instances), Dispatch::Nothing);
}

#[test]
fn build_dispatch_round_trip() {
    let mut artifact = Artifact::new("art-1", 4, 3);
    let created = vec![running("a"), running("b"), running("c")];
    let persisted = record_dispatch(&mut artifact, Dispatch::Build(3), Ok(created), 1_700_000_123);
    assert_eq!(persisted.len(), 3);
    assert!(persisted.iter().all(|i| i.stat == InstanceStatus::Running && !i.dirt));
    assert_eq!(artifact.build.stats, ArtifactStatus::Running);
    assert_eq!(artifact.build.last_sched, 1_700_000_123);
    assert_eq!(artifact.clean.stats, ArtifactStatus::NotScheduled);
    assert_eq!(artifact.clean.last_sched, NEVER_SCHEDULED);
}

#[test]
fn failed_dispatch_is_classified() {
    let mut artifact = Artifact::new("art-1", 4, 3);
    let r = record_dispatch(&mut artifact, Dispatch::Build(3), Err(GeneralError::PendingArtRef), 7);
    assert!(r.is_empty());
    assert_eq!(artifact.build.stats, ArtifactStatus::PendingArtRef);
    assert_eq!(artifact.build.last_sched, 7);
    record_dispatch(&mut artifact, Dispatch::Clean(1), Err(GeneralError::PendingAccount), 8);
    assert_eq!(artifact.clean.stats, ArtifactStatus::PendingAccount);
    assert_eq!(artifact.clean.last_sched, 8);
    record_dispatch(&mut artifact, Dispatch::Build(1), Err(GeneralError::PipelineError("boom".to_owned())), 9);
    assert_eq!(artifact.build.stats, ArtifactStatus::Failed);
    assert_eq!(artifact.build.last_sched, 9);
}

#[test]
fn no_dispatch_changes_nothing() {
    let mut artifact = Artifact::new("art-1", 4, 3);
    let before = artifact.clone();
    let r = record_dispatch(&mut artifact, Dispatch::Nothing, Ok(Vec::new()), 9);
    assert!(r.is_empty());
    assert_eq!(artifact, before);
}

#[test]
fn process_stamps_the_current_time() {
    let mut artifact = Artifact::new("art-1", 4, 3);
    let r = process(&mut artifact, Dispatch::Clean(1), Ok(vec![running("z")]));
    assert_eq!(r.len(), 1);
    assert_eq!(artifact.clean.stats, ArtifactStatus::Running);
    assert!(artifact.clean.last_sched > NEVER_SCHEDULED);
    assert_eq!(artifact.build.stats, ArtifactStatus::NotScheduled);
}

#[test]
fn test_process() {
    let mut artifact = Artifact::new("opsman-process", 1, 1);
    let d = plan(&artifact, &[]);
    assert_eq!(d, Dispatch::Build(1));
    let mut session = RunSession::new(artifact.id.clone(), 1);
    assert!(matches!(rollout_step(&mut session, RunEvent::Ready(Ok(()))), RunAction::StartNext));
    let outcome = match rollout_step(&mut session, RunEvent::Started("cold-1a2b".to_owned(), Ok("build-opsman-process-run-x".to_owned()))) {
        RunAction::Finish(r) => r,
        RunAction::StartNext => panic!("one copy was asked for"),
    };
    let instances = process(&mut artifact, d, outcome);
    assert_eq!(artifact.build.stats, ArtifactStatus::Running);
    let now = std::time::SystemTime::now().duration_since(std::time::UNIX_EPOCH).unwrap().as_secs() as i64;
    assert!((now - artifact.build.last_sched).abs() < 5);
    assert!(instances.len() > 0);
    assert_eq!(instances[0].stat, InstanceStatus::Running);
    assert_eq!(instances[0].id, "cold-1a2b");
    assert_eq!(instances[0].art_id, "opsman-process");
}
