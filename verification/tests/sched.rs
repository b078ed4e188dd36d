use robot::sched::{Resource, Task, Threshold};

const TASKS: [Task; 5] = [Task::Idle, Task::Capture, Task::Rx, Task::Log, Task::Tx];

const RESOURCES: [Resource; 10] = [
    Resource::Active,
    Resource::DutyLeft,
    Resource::DutyRight,
    Resource::PosLeft,
    Resource::PosRight,
    Resource::RxBuffer,
    Resource::SleepCycles,
    Resource::TxBuffer,
    Resource::TargetX,
    Resource::TargetY,
];

#[test]
fn two_priority_levels() {
    assert_eq!(Task::Idle.priority(), 0);
    assert_eq!(Task::Capture.priority(), 1);
    assert_eq!(Task::Rx.priority(), 1);
    assert_eq!(Task::Log.priority(), 1);
    assert_eq!(Task::Tx.priority(), 1);
}

#[test]
fn declared_resources() {
    assert!(Task::Idle.uses(Resource::SleepCycles));
    assert!(!Task::Idle.uses(Resource::Active));
    assert!(Task::Capture.uses(Resource::PosLeft));
    assert!(Task::Capture.uses(Resource::PosRight));
    assert!(!Task::Capture.uses(Resource::SleepCycles));
    assert!(Task::Rx.uses(Resource::RxBuffer));
    assert!(Task::Rx.uses(Resource::TargetX));
    assert!(Task::Rx.uses(Resource::TargetY));
    assert!(!Task::Rx.uses(Resource::TxBuffer));
    assert!(!Task::Rx.uses(Resource::PosLeft));
    assert!(Task::Log.uses(Resource::TxBuffer));
    assert!(Task::Log.uses(Resource::SleepCycles));
    assert!(!Task::Log.uses(Resource::RxBuffer));
    assert!(!Task::Log.uses(Resource::TargetX));
    assert!(Task::Tx.uses(Resource::TxBuffer));
    assert!(!Task::Tx.uses(Resource::Active));
    let used_by_rx = RESOURCES.iter().filter(|r| Task::Rx.uses(**r)).count();
    let used_by_log = RESOURCES.iter().filter(|r| Task::Log.uses(**r)).count();
    assert_eq!(used_by_rx, 6);
    assert_eq!(used_by_log, 7);
}

#[test]
fn ceiling_is_the_highest_priority_of_the_users() {
    for resource in RESOURCES {
        let highest = TASKS
            .iter()
            .filter(|task| task.uses(resource))
            .map(|task| task.priority())
            .max();
        assert_eq!(Some(resource.ceiling()), highest);
        assert_eq!(resource.ceiling(), 1);
    }
}

#[test]
fn a_task_starts_at_its_priority() {
    for task in TASKS {
        assert_eq!(Threshold::enter(task).value(), task.priority());
    }
}

#[test]
fn interrupt_tasks_cover_what_they_use() {
    for task in [Task::Capture, Task::Rx, Task::Log, Task::Tx] {
        assert!(Threshold::enter(task).covers(task));
    }
}

#[test]
fn idle_needs_the_lock_for_the_sleep_counter() {
    let idle = Threshold::enter(Task::Idle);
    assert!(!idle.allows(Resource::SleepCycles));
    assert!(!idle.covers(Task::Idle));
    let section = idle.raised(Resource::SleepCycles);
    assert_eq!(section.value(), 1);
    assert!(section.allows(Resource::SleepCycles));
    assert!(section.covers(Task::Idle));
    assert_eq!(idle.value(), 0);
}

#[test]
fn raising_never_lowers_the_level() {
    let task = Threshold::enter(Task::Log);
    for resource in RESOURCES {
        assert_eq!(task.raised(resource).value(), 1);
    }
}

#[test]
fn a_section_defers_every_user_of_its_resource() {
    for resource in RESOURCES {
        let section = Threshold::enter(Task::Idle).raised(resource);
        for task in TASKS {
            if task.uses(resource) {
                assert!(section.defers(task));
            }
        }
    }
}

#[test]
fn interrupt_tasks_preempt_idle_but_not_each_other() {
    let idle = Threshold::enter(Task::Idle);
    assert!(idle.defers(Task::Idle));
    for task in [Task::Capture, Task::Rx, Task::Log, Task::Tx] {
        assert!(!idle.defers(task));
        for other in [Task::Capture, Task::Rx, Task::Log, Task::Tx] {
            assert!(Threshold::enter(task).defers(other));
        }
    }
}
