//! The task and resource model: a fixed set of tasks at static priorities,
//! the state cells they share, and the priority ceilings that keep every
//! access to a cell free of interleaving without ever blocking.

use vstd::prelude::*;

verus! {

/// The units of work of the firmware. Each interrupt task is bound to one
/// interrupt source; `Idle` is the background loop.
#[derive(Clone, Copy, Debug, PartialEq, Eq, Structural)]
pub enum Task {
    /// The background loop that accounts for the time spent asleep.
    Idle,
    /// Speed measurement, on a capture interrupt.
    Capture,
    /// Command intake, when a command frame has arrived.
    Rx,
    /// Telemetry, on the periodic timer tick.
    Log,
    /// Release of the transmit buffer, when a state frame has gone out.
    Tx,
}

/// The shared state cells.
#[derive(Clone, Copy, Debug, PartialEq, Eq, Structural)]
pub enum Resource {
    /// Whether the robot is armed.
    Active,
    /// Last commanded duty of the left motor.
    DutyLeft,
    /// Last commanded duty of the right motor.
    DutyRight,
    /// Edges seen on the left wheel since the last tick.
    PosLeft,
    /// Edges seen on the right wheel since the last tick.
    PosRight,
    /// Buffer of the incoming command frame.
    RxBuffer,
    /// Cycles spent asleep since the last tick.
    SleepCycles,
    /// Buffer of the outgoing state frame.
    TxBuffer,
    /// Last received steering axis.
    TargetX,
    /// Last received throttle axis.
    TargetY,
}

/// The static priority of a task. A task preempts whatever runs at a lower
/// priority and nothing else.
pub open spec fn priority_of(task: Task) -> u8 {
    match task {
        Task::Idle => 0,
        _ => 1,
    }
}

/// Whether `task` is declared to touch `resource`.
pub open spec fn uses(task: Task, resource: Resource) -> bool {
    match task {
        Task::Idle => resource is SleepCycles,
        Task::Capture => resource is PosLeft || resource is PosRight,
        Task::Rx => resource is Active || resource is DutyLeft || resource is DutyRight
            || resource is RxBuffer || resource is TargetX || resource is TargetY,
        Task::Log => resource is Active || resource is DutyLeft || resource is DutyRight
            || resource is PosLeft || resource is PosRight || resource is SleepCycles
            || resource is TxBuffer,
        Task::Tx => resource is TxBuffer,
    }
}

/// What `task` adds to the ceiling of `resource`: its priority if it uses
/// the resource, nothing otherwise.
pub open spec fn claim_of(task: Task, resource: Resource) -> u8 {
    if uses(task, resource) {
        priority_of(task)
    } else {
        0
    }
}

/// The larger of two priorities.
pub open spec fn higher(a: u8, b: u8) -> u8 {
    if a >= b {
        a
    } else {
        b
    }
}

/// The ceiling of a resource: the highest priority among the tasks that use
/// it.
pub open spec fn ceiling_of(resource: Resource) -> u8 {
    higher(
        claim_of(Task::Idle, resource),
        higher(
            claim_of(Task::Capture, resource),
            higher(
                claim_of(Task::Rx, resource),
                higher(claim_of(Task::Log, resource), claim_of(Task::Tx, resource)),
            ),
        ),
    )
}

/// Whether `task` preempts code that runs at preemption level `level`.
pub open spec fn preempts(task: Task, level: u8) -> bool {
    priority_of(task) > level
}

/// Whether code that runs at preemption level `level` may touch every
/// resource that `task` is declared to use.
pub open spec fn covers(level: u8, task: Task) -> bool {
    forall|resource: Resource| #[trigger] uses(task, resource) ==> level >= ceiling_of(resource)
}

/// Whether `task` must raise the preemption level before it touches
/// `resource`.
pub open spec fn needs_lock(task: Task, resource: Resource) -> bool {
    uses(task, resource) && priority_of(task) < ceiling_of(resource)
}

impl Task {
    /// The static priority of the task.
    pub fn priority(self) -> (p: u8)
        ensures
            p == priority_of(self),
    {
        match self {
            Task::Idle => 0,
            _ => 1,
        }
    }

    /// Whether the task is declared to touch `resource`.
    pub fn uses(self, resource: Resource) -> (b: bool)
        ensures
            b == uses(self, resource),
    {
        match self {
            Task::Idle => matches!(resource, Resource::SleepCycles),
            Task::Capture => matches!(resource, Resource::PosLeft | Resource::PosRight),
            Task::Rx => matches!(
                resource,
                Resource::Active | Resource::DutyLeft | Resource::DutyRight | Resource::RxBuffer
                    | Resource::TargetX | Resource::TargetY
            ),
            Task::Log => matches!(
                resource,
                Resource::Active | Resource::DutyLeft | Resource::DutyRight | Resource::PosLeft
                    | Resource::PosRight | Resource::SleepCycles | Resource::TxBuffer
            ),
            Task::Tx => matches!(resource, Resource::TxBuffer),
        }
    }

    fn claim(self, resource: Resource) -> (p: u8)
        ensures
            p == claim_of(self, resource),
    {
        if self.uses(resource) {
            self.priority()
        } else {
            0
        }
    }
}

fn max_priority(a: u8, b: u8) -> (m: u8)
    ensures
        m == higher(a, b),
{
    if a >= b {
        a
    } else {
        b
    }
}

impl Resource {
    /// The ceiling of this resource.
    pub fn ceiling(self) -> (c: u8)
        ensures
            c == ceiling_of(self),
    {
        let tail = max_priority(Task::Log.claim(self), Task::Tx.claim(self));
        let tail = max_priority(Task::Rx.claim(self), tail);
        let tail = max_priority(Task::Capture.claim(self), tail);
        max_priority(Task::Idle.claim(self), tail)
    }
}

/// The preemption level of the running code: tasks whose priority does not
/// exceed it are deferred until it drops again.
#[derive(Clone, Copy, Debug)]
pub struct Threshold {
    value: u8,
}

impl View for Threshold {
    type V = u8;

    closed spec fn view(&self) -> u8 {
        self.value
    }
}

impl Threshold {
    /// The level at which the body of `task` starts to run: its priority.
    pub fn enter(task: Task) -> (t: Self)
        ensures
            t@ == priority_of(task),
    {
        Threshold { value: task.priority() }
    }

    /// The level itself.
    pub fn value(&self) -> (v: u8)
        ensures
            v == self@,
    {
        self.value
    }

    /// The level inside a section that has exclusive access to `resource`:
    /// the ceiling of the resource, or the level outside if that is higher.
    /// The section ends where the returned value goes out of scope; the
    /// level outside is `self`, unchanged.
    pub fn raised(&self, resource: Resource) -> (inner: Self)
        ensures
            inner@ == higher(self@, ceiling_of(resource)),
    {
        Threshold { value: max_priority(self.value, resource.ceiling()) }
    }

    /// Whether code at this level may touch `resource`.
    pub fn allows(&self, resource: Resource) -> (b: bool)
        ensures
            b == (self@ >= ceiling_of(resource)),
    {
        self.value >= resource.ceiling()
    }

    /// Whether code at this level may touch every resource that `task` is
    /// declared to use.
    pub fn covers(&self, task: Task) -> (b: bool)
        ensures
            b == covers(self@, task),
    {
        let b = self.admits(task, Resource::Active) && self.admits(task, Resource::DutyLeft)
            && self.admits(task, Resource::DutyRight) && self.admits(task, Resource::PosLeft)
            && self.admits(task, Resource::PosRight) && self.admits(task, Resource::RxBuffer)
            && self.admits(task, Resource::SleepCycles) && self.admits(task, Resource::TxBuffer)
            && self.admits(task, Resource::TargetX) && self.admits(task, Resource::TargetY);
        proof {
            if b {
                assert forall|resource: Resource| #[trigger] uses(task, resource) implies self@
                    >= ceiling_of(resource) by {
                    match resource {
                        Resource::Active => {},
                        Resource::DutyLeft => {},
                        Resource::DutyRight => {},
                        Resource::PosLeft => {},
                        Resource::PosRight => {},
                        Resource::RxBuffer => {},
                        Resource::SleepCycles => {},
                        Resource::TxBuffer => {},
                        Resource::TargetX => {},
                        Resource::TargetY => {},
                    }
                }
            }
        }
        b
    }

    fn admits(&self, task: Task, resource: Resource) -> (b: bool)
        ensures
            b == (uses(task, resource) ==> self@ >= ceiling_of(resource)),
    {
        !task.uses(resource) || self.allows(resource)
    }

    /// Whether `task` is deferred while code runs at this level.
    pub fn defers(&self, task: Task) -> (b: bool)
        ensures
            b == !preempts(task, self@),
    {
        task.priority() <= self.value
    }
}

/// The ceiling of a resource bounds the priority of every task that uses
/// it, and some task that uses it runs at exactly that priority.
pub proof fn lemma_ceiling_is_highest_user(resource: Resource)
    ensures
        forall|task: Task| #[trigger] uses(task, resource) ==> priority_of(task) <= ceiling_of(resource),
        exists|task: Task| #[trigger] uses(task, resource) && priority_of(task) == ceiling_of(resource),
{
    assert forall|task: Task| #[trigger] uses(task, resource) implies priority_of(task)
        <= ceiling_of(resource) by {
        match task {
            Task::Idle => {},
            Task::Capture => {},
            Task::Rx => {},
            Task::Log => {},
            Task::Tx => {},
        }
    }
    match resource {
        Resource::Active | Resource::DutyLeft | Resource::DutyRight | Resource::RxBuffer
        | Resource::TargetX | Resource::TargetY => {
            assert(uses(Task::Rx, resource));
        },
        Resource::PosLeft | Resource::PosRight => {
            assert(uses(Task::Capture, resource));
        },
        Resource::SleepCycles | Resource::TxBuffer => {
            assert(uses(Task::Log, resource));
        },
    }
}

/// Mutual exclusion: while code runs at a level that allows it to touch a
/// resource, no task that uses that resource preempts it, so no two
/// accesses to one resource interleave.
pub proof fn lemma_exclusive_access(level: u8, resource: Resource, other: Task)
    requires
        level >= ceiling_of(resource),
        uses(other, resource),
    ensures
        !preempts(other, level),
{
    lemma_ceiling_is_highest_user(resource);
}

/// A task is preempted only by tasks of a higher priority: tasks of equal
/// priority never preempt each other, neither at the level at which a task
/// starts nor inside a section that has raised the level for a resource.
pub proof fn lemma_no_preemption_among_equals(running: Task, other: Task, resource: Resource)
    requires
        priority_of(other) <= priority_of(running),
    ensures
        !preempts(other, priority_of(running)),
        !preempts(other, higher(priority_of(running), ceiling_of(resource))),
{
}

/// The interrupt tasks preempt the idle loop outside its locked section,
/// and nothing preempts the section in which the idle loop has raised the
/// level for the sleep counter.
pub proof fn lemma_idle_section(task: Task)
    ensures
        !(task is Idle) ==> preempts(task, priority_of(Task::Idle)),
        !preempts(task, higher(priority_of(Task::Idle), ceiling_of(Resource::SleepCycles))),
{
}

/// Every interrupt task starts at a level that covers all it uses. The one
/// access that needs the lock is that of the idle loop to the sleep counter.
pub proof fn lemma_lock_only_in_idle(task: Task, resource: Resource)
    ensures
        needs_lock(task, resource) <==> task is Idle && resource is SleepCycles,
        !(task is Idle) ==> covers(priority_of(task), task),
        covers(higher(priority_of(task), ceiling_of(Resource::SleepCycles)), task),
{
}

} // verus!
