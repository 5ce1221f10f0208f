//! The session supervisor: which endpoints to acquire, when to spawn the
//! five worker tasks, and how a session collapses.
//!
//! The surrounding loop owns the actual listeners, sockets and task
//! handles; every decision — what to open next, when to spawn, what to
//! do when something fails or finishes — is taken here.  The supervisor
//! guarantees that when one task ends the whole session is torn down:
//! no task is still running when the next session begins.

use vstd::prelude::*;

verus! {

/// Seconds a TCP accept may wait for a client before the session restarts.
pub const TCP_CLIENT_TIMEOUT_SECS: u64 = 30;

/// What a spawned task's handle reports.
#[derive(Clone, Copy, Debug, PartialEq, Eq, Structural)]
pub enum TaskStatus {
    Running,
    Completed,
    Aborted,
}

/// The five tasks of a proxy session.
#[derive(Clone, Copy, Debug, PartialEq, Eq, Structural)]
pub enum TaskId {
    ReaderHu,
    ReaderMd,
    WorkerToHu,
    WorkerToMd,
    Monitor,
}

/// The statuses of the five tasks of a session.
#[derive(Clone, Copy, Debug, PartialEq, Eq, Structural)]
pub struct TaskSet {
    pub reader_hu: TaskStatus,
    pub reader_md: TaskStatus,
    pub worker_to_hu: TaskStatus,
    pub worker_to_md: TaskStatus,
    pub monitor: TaskStatus,
}

/// No task of the set is still running.
pub open spec fn all_stopped(t: TaskSet) -> bool {
    &&& t.reader_hu !is Running
    &&& t.reader_md !is Running
    &&& t.worker_to_hu !is Running
    &&& t.worker_to_md !is Running
    &&& t.monitor !is Running
}

/// Every task of the set is running.
pub open spec fn all_running(t: TaskSet) -> bool {
    &&& t.reader_hu is Running
    &&& t.reader_md is Running
    &&& t.worker_to_hu is Running
    &&& t.worker_to_md is Running
    &&& t.monitor is Running
}

/// A set in which every task has been aborted.
pub open spec fn spec_all_aborted() -> TaskSet {
    TaskSet {
        reader_hu: TaskStatus::Aborted,
        reader_md: TaskStatus::Aborted,
        worker_to_hu: TaskStatus::Aborted,
        worker_to_md: TaskStatus::Aborted,
        monitor: TaskStatus::Aborted,
    }
}

/// The set after the whole session is torn down because `who` finished:
/// the finisher reports completed, every other task is aborted.
pub open spec fn spec_after_teardown(who: TaskId) -> TaskSet {
    match who {
        TaskId::ReaderHu => TaskSet { reader_hu: TaskStatus::Completed, ..spec_all_aborted() },
        TaskId::ReaderMd => TaskSet { reader_md: TaskStatus::Completed, ..spec_all_aborted() },
        TaskId::WorkerToHu => TaskSet {
            worker_to_hu: TaskStatus::Completed,
            ..spec_all_aborted()
        },
        TaskId::WorkerToMd => TaskSet {
            worker_to_md: TaskStatus::Completed,
            ..spec_all_aborted()
        },
        TaskId::Monitor => TaskSet { monitor: TaskStatus::Completed, ..spec_all_aborted() },
    }
}

/// Where the supervisor stands in a session's life.
#[derive(Clone, Copy, Debug, PartialEq, Eq, Structural)]
pub enum SessionPhase {
    /// Between sessions.
    Idle,
    /// Acquiring the mobile-device endpoint.
    AcquireMd,
    /// Acquiring the head-unit endpoint.
    AcquireHu,
    /// All five tasks are running.
    Proxying,
}

/// What the surrounding loop must do next.
#[derive(Clone, Copy, Debug, PartialEq, Eq, Structural)]
pub enum SupervisorAction {
    /// Wired phone: open the USB stream, enabling accessory mode.
    OpenUsbMd,
    /// Wireless phone: wait for the handshake's TCP-start signal, then
    /// accept one client on the mobile-device listener, with no delay
    /// on small segments.
    WaitTcpStartThenAccept,
    /// Desktop head unit: accept one client on its listener.
    AcceptHuTcp,
    /// Real head unit: open the USB accessory device, read and write.
    OpenUsbAccessory,
    /// Spawn both readers, both workers and the monitor.
    SpawnTasks,
    /// Abort every remaining task, drop the endpoints, and fire the
    /// restart signal.
    TearDownAndRestart,
    /// Fire the restart signal; nothing was spawned yet.
    Restart,
}

/// The supervisor: the session mode it was configured with, the phase
/// it is in, and what its five task handles report.
pub struct Supervisor {
    pub wired: bool,
    pub dhu: bool,
    pub phase: SessionPhase,
    pub tasks: TaskSet,
}

/// The supervisor never leaves a task running outside an active session.
pub open spec fn supervisor_inv(s: Supervisor) -> bool {
    &&& s.phase is Proxying ==> all_running(s.tasks)
    &&& !(s.phase is Proxying) ==> all_stopped(s.tasks)
}

/// Which listeners the supervisor binds once at startup: the
/// mobile-device listener unless the phone is wired, the head-unit
/// listener only for the desktop emulator.
#[derive(Clone, Copy, Debug, PartialEq, Eq, Structural)]
pub struct ListenPlan {
    pub bind_md: bool,
    pub bind_dhu: bool,
}

impl Supervisor {
    /// A supervisor for the given session mode, with nothing running.
    pub fn new(wired: bool, dhu: bool) -> (s: Supervisor)
        ensures
            s.wired == wired,
            s.dhu == dhu,
            s.phase is Idle,
            all_stopped(s.tasks),
            supervisor_inv(s),
    {
        Supervisor {
            wired,
            dhu,
            phase: SessionPhase::Idle,
            tasks: TaskSet {
                reader_hu: TaskStatus::Completed,
                reader_md: TaskStatus::Completed,
                worker_to_hu: TaskStatus::Completed,
                worker_to_md: TaskStatus::Completed,
                monitor: TaskStatus::Completed,
            },
        }
    }

    /// Which listeners to bind at startup.
    pub fn listen_plan(&self) -> (l: ListenPlan)
        ensures
            l.bind_md == !self.wired,
            l.bind_dhu == self.dhu,
    {
        ListenPlan { bind_md: !self.wired, bind_dhu: self.dhu }
    }

    /// Begin a session.  No task of the previous session may still be
    /// running, which the invariant guarantees.
    pub fn begin_session(&mut self) -> (a: SupervisorAction)
        requires
            supervisor_inv(*old(self)),
            old(self).phase is Idle,
        ensures
            supervisor_inv(*final(self)),
            all_stopped(old(self).tasks),
            final(self).phase is AcquireMd,
            final(self).wired == old(self).wired && final(self).dhu == old(self).dhu,
            final(self).tasks == old(self).tasks,
            old(self).wired ==> a is OpenUsbMd,
            !old(self).wired ==> a is WaitTcpStartThenAccept,
    {
        self.phase = SessionPhase::AcquireMd;
        if self.wired {
            SupervisorAction::OpenUsbMd
        } else {
            SupervisorAction::WaitTcpStartThenAccept
        }
    }

    /// The mobile-device endpoint is ready: acquire the head-unit side.
    pub fn on_md_ready(&mut self) -> (a: SupervisorAction)
        requires
            supervisor_inv(*old(self)),
            old(self).phase is AcquireMd,
        ensures
            supervisor_inv(*final(self)),
            final(self).phase is AcquireHu,
            final(self).wired == old(self).wired && final(self).dhu == old(self).dhu,
            final(self).tasks == old(self).tasks,
            old(self).dhu ==> a is AcceptHuTcp,
            !old(self).dhu ==> a is OpenUsbAccessory,
    {
        self.phase = SessionPhase::AcquireHu;
        if self.dhu {
            SupervisorAction::AcceptHuTcp
        } else {
            SupervisorAction::OpenUsbAccessory
        }
    }

    /// Both endpoints are ready: spawn the five tasks of the session.
    pub fn on_hu_ready(&mut self) -> (a: SupervisorAction)
        requires
            supervisor_inv(*old(self)),
            old(self).phase is AcquireHu,
        ensures
            supervisor_inv(*final(self)),
            final(self).phase is Proxying,
            final(self).wired == old(self).wired && final(self).dhu == old(self).dhu,
            all_running(final(self).tasks),
            a is SpawnTasks,
    {
        self.tasks = TaskSet {
            reader_hu: TaskStatus::Running,
            reader_md: TaskStatus::Running,
            worker_to_hu: TaskStatus::Running,
            worker_to_md: TaskStatus::Running,
            monitor: TaskStatus::Running,
        };
        self.phase = SessionPhase::Proxying;
        SupervisorAction::SpawnTasks
    }

    /// Acquiring an endpoint failed: give the session up and restart.
    pub fn on_acquire_failed(&mut self) -> (a: SupervisorAction)
        requires
            supervisor_inv(*old(self)),
            old(self).phase is AcquireMd || old(self).phase is AcquireHu,
        ensures
            supervisor_inv(*final(self)),
            final(self).phase is Idle,
            final(self).wired == old(self).wired && final(self).dhu == old(self).dhu,
            final(self).tasks == old(self).tasks,
            all_stopped(final(self).tasks),
            a is Restart,
    {
        self.phase = SessionPhase::Idle;
        SupervisorAction::Restart
    }

    /// The first task of the session finished, with or without an
    /// error: the whole session collapses.  Every other task is aborted
    /// before the supervisor is idle again, so nothing of this session
    /// survives into the next.
    pub fn on_task_end(&mut self, who: TaskId) -> (a: SupervisorAction)
        requires
            supervisor_inv(*old(self)),
            old(self).phase is Proxying,
        ensures
            supervisor_inv(*final(self)),
            final(self).phase is Idle,
            final(self).wired == old(self).wired && final(self).dhu == old(self).dhu,
            final(self).tasks == spec_after_teardown(who),
            all_stopped(final(self).tasks),
            a is TearDownAndRestart,
    {
        let mut tasks = TaskSet {
            reader_hu: TaskStatus::Aborted,
            reader_md: TaskStatus::Aborted,
            worker_to_hu: TaskStatus::Aborted,
            worker_to_md: TaskStatus::Aborted,
            monitor: TaskStatus::Aborted,
        };
        match who {
            TaskId::ReaderHu => tasks.reader_hu = TaskStatus::Completed,
            TaskId::ReaderMd => tasks.reader_md = TaskStatus::Completed,
            TaskId::WorkerToHu => tasks.worker_to_hu = TaskStatus::Completed,
            TaskId::WorkerToMd => tasks.worker_to_md = TaskStatus::Completed,
            TaskId::Monitor => tasks.monitor = TaskStatus::Completed,
        }
        self.tasks = tasks;
        self.phase = SessionPhase::Idle;
        SupervisorAction::TearDownAndRestart
    }
}

/// A session over, none of its five tasks is still running when the
/// next begins: ending a session stops every task, and beginning one
/// demands an idle supervisor, whose tasks the invariant holds stopped.
pub proof fn lemma_no_task_survives_a_session(who: TaskId)
    ensures
        all_stopped(spec_after_teardown(who)),
        forall|t: Supervisor|
            supervisor_inv(t) && t.phase is Idle ==> all_stopped(#[trigger] t.tasks),
{
}

} // verus!
