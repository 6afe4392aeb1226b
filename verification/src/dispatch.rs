//! The real-time dispatch and shared-resource guard model: each hardware
//! interrupt source is bound to one task with a static priority; an arriving
//! interrupt either starts its handler at once or is latched for later; and a
//! task inside a critical section (holding a shared resource) can never be
//! preempted, so no two tasks' accesses to a shared resource ever overlap.
//! Tasks run to completion and are non-reentrant: a repeat of an interrupt
//! whose handler is active is deferred, not run concurrently with itself.

use vstd::prelude::*;

verus! {

/// The two task bodies of the system.
#[derive(Clone, Copy, Debug, PartialEq, Eq, Structural)]
pub enum TaskId {
    /// Handles one inbound serial byte per invocation.
    Receive,
    /// Toggles the liveness indicator and transmits the status query.
    Periodic,
}

/// The two hardware interrupt sources.
#[derive(Clone, Copy, Debug, PartialEq, Eq, Structural)]
pub enum IrqSource {
    /// The serial peripheral signals an inbound byte.
    SerialRx,
    /// The hardware timer signals that a period elapsed.
    TimerUpdate,
}

/// The three shared resources, in their fixed lock order: `SerialLink` is
/// always acquired before `ReceiveBuffer`, which is always acquired before
/// `Display`.
#[derive(Clone, Copy, Debug, PartialEq, Eq, Structural)]
pub enum Resource {
    /// The bidirectional serial peripheral handle.
    SerialLink,
    /// The receive accumulation buffer.
    ReceiveBuffer,
    /// The display handle.
    Display,
}

/// What the dispatcher decides about an arriving interrupt.
#[derive(Clone, Copy, Debug, PartialEq, Eq, Structural)]
pub enum Decision {
    /// The bound task's handler starts (or preempts) right now.
    Started(TaskId),
    /// The interrupt is latched pending and will be served later.
    Latched,
}

/// The fixed binding table: each interrupt source drives exactly one task.
pub open spec fn bound_task(src: IrqSource) -> TaskId {
    match src {
        IrqSource::SerialRx => TaskId::Receive,
        IrqSource::TimerUpdate => TaskId::Periodic,
    }
}

/// The dispatcher's state: which task executes, which one it preempted,
/// which interrupts are latched, which task holds each shared resource, and
/// the two static priorities.
pub struct Dispatcher {
    /// The task currently executing, if any.
    pub running: Option<TaskId>,
    /// The task the running one preempted, if any.
    pub preempted: Option<TaskId>,
    /// Latched serial interrupt, waiting to be served.
    pub pending_receive: bool,
    /// Latched timer interrupt, waiting to be served.
    pub pending_periodic: bool,
    /// The task holding the serial link, if any.
    pub held_serial: Option<TaskId>,
    /// The task holding the receive buffer, if any.
    pub held_buffer: Option<TaskId>,
    /// The task holding the display, if any.
    pub held_display: Option<TaskId>,
    /// Static priority of the receive task.
    pub receive_prio: u8,
    /// Static priority of the periodic task.
    pub periodic_prio: u8,
}

impl Dispatcher {
    /// The static priority bound to a task.
    pub open spec fn prio_of(&self, t: TaskId) -> u8 {
        match t {
            TaskId::Receive => self.receive_prio,
            TaskId::Periodic => self.periodic_prio,
        }
    }

    /// The task holding a shared resource, if any.
    pub open spec fn holder_of(&self, r: Resource) -> Option<TaskId> {
        match r {
            Resource::SerialLink => self.held_serial,
            Resource::ReceiveBuffer => self.held_buffer,
            Resource::Display => self.held_display,
        }
    }

    /// Whether a shared resource is currently held.
    pub open spec fn holds(&self, r: Resource) -> bool {
        self.holder_of(r) is Some
    }

    /// Whether any task is inside a critical section: some shared resource
    /// is held, so interrupts are masked.
    pub open spec fn in_critical(&self) -> bool {
        self.held_serial is Some || self.held_buffer is Some || self.held_display is Some
    }

    /// Whether a task is somewhere on the execution stack.
    pub open spec fn active(&self, t: TaskId) -> bool {
        self.running == Some(t) || self.preempted == Some(t)
    }

    /// The dispatcher's standing invariant: every held resource is held by
    /// the task that is executing at this very instant, an idle system has
    /// nothing preempted, and a preempted task was preempted by something of
    /// strictly higher priority — never by its own kind.
    pub open spec fn wf(&self) -> bool {
        &&& (self.running is None ==> self.preempted is None)
        &&& (self.held_serial is Some ==> self.held_serial == self.running)
        &&& (self.held_buffer is Some ==> self.held_buffer == self.running)
        &&& (self.held_display is Some ==> self.held_display == self.running)
        &&& (match (self.running, self.preempted) {
            (Some(r), Some(p)) => r != p && self.prio_of(r) > self.prio_of(p),
            _ => true,
        })
    }

    /// A fresh dispatcher: idle, nothing latched, nothing held, with the
    /// given static priorities.
    pub fn new(receive_prio: u8, periodic_prio: u8) -> (d: Dispatcher)
        ensures
            d.wf(),
            d == (Dispatcher {
                running: None,
                preempted: None,
                pending_receive: false,
                pending_periodic: false,
                held_serial: None,
                held_buffer: None,
                held_display: None,
                receive_prio,
                periodic_prio,
            }),
    {
        Dispatcher {
            running: None,
            preempted: None,
            pending_receive: false,
            pending_periodic: false,
            held_serial: None,
            held_buffer: None,
            held_display: None,
            receive_prio,
            periodic_prio,
        }
    }

    /// An interrupt arrives. Its task starts at once when the system is
    /// idle; it preempts a strictly lower-priority task, but only outside
    /// any critical section; in every other case — a critical section is
    /// open, the task is already active (non-reentrancy), or its priority
    /// does not exceed the running task's — it is latched.
    pub fn interrupt(&mut self, src: IrqSource) -> (dec: Decision)
        requires
            old(self).wf(),
        ensures
            final(self).wf(),
            *final(self) == interrupt_model(*old(self), bound_task(src)).0,
            dec == interrupt_model(*old(self), bound_task(src)).1,
    {
        let t = task_for(src);
        match self.running {
            None => {
                self.running = Some(t);
                Decision::Started(t)
            },
            Some(cur) => {
                let already_active = cur == t || (match self.preempted {
                    Some(p) => p == t,
                    None => false,
                });
                if self.held_serial.is_some() || self.held_buffer.is_some()
                    || self.held_display.is_some() {
                    self.latch(t);
                    Decision::Latched
                } else if already_active {
                    self.latch(t);
                    Decision::Latched
                } else if self.preempted.is_none() && self.prio(t) > self.prio(cur) {
                    self.preempted = Some(cur);
                    self.running = Some(t);
                    Decision::Started(t)
                } else {
                    self.latch(t);
                    Decision::Latched
                }
            },
        }
    }

    /// The running task's handler ran to completion (all resources
    /// released): the task it preempted, if any, resumes.
    pub fn complete(&mut self)
        requires
            old(self).wf(),
            old(self).running is Some,
            !old(self).in_critical(),
        ensures
            final(self).wf(),
            *final(self) == complete_model(*old(self)),
    {
        self.running = self.preempted;
        self.preempted = None;
    }

    /// Serve a latched interrupt once the system is idle: the
    /// higher-priority pending task starts and its latch clears; on a tie
    /// the receive task, first in the binding table, is served first.
    pub fn next_pending(&mut self) -> (started: Option<TaskId>)
        requires
            old(self).wf(),
            old(self).running is None,
        ensures
            final(self).wf(),
            *final(self) == next_model(*old(self)).0,
            started == next_model(*old(self)).1,
    {
        if self.pending_receive && (!self.pending_periodic || self.receive_prio
            >= self.periodic_prio) {
            self.pending_receive = false;
            self.running = Some(TaskId::Receive);
            Some(TaskId::Receive)
        } else if self.pending_periodic {
            self.pending_periodic = false;
            self.running = Some(TaskId::Periodic);
            Some(TaskId::Periodic)
        } else {
            None
        }
    }

    /// The running task enters a critical section on one shared resource,
    /// becoming its holder. Acquisition follows the fixed top-down order —
    /// never a resource that comes before one already held — so the lock
    /// structure can never deadlock, and the resource must not already be
    /// held.
    pub fn lock(&mut self, r: Resource)
        requires
            old(self).wf(),
            old(self).running is Some,
            !old(self).holds(r),
            r == Resource::SerialLink ==> !old(self).holds(Resource::ReceiveBuffer) && !old(self).holds(Resource::Display),
            r == Resource::ReceiveBuffer ==> !old(self).holds(Resource::Display),
        ensures
            final(self).wf(),
            *final(self) == lock_model(*old(self), r),
            final(self).holder_of(r) == old(self).running,
            final(self).in_critical(),
    {
        match r {
            Resource::SerialLink => self.held_serial = self.running,
            Resource::ReceiveBuffer => self.held_buffer = self.running,
            Resource::Display => self.held_display = self.running,
        }
    }

    /// The running task leaves the innermost critical section: releases are
    /// in reverse (inner-first) order, so an outer lock is never dropped
    /// while an inner one is still held.
    pub fn unlock(&mut self, r: Resource)
        requires
            old(self).wf(),
            old(self).holds(r),
            r == Resource::SerialLink ==> !old(self).holds(Resource::ReceiveBuffer) && !old(self).holds(Resource::Display),
            r == Resource::ReceiveBuffer ==> !old(self).holds(Resource::Display),
        ensures
            final(self).wf(),
            *final(self) == unlock_model(*old(self), r),
            !final(self).holds(r),
    {
        match r {
            Resource::SerialLink => self.held_serial = None,
            Resource::ReceiveBuffer => self.held_buffer = None,
            Resource::Display => self.held_display = None,
        }
    }

    /// Read a task's static priority.
    fn prio(&self, t: TaskId) -> (p: u8)
        ensures
            p == self.prio_of(t),
    {
        match t {
            TaskId::Receive => self.receive_prio,
            TaskId::Periodic => self.periodic_prio,
        }
    }

    /// Latch an interrupt for a task: only its pending flag is raised.
    fn latch(&mut self, t: TaskId)
        ensures
            *final(self) == latched_model(*old(self), t),
    {
        match t {
            TaskId::Receive => self.pending_receive = true,
            TaskId::Periodic => self.pending_periodic = true,
        }
    }
}

/// A dispatcher with one task's interrupt latched and everything else as it
/// was.
pub open spec fn latched_model(d: Dispatcher, t: TaskId) -> Dispatcher {
    match t {
        TaskId::Receive => Dispatcher { pending_receive: true, ..d },
        TaskId::Periodic => Dispatcher { pending_periodic: true, ..d },
    }
}

/// The dispatch rule for one arriving interrupt, bound to task `t`: what the
/// dispatcher becomes, and whether the handler starts now or is latched.
pub open spec fn interrupt_model(d: Dispatcher, t: TaskId) -> (Dispatcher, Decision) {
    match d.running {
        None => (Dispatcher { running: Some(t), ..d }, Decision::Started(t)),
        Some(cur) => {
            if d.in_critical() {
                (latched_model(d, t), Decision::Latched)
            } else if d.active(t) {
                (latched_model(d, t), Decision::Latched)
            } else if d.preempted is None && d.prio_of(t) > d.prio_of(cur) {
                (Dispatcher { running: Some(t), preempted: Some(cur), ..d }, Decision::Started(t))
            } else {
                (latched_model(d, t), Decision::Latched)
            }
        },
    }
}

/// Completion of the running task: the preempted one, if any, resumes.
pub open spec fn complete_model(d: Dispatcher) -> Dispatcher {
    Dispatcher { running: d.preempted, preempted: None, ..d }
}

/// Serving a latched interrupt on an idle system.
pub open spec fn next_model(d: Dispatcher) -> (Dispatcher, Option<TaskId>) {
    if d.pending_receive && (!d.pending_periodic || d.receive_prio >= d.periodic_prio) {
        (
            Dispatcher { running: Some(TaskId::Receive), pending_receive: false, ..d },
            Some(TaskId::Receive),
        )
    } else if d.pending_periodic {
        (
            Dispatcher { running: Some(TaskId::Periodic), pending_periodic: false, ..d },
            Some(TaskId::Periodic),
        )
    } else {
        (d, None)
    }
}

/// Entering a critical section on one resource: the running task becomes the
/// holder.
pub open spec fn lock_model(d: Dispatcher, r: Resource) -> Dispatcher {
    match r {
        Resource::SerialLink => Dispatcher { held_serial: d.running, ..d },
        Resource::ReceiveBuffer => Dispatcher { held_buffer: d.running, ..d },
        Resource::Display => Dispatcher { held_display: d.running, ..d },
    }
}

/// Leaving a critical section on one resource.
pub open spec fn unlock_model(d: Dispatcher, r: Resource) -> Dispatcher {
    match r {
        Resource::SerialLink => Dispatcher { held_serial: None, ..d },
        Resource::ReceiveBuffer => Dispatcher { held_buffer: None, ..d },
        Resource::Display => Dispatcher { held_display: None, ..d },
    }
}

/// Mutual exclusion by the guard: while any task holds any shared resource,
/// an arriving interrupt — whatever its priority — never starts a handler:
/// it is only latched, and the execution stack and every resource holder are
/// exactly as they were. So a critical section runs from entry to exit
/// without any other task's code interleaving, and no task ever observes a
/// partially updated shared resource.
pub proof fn lemma_critical_section_excludes(d: Dispatcher, t: TaskId)
    requires
        d.wf(),
        d.in_critical(),
    ensures
        interrupt_model(d, t).1 == Decision::Latched,
        interrupt_model(d, t).0.running == d.running,
        interrupt_model(d, t).0.preempted == d.preempted,
        forall|r: Resource| interrupt_model(d, t).0.holder_of(r) == d.holder_of(r),
{
}

/// At any instant at most one task holds a given shared resource, and that
/// holder is the very task that is executing: a resource is only ever
/// touched by the running task, inside its own critical section.
pub proof fn lemma_holder_is_the_running_task(d: Dispatcher, r: Resource)
    requires
        d.wf(),
        d.holds(r),
    ensures
        d.holder_of(r) == d.running,
        d.running is Some,
{
}

/// All critical sections open at one instant belong to one and the same
/// task: the nested sections of the running task, never two tasks'.
pub proof fn lemma_one_task_in_critical(d: Dispatcher, r1: Resource, r2: Resource)
    requires
        d.wf(),
        d.holds(r1),
        d.holds(r2),
    ensures
        d.holder_of(r1) == d.holder_of(r2),
{
}

/// With the receive and periodic tasks at one and the same static priority —
/// the configuration of this system — an interrupt arriving while either
/// task executes is always latched: handler invocations never preempt one
/// another, so every handler runs to completion as one uninterrupted block,
/// critical sections included.
pub proof fn lemma_equal_priority_serializes(d: Dispatcher, t: TaskId)
    requires
        d.wf(),
        d.receive_prio == d.periodic_prio,
        d.running is Some,
    ensures
        interrupt_model(d, t).1 == Decision::Latched,
        interrupt_model(d, t).0.running == d.running,
        interrupt_model(d, t).0.preempted == d.preempted,
{
    match t {
        TaskId::Receive => {
            assert(d.prio_of(t) <= d.prio_of(d.running.unwrap()));
        },
        TaskId::Periodic => {
            assert(d.prio_of(t) <= d.prio_of(d.running.unwrap()));
        },
    }
}

/// Non-reentrancy: an interrupt for a task that is already on the execution
/// stack is deferred, never run concurrently with itself.
pub proof fn lemma_non_reentrant(d: Dispatcher, t: TaskId)
    requires
        d.wf(),
        d.active(t),
    ensures
        interrupt_model(d, t).1 == Decision::Latched,
        interrupt_model(d, t).0.running == d.running,
        interrupt_model(d, t).0.preempted == d.preempted,
{
}

/// The fixed binding table, executable: each interrupt source drives exactly
/// one task.
pub fn task_for(src: IrqSource) -> (t: TaskId)
    ensures
        t == bound_task(src),
{
    match src {
        IrqSource::SerialRx => TaskId::Receive,
        IrqSource::TimerUpdate => TaskId::Periodic,
    }
}

} // verus!
