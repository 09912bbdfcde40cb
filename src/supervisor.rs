//! The supervisor's decisions, as a state machine over events that the host
//! reports and effects that the host carries out.
use vstd::prelude::*;
use crate::status::BackendStatus;

verus! {

/// Consecutive failed health checks after which the backend is unhealthy.
pub const FAILURE_THRESHOLD: u32 = 3;

/// Delay before the first health check, to let the process warm up.
pub const WARMUP_DELAY_MS: u64 = 500;

/// Delay between two health checks.
pub const HEALTH_INTERVAL_MS: u64 = 5000;

/// Time allowed to one health request.
pub const HEALTH_TIMEOUT_MS: u64 = 2000;

/// Delay between a crash report and the restart request it leads to.
pub const CRASH_GRACE_MS: u64 = 2000;

/// Delay between killing a process and launching the next one.
pub const RESTART_DELAY_MS: u64 = 500;

/// The shared state of the supervisor. A process is named by its id.
#[derive(Debug)]
pub struct Supervisor {
    /// The port last allocated to the backend; 0 before the first allocation.
    pub port: u16,
    /// Whether the last health transition seen was into the healthy state.
    pub is_healthy: bool,
    /// Set once the host shuts down; never cleared.
    pub shutting_down: bool,
    /// The one live process under supervision, if any.
    pub process: Option<u32>,
    /// Consecutive failed health checks of the live process.
    pub health_failures: u32,
    /// A restart request waits to be taken (a slot of capacity one).
    pub restart_pending: bool,
    /// A restart was taken and its launch has not finished yet.
    pub restart_in_progress: bool,
    /// The last status published was `Healthy` or `Unhealthy`.
    pub health_reported: bool,
}

/// What the host observed, handed to the supervisor.
pub enum Event {
    /// The observer, or crash handling, asks for a restart.
    RestartRequested,
    /// The restart coordinator takes the pending request, if any.
    RestartTaken,
    /// The port search for a launch finished (`None`: no free port).
    PortAllocated { port: Option<u16> },
    /// Spawning the process finished, with its id or a description of the failure.
    Spawned { result: Result<u32, String> },
    /// A health checker of process `pid` is about to check.
    HealthPoll { pid: u32 },
    /// A health check of process `pid` finished; `ok` for a 2xx answer.
    HealthChecked { pid: u32, ok: bool },
    /// Process `pid` ended; `description` tells how.
    Terminated { pid: u32, description: String },
    /// The grace delay after a crash report has passed.
    GraceElapsed,
    /// The host is shutting down.
    ShutdownRequested,
}

/// What the host must do after an event.
#[derive(Debug)]
pub struct Effects {
    /// Publish this status to the observer.
    pub publish: Option<BackendStatus>,
    /// Kill this process, and drop its handle.
    pub kill: Option<u32>,
    /// Spawn the backend on this port.
    pub spawn_on: Option<u16>,
    /// Start the output monitor and the health checker of this process.
    pub supervise: Option<u32>,
    /// Wake the restart coordinator: a request now waits.
    pub wake_coordinator: bool,
    /// Wait the crash grace delay, then report `GraceElapsed`.
    pub restart_after_grace: bool,
    /// Wait the restart delay, then allocate a port and report `PortAllocated`.
    pub relaunch_after_delay: bool,
    /// The task that reported the event ends its loop.
    pub stop: bool,
}

/// The invariant of the supervisor's state.
pub open spec fn wf(s: Supervisor) -> bool {
    &&& s.health_reported ==> s.process.is_some()
    &&& s.is_healthy ==> s.process.is_some()
    &&& s.shutting_down ==> s.process.is_none() && !s.health_reported
}

/// The failure count after one more failed check.
pub open spec fn bumped(n: u32) -> u32 {
    if n < u32::MAX { (n + 1) as u32 } else { n }
}

/// Whether a health checker of `pid` may still act.
pub open spec fn checker_live(s: Supervisor, pid: u32) -> bool {
    !s.shutting_down && s.process == Some(pid)
}

/// The state after an event.
pub open spec fn next_state(s: Supervisor, e: Event) -> Supervisor {
    match e {
        Event::RestartRequested => Supervisor { restart_pending: true, ..s },
        Event::RestartTaken => {
            if s.restart_in_progress || !s.restart_pending {
                s
            } else if s.shutting_down {
                Supervisor { restart_pending: false, ..s }
            } else {
                Supervisor {
                    restart_pending: false,
                    restart_in_progress: true,
                    process: None,
                    is_healthy: false,
                    health_reported: false,
                    ..s
                }
            }
        },
        Event::PortAllocated { port } => {
            if s.shutting_down {
                Supervisor { restart_in_progress: false, ..s }
            } else {
                match port {
                    Some(p) => Supervisor { port: p, health_reported: false, ..s },
                    None => Supervisor { restart_in_progress: false, health_reported: false, ..s },
                }
            }
        },
        Event::Spawned { result } => {
            match result {
                Ok(pid) => if s.shutting_down {
                    Supervisor { restart_in_progress: false, ..s }
                } else {
                    Supervisor {
                        process: Some(pid),
                        is_healthy: false,
                        health_failures: 0,
                        restart_in_progress: false,
                        ..s
                    }
                },
                Err(_) => if s.shutting_down {
                    Supervisor { restart_in_progress: false, ..s }
                } else {
                    Supervisor { restart_in_progress: false, health_reported: false, ..s }
                },
            }
        },
        Event::HealthPoll { pid } => s,
        Event::HealthChecked { pid, ok } => {
            if !checker_live(s, pid) {
                s
            } else if ok {
                Supervisor {
                    health_failures: 0,
                    is_healthy: true,
                    health_reported: s.health_reported || !s.is_healthy,
                    ..s
                }
            } else if bumped(s.health_failures) == FAILURE_THRESHOLD {
                Supervisor {
                    health_failures: bumped(s.health_failures),
                    is_healthy: false,
                    health_reported: true,
                    ..s
                }
            } else {
                Supervisor { health_failures: bumped(s.health_failures), ..s }
            }
        },
        Event::Terminated { pid, description } => {
            if s.process != Some(pid) {
                s
            } else if s.shutting_down {
                Supervisor { process: None, is_healthy: false, ..s }
            } else {
                Supervisor { process: None, is_healthy: false, health_reported: false, ..s }
            }
        },
        Event::GraceElapsed => {
            if s.shutting_down {
                s
            } else {
                Supervisor { restart_pending: true, ..s }
            }
        },
        Event::ShutdownRequested => Supervisor {
            shutting_down: true,
            process: None,
            is_healthy: false,
            health_reported: false,
            ..s
        },
    }
}

/// Whether `p` publishes `Crashed` with exactly the message `msg`.
pub open spec fn is_crash_report(p: Option<BackendStatus>, msg: Seq<char>) -> bool {
    match p {
        Some(BackendStatus::Crashed { error }) => error@ == msg,
        _ => false,
    }
}

/// The effects other than the published status.
pub open spec fn actions_are(
    r: Effects,
    kill: Option<u32>,
    spawn_on: Option<u16>,
    supervise: Option<u32>,
    wake_coordinator: bool,
    restart_after_grace: bool,
    relaunch_after_delay: bool,
    stop: bool,
) -> bool {
    &&& r.kill == kill
    &&& r.spawn_on == spawn_on
    &&& r.supervise == supervise
    &&& r.wake_coordinator == wake_coordinator
    &&& r.restart_after_grace == restart_after_grace
    &&& r.relaunch_after_delay == relaunch_after_delay
    &&& r.stop == stop
}

/// No effect at all, but perhaps the end of the reporting task's loop.
pub open spec fn quiet(r: Effects, stop: bool) -> bool {
    r.publish.is_none() && actions_are(r, None, None, None, false, false, false, stop)
}

/// The effects of an event.
pub open spec fn effects_of(s: Supervisor, e: Event, r: Effects) -> bool {
    match e {
        Event::RestartRequested => r.publish.is_none()
            && actions_are(r, None, None, None, !s.restart_pending, false, false, false),
        Event::RestartTaken => {
            if s.restart_in_progress || !s.restart_pending {
                quiet(r, false)
            } else if s.shutting_down {
                quiet(r, true)
            } else {
                r.publish == Some(BackendStatus::Restarting)
                    && actions_are(r, s.process, None, None, false, false, true, false)
            }
        },
        Event::PortAllocated { port } => {
            if s.shutting_down {
                quiet(r, false)
            } else {
                match port {
                    Some(p) => r.publish == Some(BackendStatus::Starting)
                        && actions_are(r, None, Some(p), None, false, false, false, false),
                    None => is_crash_report(r.publish, "No available ports"@)
                        && actions_are(r, None, None, None, false, false, false, false),
                }
            }
        },
        Event::Spawned { result } => {
            match result {
                Ok(pid) => if s.shutting_down {
                    r.publish.is_none()
                        && actions_are(r, Some(pid), None, None, false, false, false, false)
                } else {
                    r.publish.is_none()
                        && actions_are(r, s.process, None, Some(pid), false, false, false, false)
                },
                Err(msg) => if s.shutting_down {
                    quiet(r, false)
                } else {
                    is_crash_report(r.publish, msg@)
                        && actions_are(r, None, None, None, false, false, false, false)
                },
            }
        },
        Event::HealthPoll { pid } => quiet(r, !checker_live(s, pid)),
        Event::HealthChecked { pid, ok } => {
            if !checker_live(s, pid) {
                quiet(r, true)
            } else if ok {
                quiet_but_publish(r) && r.publish == (if s.is_healthy {
                    None
                } else {
                    Some(BackendStatus::Healthy)
                })
            } else if bumped(s.health_failures) == FAILURE_THRESHOLD {
                quiet_but_publish(r) && r.publish == Some(BackendStatus::Unhealthy)
            } else {
                quiet(r, false)
            }
        },
        Event::Terminated { pid, description } => {
            if s.process != Some(pid) {
                quiet(r, true)
            } else if s.shutting_down {
                r.publish.is_none()
                    && actions_are(r, Some(pid), None, None, false, false, false, true)
            } else {
                is_crash_report(r.publish, "Process exited with status: "@ + description@)
                    && actions_are(r, Some(pid), None, None, false, true, false, true)
            }
        },
        Event::GraceElapsed => {
            if s.shutting_down {
                quiet(r, false)
            } else {
                r.publish.is_none()
                    && actions_are(r, None, None, None, !s.restart_pending, false, false, false)
            }
        },
        Event::ShutdownRequested => r.publish.is_none()
            && actions_are(r, s.process, None, None, false, false, false, false),
    }
}

/// Every action is absent; the published status is left open.
pub open spec fn quiet_but_publish(r: Effects) -> bool {
    actions_are(r, None, None, None, false, false, false, false)
}

impl Effects {
    /// No effect at all.
    pub fn none() -> (r: Effects)
        ensures
            quiet(r, false),
    {
        Effects {
            publish: None,
            kill: None,
            spawn_on: None,
            supervise: None,
            wake_coordinator: false,
            restart_after_grace: false,
            relaunch_after_delay: false,
            stop: false,
        }
    }
}

impl Supervisor {
    /// The state before anything was launched: no port, no process, no request.
    pub fn new() -> (r: Supervisor)
        ensures
            wf(r),
            r.port == 0,
            !r.is_healthy,
            !r.shutting_down,
            r.process.is_none(),
            r.health_failures == 0,
            !r.restart_pending,
            !r.restart_in_progress,
            !r.health_reported,
    {
        Supervisor {
            port: 0,
            is_healthy: false,
            shutting_down: false,
            process: None,
            health_failures: 0,
            restart_pending: false,
            restart_in_progress: false,
            health_reported: false,
        }
    }

    /// The port currently allocated to the backend, 0 before the first one.
    pub fn get_api_port(&self) -> (r: u16)
        ensures
            r == self.port,
    {
        self.port
    }

    /// Takes one event into account: moves to the next state and says what
    /// the host must do.
    pub fn step(&mut self, event: Event) -> (r: Effects)
        ensures
            *final(self) == next_state(*old(self), event),
            effects_of(*old(self), event, r),
            wf(*old(self)) ==> wf(*final(self)),
    {
        let mut r = Effects::none();
        match event {
            Event::RestartRequested => {
                r.wake_coordinator = !self.restart_pending;
                self.restart_pending = true;
            },
            Event::RestartTaken => {
                if self.restart_in_progress || !self.restart_pending {
                } else if self.shutting_down {
                    self.restart_pending = false;
                    r.stop = true;
                } else {
                    r.publish = Some(BackendStatus::Restarting);
                    r.kill = self.process;
                    r.relaunch_after_delay = true;
                    self.restart_pending = false;
                    self.restart_in_progress = true;
                    self.process = None;
                    self.is_healthy = false;
                    self.health_reported = false;
                }
            },
            Event::PortAllocated { port } => {
                if self.shutting_down {
                    self.restart_in_progress = false;
                } else {
                    match port {
                        Some(p) => {
                            r.publish = Some(BackendStatus::Starting);
                            r.spawn_on = Some(p);
                            self.port = p;
                            self.health_reported = false;
                        },
                        None => {
                            r.publish = Some(BackendStatus::Crashed {
                                error: String::from_str("No available ports"),
                            });
                            self.restart_in_progress = false;
                            self.health_reported = false;
                        },
                    }
                }
            },
            Event::Spawned { result } => {
                match result {
                    Ok(pid) => {
                        if self.shutting_down {
                            r.kill = Some(pid);
                        } else {
                            r.kill = self.process;
                            r.supervise = Some(pid);
                            self.process = Some(pid);
                            self.is_healthy = false;
                            self.health_failures = 0;
                        }
                        self.restart_in_progress = false;
                    },
                    Err(msg) => {
                        if !self.shutting_down {
                            r.publish = Some(BackendStatus::Crashed { error: msg });
                            self.health_reported = false;
                        }
                        self.restart_in_progress = false;
                    },
                }
            },
            Event::HealthPoll { pid } => {
                r.stop = self.shutting_down || self.process != Some(pid);
            },
            Event::HealthChecked { pid, ok } => {
                if self.shutting_down || self.process != Some(pid) {
                    r.stop = true;
                } else if ok {
                    self.health_failures = 0;
                    if !self.is_healthy {
                        r.publish = Some(BackendStatus::Healthy);
                        self.is_healthy = true;
                        self.health_reported = true;
                    }
                } else {
                    if self.health_failures < u32::MAX {
                        self.health_failures = self.health_failures + 1;
                    }
                    if self.health_failures == FAILURE_THRESHOLD {
                        r.publish = Some(BackendStatus::Unhealthy);
                        self.is_healthy = false;
                        self.health_reported = true;
                    }
                }
            },
            Event::Terminated { pid, description } => {
                r.stop = true;
                if self.process == Some(pid) {
                    r.kill = Some(pid);
                    self.process = None;
                    self.is_healthy = false;
                    if !self.shutting_down {
                        let mut error = String::from_str("Process exited with status: ");
                        error.append(description.as_str());
                        r.publish = Some(BackendStatus::Crashed { error });
                        r.restart_after_grace = true;
                        self.health_reported = false;
                    }
                }
            },
            Event::GraceElapsed => {
                if !self.shutting_down {
                    r.wake_coordinator = !self.restart_pending;
                    self.restart_pending = true;
                }
            },
            Event::ShutdownRequested => {
                r.kill = self.process;
                self.shutting_down = true;
                self.process = None;
                self.is_healthy = false;
                self.health_reported = false;
            },
        }
        r
    }
}

} // verus!
