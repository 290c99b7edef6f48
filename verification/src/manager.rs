//! The service supervisor: one state machine per service kind, driven by the
//! caller. The supervisor owns all lifecycle decisions; the caller performs
//! the operating-system work (spawn, kill, poll) and reports each outcome
//! back as a plain value.

use vstd::prelude::*;

use crate::errors::StartError;
use crate::locator::RuntimePaths;
use crate::service::{ServiceInfo, ServiceMap, ServiceState, ServiceType};
use crate::text::clone_opt_string;

verus! {

/// A token standing for a spawned operating-system process. The caller keeps
/// the real child handle and maps it to this token.
#[derive(Debug, Clone, Copy, PartialEq, Eq, Hash, Structural)]
pub struct ProcessHandle {
    pub id: u64,
}

/// One supervised process: its kind, lifecycle state, bound port, optional
/// process token, optional log file path and optional error text.
#[derive(Debug, Clone)]
pub struct ServiceProcess {
    pub name: ServiceType,
    pub child: Option<ProcessHandle>,
    pub state: ServiceState,
    pub port: u16,
    pub log_file: Option<String>,
    pub error_message: Option<String>,
}

/// What the caller's launch attempt came to: a live process after the grace
/// window, or a typed failure.
#[derive(Debug, Clone)]
pub enum LaunchOutcome {
    Started { handle: ProcessHandle, log_file: String },
    Failed(StartError),
}

/// What a non-blocking liveness poll of a live process reported.
#[derive(Debug, Clone)]
pub enum PollResult {
    /// The process has exited; the text describes its exit status.
    Exited(String),
    StillRunning,
    /// The poll itself failed.
    CheckFailed,
}

/// What `begin_start` asks of the caller.
#[derive(Debug, Clone, Copy, PartialEq, Eq, Structural)]
pub enum StartStep {
    /// The service is already running; nothing to do.
    AlreadyRunning,
    /// The runtime paths are not resolved yet; locate them, call
    /// `initialize`, then begin again.
    NeedPaths,
    /// The service is now `Starting`; launch it and report the outcome to
    /// `finish_start`.
    Proceed,
}

/// The exit text `update_health` records for a process found dead.
pub open spec fn spec_exit_message(status: Seq<char>) -> Seq<char> {
    "Process exited unexpectedly with status: "@ + status
}

/// The registry: exactly one entry per service kind, plus the runtime paths
/// once resolved.
pub struct ProcessManager {
    pub caddy: ServiceProcess,
    pub php_fpm: ServiceProcess,
    pub mariadb: ServiceProcess,
    pub runtime_paths: Option<RuntimePaths>,
}

impl ProcessManager {
    /// The registry entry for `k`.
    pub open spec fn svc(self, k: ServiceType) -> ServiceProcess {
        match k {
            ServiceType::Caddy => self.caddy,
            ServiceType::PhpFpm => self.php_fpm,
            ServiceType::MariaDB => self.mariadb,
        }
    }

    /// Registry well-formedness: every entry carries its own kind, and an
    /// entry holds a process token exactly while it is `Running`.
    pub open spec fn wf(self) -> bool {
        forall|k: ServiceType|
            (#[trigger] self.svc(k)).name == k && (self.svc(k).child is Some <==> self.svc(
                k,
            ).state is Running)
    }

    /// A freshly constructed supervisor: everything `Stopped` on its default
    /// port, no process tokens, no error text, no paths resolved.
    pub open spec fn spec_initial(self) -> bool {
        &&& self.runtime_paths is None
        &&& forall|k: ServiceType|
            {
                &&& (#[trigger] self.svc(k)).name == k
                &&& self.svc(k).state is Stopped
                &&& self.svc(k).port == k.spec_default_port()
                &&& self.svc(k).child is None
                &&& self.svc(k).log_file is None
                &&& self.svc(k).error_message is None
            }
    }

    pub fn new() -> (r: ProcessManager)
        ensures
            r.spec_initial(),
            r.wf(),
    {
        let r = ProcessManager {
            caddy: ServiceProcess {
                name: ServiceType::Caddy,
                child: None,
                state: ServiceState::Stopped,
                port: ServiceType::Caddy.default_port(),
                log_file: None,
                error_message: None,
            },
            php_fpm: ServiceProcess {
                name: ServiceType::PhpFpm,
                child: None,
                state: ServiceState::Stopped,
                port: ServiceType::PhpFpm.default_port(),
                log_file: None,
                error_message: None,
            },
            mariadb: ServiceProcess {
                name: ServiceType::MariaDB,
                child: None,
                state: ServiceState::Stopped,
                port: ServiceType::MariaDB.default_port(),
                log_file: None,
                error_message: None,
            },
            runtime_paths: None,
        };
        proof {
            assert forall|k: ServiceType| (#[trigger] r.svc(k)).name == k && r.svc(k).state
                is Stopped && r.svc(k).port == k.spec_default_port() && r.svc(k).child is None
                && r.svc(k).log_file is None && r.svc(k).error_message is None by {
                if k is Caddy {
                } else if k is PhpFpm {
                } else {
                }
            }
        }
        r
    }

    /// Stores the resolved runtime paths; the services are untouched.
    pub fn initialize(&mut self, paths: RuntimePaths)
        ensures
            final(self).runtime_paths == Some(paths),
            forall|k: ServiceType| #[trigger] final(self).svc(k) == old(self).svc(k),
    {
        self.runtime_paths = Some(paths);
        proof {
            assert forall|k: ServiceType| #[trigger]
                final(self).svc(k) == old(self).svc(k) by {
                if k is Caddy {
                } else if k is PhpFpm {
                } else {
                }
            }
        }
    }

    /// The current lifecycle state of `service`.
    pub fn status(&self, service: ServiceType) -> (r: ServiceState)
        ensures
            r == self.svc(service).state,
    {
        match service {
            ServiceType::Caddy => self.caddy.state,
            ServiceType::PhpFpm => self.php_fpm.state,
            ServiceType::MariaDB => self.mariadb.state,
        }
    }

    /// The process token of `service`, for the caller to poll or kill.
    pub fn live_handle(&self, service: ServiceType) -> (r: Option<ProcessHandle>)
        ensures
            r == self.svc(service).child,
    {
        match service {
            ServiceType::Caddy => self.caddy.child,
            ServiceType::PhpFpm => self.php_fpm.child,
            ServiceType::MariaDB => self.mariadb.child,
        }
    }

    /// Opens a start. A running service stays untouched; otherwise, once the
    /// runtime paths are resolved, the service enters `Starting` and the
    /// caller must launch it and report back through `finish_start`.
    pub fn begin_start(&mut self, service: ServiceType) -> (r: StartStep)
        requires
            old(self).wf(),
        ensures
            final(self).wf(),
            final(self).runtime_paths == old(self).runtime_paths,
            forall|j: ServiceType|
                j != service ==> #[trigger] final(self).svc(j) == old(self).svc(j),
            old(self).svc(service).state is Running ==> r == StartStep::AlreadyRunning && *final(self) == *old(self),
            !(old(self).svc(service).state is Running) && old(self).runtime_paths is None ==> r
                == StartStep::NeedPaths && *final(self) == *old(self),
            !(old(self).svc(service).state is Running) && old(self).runtime_paths is Some ==> {
                &&& r == StartStep::Proceed
                &&& final(self).svc(service).state is Starting
                &&& final(self).svc(service).child == old(self).svc(service).child
                &&& final(self).svc(service).port == old(self).svc(service).port
                &&& final(self).svc(service).name == old(self).svc(service).name
                &&& final(self).svc(service).log_file == old(self).svc(service).log_file
                &&& final(self).svc(service).error_message == old(self).svc(
                    service,
                ).error_message
            },
    {
        let running = self.status(service).is_running();
        if running {
            return StartStep::AlreadyRunning;
        }
        if self.runtime_paths.is_none() {
            return StartStep::NeedPaths;
        }
        match service {
            ServiceType::Caddy => {
                self.caddy.state = ServiceState::Starting;
            },
            ServiceType::PhpFpm => {
                self.php_fpm.state = ServiceState::Starting;
            },
            ServiceType::MariaDB => {
                self.mariadb.state = ServiceState::Starting;
            },
        }
        proof {
            assert forall|j: ServiceType|
                j != service implies #[trigger] final(self).svc(j) == old(self).svc(j) by {
                if j is Caddy {
                } else if j is PhpFpm {
                } else {
                }
            }
            assert forall|k: ServiceType| (#[trigger] final(self).svc(k)).name == k && (final(self).svc(k).child is Some <==> final(self).svc(k).state is Running) by {
                assert(old(self).svc(k).name == k);
                assert(old(self).svc(k).child is Some <==> old(self).svc(k).state is Running);
                if k is Caddy {
                } else if k is PhpFpm {
                } else {
                }
            }
        }
        StartStep::Proceed
    }

    /// Commits a launch outcome for a service in `Starting`: a live process
    /// makes it `Running` with the token and log path recorded and any stale
    /// error cleared; a failure makes it `Error` with the failure's text
    /// retained, and hands the failure back to the caller.
    pub fn finish_start(&mut self, service: ServiceType, outcome: LaunchOutcome) -> (r: Result<
        (),
        StartError,
    >)
        requires
            old(self).wf(),
        ensures
            final(self).wf(),
            final(self).runtime_paths == old(self).runtime_paths,
            forall|j: ServiceType|
                j != service ==> #[trigger] final(self).svc(j) == old(self).svc(j),
            final(self).svc(service).name == old(self).svc(service).name,
            final(self).svc(service).port == old(self).svc(service).port,
            match outcome {
                LaunchOutcome::Started { handle, log_file } => {
                    &&& r matches Ok(())
                    &&& final(self).svc(service).state is Running
                    &&& final(self).svc(service).child == Some(handle)
                    &&& final(self).svc(service).log_file == Some(log_file)
                    &&& final(self).svc(service).error_message is None
                },
                LaunchOutcome::Failed(e) => {
                    &&& r == Result::<(), StartError>::Err(e)
                    &&& final(self).svc(service).state is Error
                    &&& final(self).svc(service).child is None
                    &&& final(self).svc(service).error_message matches Some(m) && m@
                        == e.spec_message()
                    &&& final(self).svc(service).log_file == old(self).svc(service).log_file
                },
            },
    {
        let r = match outcome {
            LaunchOutcome::Started { handle, log_file } => {
                match service {
                    ServiceType::Caddy => {
                        self.caddy.state = ServiceState::Running;
                        self.caddy.child = Some(handle);
                        self.caddy.log_file = Some(log_file);
                        self.caddy.error_message = None;
                    },
                    ServiceType::PhpFpm => {
                        self.php_fpm.state = ServiceState::Running;
                        self.php_fpm.child = Some(handle);
                        self.php_fpm.log_file = Some(log_file);
                        self.php_fpm.error_message = None;
                    },
                    ServiceType::MariaDB => {
                        self.mariadb.state = ServiceState::Running;
                        self.mariadb.child = Some(handle);
                        self.mariadb.log_file = Some(log_file);
                        self.mariadb.error_message = None;
                    },
                }
                Ok(())
            },
            LaunchOutcome::Failed(e) => {
                let msg = e.message();
                match service {
                    ServiceType::Caddy => {
                        self.caddy.state = ServiceState::Error;
                        self.caddy.child = None;
                        self.caddy.error_message = Some(msg);
                    },
                    ServiceType::PhpFpm => {
                        self.php_fpm.state = ServiceState::Error;
                        self.php_fpm.child = None;
                        self.php_fpm.error_message = Some(msg);
                    },
                    ServiceType::MariaDB => {
                        self.mariadb.state = ServiceState::Error;
                        self.mariadb.child = None;
                        self.mariadb.error_message = Some(msg);
                    },
                }
                Err(e)
            },
        };
        proof {
            assert forall|j: ServiceType|
                j != service implies #[trigger] final(self).svc(j) == old(self).svc(j) by {
                if j is Caddy {
                } else if j is PhpFpm {
                } else {
                }
            }
            assert forall|k: ServiceType| (#[trigger] final(self).svc(k)).name == k && (final(self).svc(k).child is Some <==> final(self).svc(k).state is Running) by {
                assert(old(self).svc(k).name == k);
                assert(old(self).svc(k).child is Some <==> old(self).svc(k).state is Running);
                if k is Caddy {
                } else if k is PhpFpm {
                } else {
                }
            }
        }
        r
    }

    /// Starts a service given the launch outcome the caller obtained. A
    /// service already `Running` is left exactly as it is and the call
    /// succeeds; otherwise the outcome is committed as in `finish_start`.
    pub fn start(&mut self, service: ServiceType, outcome: LaunchOutcome) -> (r: Result<
        (),
        StartError,
    >)
        requires
            old(self).wf(),
        ensures
            final(self).wf(),
            final(self).runtime_paths == old(self).runtime_paths,
            forall|j: ServiceType|
                j != service ==> #[trigger] final(self).svc(j) == old(self).svc(j),
            old(self).svc(service).state is Running ==> {
                &&& r matches Ok(())
                &&& *final(self) == *old(self)
            },
            !(old(self).svc(service).state is Running) ==> match outcome {
                LaunchOutcome::Started { handle, log_file } => {
                    &&& r matches Ok(())
                    &&& final(self).svc(service).state is Running
                    &&& final(self).svc(service).child == Some(handle)
                    &&& final(self).svc(service).log_file == Some(log_file)
                    &&& final(self).svc(service).error_message is None
                    &&& final(self).svc(service).port == old(self).svc(service).port
                },
                LaunchOutcome::Failed(e) => {
                    &&& r == Result::<(), StartError>::Err(e)
                    &&& final(self).svc(service).state is Error
                    &&& final(self).svc(service).child is None
                    &&& final(self).svc(service).error_message matches Some(m) && m@
                        == e.spec_message()
                    &&& final(self).svc(service).port == old(self).svc(service).port
                },
            },
    {
        if self.status(service).is_running() {
            return Ok(());
        }
        self.finish_start(service, outcome)
    }

    /// Stops a service. A service that is not `Running` is left untouched and
    /// nothing is returned to kill; a running one becomes `Stopped`, its
    /// token is cleared and handed back for the caller to terminate and wait
    /// on.
    pub fn stop(&mut self, service: ServiceType) -> (r: Option<ProcessHandle>)
        requires
            old(self).wf(),
        ensures
            final(self).wf(),
            final(self).runtime_paths == old(self).runtime_paths,
            forall|j: ServiceType|
                j != service ==> #[trigger] final(self).svc(j) == old(self).svc(j),
            !(old(self).svc(service).state is Running) ==> *final(self) == *old(self) && r is None,
            old(self).svc(service).state is Running ==> {
                &&& r == old(self).svc(service).child
                &&& r is Some
                &&& final(self).svc(service).state is Stopped
                &&& final(self).svc(service).child is None
                &&& final(self).svc(service).port == old(self).svc(service).port
                &&& final(self).svc(service).name == old(self).svc(service).name
                &&& final(self).svc(service).log_file == old(self).svc(service).log_file
                &&& final(self).svc(service).error_message == old(self).svc(
                    service,
                ).error_message
            },
    {
        if !self.status(service).is_running() {
            return None;
        }
        let r = match service {
            ServiceType::Caddy => {
                let h = self.caddy.child;
                self.caddy.child = None;
                self.caddy.state = ServiceState::Stopped;
                h
            },
            ServiceType::PhpFpm => {
                let h = self.php_fpm.child;
                self.php_fpm.child = None;
                self.php_fpm.state = ServiceState::Stopped;
                h
            },
            ServiceType::MariaDB => {
                let h = self.mariadb.child;
                self.mariadb.child = None;
                self.mariadb.state = ServiceState::Stopped;
                h
            },
        };
        proof {
            assert forall|j: ServiceType|
                j != service implies #[trigger] final(self).svc(j) == old(self).svc(j) by {
                if j is Caddy {
                } else if j is PhpFpm {
                } else {
                }
            }
            assert forall|k: ServiceType| (#[trigger] final(self).svc(k)).name == k && (final(self).svc(k).child is Some <==> final(self).svc(k).state is Running) by {
                assert(old(self).svc(k).name == k);
                assert(old(self).svc(k).child is Some <==> old(self).svc(k).state is Running);
                if k is Caddy {
                } else if k is PhpFpm {
                } else {
                }
            }
        }
        r
    }

    /// Stops the service, then commits the caller's relaunch outcome. A
    /// restart whose relaunch failed leaves the service in `Error`, never in
    /// `Stopped`.
    pub fn restart(&mut self, service: ServiceType, outcome: LaunchOutcome) -> (r: (
        Option<ProcessHandle>,
        Result<(), StartError>,
    ))
        requires
            old(self).wf(),
        ensures
            final(self).wf(),
            final(self).runtime_paths == old(self).runtime_paths,
            forall|j: ServiceType|
                j != service ==> #[trigger] final(self).svc(j) == old(self).svc(j),
            r.0 == (if old(self).svc(service).state is Running {
                old(self).svc(service).child
            } else {
                Option::<ProcessHandle>::None
            }),
            match outcome {
                LaunchOutcome::Started { handle, log_file } => {
                    &&& r.1 matches Ok(())
                    &&& final(self).svc(service).state is Running
                    &&& final(self).svc(service).child == Some(handle)
                },
                LaunchOutcome::Failed(e) => {
                    &&& r.1 matches Err(e2) && e2 == e
                    &&& final(self).svc(service).state is Error
                    &&& !(final(self).svc(service).state is Stopped)
                    &&& final(self).svc(service).error_message matches Some(m) && m@
                        == e.spec_message()
                },
            },
    {
        let handle = self.stop(service);
        let res = self.finish_start(service, outcome);
        (handle, res)
    }

    /// Records a liveness poll for a service holding a process token. A dead
    /// process moves the service to `Error` with a non-empty message naming
    /// the exit status and clears the token; a live one re-confirms `Running`
    /// and clears any stale error; a failed probe moves it to `Error` with
    /// the token cleared. A service without a token is left untouched.
    pub fn update_health(&mut self, service: ServiceType, poll: PollResult)
        requires
            old(self).wf(),
        ensures
            final(self).wf(),
            final(self).runtime_paths == old(self).runtime_paths,
            forall|j: ServiceType|
                j != service ==> #[trigger] final(self).svc(j) == old(self).svc(j),
            old(self).svc(service).child is None ==> *final(self) == *old(self),
            old(self).svc(service).child is Some ==> {
                &&& final(self).svc(service).port == old(self).svc(service).port
                &&& final(self).svc(service).name == old(self).svc(service).name
                &&& final(self).svc(service).log_file == old(self).svc(service).log_file
                &&& match poll {
                    PollResult::Exited(status) => {
                        &&& final(self).svc(service).state is Error
                        &&& final(self).svc(service).child is None
                        &&& final(self).svc(service).error_message matches Some(m) && m@
                            == spec_exit_message(status@) && m@.len() > 0
                    },
                    PollResult::StillRunning => {
                        &&& final(self).svc(service).state is Running
                        &&& final(self).svc(service).child == old(self).svc(service).child
                        &&& final(self).svc(service).error_message is None
                    },
                    PollResult::CheckFailed => {
                        &&& final(self).svc(service).state is Error
                        &&& final(self).svc(service).child is None
                        &&& final(self).svc(service).error_message matches Some(m) && m@
                            == "Failed to check process status"@
                    },
                }
            },
    {
        if self.live_handle(service).is_none() {
            return ;
        }
        match poll {
            PollResult::Exited(status) => {
                let msg = crate::text::concat2(
                    "Process exited unexpectedly with status: ",
                    status.as_str(),
                );
                proof {
                    reveal_strlit("Process exited unexpectedly with status: ");
                }
                match service {
                    ServiceType::Caddy => {
                        self.caddy.state = ServiceState::Error;
                        self.caddy.error_message = Some(msg);
                        self.caddy.child = None;
                    },
                    ServiceType::PhpFpm => {
                        self.php_fpm.state = ServiceState::Error;
                        self.php_fpm.error_message = Some(msg);
                        self.php_fpm.child = None;
                    },
                    ServiceType::MariaDB => {
                        self.mariadb.state = ServiceState::Error;
                        self.mariadb.error_message = Some(msg);
                        self.mariadb.child = None;
                    },
                }
            },
            PollResult::StillRunning => {
                match service {
                    ServiceType::Caddy => {
                        self.caddy.state = ServiceState::Running;
                        self.caddy.error_message = None;
                    },
                    ServiceType::PhpFpm => {
                        self.php_fpm.state = ServiceState::Running;
                        self.php_fpm.error_message = None;
                    },
                    ServiceType::MariaDB => {
                        self.mariadb.state = ServiceState::Running;
                        self.mariadb.error_message = None;
                    },
                }
            },
            PollResult::CheckFailed => {
                let msg = String::from_str("Failed to check process status");
                match service {
                    ServiceType::Caddy => {
                        self.caddy.state = ServiceState::Error;
                        self.caddy.error_message = Some(msg);
                        self.caddy.child = None;
                    },
                    ServiceType::PhpFpm => {
                        self.php_fpm.state = ServiceState::Error;
                        self.php_fpm.error_message = Some(msg);
                        self.php_fpm.child = None;
                    },
                    ServiceType::MariaDB => {
                        self.mariadb.state = ServiceState::Error;
                        self.mariadb.error_message = Some(msg);
                        self.mariadb.child = None;
                    },
                }
            },
        }
        proof {
            assert forall|j: ServiceType|
                j != service implies #[trigger] final(self).svc(j) == old(self).svc(j) by {
                if j is Caddy {
                } else if j is PhpFpm {
                } else {
                }
            }
            assert forall|k: ServiceType| (#[trigger] final(self).svc(k)).name == k && (final(self).svc(k).child is Some <==> final(self).svc(k).state is Running) by {
                assert(old(self).svc(k).name == k);
                assert(old(self).svc(k).child is Some <==> old(self).svc(k).state is Running);
                if k is Caddy {
                } else if k is PhpFpm {
                } else {
                }
            }
        }
    }

    /// A read-only snapshot of all three services; the map always carries
    /// exactly one entry per kind.
    pub fn get_all_statuses(&self) -> (r: ServiceMap)
        requires
            self.wf(),
        ensures
            r.spec_len() == 3,
            forall|k: ServiceType| #[trigger] r.spec_get(k) matches Some(info)
                && info.service_type == k && info.state == self.svc(k).state && info.port
                == self.svc(k).port && (match (info.error_message, self.svc(k).error_message) {
                (Some(a), Some(b)) => a@ == b@,
                (None, None) => true,
                _ => false,
            }),
    {
        let r = ServiceMap {
            caddy: Some(
                ServiceInfo {
                    service_type: ServiceType::Caddy,
                    state: self.caddy.state,
                    port: self.caddy.port,
                    error_message: clone_opt_string(&self.caddy.error_message),
                },
            ),
            php_fpm: Some(
                ServiceInfo {
                    service_type: ServiceType::PhpFpm,
                    state: self.php_fpm.state,
                    port: self.php_fpm.port,
                    error_message: clone_opt_string(&self.php_fpm.error_message),
                },
            ),
            mariadb: Some(
                ServiceInfo {
                    service_type: ServiceType::MariaDB,
                    state: self.mariadb.state,
                    port: self.mariadb.port,
                    error_message: clone_opt_string(&self.mariadb.error_message),
                },
            ),
        };
        proof {
            assert forall|k: ServiceType| #[trigger] r.spec_get(k) matches Some(info)
                && info.service_type == k && info.state == self.svc(k).state && info.port
                == self.svc(k).port && (match (info.error_message, self.svc(k).error_message) {
                (Some(a), Some(b)) => a@ == b@,
                (None, None) => true,
                _ => false,
            }) by {
                if k is Caddy {
                } else if k is PhpFpm {
                } else {
                }
            }
        }
        r
    }

    /// The process tokens held before a `stop_all`, in registry order.
    pub open spec fn spec_live_handles(m: ProcessManager) -> Seq<ProcessHandle> {
        (match m.caddy.child {
            Some(h) => seq![h],
            None => Seq::empty(),
        }) + (match m.php_fpm.child {
            Some(h) => seq![h],
            None => Seq::empty(),
        }) + (match m.mariadb.child {
            Some(h) => seq![h],
            None => Seq::empty(),
        })
    }

    /// Best-effort stop of every running service: each becomes `Stopped` with
    /// its token cleared, the others stay untouched, and all the tokens that
    /// were live come back for the caller to terminate.
    pub fn stop_all(&mut self) -> (r: Vec<ProcessHandle>)
        requires
            old(self).wf(),
        ensures
            final(self).wf(),
            final(self).runtime_paths == old(self).runtime_paths,
            forall|k: ServiceType|
                old(self).svc(k).state is Running ==> (#[trigger] final(self).svc(k)).state
                    is Stopped && final(self).svc(k).child is None,
            forall|k: ServiceType|
                !(old(self).svc(k).state is Running) ==> #[trigger] final(self).svc(k) == old(self).svc(k),
            r@ == Self::spec_live_handles(*old(self)),
    {
        let mut v: Vec<ProcessHandle> = Vec::new();
        if let Some(h) = self.stop(ServiceType::Caddy) {
            v.push(h);
        }
        if let Some(h) = self.stop(ServiceType::PhpFpm) {
            v.push(h);
        }
        if let Some(h) = self.stop(ServiceType::MariaDB) {
            v.push(h);
        }
        proof {
            assert(v@ =~= Self::spec_live_handles(*old(self)));
        }
        v
    }
}

impl Default for ProcessManager {
    fn default() -> (r: Self)
        ensures
            r.spec_initial(),
            r.wf(),
    {
        Self::new()
    }
}

} // verus!
