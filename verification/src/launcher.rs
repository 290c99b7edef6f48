//! Per-service launch recipes, the log-file retry policy, the start failure
//! texts, and the database bootstrap invocation. The supervisor hands these
//! plans to the caller, which performs the process and file work.

use vstd::prelude::*;

use crate::errors::StartError;
use crate::generator::{spec_caddyfile, spec_php_ini, spec_phpmyadmin_config, ConfigGenerator};
use crate::locator::{FsSnapshot, RuntimePaths};
use crate::manager::ProcessManager;
use crate::service::ServiceType;
use crate::settings::Ports;
use crate::text::{
    before_last, concat2, path_join, slashify, spec_before_last, spec_dec, spec_join, spec_slash,
    u64_dec,
};

verus! {

/// A configuration file the caller materialises before the launch, only if
/// the file does not already exist (user edits are never overwritten).
pub struct ConfigWrite {
    pub path: String,
    pub content: String,
}

/// Everything the caller needs to launch one service: which stale processes
/// to clear away first, which configuration files to materialise, where the
/// log goes, the command line, the working directory, and how long to wait
/// before the liveness check.
pub struct LaunchPlan {
    /// Stale same-named processes are terminated, best effort, before the
    /// launch.
    pub kill_name: String,
    pub configs: Vec<ConfigWrite>,
    pub log_path: String,
    pub binary: String,
    pub args: Vec<String>,
    pub current_dir: Option<String>,
    /// The grace window after the spawn, before the one liveness check.
    pub grace_ms: u64,
}

/// The exact launch recipe for each service kind.
pub open spec fn spec_plan_ok(
    r: LaunchPlan,
    service: ServiceType,
    paths: RuntimePaths,
    ports: Ports,
    secret: Seq<char>,
) -> bool {
    match service {
        ServiceType::Caddy => {
            &&& r.kill_name@ == "caddy"@
            &&& r.configs@.len() == 2
            &&& r.configs@[0].path@ == spec_join(paths.phpmyadmin@, "config.inc.php"@)
            &&& r.configs@[0].content@ == spec_phpmyadmin_config(secret, ports.mysql)
            &&& r.configs@[1].path@ == spec_join(paths.config_dir@, "Caddyfile"@)
            &&& r.configs@[1].content@ == spec_caddyfile(
                ports.web,
                ports.php,
                spec_slash(paths.phpmyadmin@),
                spec_slash(paths.projects_dir@),
                spec_slash(paths.logs_dir@) + "/caddy-access.log"@,
            )
            &&& r.log_path@ == spec_join(paths.logs_dir@, "caddy.log"@)
            &&& r.binary@ == paths.caddy@
            &&& r.args@.map_values(|s: String| s@) == seq![
                "run"@,
                "--config"@,
                spec_join(paths.config_dir@, "Caddyfile"@),
            ]
            &&& r.current_dir matches Some(d) && d@ == paths.config_dir@
            &&& r.grace_ms == 500
        },
        ServiceType::PhpFpm => {
            &&& r.kill_name@ == "php-cgi"@
            &&& r.configs@.len() == 1
            &&& r.configs@[0].path@ == paths.php_ini@
            &&& r.configs@[0].content@ == spec_php_ini(
                spec_slash(paths.logs_dir@) + "/php-errors.log"@,
            )
            &&& r.log_path@ == spec_join(paths.logs_dir@, "php-fpm.log"@)
            &&& r.binary@ == paths.php_cgi@
            &&& r.args@.map_values(|s: String| s@) == seq![
                "-b"@,
                "127.0.0.1:"@ + spec_dec(ports.php as nat),
                "-c"@,
                paths.php_ini@,
            ]
            &&& r.current_dir matches Some(d) && d@ == paths.config_dir@
            &&& r.grace_ms == 500
        },
        ServiceType::MariaDB => {
            &&& r.kill_name@ == "mysqld"@
            &&& r.configs@.len() == 0
            &&& r.log_path@ == spec_join(paths.logs_dir@, "mariadb.log"@)
            &&& r.binary@ == paths.mariadb@
            &&& r.args@.map_values(|s: String| s@) == seq![
                "--no-defaults"@,
                "--datadir"@,
                spec_slash(paths.mysql_data_dir@),
                "--port"@,
                spec_dec(ports.mysql as nat),
                "--bind-address=127.0.0.1"@,
                "--skip-grant-tables"@,
                "--console"@,
            ]
            &&& r.current_dir is None
            &&& r.grace_ms == 3000
        },
    }
}

/// Builds the launch recipe for `service` from the resolved paths and the
/// assigned ports. `admin_secret` is the caller's freshly drawn secret for
/// the admin tool's configuration; only the web server's plan uses it.
pub fn launch_plan(
    service: ServiceType,
    paths: &RuntimePaths,
    ports: Ports,
    admin_secret: &str,
) -> (r: LaunchPlan)
    ensures
        spec_plan_ok(r, service, *paths, ports, admin_secret@),
{
    match service {
        ServiceType::Caddy => {
            let generator = ConfigGenerator::new(
                ports.web,
                ports.php,
                ports.mysql,
                paths.phpmyadmin.clone(),
                paths.projects_dir.clone(),
                paths.config_dir.clone(),
                paths.logs_dir.clone(),
            );
            let caddyfile_path = path_join(paths.config_dir.as_str(), "Caddyfile");
            let mut configs: Vec<ConfigWrite> = Vec::new();
            configs.push(
                ConfigWrite {
                    path: path_join(paths.phpmyadmin.as_str(), "config.inc.php"),
                    content: generator.generate_phpmyadmin_config(admin_secret),
                },
            );
            configs.push(
                ConfigWrite {
                    path: caddyfile_path.clone(),
                    content: generator.generate_caddyfile(),
                },
            );
            let mut args: Vec<String> = Vec::new();
            args.push(String::from_str("run"));
            args.push(String::from_str("--config"));
            args.push(caddyfile_path);
            proof {
                assert(args@.map_values(|s: String| s@) =~= seq![
                    "run"@,
                    "--config"@,
                    spec_join(paths.config_dir@, "Caddyfile"@),
                ]);
            }
            LaunchPlan {
                kill_name: String::from_str("caddy"),
                configs,
                log_path: path_join(paths.logs_dir.as_str(), "caddy.log"),
                binary: paths.caddy.clone(),
                args,
                current_dir: Some(paths.config_dir.clone()),
                grace_ms: 500,
            }
        },
        ServiceType::PhpFpm => {
            let generator = ConfigGenerator::new(
                ports.web,
                ports.php,
                ports.mysql,
                paths.phpmyadmin.clone(),
                paths.projects_dir.clone(),
                paths.config_dir.clone(),
                paths.logs_dir.clone(),
            );
            let mut configs: Vec<ConfigWrite> = Vec::new();
            configs.push(
                ConfigWrite { path: paths.php_ini.clone(), content: generator.generate_php_ini() },
            );
            let mut args: Vec<String> = Vec::new();
            args.push(String::from_str("-b"));
            args.push(concat2("127.0.0.1:", u64_dec(ports.php as u64).as_str()));
            args.push(String::from_str("-c"));
            args.push(paths.php_ini.clone());
            proof {
                assert(args@.map_values(|s: String| s@) =~= seq![
                    "-b"@,
                    "127.0.0.1:"@ + spec_dec(ports.php as nat),
                    "-c"@,
                    paths.php_ini@,
                ]);
            }
            LaunchPlan {
                kill_name: String::from_str("php-cgi"),
                configs,
                log_path: path_join(paths.logs_dir.as_str(), "php-fpm.log"),
                binary: paths.php_cgi.clone(),
                args,
                current_dir: Some(paths.config_dir.clone()),
                grace_ms: 500,
            }
        },
        ServiceType::MariaDB => {
            let mut args: Vec<String> = Vec::new();
            args.push(String::from_str("--no-defaults"));
            args.push(String::from_str("--datadir"));
            args.push(slashify(paths.mysql_data_dir.as_str()));
            args.push(String::from_str("--port"));
            args.push(u64_dec(ports.mysql as u64));
            args.push(String::from_str("--bind-address=127.0.0.1"));
            args.push(String::from_str("--skip-grant-tables"));
            args.push(String::from_str("--console"));
            proof {
                assert(args@.map_values(|s: String| s@) =~= seq![
                    "--no-defaults"@,
                    "--datadir"@,
                    spec_slash(paths.mysql_data_dir@),
                    "--port"@,
                    spec_dec(ports.mysql as nat),
                    "--bind-address=127.0.0.1"@,
                    "--skip-grant-tables"@,
                    "--console"@,
                ]);
            }
            LaunchPlan {
                kill_name: String::from_str("mysqld"),
                configs: Vec::new(),
                log_path: path_join(paths.logs_dir.as_str(), "mariadb.log"),
                binary: paths.mariadb.clone(),
                args,
                current_dir: None,
                grace_ms: 3000,
            }
        },
    }
}

impl ProcessManager {
    /// The launch recipe for `service`, from the stored runtime paths and
    /// the registry's current port assignments.
    pub fn launch_plan(&self, service: ServiceType, admin_secret: &str) -> (r: LaunchPlan)
        requires
            self.runtime_paths is Some,
        ensures
            self.runtime_paths matches Some(p) ==> spec_plan_ok(
                r,
                service,
                p,
                Ports {
                    web: self.svc(ServiceType::Caddy).port,
                    php: self.svc(ServiceType::PhpFpm).port,
                    mysql: self.svc(ServiceType::MariaDB).port,
                },
                admin_secret@,
            ),
    {
        let ports = Ports { web: self.caddy.port, php: self.php_fpm.port, mysql: self.mariadb.port };
        match &self.runtime_paths {
            Some(paths) => launch_plan(service, paths, ports, admin_secret),
            None => vstd::pervasive::unreached(),
        }
    }
}

/// How many times a service's log file open is attempted.
pub const LOG_MAX_RETRIES: u64 = 5;

/// How long the caller waits between log file open attempts, in
/// milliseconds.
pub const LOG_RETRY_DELAY_MS: u64 = 100;

/// Whether this log-open attempt truncates the file. The first attempt opens
/// fresh output; later attempts fall back to append-create, so a lock
/// released mid-retry does not lose the file.
pub fn log_open_truncates(attempt: u64) -> (r: bool)
    ensures
        r == (attempt == 0),
{
    attempt == 0
}

/// Whether a failed log open is attempted again: only a sharing-violation
/// class error (raw error 32) and only while attempts remain.
pub fn log_should_retry(attempt: u64, raw_os_error: Option<i32>) -> (r: bool)
    ensures
        r == (raw_os_error == Some(32i32) && attempt < LOG_MAX_RETRIES - 1),
{
    match raw_os_error {
        Some(code) => code == 32 && attempt < LOG_MAX_RETRIES - 1,
        None => false,
    }
}

/// The text reported when the log file could not be opened.
pub open spec fn spec_log_failure_msg(service: Seq<char>, attempts: nat, err: Seq<char>) -> Seq<
    char,
> {
    "Failed to create "@ + service + " log file after "@ + spec_dec(attempts) + " attempts: "@
        + err
}

/// The failure for exhausted log-open retries, naming the service, the
/// attempt count and the final error.
pub fn log_failure_error(service_name: &str, attempts: u64, err: &str) -> (r: StartError)
    ensures
        r matches StartError::LogFileUnavailable(m) && m@ == spec_log_failure_msg(
            service_name@,
            attempts as nat,
            err@,
        ),
{
    let mut m = String::from_str("Failed to create ");
    m.append(service_name);
    m.append(" log file after ");
    m.append(u64_dec(attempts).as_str());
    m.append(" attempts: ");
    m.append(err);
    StartError::LogFileUnavailable(m)
}

/// The failure when the operating system refused to spawn the service.
pub fn spawn_failure_error(display_name: &str, err: &str) -> (r: StartError)
    ensures
        r matches StartError::SpawnFailure(m) && m@ == "Failed to start "@ + display_name@ + ": "@
            + err@,
{
    let mut m = String::from_str("Failed to start ");
    m.append(display_name);
    m.append(": ");
    m.append(err);
    StartError::SpawnFailure(m)
}

/// The failure when the service exited within its grace window; `status`
/// carries the exit status text.
pub fn immediate_exit_error(display_name: &str, status: &str) -> (r: StartError)
    ensures
        r matches StartError::ImmediateExit(m) && m@ == display_name@
            + " exited immediately with status: "@ + status@,
{
    let mut m = String::from_str(display_name);
    m.append(" exited immediately with status: ");
    m.append(status);
    StartError::ImmediateExit(m)
}

/// The failure when the liveness probe after the grace window itself failed.
pub fn process_check_error(display_name: &str, err: &str) -> (r: StartError)
    ensures
        r matches StartError::ProcessCheckFailure(m) && m@ == "Failed to check "@ + display_name@
            + " process: "@ + err@,
{
    let mut m = String::from_str("Failed to check ");
    m.append(display_name);
    m.append(" process: ");
    m.append(err);
    StartError::ProcessCheckFailure(m)
}

/// The failure when a generated configuration file could not be written.
pub fn config_write_error(what: &str, err: &str) -> (r: StartError)
    ensures
        r matches StartError::ConfigWriteFailure(m) && m@ == "Failed to create "@ + what@ + ": "@
            + err@,
{
    let mut m = String::from_str("Failed to create ");
    m.append(what);
    m.append(": ");
    m.append(err);
    StartError::ConfigWriteFailure(m)
}

/// The one-off invocation that initialises the database's data directory.
pub struct BootstrapPlan {
    pub binary: String,
    pub args: Vec<String>,
    pub current_dir: String,
    /// The caller abandons the wait after this bound and proceeds anyway.
    pub timeout_secs: u64,
}

/// Whether the data directory already holds the database's system tables.
pub open spec fn spec_mariadb_initialized(data_dir: Seq<char>, snap: FsSnapshot) -> bool {
    let mysql_dir = spec_join(data_dir, "mysql"@);
    snap.spec_has(mysql_dir) && (snap.spec_has(spec_join(mysql_dir, "user.MRJ"@)) || snap.spec_has(
        spec_join(mysql_dir, "db.MYI"@),
    ) || snap.spec_has(spec_join(mysql_dir, "db.ibd"@)))
}

/// The bootstrap invocation for the database's data directory, or `None`
/// when the system tables are already in place. The caller treats any exit,
/// zero or not, as initialised, and gives up waiting after the timeout.
pub fn mariadb_init_plan(paths: &RuntimePaths, snap: &FsSnapshot) -> (r: Option<BootstrapPlan>)
    ensures
        spec_mariadb_initialized(paths.mysql_data_dir@, *snap) ==> r is None,
        !spec_mariadb_initialized(paths.mysql_data_dir@, *snap) ==> (r matches Some(p) && {
            &&& p.binary@ == paths.mariadb@
            &&& p.args@.map_values(|s: String| s@) == seq![
                "--bootstrap"@,
                "--datadir"@,
                spec_slash(paths.mysql_data_dir@),
                "--lc-messages-dir"@,
                spec_join(spec_before_last(paths.mariadb@, '/'), "share"@),
            ]
            &&& p.current_dir@ == paths.config_dir@
            &&& p.timeout_secs == 60
        }),
{
    let mysql_dir = path_join(paths.mysql_data_dir.as_str(), "mysql");
    if snap.exists_path(mysql_dir.as_str()) {
        let user_table = path_join(mysql_dir.as_str(), "user.MRJ");
        let db_myisam = path_join(mysql_dir.as_str(), "db.MYI");
        let db_innodb = path_join(mysql_dir.as_str(), "db.ibd");
        if snap.exists_path(user_table.as_str()) || snap.exists_path(db_myisam.as_str())
            || snap.exists_path(db_innodb.as_str()) {
            return None;
        }
    }
    let mut args: Vec<String> = Vec::new();
    args.push(String::from_str("--bootstrap"));
    args.push(String::from_str("--datadir"));
    args.push(slashify(paths.mysql_data_dir.as_str()));
    args.push(String::from_str("--lc-messages-dir"));
    args.push(path_join(before_last(paths.mariadb.as_str(), '/').as_str(), "share"));
    proof {
        assert(args@.map_values(|s: String| s@) =~= seq![
            "--bootstrap"@,
            "--datadir"@,
            spec_slash(paths.mysql_data_dir@),
            "--lc-messages-dir"@,
            spec_join(spec_before_last(paths.mariadb@, '/'), "share"@),
        ]);
    }
    Some(
        BootstrapPlan {
            binary: paths.mariadb.clone(),
            args,
            current_dir: paths.config_dir.clone(),
            timeout_secs: 60,
        },
    )
}

} // verus!
