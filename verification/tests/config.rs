use campp::errors::StartError;
use campp::generator::ConfigGenerator;
use campp::launcher::{
    config_write_error, immediate_exit_error, launch_plan, log_failure_error, log_open_truncates,
    log_should_retry, mariadb_init_plan, process_check_error, spawn_failure_error, BootstrapPlan,
    LOG_MAX_RETRIES, LOG_RETRY_DELAY_MS,
};
use campp::locator::{FsEntry, FsSnapshot, RuntimePaths};
use campp::ports::find_available_port;
use campp::service::ServiceType;
use campp::settings::{default_ports, AppSettings, Ports};

fn sample_generator() -> ConfigGenerator {
    ConfigGenerator::new(
        8080,
        9000,
        3307,
        "/path/to/phpmyadmin".to_string(),
        "/path/to/projects".to_string(),
        "/path/to/config".to_string(),
        "/path/to/logs".to_string(),
    )
}

fn sample_paths() -> RuntimePaths {
    RuntimePaths {
        caddy: "/rt/caddy".to_string(),
        php_cgi: "/rt/php/bin/php-cgi".to_string(),
        php_ini: "/data/config/php.ini".to_string(),
        mariadb: "/rt/mariadb-11.3.2/bin/mysqld".to_string(),
        phpmyadmin: "/rt/phpMyAdmin-5.2.1-all-languages".to_string(),
        mysql_data_dir: "/data/mysql/data".to_string(),
        logs_dir: "/data/logs".to_string(),
        config_dir: "/data/config".to_string(),
        projects_dir: "/data/projects".to_string(),
    }
}

#[test]
fn test_config_generator_new() {
    let gen = sample_generator();

    assert_eq!(gen.caddy_port, 8080);
    assert_eq!(gen.php_port, 9000);
    assert_eq!(gen.mysql_port, 3307);
}

#[test]
fn test_generate_caddyfile() {
    let gen = sample_generator();

    let content = gen.generate_caddyfile();

    assert!(content.contains(":8080"));
    assert!(content.contains("127.0.0.1:9000"));
    assert!(content.contains("/phpmyadmin"));
    assert!(content.contains("php_fastcgi"));
}

#[test]
fn test_generate_php_ini() {
    let gen = sample_generator();

    let content = gen.generate_php_ini();

    assert!(content.contains("E_ALL & ~E_DEPRECATED"));
    assert!(content.contains("extension=mysqli"));
    assert!(content.contains("memory_limit = 256M"));
}

#[test]
fn test_generate_phpmyadmin_config() {
    let gen = sample_generator();

    let content = gen.generate_phpmyadmin_config("test_secret_key_32_bytes_long!!");

    assert!(content.contains("test_secret_key_32_bytes_long!!"));
    assert!(content.contains("3307"));
    assert!(content.contains("$cfg['Servers'][$i]['host'] = '127.0.0.1'"));
}

#[test]
fn test_caddyfile_exact_shape() {
    let gen = sample_generator();
    let content = gen.generate_caddyfile();

    assert!(content.starts_with(":8080 {\n"));
    assert!(content.ends_with("}\n"));
    assert!(content.contains("root * \"/path/to/projects\""));
    assert!(content.contains("root * \"/path/to/phpmyadmin\""));
    assert!(content.contains("output file \"/path/to/logs/caddy-access.log\""));
    assert!(content.contains("handle_path /phpmyadmin/*"));
    assert!(content.contains("redir /phpmyadmin /phpmyadmin/"));
    assert!(content.contains("encode gzip"));
    assert!(content.contains("X-Content-Type-Options nosniff"));
    assert!(content.contains("X-Frame-Options SAMEORIGIN"));
    assert!(content.contains("Referrer-Policy no-referrer"));
    assert!(content.contains("format json"));
}

#[test]
fn test_caddyfile_normalises_backslashes() {
    let gen = ConfigGenerator::new(
        8080,
        9000,
        3307,
        "C:\\rt\\phpmyadmin".to_string(),
        "C:\\data\\projects".to_string(),
        "C:\\data\\config".to_string(),
        "C:\\data\\logs".to_string(),
    );
    let content = gen.generate_caddyfile();
    assert!(content.contains("root * \"C:/rt/phpmyadmin\""));
    assert!(content.contains("root * \"C:/data/projects\""));
    assert!(content.contains("output file \"C:/data/logs/caddy-access.log\""));
    assert!(!content.contains('\\'));
}

#[test]
fn test_php_ini_error_log_and_hardening() {
    let gen = sample_generator();
    let content = gen.generate_php_ini();
    assert!(content.contains("error_log = \"/path/to/logs/php-errors.log\""));
    assert!(content.contains("date.timezone = UTC"));
    assert!(content.contains("session.cookie_httponly = 1"));
    assert!(content.contains("session.use_strict_mode = 1"));
    assert!(content.contains("expose_php = Off"));
    assert!(content.contains("max_execution_time = 300"));
    assert!(content.contains("post_max_size = 100M"));
    assert!(content.contains("upload_max_filesize = 100M"));
}

#[test]
fn test_phpmyadmin_config_uses_database_port() {
    let gen = ConfigGenerator::new(
        8081,
        9001,
        3310,
        "/p".to_string(),
        "/r".to_string(),
        "/c".to_string(),
        "/l".to_string(),
    );
    let content = gen.generate_phpmyadmin_config("secret");
    assert!(content.contains("$cfg['Servers'][$i]['port'] = '3310';"));
    assert!(content.contains("$cfg['blowfish_secret'] = 'secret';"));
    assert!(content.contains("$cfg['Servers'][$i]['auth_type'] = 'config';"));
    assert!(content.contains("$cfg['Servers'][$i]['AllowNoPassword'] = true;"));
}

#[test]
fn test_default_ports() {
    let ports = default_ports();
    assert_eq!(ports.web, 8080);
    assert_eq!(ports.php, 9000);
    assert_eq!(ports.mysql, 3307);
}

#[test]
fn test_default_settings() {
    let settings = AppSettings::default();
    assert_eq!(settings.web_port, 8080);
    assert_eq!(settings.php_port, 9000);
    assert_eq!(settings.mysql_port, 3307);
    assert!(!settings.auto_start_services);
}

#[test]
fn test_validate_rejects_zero_port() {
    let mut settings = AppSettings::new("/data/projects".to_string());
    settings.web_port = 0;
    let result = settings.validate(true, None, None, None);
    assert_eq!(result, Err(vec!["Port numbers must be greater than 0".to_string()]));
}

#[test]
fn test_validate_collects_warnings_in_order() {
    let settings = AppSettings::new("/data/projects".to_string());
    let result = settings.validate(
        false,
        Some("address in use".to_string()),
        None,
        Some("denied".to_string()),
    );
    let warnings = result.unwrap();
    assert_eq!(
        warnings,
        vec![
            "Project root '/data/projects' does not exist. It will be created when services start."
                .to_string(),
            "Web port 8080 may be in use: address in use".to_string(),
            "MySQL port 3307 may be in use: denied".to_string(),
        ]
    );
}

#[test]
fn test_validate_clean_settings_has_no_warnings() {
    let settings = AppSettings::new("/data/projects".to_string());
    let result = settings.validate(true, None, None, None);
    assert_eq!(result, Ok(vec![]));
}

#[test]
fn test_find_available_port() {
    let port = find_available_port(8080, |_p| true);
    assert!(port >= 8080);
}

#[test]
fn test_find_available_port_returns_preferred_if_available() {
    let test_port = 59998;
    let found = find_available_port(test_port, |_p| true);
    assert_eq!(found, test_port);
}

#[test]
fn test_find_available_port_scans_upwards() {
    let found = find_available_port(8080, |p| p >= 8083);
    assert_eq!(found, 8083);
}

#[test]
fn test_find_available_port_falls_back_to_preferred() {
    let found = find_available_port(65000, |_p| false);
    assert_eq!(found, 65000);
    // The largest port has no room to scan upwards.
    assert_eq!(find_available_port(65535, |_p| false), 65535);
}

#[test]
fn test_caddy_launch_plan() {
    let paths = sample_paths();
    let ports = Ports { web: 8080, php: 9000, mysql: 3307 };
    let plan = launch_plan(ServiceType::Caddy, &paths, ports, "0123456789abcdef0123456789abcdef");

    assert_eq!(plan.kill_name, "caddy");
    assert_eq!(plan.binary, "/rt/caddy");
    assert_eq!(plan.args, vec!["run", "--config", "/data/config/Caddyfile"]);
    assert_eq!(plan.current_dir.as_deref(), Some("/data/config"));
    assert_eq!(plan.log_path, "/data/logs/caddy.log");
    assert_eq!(plan.grace_ms, 500);

    assert_eq!(plan.configs.len(), 2);
    assert_eq!(plan.configs[0].path, "/rt/phpMyAdmin-5.2.1-all-languages/config.inc.php");
    assert!(plan.configs[0].content.contains("0123456789abcdef0123456789abcdef"));
    assert!(plan.configs[0].content.contains("'3307'"));
    assert_eq!(plan.configs[1].path, "/data/config/Caddyfile");
    assert!(plan.configs[1].content.starts_with(":8080 {"));
}

#[test]
fn test_php_launch_plan() {
    let paths = sample_paths();
    let ports = Ports { web: 8080, php: 9000, mysql: 3307 };
    let plan = launch_plan(ServiceType::PhpFpm, &paths, ports, "");

    assert_eq!(plan.kill_name, "php-cgi");
    assert_eq!(plan.binary, "/rt/php/bin/php-cgi");
    assert_eq!(plan.args, vec!["-b", "127.0.0.1:9000", "-c", "/data/config/php.ini"]);
    assert_eq!(plan.current_dir.as_deref(), Some("/data/config"));
    assert_eq!(plan.log_path, "/data/logs/php-fpm.log");
    assert_eq!(plan.grace_ms, 500);
    assert_eq!(plan.configs.len(), 1);
    assert_eq!(plan.configs[0].path, "/data/config/php.ini");
    assert!(plan.configs[0].content.contains("[PHP]"));
}

#[test]
fn test_mariadb_launch_plan() {
    let paths = sample_paths();
    let ports = Ports { web: 8080, php: 9000, mysql: 3307 };
    let plan = launch_plan(ServiceType::MariaDB, &paths, ports, "");

    assert_eq!(plan.kill_name, "mysqld");
    assert_eq!(plan.binary, "/rt/mariadb-11.3.2/bin/mysqld");
    assert_eq!(
        plan.args,
        vec![
            "--no-defaults",
            "--datadir",
            "/data/mysql/data",
            "--port",
            "3307",
            "--bind-address=127.0.0.1",
            "--skip-grant-tables",
            "--console",
        ]
    );
    assert!(plan.current_dir.is_none());
    assert_eq!(plan.log_path, "/data/logs/mariadb.log");
    assert_eq!(plan.grace_ms, 3000);
    assert!(plan.configs.is_empty());
}

#[test]
fn test_mariadb_plan_normalises_data_dir() {
    let mut paths = sample_paths();
    paths.mysql_data_dir = "C:\\data\\mysql\\data".to_string();
    let ports = Ports { web: 8080, php: 9000, mysql: 3307 };
    let plan = launch_plan(ServiceType::MariaDB, &paths, ports, "");
    assert_eq!(plan.args[2], "C:/data/mysql/data");
}

#[test]
fn test_manager_launch_plan_uses_registry_ports() {
    let mut manager = campp::manager::ProcessManager::new();
    manager.initialize(sample_paths());
    let plan = manager.launch_plan(ServiceType::PhpFpm, "");
    assert_eq!(plan.args[1], "127.0.0.1:9000");
}

#[test]
fn test_log_retry_policy() {
    assert_eq!(LOG_MAX_RETRIES, 5);
    assert_eq!(LOG_RETRY_DELAY_MS, 100);
    assert!(log_open_truncates(0));
    assert!(!log_open_truncates(1));
    assert!(log_should_retry(0, Some(32)));
    assert!(log_should_retry(3, Some(32)));
    assert!(!log_should_retry(4, Some(32)));
    assert!(!log_should_retry(0, Some(13)));
    assert!(!log_should_retry(0, None));
}

#[test]
fn test_error_builders() {
    let e = log_failure_error("Caddy", 5, "locked");
    assert!(matches!(e, StartError::LogFileUnavailable(_)));
    assert_eq!(e.message(), "Failed to create Caddy log file after 5 attempts: locked");

    let e = spawn_failure_error("MariaDB", "no such file");
    assert!(matches!(e, StartError::SpawnFailure(_)));
    assert_eq!(e.message(), "Failed to start MariaDB: no such file");

    let e = immediate_exit_error("Caddy", "ExitStatus(2)");
    assert!(matches!(e, StartError::ImmediateExit(_)));
    assert_eq!(e.message(), "Caddy exited immediately with status: ExitStatus(2)");

    let e = process_check_error("PHP-CGI", "no child");
    assert!(matches!(e, StartError::ProcessCheckFailure(_)));
    assert_eq!(e.message(), "Failed to check PHP-CGI process: no child");

    let e = config_write_error("Caddyfile", "permission denied");
    assert!(matches!(e, StartError::ConfigWriteFailure(_)));
    assert_eq!(e.message(), "Failed to create Caddyfile: permission denied");

    let e = StartError::BinaryNotFound("gone".to_string());
    assert_eq!(e.message(), "gone");
}

#[test]
fn test_mariadb_init_plan_when_uninitialised() {
    let paths = sample_paths();
    let snap = FsSnapshot { entries: vec![] };
    let plan: BootstrapPlan = mariadb_init_plan(&paths, &snap).unwrap();
    assert_eq!(plan.binary, "/rt/mariadb-11.3.2/bin/mysqld");
    assert_eq!(
        plan.args,
        vec![
            "--bootstrap",
            "--datadir",
            "/data/mysql/data",
            "--lc-messages-dir",
            "/rt/mariadb-11.3.2/bin/share",
        ]
    );
    assert_eq!(plan.current_dir, "/data/config");
    assert_eq!(plan.timeout_secs, 60);
}

#[test]
fn test_mariadb_init_plan_skips_initialised_data_dir() {
    let paths = sample_paths();
    let entry = |p: &str, d: bool| FsEntry { path: p.to_string(), is_dir: d, executable: false };
    let snap = FsSnapshot {
        entries: vec![
            entry("/data/mysql/data/mysql", true),
            entry("/data/mysql/data/mysql/db.ibd", false),
        ],
    };
    assert!(mariadb_init_plan(&paths, &snap).is_none());
}
