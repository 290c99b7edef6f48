use campp::downloader::{
    calculate_checksum, get_binary_url, get_extension_from_url, is_executable, is_installed,
    marker_file_name, validate_download, BinaryComponent, Platform,
};
use campp::errors::StartError;
use campp::locator::{
    app_data_paths_from, detect_caddy_binary, detect_mariadb_binary, detect_php_binary,
    detect_php_ini, detect_phpmyadmin_directory, is_valid_binary, locate_runtime_binaries,
    verify_runtime_binaries, AppDataPaths, DirChild, FsEntry, FsSnapshot, OsFamily, RuntimePaths,
};
use campp::manager::{LaunchOutcome, ProcessManager};
use campp::service::{ServiceState, ServiceType};
use campp::mariadb::{create_database, drop_database, get_connection_info, initialize_mariadb, list_databases};
use campp::text::{path_join, slashify, str_contains, str_ends_with, str_istarts_with, u64_dec};

fn file(p: &str) -> FsEntry {
    FsEntry { path: p.to_string(), is_dir: false, executable: true }
}

fn plain_file(p: &str) -> FsEntry {
    FsEntry { path: p.to_string(), is_dir: false, executable: false }
}

fn dir(p: &str) -> FsEntry {
    FsEntry { path: p.to_string(), is_dir: true, executable: false }
}

fn child(name: &str, is_dir: bool) -> DirChild {
    DirChild { name: name.to_string(), is_dir }
}

fn full_snapshot() -> (AppDataPaths, Vec<DirChild>, FsSnapshot) {
    let app = app_data_paths_from("/home/u/.local/share");
    let rt = app.runtime_dir.clone();
    let snap = FsSnapshot {
        entries: vec![
            dir(&rt),
            file(&format!("{rt}/caddy")),
            file(&format!("{rt}/php/bin/php-cgi")),
            file(&format!("{rt}/mariadb-11.3.2/bin/mysqld")),
            dir(&format!("{rt}/phpMyAdmin-5.2.1-all-languages")),
        ],
    };
    let children = vec![
        child("caddy", false),
        child("php", true),
        child("mariadb-11.3.2", true),
        child("phpMyAdmin-5.2.1-all-languages", true),
    ];
    (app, children, snap)
}

#[test]
fn test_app_data_paths_layout() {
    let app = app_data_paths_from("/home/u/.local/share");
    assert_eq!(app.base_dir, "/home/u/.local/share/campp");
    assert_eq!(app.runtime_dir, "/home/u/.local/share/campp/runtime");
    assert_eq!(app.config_dir, "/home/u/.local/share/campp/config");
    assert_eq!(app.mysql_data_dir, "/home/u/.local/share/campp/mysql/data");
    assert_eq!(app.logs_dir, "/home/u/.local/share/campp/logs");
    assert_eq!(app.projects_dir, "/home/u/.local/share/campp/projects");
}

#[test]
fn test_locate_runtime_binaries_resolves_everything() {
    let (app, children, snap) = full_snapshot();
    let paths = locate_runtime_binaries(&app, &children, &snap, OsFamily::Linux).unwrap();
    let rt = &app.runtime_dir;
    assert_eq!(paths.caddy, format!("{rt}/caddy"));
    assert_eq!(paths.php_cgi, format!("{rt}/php/bin/php-cgi"));
    assert_eq!(paths.mariadb, format!("{rt}/mariadb-11.3.2/bin/mysqld"));
    assert_eq!(paths.phpmyadmin, format!("{rt}/phpMyAdmin-5.2.1-all-languages"));
    assert_eq!(paths.php_ini, format!("{}/php.ini", app.config_dir));
    assert_eq!(paths.mysql_data_dir, app.mysql_data_dir);
    assert_eq!(paths.logs_dir, app.logs_dir);
    assert_eq!(paths.config_dir, app.config_dir);
    assert_eq!(paths.projects_dir, app.projects_dir);
}

#[test]
fn test_locate_fails_without_runtime_directory() {
    let app = app_data_paths_from("/home/u/.local/share");
    let snap = FsSnapshot { entries: vec![] };
    let err = locate_runtime_binaries(&app, &vec![], &snap, OsFamily::Linux).unwrap_err();
    match err {
        StartError::BinaryNotFound(m) => {
            assert_eq!(
                m,
                "Runtime directory not found. Please download runtime binaries first. Expected: /home/u/.local/share/campp/runtime"
            );
        }
        other => panic!("unexpected error: {:?}", other),
    }
}

#[test]
fn test_missing_database_binary_names_the_root() {
    // An installation root with everything except the database binary.
    let (app, mut children, mut snap) = full_snapshot();
    let rt = app.runtime_dir.clone();
    snap.entries.retain(|e| !e.path.contains("mysqld"));
    children.retain(|c| !c.name.starts_with("mariadb"));

    let err = locate_runtime_binaries(&app, &children, &snap, OsFamily::Linux).unwrap_err();
    match err {
        StartError::BinaryNotFound(m) => {
            assert_eq!(
                m,
                format!("MariaDB binary not found in {rt}. Please ensure runtime binaries are downloaded.")
            );
            assert!(m.contains(&rt));
        }
        other => panic!("unexpected error: {:?}", other),
    }
}

#[test]
fn test_database_start_failure_scenario() {
    // The locator's failure surfaces from the database start and leaves the
    // other two services untouched.
    let (app, mut children, mut snap) = full_snapshot();
    snap.entries.retain(|e| !e.path.contains("mysqld"));
    children.retain(|c| !c.name.starts_with("mariadb"));

    let err = locate_runtime_binaries(&app, &children, &snap, OsFamily::Linux).unwrap_err();
    assert!(matches!(err, StartError::BinaryNotFound(_)));

    let mut manager = ProcessManager::new();
    let result = manager.start(ServiceType::MariaDB, LaunchOutcome::Failed(err));
    assert!(result.is_err());
    assert_eq!(manager.status(ServiceType::MariaDB), ServiceState::Error);
    assert!(manager
        .mariadb
        .error_message
        .as_deref()
        .unwrap()
        .contains("MariaDB binary not found in"));
    assert_eq!(manager.status(ServiceType::Caddy), ServiceState::Stopped);
    assert_eq!(manager.status(ServiceType::PhpFpm), ServiceState::Stopped);
}

#[test]
fn test_detect_caddy_prefers_direct_file() {
    let snap = FsSnapshot {
        entries: vec![file("/rt/caddy"), file("/rt/caddy/caddy")],
    };
    assert_eq!(detect_caddy_binary("/rt", &snap, OsFamily::Linux).unwrap(), "/rt/caddy");

    let nested_only = FsSnapshot { entries: vec![file("/rt/caddy/caddy")] };
    assert_eq!(
        detect_caddy_binary("/rt", &nested_only, OsFamily::Linux).unwrap(),
        "/rt/caddy/caddy"
    );
}

#[test]
fn test_detect_caddy_windows_candidates() {
    let snap = FsSnapshot { entries: vec![file("/rt/caddy/caddy.exe")] };
    assert_eq!(
        detect_caddy_binary("/rt", &snap, OsFamily::Windows).unwrap(),
        "/rt/caddy/caddy.exe"
    );
    let err = detect_caddy_binary("/rt", &FsSnapshot { entries: vec![] }, OsFamily::Windows)
        .unwrap_err();
    assert_eq!(
        err.message(),
        "Caddy binary not found in /rt. Please ensure runtime binaries are downloaded."
    );
}

#[test]
fn test_detect_php_candidate_order() {
    let snap = FsSnapshot {
        entries: vec![file("/rt/php/bin/php"), file("/rt/php-cgi")],
    };
    // The CGI binary in the runtime root wins over the CLI binary in php/bin.
    assert_eq!(detect_php_binary("/rt", &snap, OsFamily::Linux).unwrap(), "/rt/php-cgi");

    let cgi = FsSnapshot { entries: vec![file("/rt/php/bin/php-cgi"), file("/rt/php-cgi")] };
    assert_eq!(detect_php_binary("/rt", &cgi, OsFamily::Linux).unwrap(), "/rt/php/bin/php-cgi");

    let err = detect_php_binary("/rt", &FsSnapshot { entries: vec![] }, OsFamily::MacOs)
        .unwrap_err();
    assert_eq!(
        err.message(),
        "PHP binary not found in /rt. Please ensure runtime binaries are downloaded."
    );
}

#[test]
fn test_detect_php_on_macos_candidates() {
    let snap = FsSnapshot {
        entries: vec![file("/rt/usr/local/bin/php"), file("/rt/php")],
    };
    assert_eq!(
        detect_php_binary("/rt", &snap, OsFamily::MacOs).unwrap(),
        "/rt/usr/local/bin/php"
    );
}

#[test]
fn test_detect_php_ini_lives_in_config_dir() {
    assert_eq!(detect_php_ini("/data/config").unwrap(), "/data/config/php.ini");
}

#[test]
fn test_detect_mariadb_versioned_directory_scan() {
    let snap = FsSnapshot {
        entries: vec![
            file("/rt/mariadb-11.3.2/bin/mysqld"),
            file("/rt/mysqld"),
        ],
    };
    let children = vec![child("phpMyAdmin", true), child("mariadb-11.3.2", true)];
    // The versioned directory wins over the bare fallback.
    assert_eq!(
        detect_mariadb_binary("/rt", &children, &snap, OsFamily::Linux).unwrap(),
        "/rt/mariadb-11.3.2/bin/mysqld"
    );
}

#[test]
fn test_detect_mariadb_scan_order_and_fallbacks() {
    let snap = FsSnapshot {
        entries: vec![
            file("/rt/mariadb-a/bin/mysqld"),
            file("/rt/mariadb-b/bin/mysqld"),
        ],
    };
    let children = vec![child("mariadb-b", true), child("mariadb-a", true)];
    // Directory order decides between two versioned candidates.
    assert_eq!(
        detect_mariadb_binary("/rt", &children, &snap, OsFamily::Linux).unwrap(),
        "/rt/mariadb-b/bin/mysqld"
    );

    // A non-directory child named like the database is skipped.
    let stray = vec![child("mariadb-notes.txt", false)];
    let fallback = FsSnapshot { entries: vec![file("/rt/mysql/bin/mysqld")] };
    assert_eq!(
        detect_mariadb_binary("/rt", &stray, &fallback, OsFamily::Linux).unwrap(),
        "/rt/mysql/bin/mysqld"
    );

    let err =
        detect_mariadb_binary("/rt", &vec![], &FsSnapshot { entries: vec![] }, OsFamily::Linux)
            .unwrap_err();
    assert_eq!(
        err.message(),
        "MariaDB binary not found in /rt. Please ensure runtime binaries are downloaded."
    );
}

#[test]
fn test_detect_phpmyadmin_tolerates_version_suffix() {
    // The plain directory wins when it exists.
    let plain = FsSnapshot { entries: vec![dir("/rt/phpmyadmin")] };
    assert_eq!(
        detect_phpmyadmin_directory("/rt", &vec![], &plain).unwrap(),
        "/rt/phpmyadmin"
    );

    // Otherwise the scan matches a versioned name, without regard to case.
    let children = vec![child("phpMyAdmin-5.2.2-all-languages", true)];
    let snap = FsSnapshot { entries: vec![] };
    assert_eq!(
        detect_phpmyadmin_directory("/rt", &children, &snap).unwrap(),
        "/rt/phpMyAdmin-5.2.2-all-languages"
    );

    let err = detect_phpmyadmin_directory("/rt", &vec![], &snap).unwrap_err();
    assert_eq!(
        err.message(),
        "phpMyAdmin directory not found in /rt. Please ensure runtime binaries are downloaded."
    );
}

#[test]
fn test_is_valid_binary_with_nonexistent_file() {
    let snap = FsSnapshot { entries: vec![] };
    assert!(!is_valid_binary(&snap, "/rt/nonexistent.exe", OsFamily::Linux));
    assert!(!is_valid_binary(&snap, "/rt/nonexistent.exe", OsFamily::Windows));
}

#[test]
fn test_is_valid_binary_with_existing_file() {
    let snap = FsSnapshot {
        entries: vec![file("/rt/good"), plain_file("/rt/not_executable")],
    };
    assert!(is_valid_binary(&snap, "/rt/good", OsFamily::Linux));
    // Unix demands the execute permission; Windows only existence.
    assert!(!is_valid_binary(&snap, "/rt/not_executable", OsFamily::Linux));
    assert!(is_valid_binary(&snap, "/rt/not_executable", OsFamily::Windows));
}

#[test]
fn test_verify_runtime_binaries_checks_each_binary() {
    let (app, children, snap) = full_snapshot();
    let paths = locate_runtime_binaries(&app, &children, &snap, OsFamily::Linux).unwrap();
    assert!(verify_runtime_binaries(&paths, &snap, OsFamily::Linux).is_ok());

    let mut no_exec = snap.clone();
    for e in no_exec.entries.iter_mut() {
        if e.path.ends_with("php-cgi") {
            e.executable = false;
        }
    }
    let err = verify_runtime_binaries(&paths, &no_exec, OsFamily::Linux).unwrap_err();
    assert_eq!(
        err.message(),
        format!("PHP binary not found or not executable: {}", paths.php_cgi)
    );
}

#[test]
fn test_runtime_paths_structure() {
    let paths = RuntimePaths {
        caddy: path_join("/tmp/rt", "caddy.exe"),
        php_cgi: path_join("/tmp/rt/php", "php.exe"),
        php_ini: path_join("/tmp/rt/config", "php.ini"),
        mariadb: path_join("/tmp/rt/mariadb/bin", "mysqld.exe"),
        phpmyadmin: path_join("/tmp/rt", "phpmyadmin"),
        mysql_data_dir: path_join("/tmp/rt/mysql", "data"),
        logs_dir: path_join("/tmp/rt", "logs"),
        config_dir: path_join("/tmp/rt", "config"),
        projects_dir: path_join("/tmp/rt", "projects"),
    };

    assert!(paths.caddy.ends_with("caddy.exe"));
    assert!(paths.php_cgi.ends_with("php.exe"));
    assert!(paths.php_ini.ends_with("php.ini"));
    assert!(paths.mariadb.ends_with("mysqld.exe"));
    assert!(paths.phpmyadmin.ends_with("phpmyadmin"));
}

#[test]
fn test_runtime_paths_clone() {
    let paths1 = RuntimePaths {
        caddy: "/tmp/rt/caddy.exe".to_string(),
        php_cgi: "/tmp/rt/php/php.exe".to_string(),
        php_ini: "/tmp/rt/config/php.ini".to_string(),
        mariadb: "/tmp/rt/mariadb/bin/mysqld.exe".to_string(),
        phpmyadmin: "/tmp/rt/phpmyadmin".to_string(),
        mysql_data_dir: "/tmp/rt/mysql/data".to_string(),
        logs_dir: "/tmp/rt/logs".to_string(),
        config_dir: "/tmp/rt/config".to_string(),
        projects_dir: "/tmp/rt/projects".to_string(),
    };

    let paths2 = paths1.clone();

    assert_eq!(paths1.caddy, paths2.caddy);
    assert_eq!(paths1.php_cgi, paths2.php_cgi);
    assert_eq!(paths1.mariadb, paths2.mariadb);
}

#[test]
fn test_app_data_paths_clone() {
    let paths1 = app_data_paths_from("/tmp/base");
    let paths2 = paths1.clone();

    assert_eq!(paths1.base_dir, paths2.base_dir);
    assert_eq!(paths1.runtime_dir, paths2.runtime_dir);
    assert_eq!(paths1.config_dir, paths2.config_dir);
}

#[test]
fn test_text_helpers() {
    assert_eq!(u64_dec(0), "0");
    assert_eq!(u64_dec(7), "7");
    assert_eq!(u64_dec(8080), "8080");
    assert_eq!(u64_dec(65535), "65535");
    assert_eq!(u64_dec(1000000), "1000000");

    assert_eq!(slashify("C:\\x\\y"), "C:/x/y");
    assert_eq!(slashify("/a/b"), "/a/b");
    assert_eq!(slashify(""), "");

    assert_eq!(path_join("/a", "b"), "/a/b");

    assert!(str_ends_with("runtime/caddy", "caddy"));
    assert!(!str_ends_with("caddyfile", "caddy"));
    assert!(str_istarts_with("PhpMyAdmin-5", "phpmyadmin"));
    assert!(!str_istarts_with("php", "phpmyadmin"));
    assert!(str_contains("mariadb/bin/mysqld", "bin/"));
    assert!(!str_contains("mariadb", "bin/"));
}

#[test]
fn test_platform_current_mapping() {
    assert_eq!(Platform::current("windows", "x86_64"), Platform::WindowsX64);
    assert_eq!(Platform::current("windows", "aarch64"), Platform::WindowsArm64);
    assert_eq!(Platform::current("macos", "x86_64"), Platform::MacOSX64);
    assert_eq!(Platform::current("macos", "aarch64"), Platform::MacOSArm64);
    assert_eq!(Platform::current("linux", "x86_64"), Platform::LinuxX64);
    assert_eq!(Platform::current("linux", "aarch64"), Platform::LinuxArm64);
    // Unknown platforms fall back to x86-64 Linux.
    assert_eq!(Platform::current("freebsd", "x86_64"), Platform::LinuxX64);
}

#[test]
fn test_platform_identifiers_and_archives() {
    assert_eq!(Platform::WindowsX64.identifier(), "windows-x64");
    assert_eq!(Platform::MacOSArm64.identifier(), "darwin-arm64");
    assert_eq!(Platform::LinuxX64.identifier(), "linux-x64");
    assert_eq!(Platform::WindowsX64.archive_extension(), "zip");
    assert_eq!(Platform::WindowsArm64.archive_extension(), "zip");
    assert_eq!(Platform::MacOSX64.archive_extension(), "tar.gz");
    assert_eq!(Platform::LinuxArm64.archive_extension(), "tar.gz");
}

#[test]
fn test_binary_component_metadata() {
    assert_eq!(BinaryComponent::Caddy.name(), "Caddy");
    assert_eq!(BinaryComponent::Php.name(), "PHP");
    assert_eq!(BinaryComponent::MariaDB.name(), "MariaDB");
    assert_eq!(BinaryComponent::PhpMyAdmin.name(), "phpMyAdmin");

    assert_eq!(BinaryComponent::Caddy.version(), "v2.8.4");
    assert_eq!(BinaryComponent::Php.version(), "v8.3.0");
    assert_eq!(BinaryComponent::MariaDB.version(), "v11.3.2");
    assert_eq!(BinaryComponent::PhpMyAdmin.version(), "v5.2.1");

    assert_eq!(BinaryComponent::Caddy.display_name(), "Caddy v2.8.4");
    assert_eq!(BinaryComponent::MariaDB.binary_name(), "mariadb");
}

#[test]
fn test_get_binary_url_per_platform() {
    assert_eq!(
        get_binary_url(BinaryComponent::Caddy, Platform::LinuxX64),
        "https://github.com/caddyserver/caddy/releases/download/v2.8.4/caddy_2.8.4_linux_amd64.tar.gz"
    );
    assert_eq!(
        get_binary_url(BinaryComponent::Caddy, Platform::WindowsArm64),
        "https://github.com/caddyserver/caddy/releases/download/v2.8.4/caddy_2.8.4_windows_amd64.zip"
    );
    assert_eq!(
        get_binary_url(BinaryComponent::PhpMyAdmin, Platform::MacOSX64),
        "https://files.phpmyadmin.net/phpMyAdmin/5.2.1/phpMyAdmin-5.2.1-all-languages.zip"
    );
    assert!(get_binary_url(BinaryComponent::MariaDB, Platform::WindowsX64).ends_with(".zip"));
    assert!(get_binary_url(BinaryComponent::Php, Platform::LinuxX64).ends_with(".tar.gz"));
}

#[test]
fn test_get_extension_from_url() {
    assert_eq!(get_extension_from_url("https://x.test/a/b.zip"), "zip");
    assert_eq!(get_extension_from_url("https://x.test/a/b.tar.gz"), "tar.gz");
    assert_eq!(get_extension_from_url("https://x.test/a/archive.v2.zip"), "zip");
    // Without a dot the final segment itself comes back, as the splitter
    // sees it.
    assert_eq!(get_extension_from_url("https://x.test/a/caddy"), "caddy");
}

#[test]
fn test_is_executable_names() {
    assert!(is_executable("caddy"));
    assert!(is_executable("dist/php"));
    assert!(is_executable("php-cgi"));
    assert!(is_executable("mysqld"));
    assert!(is_executable("mariadb/bin/anything"));
    assert!(!is_executable("readme.txt"));
    assert!(!is_executable("php.ini"));
}

#[test]
fn test_calculate_checksum_known_values() {
    assert_eq!(
        calculate_checksum(&vec![]),
        "e3b0c44298fc1c149afbf4c8996fb92427ae41e4649b934ca495991b7852b855"
    );
    assert_eq!(
        calculate_checksum(&b"abc".to_vec()),
        "ba7816bf8f01cfea414140de5dae2223b00361a396177a9cb410ff61f20015ad"
    );
}

#[test]
fn test_marker_file_names() {
    assert_eq!(marker_file_name(BinaryComponent::Caddy), "caddy_installed.txt");
    assert_eq!(marker_file_name(BinaryComponent::Php), "php_installed.txt");
    assert_eq!(marker_file_name(BinaryComponent::MariaDB), "mariadb_installed.txt");
    assert_eq!(marker_file_name(BinaryComponent::PhpMyAdmin), "phpmyadmin_installed.txt");
}

#[test]
fn test_is_installed_checks_markers_and_binaries() {
    let empty = FsSnapshot { entries: vec![] };
    assert!(!is_installed("/rt", &empty));

    let marker = FsSnapshot { entries: vec![plain_file("/rt/php_installed.txt")] };
    assert!(is_installed("/rt", &marker));

    let binary = FsSnapshot { entries: vec![plain_file("/rt/mariadb/bin/mysqld.exe")] };
    assert!(is_installed("/rt", &binary));
}

#[test]
fn test_validate_download() {
    assert_eq!(
        validate_download("zip", &vec![0x50, 0x4b, 3, 4]),
        Ok(())
    );
    assert_eq!(
        validate_download("tar.gz", &vec![0x1f, 0x8b, 0, 0]),
        Ok(())
    );
    assert_eq!(
        validate_download("zip", &vec![0x50]),
        Err("Downloaded file is too small (1 bytes) to be a valid archive".to_string())
    );
    assert_eq!(
        validate_download("zip", &vec![b'<', b'h', b't', b'm']),
        Err("Expected ZIP file but downloaded file doesn't have ZIP magic bytes. URL may have redirected to HTML page.".to_string())
    );
    assert_eq!(
        validate_download("gz", &vec![0, 0, 0, 0]),
        Err("Expected gzip file but downloaded file doesn't have gzip magic bytes.".to_string())
    );
    // An unconstrained extension is passed through on any bytes.
    assert_eq!(validate_download("caddy", &vec![0, 0, 0, 0]), Ok(()));
}

#[test]
fn test_database_helpers() {
    assert!(initialize_mariadb("/data/mysql/data").is_ok());
    assert!(create_database("example").is_ok());
    assert!(drop_database("example").is_ok());
    assert_eq!(list_databases().unwrap(), Vec::<String>::new());

    let info = get_connection_info();
    assert_eq!(info.host, "127.0.0.1");
    assert_eq!(info.port, 3307);
    assert_eq!(info.user, "root");
    assert!(info.password.is_empty());
}
