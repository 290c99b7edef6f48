//! Runtime binary locator: resolves each service binary and the shared data
//! directories by probing an ordered, platform-specific list of candidate
//! paths under an installation root.
//!
//! The locator itself never touches the disk. The caller lists the relevant
//! part of the file system into an [`FsSnapshot`] (plus the immediate
//! children of the runtime directory, in directory order) and the verified
//! resolution rules run over that snapshot.

use vstd::prelude::*;

use crate::errors::StartError;
use crate::text::{
    concat2, concat3, path_join, spec_ends_with, spec_istarts_with, spec_join, spec_starts_with, str_eq,
    str_istarts_with, str_starts_with,
};

verus! {

/// The platform family whose layout rules the locator applies.
#[derive(Debug, Clone, Copy, PartialEq, Eq, Structural)]
pub enum OsFamily {
    Windows,
    MacOs,
    Linux,
}

/// One path the caller observed, with the facts the locator reads of it.
#[derive(Debug, Clone)]
pub struct FsEntry {
    pub path: String,
    pub is_dir: bool,
    /// Whether the owner may execute the file; meaningful on Unix only.
    pub executable: bool,
}

/// The caller's view of the file system: every path the locator may probe.
/// A path absent from the snapshot is taken not to exist.
#[derive(Debug, Clone)]
pub struct FsSnapshot {
    pub entries: Vec<FsEntry>,
}

/// One immediate child of the runtime directory, in directory order.
#[derive(Debug, Clone)]
pub struct DirChild {
    pub name: String,
    pub is_dir: bool,
}

impl FsSnapshot {
    pub open spec fn spec_has(self, p: Seq<char>) -> bool {
        exists|i: int|
            0 <= i < self.entries@.len() && (#[trigger] self.entries@[i]).path@ == p
    }

    pub open spec fn spec_has_exec(self, p: Seq<char>) -> bool {
        exists|i: int|
            0 <= i < self.entries@.len() && (#[trigger] self.entries@[i]).path@ == p
                && self.entries@[i].executable
    }

    /// Whether `p` exists in the snapshot.
    pub fn exists_path(&self, p: &str) -> (r: bool)
        ensures
            r == self.spec_has(p@),
    {
        let n = self.entries.len();
        let mut i: usize = 0;
        while i < n
            invariant
                i <= n,
                n == self.entries@.len(),
                forall|j: int| 0 <= j < i ==> (#[trigger] self.entries@[j]).path@ != p@,
            decreases n - i,
        {
            if str_eq(self.entries[i].path.as_str(), p) {
                return true;
            }
            i += 1;
        }
        false
    }

    /// Whether `p` exists and carries the owner-execute permission.
    pub fn exists_executable(&self, p: &str) -> (r: bool)
        ensures
            r == self.spec_has_exec(p@),
    {
        let n = self.entries.len();
        let mut i: usize = 0;
        while i < n
            invariant
                i <= n,
                n == self.entries@.len(),
                forall|j: int|
                    0 <= j < i ==> !((#[trigger] self.entries@[j]).path@ == p@
                        && self.entries@[j].executable),
            decreases n - i,
        {
            if self.entries[i].executable && str_eq(self.entries[i].path.as_str(), p) {
                return true;
            }
            i += 1;
        }
        false
    }
}

pub open spec fn spec_opt_view(r: Option<String>) -> Option<Seq<char>> {
    match r {
        Some(s) => Some(s@),
        None => None,
    }
}

/// The first candidate that exists in the snapshot, in list order.
pub open spec fn spec_first_existing(snap: FsSnapshot, cands: Seq<Seq<char>>) -> Option<Seq<char>>
    decreases cands.len(),
{
    if cands.len() == 0 {
        None
    } else if snap.spec_has(cands[0]) {
        Some(cands[0])
    } else {
        spec_first_existing(snap, cands.drop_first())
    }
}

/// Probes the candidates in order and returns the first that exists.
pub fn probe(snap: &FsSnapshot, cands: &Vec<String>) -> (r: Option<String>)
    ensures
        spec_opt_view(r) == spec_first_existing(*snap, cands@.map_values(|s: String| s@)),
{
    let ghost views = cands@.map_values(|s: String| s@);
    proof {
        assert(views.skip(0) =~= views);
    }
    let n = cands.len();
    let mut i: usize = 0;
    while i < n
        invariant
            i <= n,
            n == cands@.len(),
            views == cands@.map_values(|s: String| s@),
            spec_first_existing(*snap, views) == spec_first_existing(*snap, views.skip(i as int)),
        decreases n - i,
    {
        if snap.exists_path(cands[i].as_str()) {
            proof {
                assert(views.skip(i as int)[0] == views[i as int]);
            }
            return Some(cands[i].clone());
        }
        proof {
            assert(views.skip(i as int).drop_first() =~= views.skip(i + 1));
        }
        i += 1;
    }
    proof {
        assert(views.skip(n as int) =~= Seq::<Seq<char>>::empty());
    }
    None
}

/// Resolved, immutable-after-creation bundle of absolute paths for the three
/// binaries and the shared directories.
#[derive(Debug, Clone)]
pub struct RuntimePaths {
    pub caddy: String,
    pub php_cgi: String,
    pub php_ini: String,
    pub mariadb: String,
    pub phpmyadmin: String,
    pub mysql_data_dir: String,
    pub logs_dir: String,
    pub config_dir: String,
    pub projects_dir: String,
}

/// The per-user application data directory layout.
#[derive(Debug, Clone)]
pub struct AppDataPaths {
    pub base_dir: String,
    pub runtime_dir: String,
    pub config_dir: String,
    pub mysql_data_dir: String,
    pub logs_dir: String,
    pub projects_dir: String,
}

impl AppDataPaths {
    /// Every derived directory hangs off `base_dir`, which itself is the
    /// machine's local data directory with the application's name appended.
    pub open spec fn wf(self) -> bool {
        &&& spec_ends_with(self.base_dir@, "/campp"@)
        &&& self.runtime_dir@ == spec_join(self.base_dir@, "runtime"@)
        &&& self.config_dir@ == spec_join(self.base_dir@, "config"@)
        &&& self.mysql_data_dir@ == spec_join(spec_join(self.base_dir@, "mysql"@), "data"@)
        &&& self.logs_dir@ == spec_join(self.base_dir@, "logs"@)
        &&& self.projects_dir@ == spec_join(self.base_dir@, "projects"@)
    }
}

/// The application data layout under the given local data directory.
pub fn app_data_paths_from(data_dir: &str) -> (r: AppDataPaths)
    ensures
        r.base_dir@ == spec_join(data_dir@, "campp"@),
        r.wf(),
{
    let base = path_join(data_dir, "campp");
    let r = AppDataPaths {
        runtime_dir: path_join(base.as_str(), "runtime"),
        config_dir: path_join(base.as_str(), "config"),
        mysql_data_dir: path_join(path_join(base.as_str(), "mysql").as_str(), "data"),
        logs_dir: path_join(base.as_str(), "logs"),
        projects_dir: path_join(base.as_str(), "projects"),
        base_dir: base,
    };
    proof {
        reveal_strlit("/");
        reveal_strlit("campp");
        reveal_strlit("/campp");
        assert(spec_ends_with(r.base_dir@, "/campp"@)) by {
            assert(r.base_dir@.subrange(
                r.base_dir@.len() - "/campp"@.len(),
                r.base_dir@.len() as int,
            ) =~= "/campp"@);
        }
    }
    r
}

/// Relies on `dirs::data_local_dir`: the per-user local data directory, if
/// the platform defines one. The result depends on the machine and its
/// environment, so nothing is promised of its text.
#[verifier::external_body]
fn data_local_dir() -> (r: Option<String>) {
    dirs::data_local_dir().map(|p| p.to_string_lossy().to_string())
}

/// The application data directory layout, rooted in the machine's per-user
/// local data directory.
pub fn get_app_data_paths() -> (r: Result<AppDataPaths, StartError>)
    ensures
        r matches Ok(a) ==> a.wf(),
        r matches Err(e) ==> e matches StartError::BinaryNotFound(m) && m@
            == "Cannot find data directory"@,
{
    match data_local_dir() {
        Some(d) => Ok(app_data_paths_from(d.as_str())),
        None => Err(StartError::BinaryNotFound(String::from_str("Cannot find data directory"))),
    }
}

pub open spec fn spec_caddy_candidates(dir: Seq<char>, os: OsFamily) -> Seq<Seq<char>> {
    if os is Windows {
        seq![
            spec_join(dir, "caddy.exe"@),
            spec_join(spec_join(dir, "caddy"@), "caddy.exe"@),
        ]
    } else {
        seq![spec_join(dir, "caddy"@), spec_join(spec_join(dir, "caddy"@), "caddy"@)]
    }
}

fn caddy_candidates(dir: &str, os: OsFamily) -> (r: Vec<String>)
    ensures
        r@.map_values(|s: String| s@) == spec_caddy_candidates(dir@, os),
{
    let mut v: Vec<String> = Vec::new();
    if matches!(os, OsFamily::Windows) {
        v.push(path_join(dir, "caddy.exe"));
        v.push(path_join(path_join(dir, "caddy").as_str(), "caddy.exe"));
    } else {
        v.push(path_join(dir, "caddy"));
        v.push(path_join(path_join(dir, "caddy").as_str(), "caddy"));
    }
    proof {
        assert(v@.map_values(|s: String| s@) =~= spec_caddy_candidates(dir@, os));
    }
    v
}

pub open spec fn spec_php_candidates(dir: Seq<char>, os: OsFamily) -> Seq<Seq<char>> {
    match os {
        OsFamily::Windows => seq![
            spec_join(dir, "php-cgi.exe"@),
            spec_join(spec_join(dir, "php"@), "php-cgi.exe"@),
            spec_join(dir, "php.exe"@),
            spec_join(spec_join(dir, "php"@), "php.exe"@),
        ],
        OsFamily::MacOs => seq![
            spec_join(spec_join(spec_join(dir, "php"@), "bin"@), "php-cgi"@),
            spec_join(dir, "php-cgi"@),
            spec_join(spec_join(spec_join(spec_join(dir, "usr"@), "local"@), "bin"@), "php"@),
            spec_join(spec_join(spec_join(dir, "php"@), "bin"@), "php"@),
            spec_join(dir, "php"@),
        ],
        OsFamily::Linux => seq![
            spec_join(spec_join(spec_join(dir, "php"@), "bin"@), "php-cgi"@),
            spec_join(dir, "php-cgi"@),
            spec_join(spec_join(spec_join(dir, "php"@), "bin"@), "php"@),
            spec_join(spec_join(spec_join(dir, "usr"@), "bin"@), "php"@),
            spec_join(dir, "php"@),
        ],
    }
}

fn php_candidates(dir: &str, os: OsFamily) -> (r: Vec<String>)
    ensures
        r@.map_values(|s: String| s@) == spec_php_candidates(dir@, os),
{
    let mut v: Vec<String> = Vec::new();
    match os {
        OsFamily::Windows => {
            v.push(path_join(dir, "php-cgi.exe"));
            v.push(path_join(path_join(dir, "php").as_str(), "php-cgi.exe"));
            v.push(path_join(dir, "php.exe"));
            v.push(path_join(path_join(dir, "php").as_str(), "php.exe"));
        },
        OsFamily::MacOs => {
            let php_bin = path_join(path_join(dir, "php").as_str(), "bin");
            v.push(path_join(php_bin.as_str(), "php-cgi"));
            v.push(path_join(dir, "php-cgi"));
            v.push(
                path_join(
                    path_join(path_join(path_join(dir, "usr").as_str(), "local").as_str(), "bin")
                        .as_str(),
                    "php",
                ),
            );
            v.push(path_join(php_bin.as_str(), "php"));
            v.push(path_join(dir, "php"));
        },
        OsFamily::Linux => {
            let php_bin = path_join(path_join(dir, "php").as_str(), "bin");
            v.push(path_join(php_bin.as_str(), "php-cgi"));
            v.push(path_join(dir, "php-cgi"));
            v.push(path_join(php_bin.as_str(), "php"));
            v.push(path_join(path_join(path_join(dir, "usr").as_str(), "bin").as_str(), "php"));
            v.push(path_join(dir, "php"));
        },
    }
    proof {
        assert(v@.map_values(|s: String| s@) =~= spec_php_candidates(dir@, os));
    }
    v
}

/// The database server's binary file name on the given platform.
pub open spec fn spec_mysqld_name(os: OsFamily) -> Seq<char> {
    if os is Windows {
        "mysqld.exe"@
    } else {
        "mysqld"@
    }
}

pub open spec fn spec_mariadb_fallbacks(dir: Seq<char>, os: OsFamily) -> Seq<Seq<char>> {
    if os is Windows {
        seq![
            spec_join(spec_join(spec_join(dir, "mariadb"@), "bin"@), "mysqld.exe"@),
            spec_join(spec_join(dir, "bin"@), "mysqld.exe"@),
            spec_join(dir, "mysqld.exe"@),
        ]
    } else {
        seq![
            spec_join(spec_join(spec_join(dir, "mariadb"@), "bin"@), "mysqld"@),
            spec_join(spec_join(spec_join(dir, "mysql"@), "bin"@), "mysqld"@),
            spec_join(spec_join(dir, "bin"@), "mysqld"@),
            spec_join(dir, "mysqld"@),
        ]
    }
}

fn mariadb_fallbacks(dir: &str, os: OsFamily) -> (r: Vec<String>)
    ensures
        r@.map_values(|s: String| s@) == spec_mariadb_fallbacks(dir@, os),
{
    let mut v: Vec<String> = Vec::new();
    if matches!(os, OsFamily::Windows) {
        v.push(path_join(path_join(path_join(dir, "mariadb").as_str(), "bin").as_str(), "mysqld.exe"));
        v.push(path_join(path_join(dir, "bin").as_str(), "mysqld.exe"));
        v.push(path_join(dir, "mysqld.exe"));
    } else {
        v.push(path_join(path_join(path_join(dir, "mariadb").as_str(), "bin").as_str(), "mysqld"));
        v.push(path_join(path_join(path_join(dir, "mysql").as_str(), "bin").as_str(), "mysqld"));
        v.push(path_join(path_join(dir, "bin").as_str(), "mysqld"));
        v.push(path_join(dir, "mysqld"));
    }
    proof {
        assert(v@.map_values(|s: String| s@) =~= spec_mariadb_fallbacks(dir@, os));
    }
    v
}

/// The result of scanning the runtime directory's children, in directory
/// order, for a versioned database-server directory: the first child whose
/// name begins with `mariadb` and whose `bin` subdirectory holds the server
/// binary.
pub open spec fn spec_mariadb_scan(
    dir: Seq<char>,
    children: Seq<DirChild>,
    snap: FsSnapshot,
    os: OsFamily,
) -> Option<Seq<char>>
    decreases children.len(),
{
    if children.len() == 0 {
        None
    } else {
        let c = children[0];
        let p = spec_join(spec_join(spec_join(dir, c.name@), "bin"@), spec_mysqld_name(os));
        if spec_starts_with(c.name@, "mariadb"@) && c.is_dir && snap.spec_has(p) {
            Some(p)
        } else {
            spec_mariadb_scan(dir, children.drop_first(), snap, os)
        }
    }
}

fn mariadb_scan(dir: &str, children: &Vec<DirChild>, snap: &FsSnapshot, os: OsFamily) -> (r: Option<
    String,
>)
    ensures
        spec_opt_view(r) == spec_mariadb_scan(dir@, children@, *snap, os),
{
    let mysqld = if matches!(os, OsFamily::Windows) {
        "mysqld.exe"
    } else {
        "mysqld"
    };
    proof {
        assert(children@.skip(0) =~= children@);
    }
    let n = children.len();
    let mut i: usize = 0;
    while i < n
        invariant
            i <= n,
            n == children@.len(),
            mysqld@ == spec_mysqld_name(os),
            spec_mariadb_scan(dir@, children@, *snap, os) == spec_mariadb_scan(
                dir@,
                children@.skip(i as int),
                *snap,
                os,
            ),
        decreases n - i,
    {
        proof {
            assert(children@.skip(i as int)[0] == children@[i as int]);
        }
        let c = &children[i];
        if c.is_dir && str_starts_with(c.name.as_str(), "mariadb") {
            let p = path_join(
                path_join(path_join(dir, c.name.as_str()).as_str(), "bin").as_str(),
                mysqld,
            );
            if snap.exists_path(p.as_str()) {
                return Some(p);
            }
        }
        proof {
            assert(children@.skip(i as int).drop_first() =~= children@.skip(i + 1));
        }
        i += 1;
    }
    proof {
        assert(children@.skip(n as int) =~= Seq::<DirChild>::empty());
    }
    None
}

/// Where the database-server binary resolves to: the versioned-directory
/// scan first, then the fixed fallback candidates.
pub open spec fn spec_mariadb_result(
    dir: Seq<char>,
    children: Seq<DirChild>,
    snap: FsSnapshot,
    os: OsFamily,
) -> Option<Seq<char>> {
    match spec_mariadb_scan(dir, children, snap, os) {
        Some(p) => Some(p),
        None => spec_first_existing(snap, spec_mariadb_fallbacks(dir, os)),
    }
}

pub open spec fn spec_caddy_result(dir: Seq<char>, snap: FsSnapshot, os: OsFamily) -> Option<
    Seq<char>,
> {
    spec_first_existing(snap, spec_caddy_candidates(dir, os))
}

pub open spec fn spec_php_result(dir: Seq<char>, snap: FsSnapshot, os: OsFamily) -> Option<
    Seq<char>,
> {
    spec_first_existing(snap, spec_php_candidates(dir, os))
}

/// The result of scanning for the admin tool's directory: the first child
/// directory whose name begins with `phpmyadmin` regardless of ASCII case,
/// which tolerates a version suffix in the installed directory's name.
pub open spec fn spec_pma_scan(dir: Seq<char>, children: Seq<DirChild>) -> Option<Seq<char>>
    decreases children.len(),
{
    if children.len() == 0 {
        None
    } else {
        let c = children[0];
        if spec_istarts_with(c.name@, "phpmyadmin"@) && c.is_dir {
            Some(spec_join(dir, c.name@))
        } else {
            spec_pma_scan(dir, children.drop_first())
        }
    }
}

pub open spec fn spec_pma_result(dir: Seq<char>, children: Seq<DirChild>, snap: FsSnapshot) -> Option<
    Seq<char>,
> {
    if snap.spec_has(spec_join(dir, "phpmyadmin"@)) {
        Some(spec_join(dir, "phpmyadmin"@))
    } else {
        spec_pma_scan(dir, children)
    }
}

pub open spec fn spec_caddy_missing_msg(dir: Seq<char>) -> Seq<char> {
    "Caddy binary not found in "@ + dir + ". Please ensure runtime binaries are downloaded."@
}

pub open spec fn spec_php_missing_msg(dir: Seq<char>) -> Seq<char> {
    "PHP binary not found in "@ + dir + ". Please ensure runtime binaries are downloaded."@
}

pub open spec fn spec_mariadb_missing_msg(dir: Seq<char>) -> Seq<char> {
    "MariaDB binary not found in "@ + dir + ". Please ensure runtime binaries are downloaded."@
}

pub open spec fn spec_pma_missing_msg(dir: Seq<char>) -> Seq<char> {
    "phpMyAdmin directory not found in "@ + dir
        + ". Please ensure runtime binaries are downloaded."@
}

pub open spec fn spec_runtime_missing_msg(dir: Seq<char>) -> Seq<char> {
    "Runtime directory not found. Please download runtime binaries first. Expected: "@ + dir
}

/// Resolves the web server's binary under the runtime directory.
pub fn detect_caddy_binary(runtime_dir: &str, snap: &FsSnapshot, os: OsFamily) -> (r: Result<
    String,
    StartError,
>)
    ensures
        match r {
            Ok(s) => spec_caddy_result(runtime_dir@, *snap, os) == Some(s@),
            Err(e) => {
                &&& spec_caddy_result(runtime_dir@, *snap, os) is None
                &&& e matches StartError::BinaryNotFound(m)
                &&& m@ == spec_caddy_missing_msg(runtime_dir@)
            },
        },
{
    let cands = caddy_candidates(runtime_dir, os);
    match probe(snap, &cands) {
        Some(p) => Ok(p),
        None => Err(
            StartError::BinaryNotFound(
                concat3(
                    "Caddy binary not found in ",
                    runtime_dir,
                    ". Please ensure runtime binaries are downloaded.",
                ),
            ),
        ),
    }
}

/// Resolves the script gateway's binary under the runtime directory.
pub fn detect_php_binary(runtime_dir: &str, snap: &FsSnapshot, os: OsFamily) -> (r: Result<
    String,
    StartError,
>)
    ensures
        match r {
            Ok(s) => spec_php_result(runtime_dir@, *snap, os) == Some(s@),
            Err(e) => {
                &&& spec_php_result(runtime_dir@, *snap, os) is None
                &&& e matches StartError::BinaryNotFound(m)
                &&& m@ == spec_php_missing_msg(runtime_dir@)
            },
        },
{
    let cands = php_candidates(runtime_dir, os);
    match probe(snap, &cands) {
        Some(p) => Ok(p),
        None => Err(
            StartError::BinaryNotFound(
                concat3(
                    "PHP binary not found in ",
                    runtime_dir,
                    ". Please ensure runtime binaries are downloaded.",
                ),
            ),
        ),
    }
}

/// The script gateway's configuration file path: it is generated into the
/// configuration directory, so resolution cannot fail.
pub fn detect_php_ini(config_dir: &str) -> (r: Result<String, StartError>)
    ensures
        r matches Ok(p) && p@ == spec_join(config_dir@, "php.ini"@),
{
    Ok(path_join(config_dir, "php.ini"))
}

/// Resolves the database server's binary: versioned-directory scan first,
/// then the fixed fallback paths.
pub fn detect_mariadb_binary(
    runtime_dir: &str,
    children: &Vec<DirChild>,
    snap: &FsSnapshot,
    os: OsFamily,
) -> (r: Result<String, StartError>)
    ensures
        match r {
            Ok(s) => spec_mariadb_result(runtime_dir@, children@, *snap, os) == Some(s@),
            Err(e) => {
                &&& spec_mariadb_result(runtime_dir@, children@, *snap, os) is None
                &&& e matches StartError::BinaryNotFound(m)
                &&& m@ == spec_mariadb_missing_msg(runtime_dir@)
            },
        },
{
    if let Some(p) = mariadb_scan(runtime_dir, children, snap, os) {
        return Ok(p);
    }
    let cands = mariadb_fallbacks(runtime_dir, os);
    match probe(snap, &cands) {
        Some(p) => Ok(p),
        None => Err(
            StartError::BinaryNotFound(
                concat3(
                    "MariaDB binary not found in ",
                    runtime_dir,
                    ". Please ensure runtime binaries are downloaded.",
                ),
            ),
        ),
    }
}

/// Resolves the admin tool's directory, tolerating a version suffix in its
/// name.
pub fn detect_phpmyadmin_directory(
    runtime_dir: &str,
    children: &Vec<DirChild>,
    snap: &FsSnapshot,
) -> (r: Result<String, StartError>)
    ensures
        match r {
            Ok(s) => spec_pma_result(runtime_dir@, children@, *snap) == Some(s@),
            Err(e) => {
                &&& spec_pma_result(runtime_dir@, children@, *snap) is None
                &&& e matches StartError::BinaryNotFound(m)
                &&& m@ == spec_pma_missing_msg(runtime_dir@)
            },
        },
{
    let standard = path_join(runtime_dir, "phpmyadmin");
    if snap.exists_path(standard.as_str()) {
        return Ok(standard);
    }
    proof {
        assert(children@.skip(0) =~= children@);
    }
    let n = children.len();
    let mut i: usize = 0;
    while i < n
        invariant
            i <= n,
            n == children@.len(),
            !snap.spec_has(spec_join(runtime_dir@, "phpmyadmin"@)),
            spec_pma_scan(runtime_dir@, children@) == spec_pma_scan(
                runtime_dir@,
                children@.skip(i as int),
            ),
        decreases n - i,
    {
        proof {
            assert(children@.skip(i as int)[0] == children@[i as int]);
        }
        let c = &children[i];
        if c.is_dir && str_istarts_with(c.name.as_str(), "phpmyadmin") {
            return Ok(path_join(runtime_dir, c.name.as_str()));
        }
        proof {
            assert(children@.skip(i as int).drop_first() =~= children@.skip(i + 1));
        }
        i += 1;
    }
    proof {
        assert(children@.skip(n as int) =~= Seq::<DirChild>::empty());
    }
    Err(
        StartError::BinaryNotFound(
            concat3(
                "phpMyAdmin directory not found in ",
                runtime_dir,
                ". Please ensure runtime binaries are downloaded.",
            ),
        ),
    )
}

/// The first failure the locator reports for this snapshot, or `None` when
/// every component resolves.
pub open spec fn spec_locate_error(
    app: AppDataPaths,
    children: Seq<DirChild>,
    snap: FsSnapshot,
    os: OsFamily,
) -> Option<Seq<char>> {
    let rt = app.runtime_dir@;
    if !snap.spec_has(rt) {
        Some(spec_runtime_missing_msg(rt))
    } else if spec_pma_result(rt, children, snap) is None {
        Some(spec_pma_missing_msg(rt))
    } else if spec_caddy_result(rt, snap, os) is None {
        Some(spec_caddy_missing_msg(rt))
    } else if spec_php_result(rt, snap, os) is None {
        Some(spec_php_missing_msg(rt))
    } else if spec_mariadb_result(rt, children, snap, os) is None {
        Some(spec_mariadb_missing_msg(rt))
    } else {
        None
    }
}

/// Resolves every binary and shared directory under the application's
/// runtime directory, against the caller's snapshot of the file system.
pub fn locate_runtime_binaries(
    app: &AppDataPaths,
    children: &Vec<DirChild>,
    snap: &FsSnapshot,
    os: OsFamily,
) -> (r: Result<RuntimePaths, StartError>)
    ensures
        match r {
            Ok(p) => {
                &&& spec_locate_error(*app, children@, *snap, os) is None
                &&& spec_pma_result(app.runtime_dir@, children@, *snap) == Some(p.phpmyadmin@)
                &&& spec_caddy_result(app.runtime_dir@, *snap, os) == Some(p.caddy@)
                &&& spec_php_result(app.runtime_dir@, *snap, os) == Some(p.php_cgi@)
                &&& p.php_ini@ == spec_join(app.config_dir@, "php.ini"@)
                &&& spec_mariadb_result(app.runtime_dir@, children@, *snap, os) == Some(p.mariadb@)
                &&& p.mysql_data_dir@ == app.mysql_data_dir@
                &&& p.logs_dir@ == app.logs_dir@
                &&& p.config_dir@ == app.config_dir@
                &&& p.projects_dir@ == app.projects_dir@
            },
            Err(e) => {
                &&& e matches StartError::BinaryNotFound(m)
                &&& spec_locate_error(*app, children@, *snap, os) == Some(m@)
            },
        },
{
    if !snap.exists_path(app.runtime_dir.as_str()) {
        return Err(
            StartError::BinaryNotFound(
                concat2(
                    "Runtime directory not found. Please download runtime binaries first. Expected: ",
                    app.runtime_dir.as_str(),
                ),
            ),
        );
    }
    let phpmyadmin = match detect_phpmyadmin_directory(app.runtime_dir.as_str(), children, snap) {
        Ok(p) => p,
        Err(e) => {
            return Err(e);
        },
    };
    let caddy = match detect_caddy_binary(app.runtime_dir.as_str(), snap, os) {
        Ok(p) => p,
        Err(e) => {
            return Err(e);
        },
    };
    let php_cgi = match detect_php_binary(app.runtime_dir.as_str(), snap, os) {
        Ok(p) => p,
        Err(e) => {
            return Err(e);
        },
    };
    let php_ini = match detect_php_ini(app.config_dir.as_str()) {
        Ok(p) => p,
        Err(e) => {
            return Err(e);
        },
    };
    let mariadb = match detect_mariadb_binary(app.runtime_dir.as_str(), children, snap, os) {
        Ok(p) => p,
        Err(e) => {
            return Err(e);
        },
    };
    Ok(
        RuntimePaths {
            caddy,
            php_cgi,
            php_ini,
            mariadb,
            phpmyadmin,
            mysql_data_dir: app.mysql_data_dir.clone(),
            logs_dir: app.logs_dir.clone(),
            config_dir: app.config_dir.clone(),
            projects_dir: app.projects_dir.clone(),
        },
    )
}

/// Whether the path names a usable binary: on Windows mere existence, on
/// Unix existence with the owner-execute permission.
pub open spec fn spec_is_valid_binary(snap: FsSnapshot, p: Seq<char>, os: OsFamily) -> bool {
    if os is Windows {
        snap.spec_has(p)
    } else {
        snap.spec_has_exec(p)
    }
}

pub fn is_valid_binary(snap: &FsSnapshot, path: &str, os: OsFamily) -> (r: bool)
    ensures
        r == spec_is_valid_binary(*snap, path@, os),
{
    if matches!(os, OsFamily::Windows) {
        snap.exists_path(path)
    } else {
        snap.exists_executable(path)
    }
}

/// Checks that every resolved binary exists and is executable.
pub fn verify_runtime_binaries(paths: &RuntimePaths, snap: &FsSnapshot, os: OsFamily) -> (r: Result<
    (),
    StartError,
>)
    ensures
        match r {
            Ok(_) => {
                &&& spec_is_valid_binary(*snap, paths.caddy@, os)
                &&& spec_is_valid_binary(*snap, paths.php_cgi@, os)
                &&& spec_is_valid_binary(*snap, paths.mariadb@, os)
            },
            Err(e) => e matches StartError::BinaryNotFound(m) && (if !spec_is_valid_binary(
                *snap,
                paths.caddy@,
                os,
            ) {
                m@ == "Caddy binary not found or not executable: "@ + paths.caddy@
            } else if !spec_is_valid_binary(*snap, paths.php_cgi@, os) {
                m@ == "PHP binary not found or not executable: "@ + paths.php_cgi@
            } else {
                &&& !spec_is_valid_binary(*snap, paths.mariadb@, os)
                &&& m@ == "MariaDB binary not found or not executable: "@ + paths.mariadb@
            }),
        },
{
    if !is_valid_binary(snap, paths.caddy.as_str(), os) {
        return Err(
            StartError::BinaryNotFound(
                concat2("Caddy binary not found or not executable: ", paths.caddy.as_str()),
            ),
        );
    }
    if !is_valid_binary(snap, paths.php_cgi.as_str(), os) {
        return Err(
            StartError::BinaryNotFound(
                concat2("PHP binary not found or not executable: ", paths.php_cgi.as_str()),
            ),
        );
    }
    if !is_valid_binary(snap, paths.mariadb.as_str(), os) {
        return Err(
            StartError::BinaryNotFound(
                concat2("MariaDB binary not found or not executable: ", paths.mariadb.as_str()),
            ),
        );
    }
    Ok(())
}

} // verus!
