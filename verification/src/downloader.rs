//! Runtime distribution metadata: the bundled components with their versions
//! and release archive locations, platform identification, archive-name
//! rules, and checksum computation.

use vstd::prelude::*;

use crate::locator::FsSnapshot;
use crate::text::{
    after_last, concat2, concat3, path_join, spec_after_last, spec_contains, spec_dec,
    spec_ends_with, spec_join, str_contains, str_ends_with, str_eq, u64_dec,
};

verus! {

/// The four installable components.
#[derive(Debug, Clone, Copy, PartialEq, Eq, Hash, Structural)]
pub enum BinaryComponent {
    Caddy,
    Php,
    MariaDB,
    PhpMyAdmin,
}

impl BinaryComponent {
    pub open spec fn spec_name(self) -> Seq<char> {
        match self {
            BinaryComponent::Caddy => "Caddy"@,
            BinaryComponent::Php => "PHP"@,
            BinaryComponent::MariaDB => "MariaDB"@,
            BinaryComponent::PhpMyAdmin => "phpMyAdmin"@,
        }
    }

    pub fn name(&self) -> (r: &'static str)
        ensures
            r@ == self.spec_name(),
    {
        match self {
            BinaryComponent::Caddy => "Caddy",
            BinaryComponent::Php => "PHP",
            BinaryComponent::MariaDB => "MariaDB",
            BinaryComponent::PhpMyAdmin => "phpMyAdmin",
        }
    }

    pub open spec fn spec_version(self) -> Seq<char> {
        match self {
            BinaryComponent::Caddy => "v2.8.4"@,
            BinaryComponent::Php => "v8.3.0"@,
            BinaryComponent::MariaDB => "v11.3.2"@,
            BinaryComponent::PhpMyAdmin => "v5.2.1"@,
        }
    }

    pub fn version(&self) -> (r: &'static str)
        ensures
            r@ == self.spec_version(),
    {
        match self {
            BinaryComponent::Caddy => "v2.8.4",
            BinaryComponent::Php => "v8.3.0",
            BinaryComponent::MariaDB => "v11.3.2",
            BinaryComponent::PhpMyAdmin => "v5.2.1",
        }
    }

    /// The component's name and version, as shown in progress reports.
    pub fn display_name(&self) -> (r: String)
        ensures
            r@ == self.spec_name() + " "@ + self.spec_version(),
    {
        concat3(self.name(), " ", self.version())
    }

    pub open spec fn spec_binary_name(self) -> Seq<char> {
        match self {
            BinaryComponent::Caddy => "caddy"@,
            BinaryComponent::Php => "php"@,
            BinaryComponent::MariaDB => "mariadb"@,
            BinaryComponent::PhpMyAdmin => "phpmyadmin"@,
        }
    }

    pub fn binary_name(&self) -> (r: &'static str)
        ensures
            r@ == self.spec_binary_name(),
    {
        match self {
            BinaryComponent::Caddy => "caddy",
            BinaryComponent::Php => "php",
            BinaryComponent::MariaDB => "mariadb",
            BinaryComponent::PhpMyAdmin => "phpmyadmin",
        }
    }
}

/// The supported operating-system and architecture pairs.
#[derive(Debug, Clone, Copy, PartialEq, Eq, Structural)]
pub enum Platform {
    WindowsX64,
    WindowsArm64,
    MacOSX64,
    MacOSArm64,
    LinuxX64,
    LinuxArm64,
}

impl Platform {
    /// The platform for the given target operating system and architecture
    /// names; unknown pairs fall back to x86-64 Linux.
    pub open spec fn spec_current(os: Seq<char>, arch: Seq<char>) -> Platform {
        if os == "windows"@ {
            if arch == "aarch64"@ {
                Platform::WindowsArm64
            } else {
                Platform::WindowsX64
            }
        } else if os == "macos"@ {
            if arch == "aarch64"@ {
                Platform::MacOSArm64
            } else {
                Platform::MacOSX64
            }
        } else if os == "linux"@ && arch == "aarch64"@ {
            Platform::LinuxArm64
        } else {
            Platform::LinuxX64
        }
    }

    /// Classifies the running machine from its target operating system and
    /// architecture names, as the caller reads them from the build target.
    pub fn current(os: &str, arch: &str) -> (r: Platform)
        ensures
            r == Platform::spec_current(os@, arch@),
    {
        let arm = str_eq(arch, "aarch64");
        if str_eq(os, "windows") {
            if arm {
                Platform::WindowsArm64
            } else {
                Platform::WindowsX64
            }
        } else if str_eq(os, "macos") {
            if arm {
                Platform::MacOSArm64
            } else {
                Platform::MacOSX64
            }
        } else if str_eq(os, "linux") && arm {
            Platform::LinuxArm64
        } else {
            Platform::LinuxX64
        }
    }

    pub open spec fn spec_identifier(self) -> Seq<char> {
        match self {
            Platform::WindowsX64 => "windows-x64"@,
            Platform::WindowsArm64 => "windows-arm64"@,
            Platform::MacOSX64 => "darwin-x64"@,
            Platform::MacOSArm64 => "darwin-arm64"@,
            Platform::LinuxX64 => "linux-x64"@,
            Platform::LinuxArm64 => "linux-arm64"@,
        }
    }

    /// The platform identifier used in release names.
    pub fn identifier(&self) -> (r: &'static str)
        ensures
            r@ == self.spec_identifier(),
    {
        match self {
            Platform::WindowsX64 => "windows-x64",
            Platform::WindowsArm64 => "windows-arm64",
            Platform::MacOSX64 => "darwin-x64",
            Platform::MacOSArm64 => "darwin-arm64",
            Platform::LinuxX64 => "linux-x64",
            Platform::LinuxArm64 => "linux-arm64",
        }
    }

    /// The archive format the platform's releases ship in.
    pub fn archive_extension(&self) -> (r: &'static str)
        ensures
            self is WindowsX64 || self is WindowsArm64 ==> r@ == "zip"@,
            !(self is WindowsX64 || self is WindowsArm64) ==> r@ == "tar.gz"@,
    {
        match self {
            Platform::WindowsX64 | Platform::WindowsArm64 => "zip",
            Platform::MacOSX64 | Platform::MacOSArm64 | Platform::LinuxX64
            | Platform::LinuxArm64 => "tar.gz",
        }
    }
}

/// One named entry of the runtime manifest.
#[derive(Debug, Clone)]
pub struct ManifestEntry {
    pub name: String,
    pub info: BinaryInfo,
}

/// The manifest of downloadable binaries.
#[derive(Debug, Clone)]
pub struct RuntimeManifest {
    pub version: String,
    pub binaries: Vec<ManifestEntry>,
}

/// Where one binary lives and how to check it.
#[derive(Debug, Clone)]
pub struct BinaryInfo {
    pub url: String,
    pub checksum: String,
    pub size: u64,
}

/// A progress report during download and installation.
#[derive(Debug, Clone)]
pub struct DownloadProgress {
    pub step: DownloadStep,
    pub percent: u8,
    pub current_component: String,
    pub component_display: String,
    pub version: String,
    pub total_components: u8,
    pub downloaded_bytes: u64,
    pub total_bytes: u64,
}

/// Which stage a download progress report describes.
#[derive(Debug, Clone)]
pub enum DownloadStep {
    Downloading,
    Extracting,
    Installing,
    Complete,
    Error(String),
}

/// The release archive for each component on each platform.
pub open spec fn spec_binary_url(component: BinaryComponent, platform: Platform) -> Seq<char> {
    match component {
        BinaryComponent::Caddy => match platform {
            Platform::WindowsX64 | Platform::WindowsArm64 => "https://github.com/caddyserver/caddy/releases/download/v2.8.4/caddy_2.8.4_windows_amd64.zip"@,
            Platform::MacOSX64 => "https://github.com/caddyserver/caddy/releases/download/v2.8.4/caddy_2.8.4_darwin_amd64.tar.gz"@,
            Platform::MacOSArm64 => "https://github.com/caddyserver/caddy/releases/download/v2.8.4/caddy_2.8.4_darwin_arm64.tar.gz"@,
            Platform::LinuxX64 => "https://github.com/caddyserver/caddy/releases/download/v2.8.4/caddy_2.8.4_linux_amd64.tar.gz"@,
            Platform::LinuxArm64 => "https://github.com/caddyserver/caddy/releases/download/v2.8.4/caddy_2.8.4_linux_arm64.tar.gz"@,
        },
        BinaryComponent::Php => match platform {
            Platform::WindowsX64 => "https://github.com/nttravis/php-build-binary-windows-php-83/releases/download/php-8.3.0/php-8.3.0-nts-win32-vs16-x64.zip"@,
            Platform::WindowsArm64 => "https://github.com/nttravis/php-build-binary-windows-php-83/releases/download/php-8.3.0/php-8.3.0-nts-win32-vs16-arm64.zip"@,
            _ => "https://github.com/php/php-src/archive/refs/tags/php-8.3.0.tar.gz"@,
        },
        BinaryComponent::MariaDB => match platform {
            Platform::WindowsX64 | Platform::WindowsArm64 => "https://downloads.mariadb.com/MariaDB/mariadb-11.3.2/winx64-packages/mariadb-11.3.2-winx64.zip"@,
            _ => "https://downloads.mariadb.com/MariaDB/mariadb-11.3.2/bintar-linux-systemd-x86_64/mariadb-11.3.2-linux-systemd-x86_64.tar.gz"@,
        },
        BinaryComponent::PhpMyAdmin => "https://files.phpmyadmin.net/phpMyAdmin/5.2.1/phpMyAdmin-5.2.1-all-languages.zip"@,
    }
}

/// The release archive location for a component on a platform.
pub fn get_binary_url(component: BinaryComponent, platform: Platform) -> (r: String)
    ensures
        r@ == spec_binary_url(component, platform),
{
    let url: &str = match component {
        BinaryComponent::Caddy => match platform {
            Platform::WindowsX64
            | Platform::WindowsArm64 => "https://github.com/caddyserver/caddy/releases/download/v2.8.4/caddy_2.8.4_windows_amd64.zip",
            Platform::MacOSX64 => "https://github.com/caddyserver/caddy/releases/download/v2.8.4/caddy_2.8.4_darwin_amd64.tar.gz",
            Platform::MacOSArm64 => "https://github.com/caddyserver/caddy/releases/download/v2.8.4/caddy_2.8.4_darwin_arm64.tar.gz",
            Platform::LinuxX64 => "https://github.com/caddyserver/caddy/releases/download/v2.8.4/caddy_2.8.4_linux_amd64.tar.gz",
            Platform::LinuxArm64 => "https://github.com/caddyserver/caddy/releases/download/v2.8.4/caddy_2.8.4_linux_arm64.tar.gz",
        },
        BinaryComponent::Php => match platform {
            Platform::WindowsX64 => "https://github.com/nttravis/php-build-binary-windows-php-83/releases/download/php-8.3.0/php-8.3.0-nts-win32-vs16-x64.zip",
            Platform::WindowsArm64 => "https://github.com/nttravis/php-build-binary-windows-php-83/releases/download/php-8.3.0/php-8.3.0-nts-win32-vs16-arm64.zip",
            _ => "https://github.com/php/php-src/archive/refs/tags/php-8.3.0.tar.gz",
        },
        BinaryComponent::MariaDB => match platform {
            Platform::WindowsX64
            | Platform::WindowsArm64 => "https://downloads.mariadb.com/MariaDB/mariadb-11.3.2/winx64-packages/mariadb-11.3.2-winx64.zip",
            _ => "https://downloads.mariadb.com/MariaDB/mariadb-11.3.2/bintar-linux-systemd-x86_64/mariadb-11.3.2-linux-systemd-x86_64.tar.gz",
        },
        BinaryComponent::PhpMyAdmin => "https://files.phpmyadmin.net/phpMyAdmin/5.2.1/phpMyAdmin-5.2.1-all-languages.zip",
    };
    String::from_str(url)
}

/// The archive extension a release name implies: the text after the last
/// dot of the final path segment, with `.tar.gz` kept whole.
pub open spec fn spec_extension_of(url: Seq<char>) -> Seq<char> {
    let filename = spec_after_last(url, '/');
    if spec_ends_with(filename, ".tar.gz"@) {
        "tar.gz"@
    } else {
        spec_after_last(filename, '.')
    }
}

pub fn get_extension_from_url(url: &str) -> (r: String)
    ensures
        r@ == spec_extension_of(url@),
{
    let filename = after_last(url, '/');
    if str_ends_with(filename.as_str(), ".tar.gz") {
        String::from_str("tar.gz")
    } else {
        after_last(filename.as_str(), '.')
    }
}

/// Whether an archive member should receive the execute permission when
/// unpacked, judged by its name.
pub fn is_executable(name: &str) -> (r: bool)
    ensures
        r == (spec_ends_with(name@, "caddy"@) || spec_ends_with(name@, "php"@) || spec_ends_with(
            name@,
            "php-cgi"@,
        ) || spec_ends_with(name@, "mysqld"@) || spec_contains(name@, "bin/"@)),
{
    str_ends_with(name, "caddy") || str_ends_with(name, "php") || str_ends_with(name, "php-cgi")
        || str_ends_with(name, "mysqld") || str_contains(name, "bin/")
}

/// The marker file recorded beside a component once it is installed.
pub fn marker_file_name(component: BinaryComponent) -> (r: String)
    ensures
        r@ == component.spec_binary_name() + "_installed.txt"@,
{
    concat2(component.binary_name(), "_installed.txt")
}

/// Whether a runtime installation is already in place: any component's
/// marker file, or any of the fixed binary locations.
pub open spec fn spec_is_installed(dir: Seq<char>, snap: FsSnapshot) -> bool {
    ||| snap.spec_has(spec_join(dir, BinaryComponent::Caddy.spec_binary_name() + "_installed.txt"@))
    ||| snap.spec_has(spec_join(dir, BinaryComponent::Php.spec_binary_name() + "_installed.txt"@))
    ||| snap.spec_has(
        spec_join(dir, BinaryComponent::MariaDB.spec_binary_name() + "_installed.txt"@),
    )
    ||| snap.spec_has(
        spec_join(dir, BinaryComponent::PhpMyAdmin.spec_binary_name() + "_installed.txt"@),
    )
    ||| snap.spec_has(spec_join(spec_join(dir, "caddy"@), "caddy.exe"@))
    ||| snap.spec_has(spec_join(spec_join(dir, "php"@), "php.exe"@))
    ||| snap.spec_has(spec_join(spec_join(spec_join(dir, "mariadb"@), "bin"@), "mysqld.exe"@))
}

pub fn is_installed(runtime_dir: &str, snap: &FsSnapshot) -> (r: bool)
    ensures
        r == spec_is_installed(runtime_dir@, *snap),
{
    let caddy_marker = path_join(runtime_dir, marker_file_name(BinaryComponent::Caddy).as_str());
    let php_marker = path_join(runtime_dir, marker_file_name(BinaryComponent::Php).as_str());
    let mariadb_marker = path_join(
        runtime_dir,
        marker_file_name(BinaryComponent::MariaDB).as_str(),
    );
    let pma_marker = path_join(runtime_dir, marker_file_name(BinaryComponent::PhpMyAdmin).as_str());
    let caddy_exe = path_join(path_join(runtime_dir, "caddy").as_str(), "caddy.exe");
    let php_exe = path_join(path_join(runtime_dir, "php").as_str(), "php.exe");
    let mariadb_exe = path_join(
        path_join(path_join(runtime_dir, "mariadb").as_str(), "bin").as_str(),
        "mysqld.exe",
    );
    snap.exists_path(caddy_marker.as_str()) || snap.exists_path(php_marker.as_str())
        || snap.exists_path(mariadb_marker.as_str()) || snap.exists_path(pma_marker.as_str())
        || snap.exists_path(caddy_exe.as_str()) || snap.exists_path(php_exe.as_str())
        || snap.exists_path(mariadb_exe.as_str())
}

/// The complaint a downloaded archive earns before extraction, or `None`
/// when its leading bytes look right for its extension: archives must be at
/// least four bytes, a `zip` must open with the ZIP signature, and a gzip
/// stream with the gzip one.
pub open spec fn spec_download_error(extension: Seq<char>, bytes: Seq<u8>) -> Option<Seq<char>> {
    if bytes.len() < 4 {
        Some(
            "Downloaded file is too small ("@ + spec_dec(bytes.len())
                + " bytes) to be a valid archive"@,
        )
    } else if extension == "zip"@ && !(bytes[0] == 0x50 && bytes[1] == 0x4b) {
        Some(
            "Expected ZIP file but downloaded file doesn't have ZIP magic bytes. URL may have redirected to HTML page."@,
        )
    } else if (extension == "gz"@ || extension == "tar.gz"@) && !(bytes[0] == 0x1f && bytes[1]
        == 0x8b) {
        Some("Expected gzip file but downloaded file doesn't have gzip magic bytes."@)
    } else {
        None
    }
}

/// Checks a downloaded archive's leading bytes against its extension.
pub fn validate_download(extension: &str, bytes: &Vec<u8>) -> (r: Result<(), String>)
    ensures
        match spec_download_error(extension@, bytes@) {
            Some(m) => r matches Err(e) && e@ == m,
            None => r matches Ok(()),
        },
{
    if bytes.len() < 4 {
        let mut m = String::from_str("Downloaded file is too small (");
        m.append(u64_dec(bytes.len() as u64).as_str());
        m.append(" bytes) to be a valid archive");
        return Err(m);
    }
    let is_zip = bytes[0] == 0x50 && bytes[1] == 0x4b;
    let is_gzip = bytes[0] == 0x1f && bytes[1] == 0x8b;
    if str_eq(extension, "zip") && !is_zip {
        return Err(
            String::from_str(
                "Expected ZIP file but downloaded file doesn't have ZIP magic bytes. URL may have redirected to HTML page.",
            ),
        );
    }
    if (str_eq(extension, "gz") || str_eq(extension, "tar.gz")) && !is_gzip {
        return Err(
            String::from_str("Expected gzip file but downloaded file doesn't have gzip magic bytes."),
        );
    }
    Ok(())
}

/// The SHA-256 digest of `data`. The digest is a function of the bytes
/// alone; no shorter statement of it exists, so it carries a name.
pub uninterp spec fn sha256_of(data: Seq<u8>) -> Seq<u8>;

/// Relies on `sha2::Sha256::digest`: the 32-byte SHA-256 digest, a function
/// of the input bytes alone.
#[verifier::external_body]
fn sha256(data: &Vec<u8>) -> (r: Vec<u8>)
    ensures
        r@ == sha256_of(data@),
        r@.len() == 32,
{
    let digest = <sha2::Sha256 as sha2::Digest>::digest(data.as_slice());
    digest.to_vec()
}

pub open spec fn spec_hex_digit(d: nat) -> char {
    if d == 0 {
        '0'
    } else if d == 1 {
        '1'
    } else if d == 2 {
        '2'
    } else if d == 3 {
        '3'
    } else if d == 4 {
        '4'
    } else if d == 5 {
        '5'
    } else if d == 6 {
        '6'
    } else if d == 7 {
        '7'
    } else if d == 8 {
        '8'
    } else if d == 9 {
        '9'
    } else if d == 10 {
        'a'
    } else if d == 11 {
        'b'
    } else if d == 12 {
        'c'
    } else if d == 13 {
        'd'
    } else if d == 14 {
        'e'
    } else {
        'f'
    }
}

/// Lowercase hexadecimal: two digits per byte, in byte order.
pub open spec fn spec_hex(bytes: Seq<u8>) -> Seq<char>
    decreases bytes.len(),
{
    if bytes.len() == 0 {
        Seq::empty()
    } else {
        spec_hex(bytes.drop_last()) + seq![
            spec_hex_digit((bytes.last() / 16) as nat),
            spec_hex_digit((bytes.last() % 16) as nat),
        ]
    }
}

/// Relies on `hex::encode`: two lowercase hexadecimal digits per byte, in
/// byte order.
#[verifier::external_body]
fn hex_encode(data: &Vec<u8>) -> (r: String)
    ensures
        r@ == spec_hex(data@),
{
    hex::encode(data.as_slice())
}

/// The lowercase hexadecimal SHA-256 checksum of `data`.
pub fn calculate_checksum(data: &Vec<u8>) -> (r: String)
    ensures
        r@ == spec_hex(sha256_of(data@)),
{
    let digest = sha256(data);
    hex_encode(&digest)
}

} // verus!
