//! Configuration emitters: the exact text of the web server, script gateway
//! and admin tool configuration files, pinned character for character.

use vstd::prelude::*;

use crate::text::{concat2, slashify, spec_dec, spec_slash, u64_dec};

verus! {

/// Builds the configuration files from the assigned ports and resolved
/// directories. Paths are normalised to forward slashes in the emitted text.
pub struct ConfigGenerator {
    pub caddy_port: u16,
    pub php_port: u16,
    pub mysql_port: u16,
    pub phpmyadmin_path: String,
    pub project_root: String,
    pub config_dir: String,
    pub logs_dir: String,
}

/// The web server configuration: binds the assigned port, routes the admin
/// tool's path prefix (stripping it) and all scripts to the gateway, serves
/// project files, writes structured access logs, compresses responses and
/// sets the baseline security headers.
pub open spec fn spec_caddyfile(
    caddy_port: u16,
    php_port: u16,
    pma: Seq<char>,
    root: Seq<char>,
    log_file: Seq<char>,
) -> Seq<char> {
    ":"@ + spec_dec(caddy_port as nat)
        + " {\n    # phpMyAdmin - must come before global directives\n    # Redirect /phpmyadmin to /phpmyadmin/\n    redir /phpmyadmin /phpmyadmin/\n\n    # Handle phpMyAdmin requests - handle_path strips the /phpmyadmin prefix\n    handle_path /phpmyadmin/* {\n        root * \""@
        + pma + "\"\n        php_fastcgi 127.0.0.1:"@ + spec_dec(php_port as nat)
        + "\n        file_server browse\n    }\n\n    # Root directory for serving files (default project root)\n    root * \""@
        + root + "\"\n\n    # Enable PHP for all other requests\n    php_fastcgi 127.0.0.1:"@
        + spec_dec(php_port as nat)
        + "\n\n    # File server for project files\n    file_server browse\n\n    # Logging\n    log {\n        output file \""@
        + log_file
        + "\"\n        format json\n    }\n\n    # Encode responses\n    encode gzip\n\n    # Security headers\n    header {\n        X-Content-Type-Options nosniff\n        X-Frame-Options SAMEORIGIN\n        Referrer-Policy no-referrer\n    }\n}\n"@
}

/// The script gateway configuration: deprecation diagnostics suppressed but
/// all other errors logged to a file, execution and memory ceilings, upload
/// and post size ceilings, UTC timezone, the required extension list, session
/// cookie hardening, and version disclosure disabled.
pub open spec fn spec_php_ini(error_log: Seq<char>) -> Seq<char> {
    "; CAMPP PHP Configuration\n; Settings for PHP 8.3 in local development\n\n[PHP]\n; Error reporting - suppress deprecation warnings for phpMyAdmin compatibility\nerror_reporting = E_ALL & ~E_DEPRECATED\ndisplay_errors = On\ndisplay_startup_errors = On\nlog_errors = On\nerror_log = \""@
        + error_log
        + "\"\n\n; Maximum execution time\nmax_execution_time = 300\n\n; Memory limit\nmemory_limit = 256M\n\n; POST data limit\npost_max_size = 100M\nupload_max_filesize = 100M\n\n; Date timezone\ndate.timezone = UTC\n\n; Extensions\nextension_dir = \"ext\"\nextension=curl\nextension=mbstring\nextension=mysqli\nextension=openssl\nextension=pdo_mysql\nextension=zlib\n\n; Session settings\nsession.save_path = \"/tmp\"\nsession.cookie_httponly = 1\nsession.use_strict_mode = 1\n\n; CGI settings\ncgi.force_redirect = 0\ncgi.fix_pathinfo = 1\n\n; Security settings\nexpose_php = Off\n"@
}

/// The admin tool configuration: the caller's freshly drawn cookie-encryption
/// secret and a single config-authenticated server entry pointing at the
/// database's port on the loopback address.
pub open spec fn spec_phpmyadmin_config(secret: Seq<char>, mysql_port: u16) -> Seq<char> {
    "<?php\n/**\n * CAMPP phpMyAdmin Configuration\n * You can customize this file\n */\n\n// Cookie encryption key (exactly 32 bytes)\n$cfg['blowfish_secret'] = '"@
        + secret
        + "';\n\n// Server configuration\n$i = 0;\n$i++;\n$cfg['Servers'][$i]['auth_type'] = 'config';\n$cfg['Servers'][$i]['user'] = 'root';\n$cfg['Servers'][$i]['password'] = '';\n$cfg['Servers'][$i]['host'] = '127.0.0.1';\n$cfg['Servers'][$i]['port'] = '"@
        + spec_dec(mysql_port as nat)
        + "';\n$cfg['Servers'][$i]['compress'] = false;\n$cfg['Servers'][$i]['AllowNoPassword'] = true;\n\n// Upload directory\n$cfg['UploadDir'] = '';\n$cfg['SaveDir'] = '';\n\n// Temp directory\n$cfg['TempDir'] = './tmp/';\n\n// Disable configuration storage warning (optional advanced features)\n$cfg['PmaNoRelation_DisableWarning'] = true;\n\n// Default language\n$cfg['DefaultLang'] = 'en';\n\n// Theme\n$cfg['ThemeDefault'] = 'pmahomme';\n"@
}

impl ConfigGenerator {
    pub fn new(
        caddy_port: u16,
        php_port: u16,
        mysql_port: u16,
        phpmyadmin_path: String,
        project_root: String,
        config_dir: String,
        logs_dir: String,
    ) -> (r: ConfigGenerator)
        ensures
            r.caddy_port == caddy_port,
            r.php_port == php_port,
            r.mysql_port == mysql_port,
            r.phpmyadmin_path == phpmyadmin_path,
            r.project_root == project_root,
            r.config_dir == config_dir,
            r.logs_dir == logs_dir,
    {
        ConfigGenerator {
            caddy_port,
            php_port,
            mysql_port,
            phpmyadmin_path,
            project_root,
            config_dir,
            logs_dir,
        }
    }

    /// The web server configuration text for this generator's ports and
    /// paths.
    pub fn generate_caddyfile(&self) -> (r: String)
        ensures
            r@ == spec_caddyfile(
                self.caddy_port,
                self.php_port,
                spec_slash(self.phpmyadmin_path@),
                spec_slash(self.project_root@),
                spec_slash(self.logs_dir@) + "/caddy-access.log"@,
            ),
    {
        let pma = slashify(self.phpmyadmin_path.as_str());
        let root = slashify(self.project_root.as_str());
        let logs = slashify(self.logs_dir.as_str());
        let log_file = concat2(logs.as_str(), "/caddy-access.log");
        let caddy_port = u64_dec(self.caddy_port as u64);
        let php_port = u64_dec(self.php_port as u64);
        let mut s = String::from_str(":");
        s.append(caddy_port.as_str());
        s.append(
            " {\n    # phpMyAdmin - must come before global directives\n    # Redirect /phpmyadmin to /phpmyadmin/\n    redir /phpmyadmin /phpmyadmin/\n\n    # Handle phpMyAdmin requests - handle_path strips the /phpmyadmin prefix\n    handle_path /phpmyadmin/* {\n        root * \"",
        );
        s.append(pma.as_str());
        s.append("\"\n        php_fastcgi 127.0.0.1:");
        s.append(php_port.as_str());
        s.append(
            "\n        file_server browse\n    }\n\n    # Root directory for serving files (default project root)\n    root * \"",
        );
        s.append(root.as_str());
        s.append("\"\n\n    # Enable PHP for all other requests\n    php_fastcgi 127.0.0.1:");
        s.append(php_port.as_str());
        s.append(
            "\n\n    # File server for project files\n    file_server browse\n\n    # Logging\n    log {\n        output file \"",
        );
        s.append(log_file.as_str());
        s.append(
            "\"\n        format json\n    }\n\n    # Encode responses\n    encode gzip\n\n    # Security headers\n    header {\n        X-Content-Type-Options nosniff\n        X-Frame-Options SAMEORIGIN\n        Referrer-Policy no-referrer\n    }\n}\n",
        );
        s
    }

    /// The script gateway configuration text, logging errors beside the other
    /// service logs.
    pub fn generate_php_ini(&self) -> (r: String)
        ensures
            r@ == spec_php_ini(spec_slash(self.logs_dir@) + "/php-errors.log"@),
    {
        let logs = slashify(self.logs_dir.as_str());
        let error_log = concat2(logs.as_str(), "/php-errors.log");
        let mut s = String::from_str(
            "; CAMPP PHP Configuration\n; Settings for PHP 8.3 in local development\n\n[PHP]\n; Error reporting - suppress deprecation warnings for phpMyAdmin compatibility\nerror_reporting = E_ALL & ~E_DEPRECATED\ndisplay_errors = On\ndisplay_startup_errors = On\nlog_errors = On\nerror_log = \"",
        );
        s.append(error_log.as_str());
        s.append(
            "\"\n\n; Maximum execution time\nmax_execution_time = 300\n\n; Memory limit\nmemory_limit = 256M\n\n; POST data limit\npost_max_size = 100M\nupload_max_filesize = 100M\n\n; Date timezone\ndate.timezone = UTC\n\n; Extensions\nextension_dir = \"ext\"\nextension=curl\nextension=mbstring\nextension=mysqli\nextension=openssl\nextension=pdo_mysql\nextension=zlib\n\n; Session settings\nsession.save_path = \"/tmp\"\nsession.cookie_httponly = 1\nsession.use_strict_mode = 1\n\n; CGI settings\ncgi.force_redirect = 0\ncgi.fix_pathinfo = 1\n\n; Security settings\nexpose_php = Off\n",
        );
        s
    }

    /// The admin tool configuration text, around the caller's secret.
    pub fn generate_phpmyadmin_config(&self, blowfish_secret: &str) -> (r: String)
        ensures
            r@ == spec_phpmyadmin_config(blowfish_secret@, self.mysql_port),
    {
        let port = u64_dec(self.mysql_port as u64);
        let mut s = String::from_str(
            "<?php\n/**\n * CAMPP phpMyAdmin Configuration\n * You can customize this file\n */\n\n// Cookie encryption key (exactly 32 bytes)\n$cfg['blowfish_secret'] = '",
        );
        s.append(blowfish_secret);
        s.append(
            "';\n\n// Server configuration\n$i = 0;\n$i++;\n$cfg['Servers'][$i]['auth_type'] = 'config';\n$cfg['Servers'][$i]['user'] = 'root';\n$cfg['Servers'][$i]['password'] = '';\n$cfg['Servers'][$i]['host'] = '127.0.0.1';\n$cfg['Servers'][$i]['port'] = '",
        );
        s.append(port.as_str());
        s.append(
            "';\n$cfg['Servers'][$i]['compress'] = false;\n$cfg['Servers'][$i]['AllowNoPassword'] = true;\n\n// Upload directory\n$cfg['UploadDir'] = '';\n$cfg['SaveDir'] = '';\n\n// Temp directory\n$cfg['TempDir'] = './tmp/';\n\n// Disable configuration storage warning (optional advanced features)\n$cfg['PmaNoRelation_DisableWarning'] = true;\n\n// Default language\n$cfg['DefaultLang'] = 'en';\n\n// Theme\n$cfg['ThemeDefault'] = 'pmahomme';\n",
        );
        s
    }
}

} // verus!
