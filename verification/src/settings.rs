//! User-adjustable settings: the three ports and the project root, with the
//! validation rules over them.

use vstd::prelude::*;

use crate::text::{concat2, concat3, spec_dec, u64_dec};

verus! {

/// The three ports the supervisor assigns.
#[derive(Debug, Clone, Copy, PartialEq, Eq, Structural)]
pub struct Ports {
    pub web: u16,
    pub php: u16,
    pub mysql: u16,
}

/// The ports every newly constructed supervisor uses.
pub fn default_ports() -> (r: Ports)
    ensures
        r.web == 8080,
        r.php == 9000,
        r.mysql == 3307,
{
    Ports { web: 8080, php: 9000, mysql: 3307 }
}

/// The persisted application settings.
#[derive(Debug, Clone)]
pub struct AppSettings {
    pub web_port: u16,
    pub php_port: u16,
    pub mysql_port: u16,
    pub project_root: String,
    pub auto_start_services: bool,
}

/// The warning recorded when the project root is missing.
pub open spec fn spec_root_warning(root: Seq<char>) -> Seq<char> {
    "Project root '"@ + root + "' does not exist. It will be created when services start."@
}

/// The warning recorded when a port probe failed; `label` names the port,
/// separator included.
pub open spec fn spec_port_warning(label: Seq<char>, port: u16, err: Seq<char>) -> Seq<char> {
    label + spec_dec(port as nat) + " may be in use: "@ + err
}

/// The warnings `validate` reports, in order: missing project root, then the
/// web, script-gateway and database port probes that failed.
pub open spec fn spec_validate_warnings(
    s: AppSettings,
    project_root_exists: bool,
    web_bind_err: Option<Seq<char>>,
    php_bind_err: Option<Seq<char>>,
    mysql_bind_err: Option<Seq<char>>,
) -> Seq<Seq<char>> {
    (if !project_root_exists {
        seq![spec_root_warning(s.project_root@)]
    } else {
        Seq::empty()
    }) + (match web_bind_err {
        Some(e) => seq![spec_port_warning("Web port "@, s.web_port, e)],
        None => Seq::empty(),
    }) + (match php_bind_err {
        Some(e) => seq![spec_port_warning("PHP-FPM port "@, s.php_port, e)],
        None => Seq::empty(),
    }) + (match mysql_bind_err {
        Some(e) => seq![spec_port_warning("MySQL port "@, s.mysql_port, e)],
        None => Seq::empty(),
    })
}

impl AppSettings {
    /// Settings with the default ports around the given project root.
    pub fn new(project_root: String) -> (r: AppSettings)
        ensures
            r.web_port == 8080,
            r.php_port == 9000,
            r.mysql_port == 3307,
            r.project_root == project_root,
            !r.auto_start_services,
    {
        AppSettings {
            web_port: 8080,
            php_port: 9000,
            mysql_port: 3307,
            project_root,
            auto_start_services: false,
        }
    }

    /// Checks the settings against what the caller observed of the machine:
    /// whether the project root exists and, for each port, the text of the
    /// bind error if binding it failed. A zero port is an error; everything
    /// else at worst a warning.
    pub fn validate(
        &self,
        project_root_exists: bool,
        web_bind_err: Option<String>,
        php_bind_err: Option<String>,
        mysql_bind_err: Option<String>,
    ) -> (r: Result<Vec<String>, Vec<String>>)
        ensures
            self.web_port == 0 || self.php_port == 0 || self.mysql_port == 0 ==> {
                &&& r matches Err(errs)
                &&& errs@.map_values(|x: String| x@) == seq![
                    "Port numbers must be greater than 0"@,
                ]
            },
            self.web_port != 0 && self.php_port != 0 && self.mysql_port != 0 ==> {
                &&& r matches Ok(w)
                &&& w@.map_values(|x: String| x@) == spec_validate_warnings(
                    *self,
                    project_root_exists,
                    match web_bind_err {
                        Some(e) => Some(e@),
                        None => None,
                    },
                    match php_bind_err {
                        Some(e) => Some(e@),
                        None => None,
                    },
                    match mysql_bind_err {
                        Some(e) => Some(e@),
                        None => None,
                    },
                )
            },
    {
        let mut warnings: Vec<String> = Vec::new();
        let ghost f = |x: String| x@;

        if !project_root_exists {
            warnings.push(
                concat3(
                    "Project root '",
                    self.project_root.as_str(),
                    "' does not exist. It will be created when services start.",
                ),
            );
        }
        let ghost seg_root = warnings@.map_values(f);
        proof {
            assert(seg_root =~= (if !project_root_exists {
                seq![spec_root_warning(self.project_root@)]
            } else {
                Seq::<Seq<char>>::empty()
            }));
        }

        if let Some(e) = &web_bind_err {
            let port = u64_dec(self.web_port as u64);
            let head = concat3("Web port ", port.as_str(), " may be in use: ");
            warnings.push(concat2(head.as_str(), e.as_str()));
        }
        let ghost seg_web = warnings@.map_values(f);
        proof {
            assert(seg_web =~= seg_root + (match web_bind_err {
                Some(e) => seq![spec_port_warning("Web port "@, self.web_port, e@)],
                None => Seq::<Seq<char>>::empty(),
            }));
        }

        if let Some(e) = &php_bind_err {
            let port = u64_dec(self.php_port as u64);
            let head = concat3("PHP-FPM port ", port.as_str(), " may be in use: ");
            warnings.push(concat2(head.as_str(), e.as_str()));
        }
        let ghost seg_php = warnings@.map_values(f);
        proof {
            assert(seg_php =~= seg_web + (match php_bind_err {
                Some(e) => seq![spec_port_warning("PHP-FPM port "@, self.php_port, e@)],
                None => Seq::<Seq<char>>::empty(),
            }));
        }

        if let Some(e) = &mysql_bind_err {
            let port = u64_dec(self.mysql_port as u64);
            let head = concat3("MySQL port ", port.as_str(), " may be in use: ");
            warnings.push(concat2(head.as_str(), e.as_str()));
        }

        proof {
            assert(warnings@.map_values(f) =~= seg_php + (match mysql_bind_err {
                Some(e) => seq![spec_port_warning("MySQL port "@, self.mysql_port, e@)],
                None => Seq::<Seq<char>>::empty(),
            }));
        }

        if self.web_port == 0 || self.php_port == 0 || self.mysql_port == 0 {
            let mut errors: Vec<String> = Vec::new();
            errors.push(String::from_str("Port numbers must be greater than 0"));
            proof {
                assert(errors@.map_values(f) =~= seq!["Port numbers must be greater than 0"@]);
            }
            return Err(errors);
        }
        proof {
            assert(warnings@.map_values(f) =~= spec_validate_warnings(
                *self,
                project_root_exists,
                match web_bind_err {
                    Some(e) => Some(e@),
                    None => None,
                },
                match php_bind_err {
                    Some(e) => Some(e@),
                    None => None,
                },
                match mysql_bind_err {
                    Some(e) => Some(e@),
                    None => None,
                },
            ));
        }
        Ok(warnings)
    }
}

impl Default for AppSettings {
    /// Settings with the default ports and an empty project root; the caller
    /// fills the root in from the machine's data directory.
    fn default() -> (r: AppSettings)
        ensures
            r.web_port == 8080,
            r.php_port == 9000,
            r.mysql_port == 3307,
            r.project_root@ == Seq::<char>::empty(),
            !r.auto_start_services,
    {
        AppSettings::new(String::new())
    }
}

} // verus!
