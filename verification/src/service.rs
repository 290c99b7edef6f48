//! The three supervised service kinds and their observable state.

use vstd::prelude::*;

verus! {

/// The closed set of supervised processes: the web server, the
/// script-execution gateway and the database server.
#[derive(Debug, Clone, Copy, PartialEq, Eq, Hash, Structural)]
pub enum ServiceType {
    Caddy,
    PhpFpm,
    MariaDB,
}

impl ServiceType {
    /// The port a freshly constructed supervisor assigns to this kind.
    pub open spec fn spec_default_port(self) -> u16 {
        match self {
            ServiceType::Caddy => 8080,
            ServiceType::PhpFpm => 9000,
            ServiceType::MariaDB => 3307,
        }
    }

    pub fn default_port(&self) -> (r: u16)
        ensures
            r == self.spec_default_port(),
    {
        match self {
            ServiceType::Caddy => 8080,
            ServiceType::PhpFpm => 9000,
            ServiceType::MariaDB => 3307,
        }
    }

    pub fn display_name(&self) -> (r: &'static str)
        ensures
            self is Caddy ==> r@ == "Caddy"@,
            self is PhpFpm ==> r@ == "PHP-FPM 8.3"@,
            self is MariaDB ==> r@ == "MariaDB"@,
    {
        match self {
            ServiceType::Caddy => "Caddy",
            ServiceType::PhpFpm => "PHP-FPM 8.3",
            ServiceType::MariaDB => "MariaDB",
        }
    }

    pub fn description(&self) -> (r: &'static str)
        ensures
            self is Caddy ==> r@ == "Web Server"@,
            self is PhpFpm ==> r@ == "PHP Runtime"@,
            self is MariaDB ==> r@ == "Database Server"@,
    {
        match self {
            ServiceType::Caddy => "Web Server",
            ServiceType::PhpFpm => "PHP Runtime",
            ServiceType::MariaDB => "Database Server",
        }
    }

    /// The executable file name the locator must find for this kind.
    pub open spec fn spec_binary_name(self) -> Seq<char> {
        match self {
            ServiceType::Caddy => "caddy"@,
            ServiceType::PhpFpm => "php-cgi"@,
            ServiceType::MariaDB => "mysqld"@,
        }
    }

    pub fn binary_name(&self) -> (r: &'static str)
        ensures
            r@ == self.spec_binary_name(),
    {
        match self {
            ServiceType::Caddy => "caddy",
            ServiceType::PhpFpm => "php-cgi",
            ServiceType::MariaDB => "mysqld",
        }
    }
}

/// One service's lifecycle state. `Starting` and `Stopping` are only
/// observable between the two halves of a start; error text lives beside the
/// state, not inside it.
#[derive(Debug, Clone, Copy, PartialEq, Eq, Hash, Structural)]
pub enum ServiceState {
    Stopped,
    Starting,
    Running,
    Stopping,
    Error,
}

impl ServiceState {
    pub fn is_running(&self) -> (r: bool)
        ensures
            r == (self is Running),
    {
        matches!(self, ServiceState::Running)
    }

    pub fn is_transitioning(&self) -> (r: bool)
        ensures
            r == (self is Starting || self is Stopping),
    {
        matches!(self, ServiceState::Starting | ServiceState::Stopping)
    }
}

/// A read-only snapshot of one service, as handed to status queries.
#[derive(Debug, Clone)]
pub struct ServiceInfo {
    pub service_type: ServiceType,
    pub state: ServiceState,
    pub port: u16,
    pub error_message: Option<String>,
}

impl ServiceInfo {
    pub fn new(service_type: ServiceType) -> (r: ServiceInfo)
        ensures
            r.service_type == service_type,
            r.state is Stopped,
            r.port == service_type.spec_default_port(),
            r.error_message is None,
    {
        ServiceInfo {
            port: service_type.default_port(),
            service_type,
            state: ServiceState::Stopped,
            error_message: None,
        }
    }
}

/// The aggregate status map, one optional slot per service kind. Status
/// queries fill all three slots.
#[derive(Debug, Clone)]
pub struct ServiceMap {
    pub caddy: Option<ServiceInfo>,
    pub php_fpm: Option<ServiceInfo>,
    pub mariadb: Option<ServiceInfo>,
}

impl ServiceMap {
    pub open spec fn spec_get(self, k: ServiceType) -> Option<ServiceInfo> {
        match k {
            ServiceType::Caddy => self.caddy,
            ServiceType::PhpFpm => self.php_fpm,
            ServiceType::MariaDB => self.mariadb,
        }
    }

    pub open spec fn spec_len(self) -> int {
        (if self.caddy is Some {
            1int
        } else {
            0int
        }) + (if self.php_fpm is Some {
            1int
        } else {
            0int
        }) + (if self.mariadb is Some {
            1int
        } else {
            0int
        })
    }

    pub fn new() -> (r: ServiceMap)
        ensures
            forall|k: ServiceType| #[trigger] r.spec_get(k) is None,
            r.spec_len() == 0,
    {
        let r = ServiceMap { caddy: None, php_fpm: None, mariadb: None };
        proof {
            assert forall|k: ServiceType| #[trigger] r.spec_get(k) is None by {
                if k is Caddy {
                } else if k is PhpFpm {
                } else {
                }
            }
        }
        r
    }

    /// Puts `info` in the slot for `k`, replacing what was there.
    pub fn insert(&mut self, k: ServiceType, info: ServiceInfo)
        ensures
            final(self).spec_get(k) == Some(info),
            forall|j: ServiceType|
                j != k ==> #[trigger] final(self).spec_get(j) == old(self).spec_get(j),
    {
        match k {
            ServiceType::Caddy => {
                self.caddy = Some(info);
            },
            ServiceType::PhpFpm => {
                self.php_fpm = Some(info);
            },
            ServiceType::MariaDB => {
                self.mariadb = Some(info);
            },
        }
        proof {
            assert forall|j: ServiceType|
                j != k implies #[trigger] final(self).spec_get(j) == old(self).spec_get(j) by {
                if j is Caddy {
                } else if j is PhpFpm {
                } else {
                }
            }
        }
    }

    pub fn get(&self, k: ServiceType) -> (r: Option<&ServiceInfo>)
        ensures
            match r {
                Some(info) => self.spec_get(k) == Some(*info),
                None => self.spec_get(k) is None,
            },
    {
        match k {
            ServiceType::Caddy => self.caddy.as_ref(),
            ServiceType::PhpFpm => self.php_fpm.as_ref(),
            ServiceType::MariaDB => self.mariadb.as_ref(),
        }
    }

    pub fn contains_key(&self, k: ServiceType) -> (r: bool)
        ensures
            r == (self.spec_get(k) is Some),
    {
        match k {
            ServiceType::Caddy => self.caddy.is_some(),
            ServiceType::PhpFpm => self.php_fpm.is_some(),
            ServiceType::MariaDB => self.mariadb.is_some(),
        }
    }

    /// How many slots are filled.
    pub fn len(&self) -> (r: usize)
        ensures
            r == self.spec_len(),
    {
        let mut n: usize = 0;
        if self.caddy.is_some() {
            n += 1;
        }
        if self.php_fpm.is_some() {
            n += 1;
        }
        if self.mariadb.is_some() {
            n += 1;
        }
        n
    }
}

} // verus!
