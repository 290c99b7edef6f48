//! Database administration surface for the front-end. The bundled server
//! runs with config-based, password-less local access and owns its own
//! databases, so these operations accept their inputs and report the fixed
//! local connection.

use vstd::prelude::*;

verus! {

/// How clients reach the local database server.
#[derive(Debug, Clone)]
pub struct ConnectionInfo {
    pub host: String,
    pub port: u16,
    pub user: String,
    pub password: String,
}

/// Accepts the data directory; the server bootstraps its own data directory
/// during start, so this reports success without further action.
pub fn initialize_mariadb(data_dir: &str) -> (r: Result<(), String>)
    ensures
        r matches Ok(()),
{
    let _ = data_dir;
    Ok(())
}

/// Accepts any database name and reports success; the server owns its
/// databases.
pub fn create_database(name: &str) -> (r: Result<(), String>)
    ensures
        r matches Ok(()),
{
    let _ = name;
    Ok(())
}

/// Accepts any database name and reports success; the server owns its
/// databases.
pub fn drop_database(name: &str) -> (r: Result<(), String>)
    ensures
        r matches Ok(()),
{
    let _ = name;
    Ok(())
}

/// No databases are tracked outside the server, so the listing is empty.
pub fn list_databases() -> (r: Result<Vec<String>, String>)
    ensures
        r matches Ok(v) && v@.len() == 0,
{
    Ok(Vec::new())
}

/// The fixed local connection: the loopback host, the database's default
/// port, the root user and an empty password.
pub fn get_connection_info() -> (r: ConnectionInfo)
    ensures
        r.host@ == "127.0.0.1"@,
        r.port == 3307,
        r.user@ == "root"@,
        r.password@ == Seq::<char>::empty(),
{
    ConnectionInfo {
        host: String::from_str("127.0.0.1"),
        port: 3307,
        user: String::from_str("root"),
        password: String::new(),
    }
}

} // verus!
