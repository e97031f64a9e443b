//! How to reach the database: the settings of a connection.

use vstd::prelude::*;

verus! {

/// The settings of a connection to the database.
#[derive(Debug, PartialEq, Eq)]
pub struct Config {
    pub host: String,
    pub user: String,
    pub password: String,
    pub dbname: String,
    pub port: u16,
}

/// The host to connect to: the one that is configured, else the socket
/// directory of the named cloud instance.
pub open spec fn host_of(db_host: Option<String>, instance: Option<String>) -> Seq<char> {
    match db_host {
        Some(host) => host@,
        None => "/cloudsql/"@ + instance.unwrap()@,
    }
}

impl Config {
    /// The settings that the environment's values give. The port is 5432.
    ///
    /// A host or an instance name must be at hand.
    pub fn new(
        db_host: Option<String>,
        instance: Option<String>,
        user: String,
        password: String,
        dbname: String,
    ) -> (c: Self)
        requires
            db_host is Some || instance is Some,
        ensures
            c.host@ == host_of(db_host, instance),
            c.user == user,
            c.password == password,
            c.dbname == dbname,
            c.port == 5432,
    {
        let host = match db_host {
            Some(host) => host,
            None => {
                let mut host = "/cloudsql/".to_owned();
                let name = instance.unwrap();
                host.append(name.as_str());
                host
            },
        };
        Config { host, user, password, dbname, port: 5432 }
    }
}

} // verus!
