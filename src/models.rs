use vstd::prelude::*;

verus! {

/// Non-secret settings of one stored connection. The password never lives here.
pub struct ConnectionConfig {
    pub id: String,
    pub name: String,
    pub host: String,
    pub port: u16,
    pub database: String,
    pub username: String,
}

impl ConnectionConfig {
    /// A field-by-field copy of the configuration.
    pub fn snapshot(&self) -> (r: ConnectionConfig)
        ensures
            r == *self,
    {
        ConnectionConfig {
            id: self.id.clone(),
            name: self.name.clone(),
            host: self.host.clone(),
            port: self.port,
            database: self.database.clone(),
            username: self.username.clone(),
        }
    }
}

} // verus!
