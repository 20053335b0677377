//! Connection options for a SQL backend, assembled through a step-by-step
//! builder. The library only models the configuration; opening a connection
//! from it is the transport adapter's work.

use vstd::prelude::*;

verus! {

/// The settings needed to reach a relational database.
#[derive(Debug, Clone)]
pub struct ConnectOptions {
    pub hostname: String,
    pub port: u16,
    pub username: String,
    pub password: String,
    pub database: String,
}

/// A step-by-step builder for `ConnectOptions`. Each setter changes the
/// builder's type, so `build` only exists once every field has been supplied.
#[derive(Debug, Clone)]
pub struct Builder<Hostname = (), Port = (), Username = (), Password = (), Database = ()> {
    hostname: Hostname,
    port: Port,
    username: Username,
    password: Password,
    database: Database,
}

impl ConnectOptions {
    pub fn builder() -> (r: Builder) {
        Builder::new()
    }
}

impl Builder {
    pub fn new() -> (r: Builder) {
        Builder { hostname: (), port: (), username: (), password: (), database: () }
    }
}

impl Default for Builder {
    /// The default builder has no field supplied yet.
    fn default() -> (r: Builder)
        ensures
            r.hostname_spec() == (),
            r.port_spec() == (),
            r.username_spec() == (),
            r.password_spec() == (),
            r.database_spec() == (),
    {
        Builder::new()
    }
}

impl<Hostname, Port, Username, Password, Database> Builder<Hostname, Port, Username, Password, Database> {
    /// The builder's hostname slot.
    pub closed spec fn hostname_spec(self) -> Hostname {
        self.hostname
    }

    /// The builder's port slot.
    pub closed spec fn port_spec(self) -> Port {
        self.port
    }

    /// The builder's username slot.
    pub closed spec fn username_spec(self) -> Username {
        self.username
    }

    /// The builder's password slot.
    pub closed spec fn password_spec(self) -> Password {
        self.password
    }

    /// The builder's database slot.
    pub closed spec fn database_spec(self) -> Database {
        self.database
    }

    pub fn hostname(self, value: &str) -> (r: Builder<String, Port, Username, Password, Database>)
        ensures
            r.hostname_spec()@ == value@,
            r.port_spec() == self.port_spec(),
            r.username_spec() == self.username_spec(),
            r.password_spec() == self.password_spec(),
            r.database_spec() == self.database_spec(),
    {
        let Self { hostname: _, port, username, password, database } = self;
        Builder { hostname: value.to_owned(), port, username, password, database }
    }

    pub fn port(self, value: u16) -> (r: Builder<Hostname, u16, Username, Password, Database>)
        ensures
            r.port_spec() == value,
            r.hostname_spec() == self.hostname_spec(),
            r.username_spec() == self.username_spec(),
            r.password_spec() == self.password_spec(),
            r.database_spec() == self.database_spec(),
    {
        let Self { hostname, port: _, username, password, database } = self;
        Builder { hostname, port: value, username, password, database }
    }

    pub fn username(self, value: &str) -> (r: Builder<Hostname, Port, String, Password, Database>)
        ensures
            r.username_spec()@ == value@,
            r.hostname_spec() == self.hostname_spec(),
            r.port_spec() == self.port_spec(),
            r.password_spec() == self.password_spec(),
            r.database_spec() == self.database_spec(),
    {
        let Self { hostname, port, username: _, password, database } = self;
        Builder { hostname, port, username: value.to_owned(), password, database }
    }

    pub fn password(self, value: &str) -> (r: Builder<Hostname, Port, Username, String, Database>)
        ensures
            r.password_spec()@ == value@,
            r.hostname_spec() == self.hostname_spec(),
            r.port_spec() == self.port_spec(),
            r.username_spec() == self.username_spec(),
            r.database_spec() == self.database_spec(),
    {
        let Self { hostname, port, username, password: _, database } = self;
        Builder { hostname, port, username, password: value.to_owned(), database }
    }

    pub fn database(self, value: &str) -> (r: Builder<Hostname, Port, Username, Password, String>)
        ensures
            r.database_spec()@ == value@,
            r.hostname_spec() == self.hostname_spec(),
            r.port_spec() == self.port_spec(),
            r.username_spec() == self.username_spec(),
            r.password_spec() == self.password_spec(),
    {
        let Self { hostname, port, username, password, database: _ } = self;
        Builder { hostname, port, username, password, database: value.to_owned() }
    }
}

impl Builder<String, u16, String, String, String> {
    /// Builds the options from the completed configuration.
    pub fn build(self) -> (r: ConnectOptions)
        ensures
            r.hostname == self.hostname_spec(),
            r.port == self.port_spec(),
            r.username == self.username_spec(),
            r.password == self.password_spec(),
            r.database == self.database_spec(),
    {
        let Self { hostname, port, username, password, database } = self;
        ConnectOptions { hostname, port, username, password, database }
    }
}

} // verus!
