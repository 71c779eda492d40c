use vstd::prelude::*;

verus! {

/// Storage engine of a database on the server.
#[derive(Debug, Clone, Copy, PartialEq, Eq, Structural)]
pub enum DatabaseType {
    Memory,
    PLocal,
}

impl DatabaseType {
    /// The engine's name as sent on the wire.
    pub fn as_str(&self) -> (r: &'static str)
        ensures
            r@ == self.as_str_spec(),
    {
        match self {
            DatabaseType::Memory => "memory",
            DatabaseType::PLocal => "plocal",
        }
    }

    pub open spec fn as_str_spec(&self) -> Seq<char> {
        match self {
            DatabaseType::Memory => "memory"@,
            DatabaseType::PLocal => "plocal"@,
        }
    }
}

/// Where to reach the server and how many raw connections to keep.
#[derive(Debug, Clone)]
pub struct ConnectionOptions {
    pub host: String,
    pub port: u16,
    pub pool_size: u32,
}

impl ConnectionOptions {
    /// The defaults: localhost, port 2424, ten pooled connections.
    pub fn new_default() -> (r: ConnectionOptions)
        ensures
            r.host@ == "localhost"@,
            r.port == 2424,
            r.pool_size == 10,
    {
        ConnectionOptions { host: "localhost".to_owned(), port: 2424, pool_size: 10 }
    }

    pub fn builder() -> (r: ConnectionOptionsBuilder)
        ensures
            r.0.host@ == "localhost"@,
            r.0.port == 2424,
            r.0.pool_size == 10,
    {
        ConnectionOptionsBuilder(ConnectionOptions::new_default())
    }
}

impl Default for ConnectionOptions {
    fn default() -> (r: ConnectionOptions)
        ensures
            r.host@ == "localhost"@,
            r.port == 2424,
            r.pool_size == 10,
    {
        ConnectionOptions::new_default()
    }
}

/// Fluent construction of connection options.
#[derive(Debug)]
pub struct ConnectionOptionsBuilder(pub ConnectionOptions);

impl ConnectionOptionsBuilder {
    pub fn host(self, host: &str) -> (r: ConnectionOptionsBuilder)
        ensures
            r.0.host@ == host@,
            r.0.port == self.0.port,
            r.0.pool_size == self.0.pool_size,
    {
        let mut opts = self.0;
        opts.host = host.to_owned();
        ConnectionOptionsBuilder(opts)
    }

    pub fn port(self, port: u16) -> (r: ConnectionOptionsBuilder)
        ensures
            r.0.host@ == self.0.host@,
            r.0.port == port,
            r.0.pool_size == self.0.pool_size,
    {
        let mut opts = self.0;
        opts.port = port;
        ConnectionOptionsBuilder(opts)
    }

    pub fn pool_size(self, pool_size: u32) -> (r: ConnectionOptionsBuilder)
        ensures
            r.0.host@ == self.0.host@,
            r.0.port == self.0.port,
            r.0.pool_size == pool_size,
    {
        let mut opts = self.0;
        opts.pool_size = pool_size;
        ConnectionOptionsBuilder(opts)
    }

    pub fn build(self) -> (r: ConnectionOptions)
        ensures
            r.host@ == self.0.host@,
            r.port == self.0.port,
            r.pool_size == self.0.pool_size,
    {
        self.0
    }
}

} // verus!
