use vstd::prelude::*;

verus! {

/// The viewer's configuration: the servers it cycles through.
#[derive(Debug, Clone)]
pub struct Config {
    pub servers: Vec<Server>,
}

/// A game server: the name shown on screen and the address of its topic port.
#[derive(Debug, Clone)]
pub struct Server {
    pub name: String,
    pub ip: String,
    pub port: u16,
}

impl Server {
    /// A server with the given name, IPv4 address text and port.
    pub fn new(name: &str, ip: &str, port: u16) -> (s: Self)
        ensures
            s.name@ == name@,
            s.ip@ == ip@,
            s.port == port,
    {
        Self { name: name.to_owned(), ip: ip.to_owned(), port }
    }
}

/// Whether `s` is the server named `name` at `ip`:`port`.
pub open spec fn is_server(s: Server, name: Seq<char>, ip: Seq<char>, port: u16) -> bool {
    s.name@ == name && s.ip@ == ip && s.port == port
}

/// The servers used when no configuration file is found or it cannot be read.
pub fn default_servers() -> (servers: Vec<Server>)
    ensures
        servers@.len() == 3,
        is_server(servers@[0], "Monkestation MRP1"@, "104.194.9.21"@, 3121),
        is_server(servers@[1], "Monkestation MRP2"@, "104.194.9.21"@, 3122),
        is_server(servers@[2], "Oculis"@, "104.194.9.21"@, 42069),
{
    vec![
        Server::new("Monkestation MRP1", "104.194.9.21", 3121),
        Server::new("Monkestation MRP2", "104.194.9.21", 3122),
        Server::new("Oculis", "104.194.9.21", 42069),
    ]
}

} // verus!
