use ss13_status::config::{default_servers, Config, Server};

#[test]
fn server_new() {
    let s = Server::new("Box", "127.0.0.1", 1234);
    assert_eq!(s.name, "Box");
    assert_eq!(s.ip, "127.0.0.1");
    assert_eq!(s.port, 1234);
}

#[test]
fn defaults() {
    let servers = default_servers();
    assert_eq!(servers.len(), 3);
    let got: Vec<(&str, &str, u16)> =
        servers.iter().map(|s| (s.name.as_str(), s.ip.as_str(), s.port)).collect();
    assert_eq!(
        got,
        vec![
            ("Monkestation MRP1", "104.194.9.21", 3121),
            ("Monkestation MRP2", "104.194.9.21", 3122),
            ("Oculis", "104.194.9.21", 42069),
        ]
    );
    let config = Config { servers };
    assert_eq!(config.servers.len(), 3);
}
