use aria2_bridge::endpoint::{daemon_args, endpoint_url, DaemonEndpoint};

#[test]
fn loopback_url_for_port() {
    assert_eq!(endpoint_url(6801), "ws://127.0.0.1:6801/jsonrpc");
    assert_eq!(endpoint_url(80), "ws://127.0.0.1:80/jsonrpc");
}

#[test]
fn launch_flags() {
    let args = daemon_args(6801);
    assert_eq!(
        args,
        vec![
            "--no-conf".to_string(),
            "--enable-rpc".to_string(),
            "--rpc-listen-port=6801".to_string(),
            "--rpc-allow-origin-all".to_string(),
            "--quiet=true".to_string(),
        ]
    );
}

#[test]
fn endpoint_slot_starts_unset_and_takes_a_port() {
    let e = DaemonEndpoint::new();
    assert_eq!(e.read_url(), "");
    e.set_port(6801);
    assert_eq!(e.read_url(), "ws://127.0.0.1:6801/jsonrpc");
    e.set_port(6802);
    assert_eq!(e.read_url(), "ws://127.0.0.1:6802/jsonrpc");
}
