use remi_osc::config::OSCOptions;

#[test]
fn default_binds_local_port_9001() {
    let o = OSCOptions::default();
    assert_eq!(o.bind_host, "127.0.0.1");
    assert_eq!(o.bind_port, "9001");
    assert_eq!(o.bind_address(), "127.0.0.1:9001");
}

#[test]
fn parsed_settings_win_over_defaults() {
    let o = OSCOptions::from_parsed(Some(OSCOptions {
        bind_host: "0.0.0.0".to_string(),
        bind_port: "9100".to_string(),
    }));
    assert_eq!(o.bind_address(), "0.0.0.0:9100");
    let o = OSCOptions::from_parsed(None);
    assert_eq!(o.bind_address(), "127.0.0.1:9001");
}
