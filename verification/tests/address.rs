use xray_daemon::address::{remote_addr, DEFAULT_UDP_REMOTE_PORT, LOCAL_BIND_ADDR};

#[test]
fn default_port_is_2000() {
    assert_eq!(DEFAULT_UDP_REMOTE_PORT, 2000);
}

#[test]
fn local_bind_address_is_unspecified() {
    assert_eq!(LOCAL_BIND_ADDR, "0.0.0.0:0");
}

#[test]
fn remote_addr_of_default_port() {
    assert_eq!(remote_addr(2000), "127.0.0.1:2000");
}

#[test]
fn remote_addr_writes_every_digit_count() {
    assert_eq!(remote_addr(0), "127.0.0.1:0");
    assert_eq!(remote_addr(7), "127.0.0.1:7");
    assert_eq!(remote_addr(9), "127.0.0.1:9");
    assert_eq!(remote_addr(10), "127.0.0.1:10");
    assert_eq!(remote_addr(99), "127.0.0.1:99");
    assert_eq!(remote_addr(100), "127.0.0.1:100");
    assert_eq!(remote_addr(1001), "127.0.0.1:1001");
    assert_eq!(remote_addr(5005), "127.0.0.1:5005");
    assert_eq!(remote_addr(10000), "127.0.0.1:10000");
    assert_eq!(remote_addr(12345), "127.0.0.1:12345");
    assert_eq!(remote_addr(65535), "127.0.0.1:65535");
}

#[test]
fn remote_addr_agrees_with_std_formatting() {
    let mut port: u16 = 0;
    loop {
        assert_eq!(remote_addr(port), format!("127.0.0.1:{}", port));
        if port == u16::MAX {
            break;
        }
        port += 1;
    }
}

#[test]
fn different_ports_give_different_addresses() {
    assert_ne!(remote_addr(2000), remote_addr(2001));
    assert_ne!(remote_addr(1), remote_addr(10));
    assert_ne!(remote_addr(12), remote_addr(21));
}
