use vmm_cli_args::error::ParseError;
use vmm_cli_args::serial::DebugconSerialConfigCli;
use vmm_cli_args::serial::SerialConfigCli;
use vmm_cli_args::serial::parse_keyvalues;
use vmm_cli_args::sockaddr::SocketAddrCli;
use vmm_cli_args::sockaddr::parse_socket_addr;

#[test]
fn test_serial_config_from_str() {
    assert_eq!(
        SerialConfigCli::from_str("none").unwrap(),
        SerialConfigCli::Disabled
    );
    assert_eq!(
        SerialConfigCli::from_str("console").unwrap(),
        SerialConfigCli::Console
    );
    assert_eq!(
        SerialConfigCli::from_str("stderr").unwrap(),
        SerialConfigCli::Stderr
    );

    // Test file config
    let file_config = SerialConfigCli::from_str("file=/path/to/file").unwrap();
    if let SerialConfigCli::File(path) = file_config {
        assert_eq!(path, "/path/to/file");
    } else {
        panic!("Expected File variant");
    }

    // Test term config with name
    match SerialConfigCli::from_str("term=/dev/pts/0,name=MyTerm").unwrap() {
        SerialConfigCli::NewConsole(Some(path), Some(name)) => {
            assert_eq!(path, "/dev/pts/0");
            assert_eq!(name, "MyTerm");
        }
        _ => panic!("Expected NewConsole variant with name"),
    }

    // Test term config without name
    match SerialConfigCli::from_str("term=/dev/pts/0").unwrap() {
        SerialConfigCli::NewConsole(Some(path), None) => {
            assert_eq!(path, "/dev/pts/0");
        }
        _ => panic!("Expected NewConsole variant without name"),
    }

    // Test TCP config
    match SerialConfigCli::from_str("listen=tcp:127.0.0.1:1234").unwrap() {
        SerialConfigCli::Tcp(addr) => {
            assert_eq!(addr.to_string(), "127.0.0.1:1234");
        }
        _ => panic!("Expected Tcp variant"),
    }

    // Test pipe config
    match SerialConfigCli::from_str("listen=/path/to/pipe").unwrap() {
        SerialConfigCli::Pipe(path) => {
            assert_eq!(path, "/path/to/pipe");
        }
        _ => panic!("Expected Pipe variant"),
    }

    // Test error cases
    assert!(SerialConfigCli::from_str("").is_err());
    assert!(SerialConfigCli::from_str("unknown").is_err());
    assert!(SerialConfigCli::from_str("file").is_err());
    assert!(SerialConfigCli::from_str("listen").is_err());
}

#[test]
fn test_serial_error_kinds() {
    assert!(matches!(
        SerialConfigCli::from_str("unknown"),
        Err(ParseError::UnknownSerialOption(k)) if k == "unknown"
    ));
    assert!(matches!(
        SerialConfigCli::from_str("file"),
        Err(ParseError::MissingRequiredValue(k)) if k == "file"
    ));
    assert!(matches!(
        SerialConfigCli::from_str("listen"),
        Err(ParseError::MissingRequiredValue(k)) if k == "listen"
    ));
    assert!(matches!(
        SerialConfigCli::from_str("listen=tcp:notanaddr"),
        Err(ParseError::InvalidSocketAddress(a)) if a == "notanaddr"
    ));
    assert!(matches!(
        SerialConfigCli::from_str(""),
        Err(ParseError::EmptyOrMissingSegment(_))
    ));
}

#[test]
fn test_serial_name_scan_is_whole_list() {
    // The window title comes from any later `name=` pair, not just the
    // adjacent one.
    match SerialConfigCli::from_str("term=/dev/pts/1,extra,name=T2").unwrap() {
        SerialConfigCli::NewConsole(Some(path), Some(name)) => {
            assert_eq!(path, "/dev/pts/1");
            assert_eq!(name, "T2");
        }
        _ => panic!("Expected NewConsole variant with name"),
    }
    // A `name` key without a value gives no title on its own...
    match SerialConfigCli::from_str("term=/dev/pts/1,name").unwrap() {
        SerialConfigCli::NewConsole(Some(_), None) => {}
        _ => panic!("Expected NewConsole variant without name"),
    }
    // ...and does not block a later `name=` pair that has one.
    match SerialConfigCli::from_str("term=/dev/pts/1,name,name=T3").unwrap() {
        SerialConfigCli::NewConsole(Some(_), Some(name)) => {
            assert_eq!(name, "T3");
        }
        _ => panic!("Expected NewConsole variant with name"),
    }
    // The title scan applies even when `term` itself has no value.
    match SerialConfigCli::from_str("term,name=T").unwrap() {
        SerialConfigCli::NewConsole(None, Some(name)) => {
            assert_eq!(name, "T");
        }
        _ => panic!("Expected NewConsole variant with name only"),
    }
    match SerialConfigCli::from_str("term").unwrap() {
        SerialConfigCli::NewConsole(None, None) => {}
        _ => panic!("Expected bare NewConsole variant"),
    }
}

#[test]
fn test_keyvalue_list() {
    let kvs = parse_keyvalues("a=b,c").unwrap();
    assert_eq!(kvs.len(), 2);
    assert_eq!(kvs[0].0, "a");
    assert_eq!(kvs[0].1.as_deref(), Some("b"));
    assert_eq!(kvs[1].0, "c");
    assert_eq!(kvs[1].1, None);

    // Split on the first `=` only: the value keeps later equals signs.
    let kvs = parse_keyvalues("a=b=c").unwrap();
    assert_eq!(kvs[0].0, "a");
    assert_eq!(kvs[0].1.as_deref(), Some("b=c"));

    // An empty key is a hard error.
    assert!(parse_keyvalues("=x").is_err());
    assert!(parse_keyvalues("a=b,,c").is_err());
}

#[test]
fn test_socket_addr_parsing() {
    let a = parse_socket_addr("10.0.0.1:80").unwrap();
    assert_eq!(
        a,
        SocketAddrCli::V4 {
            ip0: 10,
            ip1: 0,
            ip2: 0,
            ip3: 1,
            port: 80
        }
    );
    assert_eq!(a.to_string(), "10.0.0.1:80");

    let a = parse_socket_addr("255.255.255.255:65535").unwrap();
    assert_eq!(a.to_string(), "255.255.255.255:65535");

    assert!(parse_socket_addr("10.0.0:80").is_none());
    assert!(parse_socket_addr("10.0.0.256:80").is_none());
    assert!(parse_socket_addr("10.0.0.01:80").is_none());
    assert!(parse_socket_addr("10.0.0.1").is_none());
    assert!(parse_socket_addr("10.0.0.1:65536").is_none());
    assert!(parse_socket_addr("10.0.0.1:").is_none());
    assert!(parse_socket_addr("a.b.c.d:80").is_none());
}

#[test]
fn test_socket_addr_v6_parsing() {
    // Loopback through `::` compression.
    let a = parse_socket_addr("[::1]:1234").unwrap();
    assert_eq!(
        a,
        SocketAddrCli::V6 {
            g0: 0,
            g1: 0,
            g2: 0,
            g3: 0,
            g4: 0,
            g5: 0,
            g6: 0,
            g7: 1,
            scope: 0,
            port: 1234
        }
    );
    assert_eq!(a.to_string(), "[0:0:0:0:0:0:0:1]:1234");

    // All-zero address, compression in the middle, trailing compression.
    assert_eq!(parse_socket_addr("[::]:80").unwrap().to_string(), "[0:0:0:0:0:0:0:0]:80");
    assert_eq!(
        parse_socket_addr("[2001:db8::8:800:200C:417A]:80").unwrap().to_string(),
        "[2001:db8:0:0:8:800:200c:417a]:80"
    );
    assert_eq!(parse_socket_addr("[fe80::]:80").unwrap().to_string(), "[fe80:0:0:0:0:0:0:0]:80");

    // Eight explicit groups need no compression.
    assert_eq!(
        parse_socket_addr("[1:2:3:4:5:6:7:8]:9").unwrap().to_string(),
        "[1:2:3:4:5:6:7:8]:9"
    );

    // A scope identifier after `%`.
    let a = parse_socket_addr("[fe80::1%5]:80").unwrap();
    assert!(matches!(a, SocketAddrCli::V6 { scope: 5, port: 80, .. }));
    assert_eq!(a.to_string(), "[fe80:0:0:0:0:0:0:1%5]:80");

    // An embedded dotted quad fills the last two groups.
    let a = parse_socket_addr("[::ffff:192.168.0.1]:443").unwrap();
    assert!(matches!(
        a,
        SocketAddrCli::V6 {
            g5: 0xffff,
            g6: 0xc0a8,
            g7: 0x0001,
            ..
        }
    ));

    // Malformed forms.
    assert!(parse_socket_addr("[::1]").is_none()); // no port
    assert!(parse_socket_addr("[:::]:80").is_none()); // stray colon
    assert!(parse_socket_addr("[1::2::3]:80").is_none()); // two compressions
    assert!(parse_socket_addr("[1:2:3:4:5:6:7]:80").is_none()); // seven groups
    assert!(parse_socket_addr("[1:2:3:4:5:6:7:8:9]:80").is_none()); // nine groups
    assert!(parse_socket_addr("[1:2:3:4:5:6:7:8::]:80").is_none()); // eight and ::
    assert!(parse_socket_addr("[12345::]:80").is_none()); // five hex digits
    assert!(parse_socket_addr("[1.2.3.4]:80").is_none()); // bare quad in brackets
    assert!(parse_socket_addr("[1.2.3.4::1]:80").is_none()); // quad before ::
    assert!(parse_socket_addr("[::1%]:80").is_none()); // empty scope
    assert!(parse_socket_addr("::1:80").is_none()); // v6 without brackets
}

#[test]
fn test_serial_listen_tcp_v6() {
    match SerialConfigCli::from_str("listen=tcp:[::1]:9999").unwrap() {
        SerialConfigCli::Tcp(addr) => {
            assert_eq!(addr.to_string(), "[0:0:0:0:0:0:0:1]:9999");
        }
        _ => panic!("Expected Tcp variant"),
    }
}

#[test]
fn test_debugcon_from_str() {
    let d = DebugconSerialConfigCli::from_str("0x3f8,none").unwrap();
    assert_eq!(d.port, 0x3f8);
    assert_eq!(d.serial, SerialConfigCli::Disabled);

    let d = DebugconSerialConfigCli::from_str("1016,console").unwrap();
    assert_eq!(d.port, 1016);
    assert_eq!(d.serial, SerialConfigCli::Console);

    // Missing comma, malformed port, oversized port.
    assert!(matches!(
        DebugconSerialConfigCli::from_str("none"),
        Err(ParseError::EmptyOrMissingSegment(_))
    ));
    assert!(matches!(
        DebugconSerialConfigCli::from_str("zz,none"),
        Err(ParseError::MalformedNumber(p)) if p == "zz"
    ));
    assert!(matches!(
        DebugconSerialConfigCli::from_str("65536,none"),
        Err(ParseError::MalformedNumber(_))
    ));
}
