use vmm_cli_args::boot::PcatBootOrderCli;
use vmm_cli_args::boot::default_pcat_boot_order;
use vmm_cli_args::config::DeviceVtl;
use vmm_cli_args::config::Hypervisor;
use vmm_cli_args::config::PcatBootDevice;
use vmm_cli_args::config::SmtConfigCli;
use vmm_cli_args::config::Vtl2BaseAddressType;
use vmm_cli_args::config::X2ApicConfig;
use vmm_cli_args::config::parse_hypervisor;
use vmm_cli_args::config::parse_x2apic;
use vmm_cli_args::error::ParseError;
use vmm_cli_args::fsargs::FsArgs;
use vmm_cli_args::fsargs::FsArgsWithOptions;
use vmm_cli_args::net::EndpointConfigCli;
use vmm_cli_args::net::NicConfigCli;
use vmm_cli_args::numeric::parse_memory;
use vmm_cli_args::numeric::parse_number;
use vmm_cli_args::shim::MemoryVtlType;
use vmm_cli_args::vtl2::parse_vtl2_relocation;

#[test]
fn test_fs_args_from_str() {
    let args = FsArgs::from_str("tag1,/path/to/fs").unwrap();
    assert_eq!(args.tag, "tag1");
    assert_eq!(args.path, "/path/to/fs");

    // Test error cases
    assert!(FsArgs::from_str("tag1").is_err());
    assert!(FsArgs::from_str("tag1,/path,extra").is_err());
}

#[test]
fn test_fs_args_with_options_from_str() {
    let args = FsArgsWithOptions::from_str("tag1,/path/to/fs,opt1,opt2").unwrap();
    assert_eq!(args.tag, "tag1");
    assert_eq!(args.path, "/path/to/fs");
    assert_eq!(args.options, "opt1;opt2");

    // Test without options
    let args = FsArgsWithOptions::from_str("tag1,/path/to/fs").unwrap();
    assert_eq!(args.tag, "tag1");
    assert_eq!(args.path, "/path/to/fs");
    assert_eq!(args.options, "");

    // Test error case
    assert!(FsArgsWithOptions::from_str("tag1").is_err());
}

#[test]
fn test_endpoint_config_from_str() {
    // Test none
    assert!(matches!(
        EndpointConfigCli::from_str("none").unwrap(),
        EndpointConfigCli::Disabled
    ));

    // Test consomme without cidr
    match EndpointConfigCli::from_str("consomme").unwrap() {
        EndpointConfigCli::Consomme { cidr: None } => (),
        _ => panic!("Expected Consomme variant without cidr"),
    }

    // Test consomme with cidr
    match EndpointConfigCli::from_str("consomme:192.168.0.0/24").unwrap() {
        EndpointConfigCli::Consomme { cidr: Some(cidr) } => {
            assert_eq!(cidr, "192.168.0.0/24");
        }
        _ => panic!("Expected Consomme variant with cidr"),
    }

    // Test dio without id
    match EndpointConfigCli::from_str("dio").unwrap() {
        EndpointConfigCli::Dio { id: None } => (),
        _ => panic!("Expected Dio variant without id"),
    }

    // Test dio with id
    match EndpointConfigCli::from_str("dio:test_id").unwrap() {
        EndpointConfigCli::Dio { id: Some(id) } => {
            assert_eq!(id, "test_id");
        }
        _ => panic!("Expected Dio variant with id"),
    }

    // Test tap
    match EndpointConfigCli::from_str("tap:tap0").unwrap() {
        EndpointConfigCli::Tap { name } => {
            assert_eq!(name, "tap0");
        }
        _ => panic!("Expected Tap variant"),
    }

    // Test error case
    assert!(EndpointConfigCli::from_str("invalid").is_err());
}

#[test]
fn test_nic_config_from_str() {
    // Test basic endpoint
    let config = NicConfigCli::from_str("none").unwrap();
    assert_eq!(config.vtl, DeviceVtl::Vtl0);
    assert!(config.max_queues.is_none());
    assert!(!config.underhill);
    assert!(matches!(config.endpoint, EndpointConfigCli::Disabled));

    // Test with vtl2
    let config = NicConfigCli::from_str("vtl2:none").unwrap();
    assert_eq!(config.vtl, DeviceVtl::Vtl2);
    assert!(matches!(config.endpoint, EndpointConfigCli::Disabled));

    // Test with queues
    let config = NicConfigCli::from_str("queues=4:none").unwrap();
    assert_eq!(config.max_queues, Some(4));
    assert!(matches!(config.endpoint, EndpointConfigCli::Disabled));

    // Test with underhill
    let config = NicConfigCli::from_str("uh:none").unwrap();
    assert!(config.underhill);
    assert!(matches!(config.endpoint, EndpointConfigCli::Disabled));

    // Test error cases
    assert!(NicConfigCli::from_str("queues=invalid:none").is_err());
    assert!(NicConfigCli::from_str("uh:vtl2:none").is_err()); // uh incompatible with vtl2
}

#[test]
fn test_nic_error_kinds() {
    assert!(matches!(
        NicConfigCli::from_str("uh:vtl2:none"),
        Err(ParseError::IncompatibleOptionCombination(s)) if s == "uh:vtl2:none"
    ));
    assert!(matches!(
        NicConfigCli::from_str("queues=invalid:none"),
        Err(ParseError::InvalidQueueCount(v)) if v == "invalid"
    ));
    assert!(matches!(
        NicConfigCli::from_str("invalid"),
        Err(ParseError::InvalidEndpointBackend(s)) if s == "invalid"
    ));
}

#[test]
fn test_smt_config_from_str() {
    assert_eq!(SmtConfigCli::from_str("auto").unwrap(), SmtConfigCli::Auto);
    assert_eq!(
        SmtConfigCli::from_str("force").unwrap(),
        SmtConfigCli::Force
    );
    assert_eq!(SmtConfigCli::from_str("off").unwrap(), SmtConfigCli::Off);

    // Test error cases
    assert!(SmtConfigCli::from_str("invalid").is_err());
    assert!(SmtConfigCli::from_str("").is_err());
}

#[test]
fn test_pcat_boot_order_from_str() {
    // Test single device
    let order = PcatBootOrderCli::from_str("optical").unwrap();
    assert_eq!(order.0[0], PcatBootDevice::Optical);

    // Test multiple devices
    let order = PcatBootOrderCli::from_str("hdd,net").unwrap();
    assert_eq!(order.0[0], PcatBootDevice::HardDrive);
    assert_eq!(order.0[1], PcatBootDevice::Network);

    // Test error cases
    assert!(PcatBootOrderCli::from_str("invalid").is_err());
    assert!(PcatBootOrderCli::from_str("optical,optical").is_err()); // duplicate device
}

#[test]
fn test_pcat_boot_order_full_results() {
    // User-named kinds first, remaining default order after.
    let order = PcatBootOrderCli::from_str("hdd,net").unwrap();
    assert_eq!(
        order.0,
        [
            PcatBootDevice::HardDrive,
            PcatBootDevice::Network,
            PcatBootDevice::Optical,
            PcatBootDevice::Floppy,
        ]
    );
    let order = PcatBootOrderCli::from_str("floppy,optical").unwrap();
    assert_eq!(
        order.0,
        [
            PcatBootDevice::Floppy,
            PcatBootDevice::Optical,
            PcatBootDevice::HardDrive,
            PcatBootDevice::Network,
        ]
    );
    // With no devices named, the default order stands.
    assert_eq!(
        default_pcat_boot_order(),
        [
            PcatBootDevice::Optical,
            PcatBootDevice::HardDrive,
            PcatBootDevice::Network,
            PcatBootDevice::Floppy,
        ]
    );
    assert!(matches!(
        PcatBootOrderCli::from_str("optical,optical"),
        Err(ParseError::DuplicateBootDevice(t)) if t == "optical"
    ));
    assert!(matches!(
        PcatBootOrderCli::from_str("invalid"),
        Err(ParseError::UnknownBootDeviceKind(t)) if t == "invalid"
    ));
}

#[test]
fn test_parse_memory_sizes() {
    let sizes: [u64; 4] = [0, 1, 1023, 1024];
    let units: [(&str, u64); 5] = [
        ("", 1),
        ("K", 1 << 10),
        ("M", 1 << 20),
        ("G", 1 << 30),
        ("T", 1 << 40),
    ];
    for &s in sizes.iter() {
        for &(u, m) in units.iter() {
            let plain = format!("{}{}", s, u);
            assert_eq!(parse_memory(&plain).unwrap(), s * m);
            let with_b = format!("{}{}B", s, u);
            assert_eq!(parse_memory(&with_b).unwrap(), s * m);
        }
    }
    assert!(parse_memory("").is_err());
    assert!(parse_memory("abc").is_err());
    assert!(parse_memory("1X").is_err());
    assert!(parse_memory("B").is_err());
    // The product must fit in 64 bits.
    assert!(parse_memory("16777216T").is_err());
    assert!(matches!(
        parse_memory("1X"),
        Err(ParseError::InvalidMemorySize(s)) if s == "1X"
    ));
}

#[test]
fn test_parse_number_radices() {
    assert_eq!(parse_number("42").unwrap(), 42);
    assert_eq!(parse_number("0x10").unwrap(), 16);
    assert_eq!(parse_number("0xFf").unwrap(), 255);
    assert_eq!(parse_number("0").unwrap(), 0);
    assert_eq!(parse_number("18446744073709551615").unwrap(), u64::MAX);
    assert!(parse_number("18446744073709551616").is_err());
    assert!(parse_number("0x").is_err());
    assert!(parse_number("0xzz").is_err());
    assert!(parse_number("").is_err());
    assert!(matches!(
        parse_number("12z"),
        Err(ParseError::MalformedNumber(s)) if s == "12z"
    ));
}

#[test]
fn test_parse_hypervisor_names() {
    assert_eq!(parse_hypervisor("kvm").unwrap(), Hypervisor::Kvm);
    assert_eq!(parse_hypervisor("mshv").unwrap(), Hypervisor::MsHv);
    assert_eq!(parse_hypervisor("whp").unwrap(), Hypervisor::Whp);
    let e = parse_hypervisor("xen").unwrap_err();
    assert_eq!(e.0, "xen");
}

#[test]
fn test_parse_x2apic_modes() {
    assert_eq!(parse_x2apic("auto").unwrap(), X2ApicConfig::Auto);
    assert_eq!(parse_x2apic("supported").unwrap(), X2ApicConfig::Supported);
    assert_eq!(parse_x2apic("off").unwrap(), X2ApicConfig::Unsupported);
    assert_eq!(parse_x2apic("on").unwrap(), X2ApicConfig::Enabled);
    assert!(parse_x2apic("bogus").is_err());
}

#[test]
fn test_parse_vtl2_relocation_types() {
    assert_eq!(
        parse_vtl2_relocation("disable").unwrap(),
        Vtl2BaseAddressType::File
    );
    assert_eq!(
        parse_vtl2_relocation("auto=filesize").unwrap(),
        Vtl2BaseAddressType::MemoryLayout { size: None }
    );
    assert_eq!(
        parse_vtl2_relocation("auto=1G").unwrap(),
        Vtl2BaseAddressType::MemoryLayout {
            size: Some(1 << 30)
        }
    );
    assert_eq!(
        parse_vtl2_relocation("absolute=0x1000").unwrap(),
        Vtl2BaseAddressType::Absolute(4096)
    );
    assert_eq!(
        parse_vtl2_relocation("vtl2=filesize").unwrap(),
        Vtl2BaseAddressType::Vtl2Allocate { size: None }
    );
    assert_eq!(
        parse_vtl2_relocation("vtl2=2M").unwrap(),
        Vtl2BaseAddressType::Vtl2Allocate {
            size: Some(2 << 20)
        }
    );
    let e = parse_vtl2_relocation("bogus").unwrap_err();
    assert_eq!(e.0, "bogus");
    let e = parse_vtl2_relocation("absolute=zz").unwrap_err();
    assert_eq!(e.0, "zz");
    let e = parse_vtl2_relocation("auto=xx").unwrap_err();
    assert_eq!(e.0, "xx");
}

#[test]
fn test_memory_vtl_type_ram() {
    assert!(MemoryVtlType(0).ram());
    assert!(MemoryVtlType(1).ram());
    assert!(MemoryVtlType(2).ram());
    assert!(MemoryVtlType(3).ram());
    assert!(MemoryVtlType(4).ram());
    assert!(!MemoryVtlType(5).ram());
    assert!(!MemoryVtlType(6).ram());
    assert!(MemoryVtlType(7).ram());
    assert!(MemoryVtlType(8).ram());
    assert!(!MemoryVtlType(9).ram());
}
