use vmm_cli_args::attach::DiskCli;
use vmm_cli_args::attach::FloppyDiskCli;
use vmm_cli_args::attach::IdeDiskCli;
use vmm_cli_args::attach::ProvisionVmgs;
use vmm_cli_args::attach::UnderhillDiskSource;
use vmm_cli_args::attach::VmgsCli;
use vmm_cli_args::config::DeviceVtl;
use vmm_cli_args::disk::BlobKind;
use vmm_cli_args::disk::DiskCipher;
use vmm_cli_args::disk::DiskCliKind;
use vmm_cli_args::disk::VMGS_DEFAULT_CAPACITY;
use vmm_cli_args::error::ParseError;

#[test]
fn test_parse_file_disk_with_create() {
    let s = "file:test.vhd;create=1G";
    let disk = DiskCliKind::from_str(s).unwrap();

    match disk {
        DiskCliKind::File {
            path,
            create_with_len,
        } => {
            assert_eq!(path, "test.vhd");
            assert_eq!(create_with_len, Some(1024 * 1024 * 1024)); // 1G
        }
        _ => panic!("Expected File variant"),
    }
}

#[test]
fn test_parse_direct_file_with_create() {
    let s = "test.vhd;create=1G";
    let disk = DiskCliKind::from_str(s).unwrap();

    match disk {
        DiskCliKind::File {
            path,
            create_with_len,
        } => {
            assert_eq!(path, "test.vhd");
            assert_eq!(create_with_len, Some(1024 * 1024 * 1024)); // 1G
        }
        _ => panic!("Expected File variant"),
    }
}

#[test]
fn test_parse_memory_disk() {
    let s = "mem:1G";
    let disk = DiskCliKind::from_str(s).unwrap();
    match disk {
        DiskCliKind::Memory(size) => {
            assert_eq!(size, 1024 * 1024 * 1024); // 1G
        }
        _ => panic!("Expected Memory variant"),
    }
}

#[test]
fn test_parse_memory_diff_disk() {
    let s = "memdiff:file:base.img";
    let disk = DiskCliKind::from_str(s).unwrap();
    match disk {
        DiskCliKind::MemoryDiff(inner) => match *inner {
            DiskCliKind::File {
                path,
                create_with_len,
            } => {
                assert_eq!(path, "base.img");
                assert_eq!(create_with_len, None);
            }
            _ => panic!("Expected File variant inside MemoryDiff"),
        },
        _ => panic!("Expected MemoryDiff variant"),
    }
}

#[test]
fn test_parse_sqlite_disk() {
    let s = "sql:db.sqlite;create=2G";
    let disk = DiskCliKind::from_str(s).unwrap();
    match disk {
        DiskCliKind::Sqlite {
            path,
            create_with_len,
        } => {
            assert_eq!(path, "db.sqlite");
            assert_eq!(create_with_len, Some(2 * 1024 * 1024 * 1024));
        }
        _ => panic!("Expected Sqlite variant"),
    }

    // Test without create option
    let s = "sql:db.sqlite";
    let disk = DiskCliKind::from_str(s).unwrap();
    match disk {
        DiskCliKind::Sqlite {
            path,
            create_with_len,
        } => {
            assert_eq!(path, "db.sqlite");
            assert_eq!(create_with_len, None);
        }
        _ => panic!("Expected Sqlite variant"),
    }
}

#[test]
fn test_parse_sqlite_diff_disk() {
    // Test with create option
    let s = "sqldiff:diff.sqlite;create:file:base.img";
    let disk = DiskCliKind::from_str(s).unwrap();
    match disk {
        DiskCliKind::SqliteDiff { path, create, disk } => {
            assert_eq!(path, "diff.sqlite");
            assert!(create);
            match *disk {
                DiskCliKind::File {
                    path,
                    create_with_len,
                } => {
                    assert_eq!(path, "base.img");
                    assert_eq!(create_with_len, None);
                }
                _ => panic!("Expected File variant inside SqliteDiff"),
            }
        }
        _ => panic!("Expected SqliteDiff variant"),
    }

    // Test without create option
    let s = "sqldiff:diff.sqlite:file:base.img";
    let disk = DiskCliKind::from_str(s).unwrap();
    match disk {
        DiskCliKind::SqliteDiff { path, create, disk } => {
            assert_eq!(path, "diff.sqlite");
            assert!(!create);
            match *disk {
                DiskCliKind::File {
                    path,
                    create_with_len,
                } => {
                    assert_eq!(path, "base.img");
                    assert_eq!(create_with_len, None);
                }
                _ => panic!("Expected File variant inside SqliteDiff"),
            }
        }
        _ => panic!("Expected SqliteDiff variant"),
    }
}

#[test]
fn test_parse_autocache_sqlite_disk() {
    // Test with a cache root supplied
    let disk = DiskCliKind::parse("autocache::file:disk.vhd", Some("/tmp/cache")).unwrap();
    assert!(matches!(
        disk,
        DiskCliKind::AutoCacheSqlite {
            cache_path,
            key,
            disk: _disk,
        } if cache_path == "/tmp/cache" && key.is_none()
    ));

    // Test without a cache root
    assert!(DiskCliKind::from_str("autocache::file:disk.vhd").is_err());
}

#[test]
fn test_parse_disk_errors() {
    assert!(DiskCliKind::from_str("invalid:").is_err());
    assert!(DiskCliKind::from_str("memory:extra").is_err());

    // Test sqlite: without environment variable
    assert!(DiskCliKind::from_str("sqlite:").is_err());
}

#[test]
fn test_parse_errors() {
    // Invalid memory size
    assert!(DiskCliKind::from_str("mem:invalid").is_err());

    // Invalid syntax for SQLiteDiff
    assert!(DiskCliKind::from_str("sqldiff:path").is_err());

    // No cache root supplied for AutoCacheSqlite
    assert!(DiskCliKind::from_str("autocache:key:file:disk.vhd").is_err());

    // Invalid blob kind
    assert!(DiskCliKind::from_str("blob:invalid:url").is_err());

    // Invalid cipher
    assert!(DiskCliKind::from_str("crypt:invalid:key.bin:file:disk.vhd").is_err());

    // Invalid format for crypt (missing parts)
    assert!(DiskCliKind::from_str("crypt:xts-aes-256:key.bin").is_err());

    // Invalid disk kind
    assert!(DiskCliKind::from_str("invalid:path").is_err());

    // Missing create size
    assert!(DiskCliKind::from_str("file:disk.vhd;create=").is_err());
}

#[test]
fn test_floppy_disk_from_str() {
    // Test basic disk
    let disk = FloppyDiskCli::from_str("file:/path/to/floppy.img").unwrap();
    assert!(!disk.read_only);
    match disk.kind {
        DiskCliKind::File {
            path,
            create_with_len,
        } => {
            assert_eq!(path, "/path/to/floppy.img");
            assert_eq!(create_with_len, None);
        }
        _ => panic!("Expected File variant"),
    }

    // Test with read-only flag
    let disk = FloppyDiskCli::from_str("file:/path/to/floppy.img,ro").unwrap();
    assert!(disk.read_only);

    // Test error cases
    assert!(FloppyDiskCli::from_str("").is_err());
    assert!(FloppyDiskCli::from_str("file:/path/to/floppy.img,invalid").is_err());
}

#[test]
fn test_disk_error_kinds() {
    assert!(matches!(
        DiskCliKind::from_str("blob:invalid:url"),
        Err(ParseError::UnknownBlobKind(k)) if k == "invalid"
    ));
    assert!(matches!(
        DiskCliKind::from_str("crypt:invalid:key.bin:file:disk.vhd"),
        Err(ParseError::UnknownCipher(c)) if c == "invalid"
    ));
    assert!(matches!(
        DiskCliKind::from_str("crypt:xts-aes-256:key.bin"),
        Err(ParseError::EmptyOrMissingSegment(_))
    ));
    assert!(matches!(
        DiskCliKind::from_str("invalid:path"),
        Err(ParseError::UnknownDiskKind(k)) if k == "invalid"
    ));
    assert!(matches!(
        DiskCliKind::from_str("mem:invalid"),
        Err(ParseError::InvalidMemorySize(s)) if s == "invalid"
    ));
    assert!(matches!(
        DiskCliKind::from_str("autocache:key:file:disk.vhd"),
        Err(ParseError::MissingCacheRootConfiguration(_))
    ));
    assert!(matches!(
        FloppyDiskCli::from_str(""),
        Err(ParseError::EmptyOrMissingSegment(s)) if s == ""
    ));
}

#[test]
fn test_parse_blob_and_crypt_disks() {
    match DiskCliKind::from_str("blob:flat:https://example.com/disk").unwrap() {
        DiskCliKind::Blob { kind, url } => {
            assert_eq!(kind, BlobKind::Flat);
            assert_eq!(url, "https://example.com/disk");
        }
        _ => panic!("Expected Blob variant"),
    }
    match DiskCliKind::from_str("blob:vhd1:u").unwrap() {
        DiskCliKind::Blob { kind, url } => {
            assert_eq!(kind, BlobKind::Vhd1);
            assert_eq!(url, "u");
        }
        _ => panic!("Expected Blob variant"),
    }
    match DiskCliKind::from_str("crypt:xts-aes-256:key.bin:file:disk.img").unwrap() {
        DiskCliKind::Crypt {
            cipher,
            key_file,
            disk,
        } => {
            assert_eq!(cipher, DiskCipher::XtsAes256);
            assert_eq!(key_file, "key.bin");
            assert!(matches!(*disk, DiskCliKind::File { .. }));
        }
        _ => panic!("Expected Crypt variant"),
    }
    match DiskCliKind::from_str("prwrap:mem:1M").unwrap() {
        DiskCliKind::PersistentReservationsWrapper(inner) => {
            assert!(matches!(*inner, DiskCliKind::Memory(1048576)));
        }
        _ => panic!("Expected PersistentReservationsWrapper variant"),
    }
}

#[test]
fn test_parse_drive_letter_path() {
    // A leading drive letter with a rooted path is a bare file, not a disk kind.
    match DiskCliKind::from_str("d:\\disk.img").unwrap() {
        DiskCliKind::File {
            path,
            create_with_len,
        } => {
            assert_eq!(path, "d:\\disk.img");
            assert_eq!(create_with_len, None);
        }
        _ => panic!("Expected File variant"),
    }
}

#[test]
fn test_parse_vmgs_default_capacity() {
    match DiskCliKind::from_str("file:state.vmgs;create=VMGS_DEFAULT").unwrap() {
        DiskCliKind::File {
            create_with_len, ..
        } => {
            assert_eq!(create_with_len, Some(VMGS_DEFAULT_CAPACITY));
            assert_eq!(create_with_len, Some(4 * 1024 * 1024));
        }
        _ => panic!("Expected File variant"),
    }
}

#[test]
fn test_parse_deep_structural_equality() {
    // Two independent parses of equal strings give deeply equal trees.
    let s = "memdiff:crypt:xts-aes-256:key.bin:file:base.img;create=1K";
    let d1 = DiskCliKind::from_str(s).unwrap();
    let d2 = DiskCliKind::from_str(s).unwrap();
    assert_eq!(d1, d2);
}

#[test]
fn test_disk_cli_options() {
    let d = DiskCli::from_str("mem:1M,ro").unwrap();
    assert!(d.read_only);
    assert!(!d.is_dvd);
    assert_eq!(d.vtl, DeviceVtl::Vtl0);
    assert!(d.underhill.is_none());

    let d = DiskCli::from_str("mem:1M,dvd").unwrap();
    assert!(d.read_only);
    assert!(d.is_dvd);

    let d = DiskCli::from_str("mem:1M,vtl2").unwrap();
    assert_eq!(d.vtl, DeviceVtl::Vtl2);

    let d = DiskCli::from_str("mem:1M,uh").unwrap();
    assert_eq!(d.underhill, Some(UnderhillDiskSource::Scsi));

    let d = DiskCli::from_str("mem:1M,uh-nvme").unwrap();
    assert_eq!(d.underhill, Some(UnderhillDiskSource::Nvme));

    assert!(matches!(
        DiskCli::from_str("mem:1M,uh,vtl2"),
        Err(ParseError::IncompatibleOptionCombination(_))
    ));
    assert!(matches!(
        DiskCli::from_str("mem:1M,bogus"),
        Err(ParseError::UnknownAttachmentOption(o)) if o == "bogus"
    ));
}

#[test]
fn test_ide_disk_options() {
    let d = IdeDiskCli::from_str("mem:1M,ro,s,1").unwrap();
    assert!(d.read_only);
    assert_eq!(d.channel, Some(1));
    assert_eq!(d.device, Some(1));
    assert!(!d.is_dvd);

    let d = IdeDiskCli::from_str("mem:1M,p,0,dvd").unwrap();
    assert!(d.read_only);
    assert_eq!(d.channel, Some(0));
    assert_eq!(d.device, Some(0));
    assert!(d.is_dvd);

    // The last channel flag wins silently.
    let d = IdeDiskCli::from_str("mem:1M,p,s").unwrap();
    assert_eq!(d.channel, Some(1));

    assert!(matches!(
        IdeDiskCli::from_str("mem:1M,x"),
        Err(ParseError::UnknownAttachmentOption(_))
    ));
}

#[test]
fn test_vmgs_options() {
    let v = VmgsCli::from_str("file:state.vmgs").unwrap();
    assert!(matches!(v.provision, ProvisionVmgs::OnEmpty));

    let v = VmgsCli::from_str("file:state.vmgs,fmt-on-fail").unwrap();
    assert!(matches!(v.provision, ProvisionVmgs::OnFailure));

    let v = VmgsCli::from_str("file:state.vmgs,fmt").unwrap();
    assert!(matches!(v.provision, ProvisionVmgs::Always));

    assert!(matches!(
        VmgsCli::from_str("file:state.vmgs,bogus"),
        Err(ParseError::UnknownAttachmentOption(o)) if o == "bogus"
    ));
}
