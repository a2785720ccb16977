use cortex::remote::FtpCredentials;
use cortex::vfs::RemoteCredentials;

#[test]
fn test_remote_credentials() {
    let creds = RemoteCredentials {
        username: "testuser".to_string(),
        password: Some("testpass".to_string()),
        private_key_path: None,
        passphrase: None,
    };

    assert_eq!(creds.username, "testuser");
    assert_eq!(creds.password, Some("testpass".to_string()));
}

#[test]
fn test_ftp_credentials() {
    let creds = FtpCredentials {
        username: "ftpuser".to_string(),
        password: "ftppass".to_string(),
        use_tls: true,
    };

    assert_eq!(creds.username, "ftpuser");
    assert_eq!(creds.password, "ftppass");
    assert!(creds.use_tls);
}

use cortex::remote::{convert_file_stat, parse_list_entry, parse_number, FileStat};
use cortex::vfs::{VfsEntryType, VfsPath};

fn ftp(path: &str) -> VfsPath {
    VfsPath::Ftp { host: "ftp.example.com".to_string(), port: 21, username: "u".to_string(), path: path.to_string() }
}

#[test]
fn listing_lines() {
    let e = parse_list_entry("drwxr-xr-x   2 user  group   4096 Jan  1 12:00 my   docs", &ftp("/pub"), 7).unwrap();
    assert_eq!(e.name, "my docs");
    assert_eq!(e.entry_type, VfsEntryType::Directory);
    assert_eq!(e.size, 4096);
    assert_eq!(e.permissions, "rwxr-xr-x");
    assert_eq!(e.modified, 7);
    match e.path {
        VfsPath::Ftp { path, port, .. } => {
            assert_eq!(path, "/pub/my docs");
            assert_eq!(port, 21);
        },
        _ => panic!(),
    }
    let l = parse_list_entry("lrwxrwxrwx 1 a b x Jan 1 2020 link", &ftp("/"), 0).unwrap();
    assert_eq!(l.entry_type, VfsEntryType::Symlink);
    assert_eq!(l.size, 0);
    match l.path {
        VfsPath::Ftp { path, .. } => assert_eq!(path, "/link"),
        _ => panic!(),
    }
    assert!(parse_list_entry("total 12", &ftp("/"), 0).is_none());
    assert!(parse_list_entry("-rw-r--r-- 1 a b 1 Jan 1 2020 f", &VfsPath::Local("/".to_string()), 0).is_none());
}

#[test]
fn numbers() {
    assert_eq!(parse_number("4096"), Some(4096));
    assert_eq!(parse_number("+7"), Some(7));
    assert_eq!(parse_number("18446744073709551615"), Some(u64::MAX));
    assert_eq!(parse_number("18446744073709551616"), None);
    assert_eq!(parse_number(""), None);
    assert_eq!(parse_number("+"), None);
    assert_eq!(parse_number("-1"), None);
    assert_eq!(parse_number("12a"), None);
    for s in ["0", "007", "+0", "99999999999999999999", " 1"] {
        assert_eq!(parse_number(s), s.parse::<u64>().ok());
    }
}

#[test]
fn sftp_attributes() {
    let st = FileStat { is_dir: false, is_file: true, size: Some(10), perm: Some(0o100754), mtime: Some(3) };
    let e = convert_file_stat(st, "f".to_string(), ftp("/f"));
    assert_eq!(e.permissions, "rwxr-xr--");
    assert_eq!(e.modified, 3_000_000_000);
    assert_eq!(e.entry_type, VfsEntryType::File);
    let l = convert_file_stat(FileStat { is_dir: false, is_file: false, size: None, perm: None, mtime: None }, "l".to_string(), ftp("/l"));
    assert_eq!(l.entry_type, VfsEntryType::Symlink);
    assert_eq!(l.permissions, "---------");
    assert_eq!((l.size, l.modified), (0, 0));
}
