use dock::commands::Commands;
use dock::config::{Config, Permissions, User};
use dock::listing::{
    format_list_line, format_listing, format_timestamp, format_unix_permissions, DirEntry,
};
use dock::path::{join_path, resolve_logical, resolve_physical, split_segments};
use dock::protocol::{features, parse_port, split_line, PeerAddr, Reply};
use dock::server::Server;
use dock::text::{decimal, parse_u64, str_eq, trim_end_str, trim_str};

#[test]
fn verbs_fold_to_commands() {
    assert_eq!(Commands::from(String::from("USER")), Commands::User);
    assert_eq!(Commands::from(String::from("PASS")), Commands::Password);
    assert_eq!(Commands::from(String::from("PWD")), Commands::WorkingDir);
    assert_eq!(Commands::from(String::from("XPWD")), Commands::WorkingDir);
    assert_eq!(Commands::from(String::from("CWD")), Commands::ChangeDir);
    assert_eq!(Commands::from(String::from("CDUP")), Commands::ChangeDirectoryUp);
    assert_eq!(Commands::from(String::from("OPTS")), Commands::Option);
    for v in ["LIST", "NLST", "MLST", "MLSD"] {
        assert_eq!(Commands::from(String::from(v)), Commands::List);
    }
    assert_eq!(Commands::from(String::from("PORT")), Commands::Port);
    assert_eq!(Commands::from(String::from("REST")), Commands::Rest);
    assert_eq!(Commands::from(String::from("PASV")), Commands::Passive);
    assert_eq!(Commands::from(String::from("RETR")), Commands::Retrive);
    assert_eq!(Commands::from(String::from("STOR")), Commands::Store);
    assert_eq!(Commands::from(String::from("SIZE")), Commands::Size);
    assert_eq!(Commands::from(String::from("SYST")), Commands::System);
    assert_eq!(Commands::from(String::from("TYPE")), Commands::Type);
    assert_eq!(Commands::from(String::from("FEAT")), Commands::Features);
    assert_eq!(Commands::from(String::from("QUIT")), Commands::Quit);
    assert_eq!(Commands::from(String::from("user")), Commands::Unknown);
    assert_eq!(Commands::from(String::from("")), Commands::Unknown);
    assert_eq!(Commands::from_verb("ABOR"), Commands::Unknown);
}

#[test]
fn lines_split_at_first_space() {
    assert_eq!(
        split_line("USER alice\r\n"),
        Some((String::from("USER"), String::from("alice")))
    );
    assert_eq!(
        split_line("STOR my file.txt \t\r\n"),
        Some((String::from("STOR"), String::from("my file.txt")))
    );
    assert_eq!(split_line("PASV\r\n"), Some((String::from("PASV"), String::new())));
    assert_eq!(split_line("  \r\n"), None);
    assert_eq!(split_line(""), None);
}

#[test]
fn replies_are_framed() {
    let r = Reply::new(200, "OK");
    assert_eq!(r.frame(), "200 OK\r\n");
    assert_eq!(
        features(),
        "211 Features\r\nUTF8\r\nMLST type*;size*;modify*;perm*;\r\nPASV\r\nPORT\r\n211 End\r\n"
    );
}

#[test]
fn port_arguments_parse() {
    assert_eq!(
        parse_port("127,0,0,1,4,1"),
        Some(PeerAddr { h1: 127, h2: 0, h3: 0, h4: 1, port: 1025 })
    );
    assert_eq!(
        parse_port(" 10, 20 ,30,40,255,255"),
        Some(PeerAddr { h1: 10, h2: 20, h3: 30, h4: 40, port: 65535 })
    );
    assert_eq!(parse_port("127,0,0,1,256,0"), None);
    assert_eq!(parse_port("127,0,0,1,0,256"), None);
    assert_eq!(parse_port("300,0,0,1,0,1"), None);
    assert_eq!(parse_port("127,0,0,1,0"), None);
    assert_eq!(parse_port("127,0,0,1,0,1,2"), None);
    assert_eq!(parse_port("a,b,c,d,e,f"), None);
    assert_eq!(parse_port("1,2,3,4,,5"), None);
}

#[test]
fn paths_resolve_under_root() {
    assert_eq!(resolve_physical("/srv/dock", "/", "../../etc/passwd"), "/srv/dock/etc/passwd");
    assert_eq!(resolve_physical("/srv/dock", "/a/b", "../c"), "/srv/dock/a/c");
    assert_eq!(resolve_physical("/srv/dock", "/a", "/x/./y//z"), "/srv/dock/x/y/z");
    assert_eq!(resolve_physical("/srv/dock", "/", ""), "/srv/dock");
    assert_eq!(resolve_logical("/", ".."), "/");
    assert_eq!(resolve_logical("/a/b", "c/.."), "/a/b");
    assert_eq!(resolve_logical("/a", "/"), "/");
    assert_eq!(join_path("/a", "b"), "/a/b");
    assert_eq!(join_path("/a", "/b"), "/b");
    assert_eq!(split_segments("/a/./b/../c/"), vec![String::from("a"), String::from("c")]);
}

#[test]
fn unix_permissions() {
    assert_eq!(format_unix_permissions(true, 0o755), "drwxr-xr-x");
    assert_eq!(format_unix_permissions(false, 0o644), "-rw-r--r--");
    assert_eq!(format_unix_permissions(false, 0o444), "-r--r--r--");
    assert_eq!(format_unix_permissions(false, 0o100777), "-rwxrwxrwx");
    assert_eq!(format_unix_permissions(true, 0), "d---------");
}

#[test]
fn timestamps_use_the_calendar() {
    assert_eq!(format_timestamp(0, 0), "Jan  1 00:00");
    assert_eq!(format_timestamp(1700000000, 1700000000), "Nov 14 22:13");
    assert_eq!(format_timestamp(1700000000, 1700000000 + 200 * 86400), "Nov 14  2023");
    assert_eq!(format_timestamp(1709164800, 1800000000), "Feb 29  2024");
    assert_eq!(format_timestamp(1709251200, 1709251200 + 60), "Mar  1 00:00");
    assert_eq!(format_timestamp(951782400, 2000000000), "Feb 29  2000");
    assert_eq!(format_timestamp(1704067199, 1704067199), "Dec 31 23:59");
    // A time in the future shows the year.
    assert_eq!(format_timestamp(1700000000, 1600000000), "Nov 14  2023");
}

#[test]
fn listing_line_layout() {
    assert_eq!(
        format_list_line(false, 0o644, 1234, 0, 0, "a.txt"),
        "-rw-r--r-- 1 root group         1234 Jan  1 00:00 a.txt\r\n"
    );
    assert_eq!(
        format_list_line(true, 0o755, 4096, 1700000000, 1800000000, "sub dir"),
        "drwxr-xr-x 1 root group         4096 Nov 14  2023 sub dir\r\n"
    );
    assert_eq!(
        format_list_line(false, 0o600, 1234567890123, 0, 0, "big"),
        "-rw------- 1 root group 1234567890123 Jan  1 00:00 big\r\n"
    );
}

#[test]
fn text_helpers() {
    assert_eq!(decimal(0), "0");
    assert_eq!(decimal(18446744073709551615), "18446744073709551615");
    assert_eq!(parse_u64("007"), Some(7));
    assert_eq!(parse_u64("+7"), None);
    assert_eq!(parse_u64(""), None);
    assert_eq!(parse_u64("18446744073709551616"), None);
    assert!(str_eq("abc", "abc"));
    assert!(!str_eq("abc", "abd"));
    assert_eq!(trim_end_str("x \t\r\n"), "x");
    assert_eq!(trim_str("\u{3000} 12 "), "12");
}

fn sample_config() -> Config {
    Config {
        address: String::from("0.0.0.0:2121"),
        users: vec![
            User {
                name: String::from("alice"),
                password: String::from("s3cret"),
                permissions: Permissions::Read,
            },
            User {
                name: String::from("bob"),
                password: String::from("hunter2"),
                permissions: Permissions::Write,
            },
            User {
                name: String::from("carol"),
                password: String::from("x"),
                permissions: Permissions::All,
            },
        ],
        root: String::from("/srv/dock"),
    }
}

#[test]
fn config_lookups() {
    let c = sample_config();
    assert!(c.check_user("alice"));
    assert!(!c.check_user("dave"));
    assert!(c.check_password("bob", "hunter2"));
    assert!(!c.check_password("bob", "s3cret"));
    assert!(!c.check_password("dave", "x"));
    assert!(c.can_user_read("alice"));
    assert!(!c.can_user_write("alice"));
    assert!(c.can_user_write("bob"));
    assert!(!c.can_user_read("bob"));
    assert!(c.can_user_read("carol") && c.can_user_write("carol"));
    assert!(!c.can_user_read("dave") && !c.can_user_write("dave"));
}

#[test]
fn server_keeps_config() {
    let s = Server::new(sample_config());
    assert_eq!(s.config().root, "/srv/dock");
    assert_eq!(s.config().users.len(), 3);
}

#[test]
fn listing_has_one_line_per_entry_with_its_size() {
    let entries = vec![
        DirEntry { name: String::from("a"), is_dir: false, mode: 0o644, size: 1, mtime: 0 },
        DirEntry { name: String::from("d"), is_dir: true, mode: 0o755, size: 4096, mtime: 0 },
        DirEntry { name: String::from("z"), is_dir: false, mode: 0o600, size: 0, mtime: 0 },
    ];
    let lines = format_listing(&entries, 0);
    assert_eq!(lines.len(), 3);
    assert_eq!(lines[0], "-rw-r--r-- 1 root group            1 Jan  1 00:00 a\r\n");
    assert_eq!(lines[1], "drwxr-xr-x 1 root group         4096 Jan  1 00:00 d\r\n");
    assert_eq!(lines[2], "-rw------- 1 root group            0 Jan  1 00:00 z\r\n");
    assert!(format_listing(&Vec::new(), 0).is_empty());
}
