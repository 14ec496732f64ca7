use dock::commands::Commands;
use dock::config::{Config, Permissions, User};
use dock::protocol::Reply;
use dock::session::{Action, DataChannel, RetrievePlan, Session, TransferKind};

fn config() -> Config {
    Config {
        address: String::from("127.0.0.1:2121"),
        users: vec![
            User {
                name: String::from("alice"),
                password: String::from("s3cret"),
                permissions: Permissions::All,
            },
            User {
                name: String::from("reader"),
                password: String::from("pw"),
                permissions: Permissions::Read,
            },
        ],
        root: String::from("/srv/dock"),
    }
}

fn fresh() -> Session {
    Session::new(&String::from("sess-1"), config())
}

fn logged_in() -> Session {
    let mut s = fresh();
    expect_reply(s.handle_command(Commands::User, "alice"), 331, "Password is required");
    expect_reply(s.handle_command(Commands::Password, "s3cret"), 230, "Login success.");
    s
}

fn expect_reply(a: Action, code: u16, text: &str) {
    match a {
        Action::Send(r) => {
            assert_eq!(r.code, code);
            assert_eq!(r.text, text);
        }
        other => panic!("expected a reply, got {:?}", other),
    }
}

fn wire(r: &Reply) -> String {
    r.frame()
}

#[test]
fn login_fails_for_unknown_user() {
    let mut s = fresh();
    match s.handle_command(Commands::User, "bob") {
        Action::Send(r) => assert_eq!(wire(&r), "530 Authorization failed.\r\n"),
        other => panic!("{:?}", other),
    }
    assert!(!s.authorized());
    assert_eq!(s.username(), "");
}

#[test]
fn login_succeeds() {
    let mut s = fresh();
    match s.handle_command(Commands::User, "alice") {
        Action::Send(r) => assert_eq!(wire(&r), "331 Password is required\r\n"),
        other => panic!("{:?}", other),
    }
    match s.handle_command(Commands::Password, "s3cret") {
        Action::Send(r) => assert_eq!(wire(&r), "230 Login success.\r\n"),
        other => panic!("{:?}", other),
    }
    assert!(s.authorized());
    expect_reply(s.handle_command(Commands::User, "alice"), 230, "Already logged in.");
}

#[test]
fn login_errors() {
    let mut s = fresh();
    expect_reply(s.handle_command(Commands::Password, "x"), 501, "Username is required.");
    expect_reply(s.handle_command(Commands::User, ""), 501, "Username is required.");
    expect_reply(s.handle_command(Commands::User, "alice"), 331, "Password is required");
    expect_reply(s.handle_command(Commands::Password, ""), 501, "Password is required");
    expect_reply(s.handle_command(Commands::Password, "wrong"), 530, "Authorization failed.");
    assert!(!s.authorized());
}

#[test]
fn pwd_cwd_pwd() {
    let mut s = logged_in();
    match s.handle_command(Commands::WorkingDir, "") {
        Action::Send(r) => assert_eq!(wire(&r), "257 \"/\" is the current directory.\r\n"),
        other => panic!("{:?}", other),
    }
    match s.handle_command(Commands::ChangeDir, "sub") {
        Action::ChangeDir { physical } => assert_eq!(physical, "/srv/dock/sub"),
        other => panic!("{:?}", other),
    }
    let r = s.change_dir_checked("sub", true, true);
    assert_eq!(wire(&r), "250 Directory changed.\r\n");
    match s.handle_command(Commands::WorkingDir, "") {
        Action::Send(r) => assert_eq!(wire(&r), "257 \"/sub\" is the current directory.\r\n"),
        other => panic!("{:?}", other),
    }
}

#[test]
fn cwd_refusals_keep_directory() {
    let mut s = logged_in();
    expect_reply(s.handle_command(Commands::ChangeDir, ""), 501, "Path is required");
    let r = s.change_dir_checked("nope", false, false);
    assert_eq!((r.code, r.text.as_str()), (550, "Path does not exist."));
    let r = s.change_dir_checked("file.txt", true, false);
    assert_eq!((r.code, r.text.as_str()), (550, "Not a directory."));
    assert_eq!(s.current_dir(), "/");
}

#[test]
fn cwd_parent_at_root_stays_at_root() {
    let mut s = logged_in();
    match s.handle_command(Commands::ChangeDir, "..") {
        Action::ChangeDir { physical } => assert_eq!(physical, "/srv/dock"),
        other => panic!("{:?}", other),
    }
    let r = s.change_dir_checked("..", true, true);
    assert_eq!(r.code, 250);
    assert_eq!(s.current_dir(), "/");
}

#[test]
fn cdup_moves_to_parent() {
    let mut s = logged_in();
    s.change_dir_checked("a/b", true, true);
    assert_eq!(s.current_dir(), "/a/b");
    expect_reply(s.handle_command(Commands::ChangeDirectoryUp, ""), 250, "Directory changed.");
    assert_eq!(s.current_dir(), "/a");
    s.handle_command(Commands::ChangeDirectoryUp, "");
    s.handle_command(Commands::ChangeDirectoryUp, "");
    assert_eq!(s.current_dir(), "/");
}

#[test]
fn passive_list_of_empty_dir() {
    let mut s = logged_in();
    assert!(matches!(s.handle_command(Commands::Passive, ""), Action::Passive));
    let r = s.passive_armed(Some((127, 0, 0, 1)), 50000);
    assert_eq!(wire(&r), "227 Entering Passive Mode (127,0,0,1,195,80)\r\n");
    match s.handle_command(Commands::List, "") {
        Action::List { physical } => assert_eq!(physical, "/srv/dock"),
        other => panic!("{:?}", other),
    }
    assert_eq!(s.take_data_channel(), DataChannel::Passive(50000));
    assert_eq!(s.data_channel(), DataChannel::Idle);
    let start = Session::transfer_started(TransferKind::Listing).unwrap();
    assert_eq!(wire(&start), "150 Listing of directory\r\n");
    let done = s.transfer_finished(TransferKind::Listing);
    assert_eq!(wire(&done), "226 Transfer complete.\r\n");
}

#[test]
fn passive_falls_back_to_loopback() {
    let mut s = logged_in();
    let r = s.passive_armed(Some((0, 0, 0, 0)), 2121);
    assert_eq!(r.text, "Entering Passive Mode (127,0,0,1,8,73)");
    let r = s.passive_armed(None, 256);
    assert_eq!(r.text, "Entering Passive Mode (127,0,0,1,1,0)");
    let r = s.passive_armed(Some((10, 1, 2, 3)), 65535);
    assert_eq!(r.text, "Entering Passive Mode (10,1,2,3,255,255)");
}

#[test]
fn retr_with_rest() {
    let mut s = logged_in();
    match s.handle_command(Commands::Rest, "200") {
        Action::Send(r) => assert_eq!(r.code, 350),
        other => panic!("{:?}", other),
    }
    assert_eq!(s.rest_offset(), 200);
    match s.handle_command(Commands::Retrive, "data.bin") {
        Action::Retrieve { physical } => assert_eq!(physical, "/srv/dock/data.bin"),
        other => panic!("{:?}", other),
    }
    match s.retrieve_checked(true, 1000) {
        RetrievePlan::Transfer { offset } => assert_eq!(offset, 200),
        other => panic!("{:?}", other),
    }
    let start = Session::transfer_started(TransferKind::Download).unwrap();
    assert_eq!(wire(&start), "150 Ready to transfer...\r\n");
    let done = s.transfer_finished(TransferKind::Download);
    assert_eq!(wire(&done), "226 Done.\r\n");
    assert_eq!(s.rest_offset(), 0);
}

#[test]
fn rest_past_end_is_refused_and_reset() {
    let mut s = logged_in();
    s.handle_command(Commands::Rest, "1000");
    match s.retrieve_checked(true, 1000) {
        RetrievePlan::Send(r) => assert_eq!(wire(&r), "550 Invalid restart position.\r\n"),
        other => panic!("{:?}", other),
    }
    assert_eq!(s.rest_offset(), 0);
    s.handle_command(Commands::Rest, "5000");
    assert!(matches!(s.retrieve_checked(true, 1000), RetrievePlan::Send(_)));
    assert_eq!(s.rest_offset(), 0);
    s.handle_command(Commands::Rest, "999");
    assert!(matches!(s.retrieve_checked(true, 1000), RetrievePlan::Transfer { offset: 999 }));
}

#[test]
fn retr_missing_file_and_no_data_connection() {
    let mut s = logged_in();
    s.handle_command(Commands::Rest, "10");
    match s.retrieve_checked(false, 0) {
        RetrievePlan::Send(r) => assert_eq!((r.code, r.text.as_str()), (550, "File not found.")),
        other => panic!("{:?}", other),
    }
    assert_eq!(s.take_data_channel(), DataChannel::Idle);
    let r = Session::data_unavailable();
    assert_eq!(wire(&r), "425 Cant open data connection.\r\n");
    assert_eq!(s.rest_offset(), 10);
}

#[test]
fn rest_errors() {
    let mut s = logged_in();
    expect_reply(s.handle_command(Commands::Rest, ""), 501, "Argument is required.");
    expect_reply(s.handle_command(Commands::Rest, "abc"), 501, "Invalid restart offset.");
    expect_reply(
        s.handle_command(Commands::Rest, "18446744073709551616"),
        501,
        "Invalid restart offset.",
    );
    expect_reply(
        s.handle_command(Commands::Rest, "18446744073709551615"),
        350,
        "Restarting at specific bytes.",
    );
    assert_eq!(s.rest_offset(), u64::MAX);
}

#[test]
fn quit_replies_bye() {
    let mut s = fresh();
    match s.handle_command(Commands::Quit, "") {
        Action::Quit(r) => assert_eq!(wire(&r), "221 Bye!\r\n"),
        other => panic!("{:?}", other),
    }
}

#[test]
fn port_with_p1_256_is_refused() {
    let mut s = logged_in();
    expect_reply(
        s.handle_command(Commands::Port, "127,0,0,1,256,0"),
        501,
        "Syntax error in arguments",
    );
    assert_eq!(s.data_channel(), DataChannel::Idle);
}

#[test]
fn port_with_five_or_seven_parts_is_refused() {
    let mut s = logged_in();
    expect_reply(s.handle_command(Commands::Port, "127,0,0,1,4"), 501, "Syntax error in arguments");
    expect_reply(
        s.handle_command(Commands::Port, "127,0,0,1,4,5,6"),
        501,
        "Syntax error in arguments",
    );
    expect_reply(s.handle_command(Commands::Port, ""), 501, "Address is required");
    assert_eq!(s.data_channel(), DataChannel::Idle);
}

#[test]
fn port_then_pasv_switch_arming() {
    let mut s = logged_in();
    expect_reply(
        s.handle_command(Commands::Port, "192,168,1,2,4,1"),
        200,
        "PORT command success.",
    );
    match s.data_channel() {
        DataChannel::Active(a) => {
            assert_eq!((a.h1, a.h2, a.h3, a.h4, a.port), (192, 168, 1, 2, 1025));
        }
        other => panic!("{:?}", other),
    }
    s.passive_armed(Some((127, 0, 0, 1)), 3000);
    assert_eq!(s.data_channel(), DataChannel::Passive(3000));
    s.handle_command(Commands::Port, "10,0,0,1,0,21");
    assert!(matches!(s.data_channel(), DataChannel::Active(_)));
}

#[test]
fn stor_dot_names_are_refused() {
    let mut s = logged_in();
    expect_reply(s.handle_command(Commands::Store, "."), 553, "File name not allowed.");
    expect_reply(s.handle_command(Commands::Store, ".."), 553, "File name not allowed.");
    expect_reply(s.handle_command(Commands::Store, ""), 501, "Argument is required.");
    match s.handle_command(Commands::Store, "up/new.txt") {
        Action::Store { physical } => assert_eq!(physical, "/srv/dock/up/new.txt"),
        other => panic!("{:?}", other),
    }
    assert!(Session::transfer_started(TransferKind::Upload).is_none());
}

#[test]
fn permissions_gate_transfers() {
    let mut s = fresh();
    s.handle_command(Commands::User, "reader");
    s.handle_command(Commands::Password, "pw");
    assert!(s.authorized());
    expect_reply(s.handle_command(Commands::Store, "x"), 550, "No permission to write.");
    assert!(matches!(s.handle_command(Commands::Retrive, "x"), Action::Retrieve { .. }));
}

#[test]
fn privileged_commands_need_login() {
    let mut s = fresh();
    for cmd in [
        Commands::ChangeDir,
        Commands::ChangeDirectoryUp,
        Commands::List,
        Commands::Port,
        Commands::Passive,
        Commands::Rest,
        Commands::Retrive,
        Commands::Store,
        Commands::Size,
        Commands::Unknown,
    ] {
        expect_reply(s.handle_command(cmd, "1,2,3,4,5,6"), 530, "Login is required.");
    }
    assert_eq!(s.rest_offset(), 0);
    assert_eq!(s.data_channel(), DataChannel::Idle);
    expect_reply(s.handle_command(Commands::System, ""), 215, "UNIX Type: L8");
    expect_reply(s.handle_command(Commands::Type, "I"), 200, "OK");
    expect_reply(s.handle_command(Commands::Option, "UTF8"), 200, "UTF-8 is enabled by default.");
    expect_reply(s.handle_command(Commands::Option, "MODE"), 501, "Unknown option");
    expect_reply(s.handle_command(Commands::Option, ""), 501, "Argument is required");
    assert!(matches!(s.handle_command(Commands::Features, ""), Action::SendFeatures));
}

#[test]
fn unknown_after_login() {
    let mut s = logged_in();
    expect_reply(s.handle_command(Commands::Unknown, ""), 502, "Unknown command.");
}

#[test]
fn size_flow() {
    let mut s = logged_in();
    expect_reply(s.handle_command(Commands::Size, ""), 501, "Path is required");
    match s.handle_command(Commands::Size, "/a/../b.txt") {
        Action::Size { physical } => assert_eq!(physical, "/srv/dock/b.txt"),
        other => panic!("{:?}", other),
    }
    let r = Session::size_checked(true, true, 1234567);
    assert_eq!(wire(&r), "213 1234567\r\n");
    let r = Session::size_checked(false, false, 0);
    assert_eq!((r.code, r.text.as_str()), (550, "Path does not exist."));
    let r = Session::size_checked(true, false, 0);
    assert_eq!((r.code, r.text.as_str()), (550, "Not a file."));
}

#[test]
fn transfers_consume_restart_offset() {
    let mut s = logged_in();
    s.handle_command(Commands::Rest, "42");
    s.transfer_finished(TransferKind::Upload);
    assert_eq!(s.rest_offset(), 0);
    s.handle_command(Commands::Rest, "42");
    s.transfer_finished(TransferKind::Listing);
    assert_eq!(s.rest_offset(), 0);
}

#[test]
fn greeting_opens_the_connection() {
    assert_eq!(wire(&Session::greeting()), "220 Dock is welcoming you!\r\n");
}

#[test]
fn session_keeps_its_id() {
    let s = fresh();
    assert_eq!(s.id(), "sess-1");
    assert_eq!(s.current_dir(), "/");
}
