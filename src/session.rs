//! The per-connection session state machine.
//!
//! A session never touches a socket or a file itself. `handle_command` takes
//! one parsed command and returns an [`Action`]: either a reply to write, or
//! work for the caller (a file-system lookup, a listener to bind, a transfer).
//! The caller performs that work and reports back through the method that
//! the action names, which decides the reply and the next state.

use vstd::prelude::*;

use crate::commands::Commands;
use crate::config::Config;
use crate::path::{logical_of, physical_of, resolve_logical, resolve_physical};
use crate::protocol::{parse_port, passive_reply, passive_text, port_of, size_string, size_text, PeerAddr, Reply};
use crate::text::{number_of, parse_u64, split_on, str_eq, trim};

verus! {

/// The pending data-connection target: at most one of an active peer and
/// a bound passive listener (identified by its port) is armed.
#[derive(Clone, Copy, Debug, PartialEq, Eq, Structural)]
pub enum DataChannel {
    Idle,
    Active(PeerAddr),
    Passive(u16),
}

/// Which transfer a data connection carries.
#[derive(Clone, Copy, Debug, PartialEq, Eq, Structural)]
pub enum TransferKind {
    Listing,
    Download,
    Upload,
}

/// What the caller does next for a command.
#[derive(Debug)]
pub enum Action {
    /// Write the reply and read the next command.
    Send(Reply),
    /// Write the FEAT block.
    SendFeatures,
    /// Write the reply and end the session.
    Quit(Reply),
    /// Look the path up, then call `change_dir_checked`.
    ChangeDir { physical: String },
    /// Look the path up, then call `size_checked`.
    Size { physical: String },
    /// Open the data connection and send the listing of the directory.
    List { physical: String },
    /// Look the file up, then call `retrieve_checked`.
    Retrieve { physical: String },
    /// Create the file and fill it from the data connection.
    Store { physical: String },
    /// Bind a passive listener, then call `passive_armed`.
    Passive,
}

/// What RETR does once the file has been looked up.
#[derive(Debug)]
pub enum RetrievePlan {
    /// Write the reply; nothing is transferred.
    Send(Reply),
    /// Send the file from `offset` on.
    Transfer { offset: u64 },
}

/// Why a session ended.
#[derive(Clone, Debug, PartialEq, Eq)]
pub enum ConnectionError {
    /// The client closed the control connection (a read of 0 bytes).
    Disconnected,
    /// Reading the control connection failed.
    ReadFailed(String),
    /// Writing a reply failed.
    WriteError(String),
    /// The client sent QUIT.
    ClosedByQuit,
    /// Dialing, accepting or copying on the data connection failed or timed out.
    DataConnectionFailed(String),
    /// A lookup, read, write or seek on the served file system failed.
    FileSystemError,
}

/// The state of a session as contracts see it.
pub struct SessionView {
    pub id: Seq<char>,
    pub username: Seq<char>,
    pub authorized: bool,
    pub cwd: Seq<char>,
    pub rest_offset: u64,
    pub data: DataChannel,
    pub config: Config,
}

impl SessionView {
    /// The same state with working directory `cwd`.
    pub open spec fn with_cwd(self, cwd: Seq<char>) -> SessionView {
        SessionView { cwd, ..self }
    }

    /// The same state with restart offset `v`.
    pub open spec fn with_rest(self, v: u64) -> SessionView {
        SessionView { rest_offset: v, ..self }
    }

    /// The same state with data target `d`.
    pub open spec fn with_data(self, d: DataChannel) -> SessionView {
        SessionView { data: d, ..self }
    }
}

impl RetrievePlan {
    /// The plan writes the reply `code text`.
    pub open spec fn sends(self, code: u16, text: Seq<char>) -> bool {
        match self {
            RetrievePlan::Send(q) => q.code == code && q.text@ == text,
            _ => false,
        }
    }

    /// The plan sends the file from `offset` on.
    pub open spec fn starts_at(self, offset: u64) -> bool {
        self == (RetrievePlan::Transfer { offset })
    }
}

/// A restart offset that RETR refuses for a file of `size` bytes.
pub open spec fn past_end(offset: u64, size: u64) -> bool {
    offset > 0 && offset >= size
}

/// `r` holds the reply `code text`.
pub open spec fn holds_reply(r: Option<Reply>, code: u16, text: Seq<char>) -> bool {
    match r {
        Some(q) => q.code == code && q.text@ == text,
        None => false,
    }
}

/// The PASV reply text, with 127.0.0.1 standing in for an unknown or
/// unspecified local address.
pub open spec fn passive_host_text(local: Option<(u8, u8, u8, u8)>, port: u16) -> Seq<char> {
    match local {
        Some((a, b, c, d)) => if a == 0 && b == 0 && c == 0 && d == 0 {
            passive_text(127, 0, 0, 1, port)
        } else {
            passive_text(a, b, c, d, port)
        },
        None => passive_text(127, 0, 0, 1, port),
    }
}

/// One control connection's protocol state.
pub struct Session {
    id: String,
    username: String,
    authorized: bool,
    current_dir: String,
    rest_offset: u64,
    data: DataChannel,
    config: Config,
}

impl View for Session {
    type V = SessionView;

    closed spec fn view(&self) -> SessionView {
        SessionView {
            id: self.id@,
            username: self.username@,
            authorized: self.authorized,
            cwd: self.current_dir@,
            rest_offset: self.rest_offset,
            data: self.data,
            config: self.config,
        }
    }
}

/// Commands that an unauthenticated client may issue.
pub open spec fn open_to_all(cmd: Commands) -> bool {
    ||| cmd == Commands::User
    ||| cmd == Commands::Password
    ||| cmd == Commands::Quit
    ||| cmd == Commands::Features
    ||| cmd == Commands::System
    ||| cmd == Commands::Type
    ||| cmd == Commands::Option
    ||| cmd == Commands::WorkingDir
}

/// `a` writes the reply `code text`.
pub open spec fn sends(a: Action, code: u16, text: Seq<char>) -> bool {
    match a {
        Action::Send(r) => r.code == code && r.text@ == text,
        _ => false,
    }
}

/// `r` is the reply `code text`.
pub open spec fn is_reply(r: Reply, code: u16, text: Seq<char>) -> bool {
    r.code == code && r.text@ == text
}

/// The text of the PWD reply.
pub open spec fn pwd_text(cwd: Seq<char>) -> Seq<char> {
    "\""@ + cwd + "\" is the current directory."@
}

/// The restart offset that a REST argument sets, if it is a number.
pub open spec fn rest_of(arg: Seq<char>) -> Option<u64> {
    match number_of(arg) {
        Some(v) => if v <= u64::MAX { Some(v as u64) } else { None },
        None => None,
    }
}

/// The session state and the action after command `cmd` with argument
/// `arg`, from state `s`.
pub open spec fn step(s: SessionView, cmd: Commands, arg: Seq<char>, n: SessionView, r: Action) -> bool {
    if !s.authorized && !open_to_all(cmd) {
        sends(r, 530, "Login is required."@) && n == s
    } else {
        match cmd {
            Commands::User => if s.authorized {
                sends(r, 230, "Already logged in."@) && n == s
            } else if arg.len() == 0 {
                sends(r, 501, "Username is required."@) && n == s
            } else if !s.config.has_user(arg) {
                sends(r, 530, "Authorization failed."@) && n == s
            } else {
                sends(r, 331, "Password is required"@) && n == SessionView { username: arg, ..s }
            },
            Commands::Password => if s.username.len() == 0 {
                sends(r, 501, "Username is required."@) && n == s
            } else if arg.len() == 0 {
                sends(r, 501, "Password is required"@) && n == s
            } else if !s.config.password_matches(s.username, arg) {
                sends(r, 530, "Authorization failed."@) && n == s
            } else {
                sends(r, 230, "Login success."@) && n == SessionView { authorized: true, ..s }
            },
            Commands::WorkingDir => sends(r, 257, pwd_text(s.cwd)) && n == s,
            Commands::ChangeDir => n == s && if arg.len() == 0 {
                sends(r, 501, "Path is required"@)
            } else {
                match r {
                    Action::ChangeDir { physical } => physical@ == physical_of(
                        s.config.root@,
                        s.cwd,
                        arg,
                    ),
                    _ => false,
                }
            },
            Commands::ChangeDirectoryUp => sends(r, 250, "Directory changed."@) && n
                == SessionView { cwd: logical_of(s.cwd, ".."@), ..s },
            Commands::Option => n == s && if arg.len() == 0 {
                sends(r, 501, "Argument is required"@)
            } else if arg == "UTF8"@ {
                sends(r, 200, "UTF-8 is enabled by default."@)
            } else {
                sends(r, 501, "Unknown option"@)
            },
            Commands::List => n == s && match r {
                Action::List { physical } => physical@ == physical_of(
                    s.config.root@,
                    s.cwd,
                    Seq::empty(),
                ),
                _ => false,
            },
            Commands::Quit => n == s && match r {
                Action::Quit(q) => is_reply(q, 221, "Bye!"@),
                _ => false,
            },
            Commands::Features => n == s && r is SendFeatures,
            Commands::Unknown => n == s && sends(r, 502, "Unknown command."@),
            Commands::System => n == s && sends(r, 215, "UNIX Type: L8"@),
            Commands::Type => n == s && sends(r, 200, "OK"@),
            Commands::Size => n == s && if arg.len() == 0 {
                sends(r, 501, "Path is required"@)
            } else {
                match r {
                    Action::Size { physical } => physical@ == physical_of(
                        s.config.root@,
                        s.cwd,
                        arg,
                    ),
                    _ => false,
                }
            },
            Commands::Port => if arg.len() == 0 {
                sends(r, 501, "Address is required"@) && n == s
            } else {
                match port_of(arg) {
                    None => sends(r, 501, "Syntax error in arguments"@) && n == s,
                    Some(a) => sends(r, 200, "PORT command success."@) && n == SessionView {
                        data: DataChannel::Active(a),
                        ..s
                    },
                }
            },
            Commands::Passive => n == s && r is Passive,
            Commands::Rest => if arg.len() == 0 {
                sends(r, 501, "Argument is required."@) && n == s
            } else {
                match rest_of(arg) {
                    None => sends(r, 501, "Invalid restart offset."@) && n == s,
                    Some(v) => sends(r, 350, "Restarting at specific bytes."@) && n
                        == SessionView { rest_offset: v, ..s },
                }
            },
            Commands::Retrive => n == s && if !s.config.may_read(s.username) {
                sends(r, 501, "No permission to read."@)
            } else if arg.len() == 0 {
                sends(r, 501, "Argument is required."@)
            } else {
                match r {
                    Action::Retrieve { physical } => physical@ == physical_of(
                        s.config.root@,
                        s.cwd,
                        arg,
                    ),
                    _ => false,
                }
            },
            Commands::Store => n == s && if !s.config.may_write(s.username) {
                sends(r, 550, "No permission to write."@)
            } else if arg.len() == 0 {
                sends(r, 501, "Argument is required."@)
            } else if arg == "."@ || arg == ".."@ {
                sends(r, 553, "File name not allowed."@)
            } else {
                match r {
                    Action::Store { physical } => physical@ == physical_of(
                        s.config.root@,
                        s.cwd,
                        arg,
                    ),
                    _ => false,
                }
            },
        }
    }
}

fn send(code: u16, text: &str) -> (r: Action)
    ensures
        sends(r, code, text@),
{
    Action::Send(Reply::new(code, text))
}

impl Session {
    /// A session is authorized only for a user of the table.
    pub open spec fn wf(&self) -> bool {
        self@.authorized ==> self@.config.has_user(self@.username)
    }

    /// A fresh session: at `/`, nobody logged in, nothing armed.
    pub fn new(id: &String, config: Config) -> (r: Session)
        ensures
            r.wf(),
            r@.id == id@,
            r@.username.len() == 0,
            !r@.authorized,
            r@.cwd == seq!['/'],
            r@.rest_offset == 0,
            r@.data == DataChannel::Idle,
            r@.config == config,
    {
        proof {
            reveal_strlit("/");
        }
        let cwd = "/".to_owned();
        assert(cwd@ =~= seq!['/']);
        Session {
            id: id.clone(),
            username: String::new(),
            authorized: false,
            current_dir: cwd,
            rest_offset: 0,
            data: DataChannel::Idle,
            config,
        }
    }

    /// The reply that opens every control connection.
    pub fn greeting() -> (r: Reply)
        ensures
            is_reply(r, 220, "Dock is welcoming you!"@),
    {
        Reply::new(220, "Dock is welcoming you!")
    }

    /// The session's identifier.
    pub fn id(&self) -> (r: &String)
        ensures
            r@ == self@.id,
    {
        &self.id
    }

    /// The logged-in or announced user name; empty before USER.
    pub fn username(&self) -> (r: &String)
        ensures
            r@ == self@.username,
    {
        &self.username
    }

    /// Whether PASS has succeeded.
    pub fn authorized(&self) -> (r: bool)
        ensures
            r == self@.authorized,
    {
        self.authorized
    }

    /// The logical working directory.
    pub fn current_dir(&self) -> (r: &String)
        ensures
            r@ == self@.cwd,
    {
        &self.current_dir
    }

    /// The restart offset for the next download.
    pub fn rest_offset(&self) -> (r: u64)
        ensures
            r == self@.rest_offset,
    {
        self.rest_offset
    }

    /// The armed data-connection target.
    pub fn data_channel(&self) -> (r: DataChannel)
        ensures
            r == self@.data,
    {
        self.data
    }

    /// Decides what command `cmd` with argument `arg` does.
    pub fn handle_command(&mut self, cmd: Commands, arg: &str) -> (r: Action)
        requires
            old(self).wf(),
        ensures
            final(self).wf(),
            step(old(self)@, cmd, arg@, final(self)@, r),
            !old(self)@.authorized && !open_to_all(cmd) ==> sends(r, 530, "Login is required."@)
                && final(self)@ == old(self)@,
    {
        if !self.authorized && !(cmd == Commands::User || cmd == Commands::Password || cmd
            == Commands::Quit || cmd == Commands::Features || cmd == Commands::System || cmd
            == Commands::Type || cmd == Commands::Option || cmd == Commands::WorkingDir) {
            return send(530, "Login is required.");
        }
        let empty = arg.unicode_len() == 0;
        match cmd {
            Commands::User => {
                if self.authorized {
                    send(230, "Already logged in.")
                } else if empty {
                    send(501, "Username is required.")
                } else if !self.config.check_user(arg) {
                    send(530, "Authorization failed.")
                } else {
                    self.username = arg.to_owned();
                    send(331, "Password is required")
                }
            },
            Commands::Password => {
                if self.username.as_str().unicode_len() == 0 {
                    send(501, "Username is required.")
                } else if empty {
                    send(501, "Password is required")
                } else if !self.config.check_password(self.username.as_str(), arg) {
                    send(530, "Authorization failed.")
                } else {
                    self.authorized = true;
                    send(230, "Login success.")
                }
            },
            Commands::WorkingDir => {
                let mut t = "\"".to_owned();
                t.append(self.current_dir.as_str());
                t.append("\" is the current directory.");
                Action::Send(Reply { code: 257, text: t })
            },
            Commands::ChangeDir => {
                if empty {
                    send(501, "Path is required")
                } else {
                    let physical = resolve_physical(
                        self.config.root.as_str(),
                        self.current_dir.as_str(),
                        arg,
                    );
                    Action::ChangeDir { physical }
                }
            },
            Commands::ChangeDirectoryUp => {
                let up = resolve_logical(self.current_dir.as_str(), "..");
                self.current_dir = up;
                send(250, "Directory changed.")
            },
            Commands::Option => {
                if empty {
                    send(501, "Argument is required")
                } else if str_eq(arg, "UTF8") {
                    send(200, "UTF-8 is enabled by default.")
                } else {
                    send(501, "Unknown option")
                }
            },
            Commands::List => {
                let physical = resolve_physical(
                    self.config.root.as_str(),
                    self.current_dir.as_str(),
                    "",
                );
                proof {
                    reveal_strlit("");
                }
                assert(""@ =~= Seq::<char>::empty());
                Action::List { physical }
            },
            Commands::Quit => Action::Quit(Reply::new(221, "Bye!")),
            Commands::Features => Action::SendFeatures,
            Commands::Unknown => send(502, "Unknown command."),
            Commands::System => send(215, "UNIX Type: L8"),
            Commands::Type => send(200, "OK"),
            Commands::Size => {
                if empty {
                    send(501, "Path is required")
                } else {
                    let physical = resolve_physical(
                        self.config.root.as_str(),
                        self.current_dir.as_str(),
                        arg,
                    );
                    Action::Size { physical }
                }
            },
            Commands::Port => {
                if empty {
                    send(501, "Address is required")
                } else {
                    match parse_port(arg) {
                        None => send(501, "Syntax error in arguments"),
                        Some(a) => {
                            self.data = DataChannel::Active(a);
                            send(200, "PORT command success.")
                        },
                    }
                }
            },
            Commands::Passive => Action::Passive,
            Commands::Rest => {
                if empty {
                    send(501, "Argument is required.")
                } else {
                    match parse_u64(arg) {
                        None => send(501, "Invalid restart offset."),
                        Some(v) => {
                            self.rest_offset = v;
                            send(350, "Restarting at specific bytes.")
                        },
                    }
                }
            },
            Commands::Retrive => {
                if !self.config.can_user_read(self.username.as_str()) {
                    send(501, "No permission to read.")
                } else if empty {
                    send(501, "Argument is required.")
                } else {
                    let physical = resolve_physical(
                        self.config.root.as_str(),
                        self.current_dir.as_str(),
                        arg,
                    );
                    Action::Retrieve { physical }
                }
            },
            Commands::Store => {
                if !self.config.can_user_write(self.username.as_str()) {
                    send(550, "No permission to write.")
                } else if empty {
                    send(501, "Argument is required.")
                } else if str_eq(arg, ".") || str_eq(arg, "..") {
                    send(553, "File name not allowed.")
                } else {
                    let physical = resolve_physical(
                        self.config.root.as_str(),
                        self.current_dir.as_str(),
                        arg,
                    );
                    Action::Store { physical }
                }
            },
        }
    }
}

impl Session {
    /// Finishes CWD `arg` once its physical path has been looked up: the
    /// working directory moves only onto an existing directory.
    pub fn change_dir_checked(&mut self, arg: &str, exists: bool, is_dir: bool) -> (r: Reply)
        requires
            old(self).wf(),
        ensures
            final(self).wf(),
            !exists ==> is_reply(r, 550, "Path does not exist."@) && final(self)@ == old(self)@,
            exists && !is_dir ==> is_reply(r, 550, "Not a directory."@),
            exists && !is_dir ==> final(self)@ == old(self)@,
            exists && is_dir ==> is_reply(r, 250, "Directory changed."@),
            exists && is_dir ==> final(self)@ == old(self)@.with_cwd(logical_of(old(self)@.cwd, arg@)),
    {
        if !exists {
            Reply::new(550, "Path does not exist.")
        } else if !is_dir {
            Reply::new(550, "Not a directory.")
        } else {
            self.current_dir = resolve_logical(self.current_dir.as_str(), arg);
            Reply::new(250, "Directory changed.")
        }
    }

    /// Finishes SIZE once the path has been looked up.
    pub fn size_checked(exists: bool, is_file: bool, size: u64) -> (r: Reply)
        ensures
            !exists ==> is_reply(r, 550, "Path does not exist."@),
            exists && !is_file ==> is_reply(r, 550, "Not a file."@),
            exists && is_file ==> is_reply(r, 213, size_text(size)),
    {
        if !exists {
            Reply::new(550, "Path does not exist.")
        } else if !is_file {
            Reply::new(550, "Not a file.")
        } else {
            Reply { code: 213, text: size_string(size) }
        }
    }

    /// Decides RETR once the file has been looked up: a restart offset at or
    /// past the end is refused and dropped; otherwise the transfer starts at
    /// the offset.
    pub fn retrieve_checked(&mut self, exists: bool, size: u64) -> (r: RetrievePlan)
        requires
            old(self).wf(),
        ensures
            final(self).wf(),
            !exists ==> final(self)@ == old(self)@,
            !exists ==> r.sends(550, "File not found."@),
            exists && past_end(old(self)@.rest_offset, size) ==> r.sends(
                550,
                "Invalid restart position."@,
            ),
            exists && past_end(old(self)@.rest_offset, size) ==> final(self)@ == old(self)@.with_rest(0),
            exists && !past_end(old(self)@.rest_offset, size) ==> final(self)@ == old(self)@,
            exists && !past_end(old(self)@.rest_offset, size) ==> r.starts_at(old(self)@.rest_offset),
    {
        if !exists {
            return RetrievePlan::Send(Reply::new(550, "File not found."));
        }
        if self.rest_offset > 0 && self.rest_offset >= size {
            self.rest_offset = 0;
            return RetrievePlan::Send(Reply::new(550, "Invalid restart position."));
        }
        RetrievePlan::Transfer { offset: self.rest_offset }
    }

    /// Hands out the armed data-connection target to be opened, and disarms
    /// it.
    pub fn take_data_channel(&mut self) -> (r: DataChannel)
        requires
            old(self).wf(),
        ensures
            final(self).wf(),
            r == old(self)@.data,
            final(self)@ == old(self)@.with_data(DataChannel::Idle),
    {
        let d = self.data;
        self.data = DataChannel::Idle;
        d
    }

    /// The reply when RETR cannot open its data connection; the restart
    /// offset is kept.
    pub fn data_unavailable() -> (r: Reply)
        ensures
            is_reply(r, 425, "Cant open data connection."@),
    {
        Reply::new(425, "Cant open data connection.")
    }

    /// The preliminary reply written once the data connection is open.
    pub fn transfer_started(kind: TransferKind) -> (r: Option<Reply>)
        ensures
            kind == TransferKind::Listing ==> holds_reply(r, 150, "Listing of directory"@),
            kind == TransferKind::Download ==> holds_reply(r, 150, "Ready to transfer..."@),
            kind == TransferKind::Upload ==> r == None::<Reply>,
    {
        match kind {
            TransferKind::Listing => Some(Reply::new(150, "Listing of directory")),
            TransferKind::Download => Some(Reply::new(150, "Ready to transfer...")),
            TransferKind::Upload => None,
        }
    }

    /// Closes a successful transfer: the restart offset is consumed.
    pub fn transfer_finished(&mut self, kind: TransferKind) -> (r: Reply)
        requires
            old(self).wf(),
        ensures
            final(self).wf(),
            final(self)@ == old(self)@.with_rest(0),
            final(self)@.rest_offset == 0,
            kind == TransferKind::Download ==> is_reply(r, 226, "Done."@),
            kind != TransferKind::Download ==> is_reply(r, 226, "Transfer complete."@),
    {
        self.rest_offset = 0;
        match kind {
            TransferKind::Download => Reply::new(226, "Done."),
            _ => Reply::new(226, "Transfer complete."),
        }
    }

    /// Records a passive listener bound on `port` and builds the PASV reply.
    /// The host is the control connection's local IPv4 address, or
    /// 127.0.0.1 where that is unknown or unspecified.
    pub fn passive_armed(&mut self, local: Option<(u8, u8, u8, u8)>, port: u16) -> (r: Reply)
        requires
            old(self).wf(),
        ensures
            final(self).wf(),
            final(self)@ == old(self)@.with_data(DataChannel::Passive(port)),
            r.code == 227,
            r.text@ == passive_host_text(local, port),
    {
        self.data = DataChannel::Passive(port);
        match local {
            Some((a, b, c, d)) => {
                if a == 0 && b == 0 && c == 0 && d == 0 {
                    passive_reply(127, 0, 0, 1, port)
                } else {
                    passive_reply(a, b, c, d, port)
                }
            },
            None => passive_reply(127, 0, 0, 1, port),
        }
    }
}

/// Before login, a command outside USER, PASS, QUIT, FEAT, SYST, TYPE, OPTS
/// and PWD changes nothing and is answered 530.
pub proof fn lemma_login_gate(s: SessionView, cmd: Commands, arg: Seq<char>, n: SessionView, r: Action)
    requires
        step(s, cmd, arg, n, r),
        !s.authorized,
        !open_to_all(cmd),
    ensures
        sends(r, 530, "Login is required."@),
        n == s,
{
}

/// A session becomes authorized only through PASS with the password of the
/// user that USER announced.
pub proof fn lemma_authorized_only_by_pass(
    s: SessionView,
    cmd: Commands,
    arg: Seq<char>,
    n: SessionView,
    r: Action,
)
    requires
        step(s, cmd, arg, n, r),
        !s.authorized,
        n.authorized,
    ensures
        cmd == Commands::Password,
        s.config.password_matches(s.username, arg),
        n.username == s.username,
{
}

/// PORT with other than six comma-separated fields is answered 501 and arms
/// nothing.
pub proof fn lemma_port_field_count(s: SessionView, arg: Seq<char>, n: SessionView, r: Action)
    requires
        step(s, Commands::Port, arg, n, r),
        s.authorized,
        split_on(arg, ',').len() != 6,
    ensures
        r is Send,
        match r {
            Action::Send(q) => q.code == 501,
            _ => false,
        },
        n == s,
{
}

/// PORT whose fifth field (the high byte of the port) is past 255 is
/// answered 501 and arms nothing.
pub proof fn lemma_port_high_byte(s: SessionView, arg: Seq<char>, n: SessionView, r: Action)
    requires
        step(s, Commands::Port, arg, n, r),
        s.authorized,
        split_on(arg, ',').len() == 6,
        number_of(trim(split_on(arg, ',')[4])) is Some,
        number_of(trim(split_on(arg, ',')[4]))->0 > 255,
    ensures
        sends(r, 501, "Syntax error in arguments"@),
        n == s,
{
}

/// STOR of `.` or `..` by a user who may write is answered 553.
pub proof fn lemma_store_dot_names(s: SessionView, arg: Seq<char>, n: SessionView, r: Action)
    requires
        step(s, Commands::Store, arg, n, r),
        s.authorized,
        s.config.may_write(s.username),
        arg == "."@ || arg == ".."@,
    ensures
        sends(r, 553, "File name not allowed."@),
        n == s,
{
    reveal_strlit(".");
    reveal_strlit("..");
}

/// An active peer and a passive listener are never armed together.
pub proof fn lemma_single_arming(s: SessionView)
    ensures
        !(s.data is Active && s.data is Passive),
{
}

} // verus!
