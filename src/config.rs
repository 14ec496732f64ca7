//! Server configuration: the bind address, the served root and the user table.

use vstd::prelude::*;

use crate::text::str_eq;

verus! {

/// What a user may do with files.
#[derive(Clone, Copy, Debug, PartialEq, Eq, Structural)]
pub enum Permissions {
    Write,
    Read,
    All,
}

/// One entry of the user table.
#[derive(Clone, Debug)]
pub struct User {
    pub name: String,
    pub password: String,
    pub permissions: Permissions,
}

/// The configuration shared read-only by every session.
#[derive(Clone, Debug)]
pub struct Config {
    pub address: String,
    pub users: Vec<User>,
    pub root: String,
}

/// Why a login attempt was refused.
#[derive(Clone, Copy, Debug, PartialEq, Eq, Structural)]
pub enum ConfigError {
    UserNotFound,
    WrongPassword,
}

/// The first user of `users` named `name`, if any.
pub open spec fn lookup(users: Seq<User>, name: Seq<char>) -> Option<User>
    decreases users.len(),
{
    if users.len() == 0 {
        None
    } else if users[0].name@ == name {
        Some(users[0])
    } else {
        lookup(users.drop_first(), name)
    }
}

/// The permission grants reading.
pub open spec fn grants_read(p: Permissions) -> bool {
    p == Permissions::Read || p == Permissions::All
}

/// The permission grants writing.
pub open spec fn grants_write(p: Permissions) -> bool {
    p == Permissions::Write || p == Permissions::All
}

impl Config {
    /// The user named `username` exists.
    pub open spec fn has_user(&self, username: Seq<char>) -> bool {
        lookup(self.users@, username) is Some
    }

    /// `password` is the password of the user named `username`.
    pub open spec fn password_matches(&self, username: Seq<char>, password: Seq<char>) -> bool {
        match lookup(self.users@, username) {
            Some(u) => u.password@ == password,
            None => false,
        }
    }

    /// The user named `username` may read files.
    pub open spec fn may_read(&self, username: Seq<char>) -> bool {
        match lookup(self.users@, username) {
            Some(u) => grants_read(u.permissions),
            None => false,
        }
    }

    /// The user named `username` may write files.
    pub open spec fn may_write(&self, username: Seq<char>) -> bool {
        match lookup(self.users@, username) {
            Some(u) => grants_write(u.permissions),
            None => false,
        }
    }

    fn find_user(&self, username: &str) -> (r: Option<usize>)
        ensures
            match r {
                Some(i) => i < self.users@.len() && lookup(self.users@, username@) == Some(
                    self.users@[i as int],
                ),
                None => lookup(self.users@, username@) is None,
            },
    {
        let n = self.users.len();
        let mut i: usize = 0;
        assert(self.users@.subrange(0, n as int) =~= self.users@);
        while i < n
            invariant
                n == self.users@.len(),
                i <= n,
                lookup(self.users@, username@) == lookup(
                    self.users@.subrange(i as int, n as int),
                    username@,
                ),
            decreases n - i,
        {
            let ghost rest = self.users@.subrange(i as int, n as int);
            assert(rest[0] == self.users@[i as int]);
            if str_eq(self.users[i].name.as_str(), username) {
                return Some(i);
            }
            assert(rest.drop_first() =~= self.users@.subrange(i + 1, n as int));
            i = i + 1;
        }
        assert(self.users@.subrange(n as int, n as int).len() == 0);
        None
    }

    /// Checks if user exists.
    pub fn check_user(&self, username: &str) -> (r: bool)
        ensures
            r == self.has_user(username@),
    {
        self.find_user(username).is_some()
    }

    /// Checks if user's password matches.
    pub fn check_password(&self, username: &str, password: &str) -> (r: bool)
        ensures
            r == self.password_matches(username@, password@),
    {
        match self.find_user(username) {
            Some(i) => str_eq(self.users[i].password.as_str(), password),
            None => false,
        }
    }

    /// Checks if user has access to write.
    pub fn can_user_write(&self, username: &str) -> (r: bool)
        ensures
            r == self.may_write(username@),
    {
        match self.find_user(username) {
            Some(i) => {
                let p = self.users[i].permissions;
                p == Permissions::Write || p == Permissions::All
            },
            None => false,
        }
    }

    /// Checks if user has access to read.
    pub fn can_user_read(&self, username: &str) -> (r: bool)
        ensures
            r == self.may_read(username@),
    {
        match self.find_user(username) {
            Some(i) => {
                let p = self.users[i].permissions;
                p == Permissions::Read || p == Permissions::All
            },
            None => false,
        }
    }
}

} // verus!
