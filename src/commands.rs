//! The command lexicon: wire verbs and the commands they stand for.

use vstd::prelude::*;

use crate::text::str_eq;

verus! {

/// A command of the protocol, after folding verbs that mean the same.
#[derive(Clone, Copy, Debug, PartialEq, Eq, Structural)]
pub enum Commands {
    User,
    Password,
    WorkingDir,
    ChangeDir,
    Features,
    System,
    Type,
    ChangeDirectoryUp,
    List,
    Port,
    Size,
    Retrive,
    Store,
    Rest,
    Passive,
    Option,
    Quit,
    Unknown,
}

/// The command that verb `v` stands for; the match is case-sensitive.
pub open spec fn command_of(v: Seq<char>) -> Commands {
    if v == "USER"@ {
        Commands::User
    } else if v == "PASS"@ {
        Commands::Password
    } else if v == "PWD"@ || v == "XPWD"@ {
        Commands::WorkingDir
    } else if v == "CWD"@ {
        Commands::ChangeDir
    } else if v == "CDUP"@ {
        Commands::ChangeDirectoryUp
    } else if v == "OPTS"@ {
        Commands::Option
    } else if v == "LIST"@ || v == "NLST"@ || v == "MLST"@ || v == "MLSD"@ {
        Commands::List
    } else if v == "PORT"@ {
        Commands::Port
    } else if v == "REST"@ {
        Commands::Rest
    } else if v == "PASV"@ {
        Commands::Passive
    } else if v == "RETR"@ {
        Commands::Retrive
    } else if v == "STOR"@ {
        Commands::Store
    } else if v == "SIZE"@ {
        Commands::Size
    } else if v == "SYST"@ {
        Commands::System
    } else if v == "TYPE"@ {
        Commands::Type
    } else if v == "FEAT"@ {
        Commands::Features
    } else if v == "QUIT"@ {
        Commands::Quit
    } else {
        Commands::Unknown
    }
}

impl Commands {
    /// The command that `verb` stands for.
    pub fn from_verb(verb: &str) -> (r: Commands)
        ensures
            r == command_of(verb@),
    {
        if str_eq(verb, "USER") {
            Commands::User
        } else if str_eq(verb, "PASS") {
            Commands::Password
        } else if str_eq(verb, "PWD") || str_eq(verb, "XPWD") {
            Commands::WorkingDir
        } else if str_eq(verb, "CWD") {
            Commands::ChangeDir
        } else if str_eq(verb, "CDUP") {
            Commands::ChangeDirectoryUp
        } else if str_eq(verb, "OPTS") {
            Commands::Option
        } else if str_eq(verb, "LIST") || str_eq(verb, "NLST") || str_eq(verb, "MLST")
            || str_eq(verb, "MLSD") {
            Commands::List
        } else if str_eq(verb, "PORT") {
            Commands::Port
        } else if str_eq(verb, "REST") {
            Commands::Rest
        } else if str_eq(verb, "PASV") {
            Commands::Passive
        } else if str_eq(verb, "RETR") {
            Commands::Retrive
        } else if str_eq(verb, "STOR") {
            Commands::Store
        } else if str_eq(verb, "SIZE") {
            Commands::Size
        } else if str_eq(verb, "SYST") {
            Commands::System
        } else if str_eq(verb, "TYPE") {
            Commands::Type
        } else if str_eq(verb, "FEAT") {
            Commands::Features
        } else if str_eq(verb, "QUIT") {
            Commands::Quit
        } else {
            Commands::Unknown
        }
    }
}

impl From<String> for Commands {
    fn from(val: String) -> (r: Commands) {
        Commands::from_verb(val.as_str())
    }
}

impl vstd::std_specs::convert::FromSpecImpl<String> for Commands {
    open spec fn obeys_from_spec() -> bool {
        true
    }

    open spec fn from_spec(v: String) -> Commands {
        command_of(v@)
    }
}

} // verus!
