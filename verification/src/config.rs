//! The credentials, as the command line gives them.

use crate::client::{PASSWORD_MISSING, USERNAME_MISSING};
use crate::error::{Error, ErrorView};
use vstd::prelude::*;

verus! {

/// The credentials of the account to export from.
#[derive(Debug, Clone, PartialEq, Eq)]
pub struct Config {
    pub username: String,
    pub password: String,
}

/// A [`Config`] over sequences of characters.
pub struct ConfigView {
    pub username: Seq<char>,
    pub password: Seq<char>,
}

impl View for Config {
    type V = ConfigView;

    open spec fn view(&self) -> ConfigView {
        ConfigView { username: self.username@, password: self.password@ }
    }
}

/// What the arguments of a program hold: the name of the program, then the
/// user name, then the password; what follows is ignored.
pub open spec fn configured(args: Seq<String>) -> Result<ConfigView, ErrorView> {
    if args.len() < 2 {
        Err(ErrorView::InvalidInput(USERNAME_MISSING@))
    } else if args.len() < 3 {
        Err(ErrorView::InvalidInput(PASSWORD_MISSING@))
    } else {
        Ok(ConfigView { username: args[1]@, password: args[2]@ })
    }
}

impl Config {
    /// Reads the credentials from the arguments of the program.
    pub fn new(args: Vec<String>) -> (read: Result<Config, Error>)
        ensures
            match read {
                Ok(config) => configured(args@) == Ok::<ConfigView, ErrorView>(config@),
                Err(e) => configured(args@) == Err::<ConfigView, ErrorView>(e@),
            },
    {
        if args.len() < 2 {
            return Err(Error::InvalidInput(USERNAME_MISSING.to_owned()));
        }
        if args.len() < 3 {
            return Err(Error::InvalidInput(PASSWORD_MISSING.to_owned()));
        }
        Ok(Config { username: args[1].clone(), password: args[2].clone() })
    }
}

} // verus!
