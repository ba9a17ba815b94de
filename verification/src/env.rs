//! The process environment's configuration: the build profile and the
//! database connection string.
//!
//! The application loads these from a `.env` file and hands the values
//! over; the verified type carries them.

use vstd::prelude::*;
use vstd::string::*;

verus! {

/// The build profile the environment declares.
#[derive(Clone, Copy, Debug, PartialEq, Eq, Structural)]
pub enum Profile {
    DEBUG,
}

impl Profile {
    /// The profile named by the given text.  Any text but `DEBUG` is a
    /// deployment error refused outright, so it is excluded here.
    pub fn from_string(input: &String) -> (p: Profile)
        requires
            input@ == "DEBUG"@,
        ensures
            p == Profile::DEBUG,
    {
        Profile::DEBUG
    }
}

/// The environment's configuration values.
pub struct Config {
    profile: String,
    database_url: String,
}

impl Config {
    /// The text naming the profile.
    pub closed spec fn profile_text(&self) -> Seq<char> {
        self.profile@
    }

    /// The database connection string.
    pub closed spec fn database_url_spec(&self) -> Seq<char> {
        self.database_url@
    }

    /// A configuration from the values the environment supplied.
    pub fn open(profile: String, database_url: String) -> (c: Config)
        ensures
            c.profile_text() == profile@,
            c.database_url_spec() == database_url@,
    {
        Config { profile, database_url }
    }

    /// The declared profile.
    pub fn profile(&self) -> (p: Profile)
        requires
            self.profile_text() == "DEBUG"@,
        ensures
            p == Profile::DEBUG,
    {
        Profile::from_string(&self.profile)
    }

    /// The database connection string.
    pub fn database_url(&self) -> (r: &String)
        ensures
            r@ == self.database_url_spec(),
    {
        &self.database_url
    }
}

} // verus!
