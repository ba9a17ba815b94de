//! The system's configuration: which log kinds are active, whether logs
//! are shown and saved, and the running profile.
//!
//! The application owns the instance and the JSON file it is loaded
//! from; every read and write of the values is verified.

use vstd::prelude::*;
use vstd::string::*;

use crate::env::Profile;

verus! {

/// Which kinds of log messages are active.
#[derive(Clone, Copy, Debug, PartialEq, Eq, Structural)]
pub struct Kinds {
    pub trace: bool,
    pub info: bool,
    pub warn: bool,
    pub error: bool,
}

/// The logging switches: whether logging is on, whether messages carry
/// extra debugging detail, whether they are saved to disk, and which
/// kinds are active.
#[derive(Clone, Copy, Debug, PartialEq, Eq, Structural)]
pub struct Log {
    pub on: bool,
    pub debug: bool,
    pub save: bool,
    pub kinds: Kinds,
}

/// The system configuration: the logging switches and the profile the
/// environment declared.
#[derive(Debug)]
pub struct Configs {
    log: Log,
    profile: Option<Profile>,
}

impl Configs {
    /// The logging switches.
    pub closed spec fn log_spec(&self) -> Log {
        self.log
    }

    /// The profile, where one has been attached.
    pub closed spec fn profile_spec(&self) -> Option<Profile> {
        self.profile
    }

    /// A configuration from the stored switches and the environment's
    /// profile, which is attached when the stored file is loaded.
    pub fn open(log: Log, profile: Profile) -> (c: Configs)
        ensures
            c.log_spec() == log,
            c.profile_spec() == Some(profile),
    {
        Configs { log, profile: Some(profile) }
    }

    /// The logging switches, by value.
    pub fn get_log(&self) -> (l: Log)
        ensures
            l == self.log_spec(),
    {
        self.log
    }

    /// The logging switches, by reference.
    pub fn log(&self) -> (l: &Log)
        ensures
            *l == self.log_spec(),
    {
        &self.log
    }

    /// Turns logging and saving on or off, and replaces the active kinds
    /// where new ones are given; everything else is untouched.
    pub fn set_log(&mut self, on: bool, save: bool, kinds: Option<Kinds>)
        ensures
            final(self).profile_spec() == old(self).profile_spec(),
            final(self).log_spec().on == on,
            final(self).log_spec().save == save,
            final(self).log_spec().debug == old(self).log_spec().debug,
            kinds matches Some(k) ==> final(self).log_spec().kinds == k,
            kinds is None ==> final(self).log_spec().kinds == old(self).log_spec().kinds,
    {
        self.log.on = on;
        self.log.save = save;
        if let Some(k) = kinds {
            self.log.kinds = k;
        }
    }

    /// Whether log messages are saved to disk.
    pub fn get_save(&self) -> (b: bool)
        ensures
            b == self.log_spec().save,
    {
        self.log.save
    }

    /// Whether log messages are saved to disk.
    pub fn save(&self) -> (b: bool)
        ensures
            b == self.log_spec().save,
    {
        self.log.save
    }

    /// Whether log messages carry extra debugging detail.
    pub fn debug(&self) -> (b: bool)
        ensures
            b == self.log_spec().debug,
    {
        self.log.debug
    }

    /// The attached profile.  A configuration without one is excluded.
    pub fn get_profile(&self) -> (p: Profile)
        requires
            self.profile_spec() is Some,
        ensures
            self.profile_spec() == Some(p),
    {
        match self.profile {
            Some(p) => p,
            None => vstd::pervasive::unreached(),
        }
    }

    /// The attached profile, by reference.
    pub fn profile(&self) -> (p: &Profile)
        requires
            self.profile_spec() is Some,
        ensures
            self.profile_spec() == Some(*p),
    {
        match &self.profile {
            Some(p) => p,
            None => vstd::pervasive::unreached(),
        }
    }
}

/// Replaces the process name shown in log lines.  The application owns
/// the storage cell.
pub fn set_process_name(current: &mut String, name: &str)
    ensures
        final(current)@ == name@,
{
    *current = String::from_str(name);
}

/// The process name shown in log lines, as a fresh string.
pub fn get_process_name(current: &String) -> (r: String)
    ensures
        r@ == current@,
{
    current.clone()
}

} // verus!
