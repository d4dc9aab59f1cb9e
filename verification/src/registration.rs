//! The process-wide registration of the bridge: installed at most once, with
//! the threshold chosen at that moment.

use crate::console::{representable, Host, HostCall, UnsupportedPlatform};
use crate::level::{Level, LevelFilter};
use crate::logger::{emitted, Record, WasmLogger};
use vstd::prelude::*;

verus! {

/// The failure of a registration attempt: a logger is installed already.
#[derive(Clone, Copy, Debug, PartialEq, Eq, Structural, Hash)]
pub struct AlreadyRegistered;

/// The state of the registration. It starts `Unregistered`, a successful
/// registration makes it `Registered`, and nothing leads back.
#[derive(Clone, Copy, Debug, PartialEq, Eq, Structural, Hash)]
pub enum Registration {
    Unregistered,
    Registered { threshold: Level },
}

impl Registration {
    /// Whether a logger is installed.
    pub open spec fn registered(&self) -> bool {
        self is Registered
    }

    /// The threshold in force: the one chosen at registration, and `Off`
    /// while nothing is installed.
    pub open spec fn threshold(&self) -> LevelFilter {
        match self {
            Registration::Unregistered => LevelFilter::Off,
            Registration::Registered { threshold } => threshold.filter(),
        }
    }

    /// The state after an attempt to register with `level`: an unregistered
    /// state takes the level, a registered one stays as it is.
    pub open spec fn after_init(&self, level: Level) -> Registration {
        match self {
            Registration::Unregistered => Registration::Registered { threshold: level },
            Registration::Registered { threshold } => Registration::Registered {
                threshold: *threshold,
            },
        }
    }

    /// The state of a process in which nothing has been registered.
    pub fn new() -> (registration: Registration)
        ensures
            registration == Registration::Unregistered,
    {
        Registration::Unregistered
    }

    pub fn is_registered(&self) -> (yes: bool)
        ensures
            yes == self.registered(),
    {
        match self {
            Registration::Unregistered => false,
            Registration::Registered { .. } => true,
        }
    }

    pub fn max_level(&self) -> (max_level: LevelFilter)
        ensures
            max_level == self.threshold(),
    {
        match self {
            Registration::Unregistered => LevelFilter::Off,
            Registration::Registered { threshold } => threshold.to_level_filter(),
        }
    }

    /// What logging `record` leads to in this state: the installed logger
    /// emits it under the threshold in force, and without a logger nothing
    /// happens.
    pub fn log(&self, host: Host, record: &Record) -> (outcome: Result<
        Option<HostCall>,
        UnsupportedPlatform,
    >)
        requires
            host is WithConsole && record.severity().passes(self.threshold()) ==> representable(
                record.message@,
            ),
        ensures
            emitted(host, self.threshold(), record, outcome),
    {
        match self {
            Registration::Unregistered => Ok(None),
            Registration::Registered { threshold } => {
                let logger = WasmLogger;
                logger.log(host, threshold.to_level_filter(), record)
            },
        }
    }
}

/// Installs the logger and sets the threshold to `level`. Fails, and changes
/// nothing, if a logger is installed already.
pub fn init_with_level(registration: &mut Registration, level: Level) -> (result: Result<
    (),
    AlreadyRegistered,
>)
    ensures
        result is Ok <==> !old(registration).registered(),
        *final(registration) == old(registration).after_init(level),
{
    match registration {
        Registration::Unregistered => {
            *registration = Registration::Registered { threshold: level };
            Ok(())
        },
        Registration::Registered { .. } => Err(AlreadyRegistered),
    }
}

/// Installs the logger with the threshold `Debug`, which lets everything but
/// `Trace` pass.
pub fn init(registration: &mut Registration) -> (result: Result<(), AlreadyRegistered>)
    ensures
        result is Ok <==> !old(registration).registered(),
        *final(registration) == old(registration).after_init(Level::Debug),
{
    init_with_level(registration, Level::Debug)
}

/// A registration attempt leaves the state registered, whatever it was, and
/// leaves a registered state exactly as it was, threshold included.
pub proof fn lemma_registration_is_final(registration: Registration, level: Level)
    ensures
        registration.after_init(level).registered(),
        registration.registered() ==> registration.after_init(level) == registration,
        !registration.registered() ==> registration.after_init(level).threshold()
            == level.filter(),
{
}

/// After one successful registration with `first`, a second attempt with any
/// level finds the state registered, so it fails, and the threshold is still
/// that of `first`.
pub proof fn lemma_second_init_changes_nothing(start: Registration, first: Level, second: Level)
    requires
        !start.registered(),
    ensures
        start.after_init(first).registered(),
        start.after_init(first).after_init(second) == start.after_init(first),
        start.after_init(first).after_init(second).threshold() == first.filter(),
{
}

} // verus!
