//! Severity, facility, and the priority value that combines them.

use vstd::prelude::*;

verus! {

/// How urgent a message is; the lower the code, the more urgent.
#[derive(Clone, Copy, Debug, PartialEq, Eq, Structural)]
pub enum Severity {
    Emergency,
    Alert,
    Critical,
    Error,
    Warning,
    Notice,
    Info,
    Debug,
}

/// Which part of the system a message comes from.
#[derive(Clone, Copy, Debug, PartialEq, Eq, Structural)]
pub enum Facility {
    Kernel,
    User,
    Mail,
    Daemon,
    Auth,
    Syslog,
    Lpr,
    News,
    Uucp,
    Cron,
    AuthPriv,
    Ftp,
    Ntp,
    Audit,
    Alert,
    Clock,
    Local0,
    Local1,
    Local2,
    Local3,
    Local4,
    Local5,
    Local6,
    Local7,
}

impl Severity {
    /// The numeric code, 0 (emergency) to 7 (debug).
    pub open spec fn value(self) -> nat {
        match self {
            Severity::Emergency => 0,
            Severity::Alert => 1,
            Severity::Critical => 2,
            Severity::Error => 3,
            Severity::Warning => 4,
            Severity::Notice => 5,
            Severity::Info => 6,
            Severity::Debug => 7,
        }
    }

    /// The numeric code of this severity.
    pub fn code(self) -> (c: u8)
        ensures
            c == self.value(),
            c <= 7,
    {
        match self {
            Severity::Emergency => 0,
            Severity::Alert => 1,
            Severity::Critical => 2,
            Severity::Error => 3,
            Severity::Warning => 4,
            Severity::Notice => 5,
            Severity::Info => 6,
            Severity::Debug => 7,
        }
    }

    /// The severity with the given code, if the code is at most 7.
    pub fn from_code(code: u8) -> (r: Option<Severity>)
        ensures
            r.is_some() <==> code <= 7,
            r matches Some(s) ==> s.value() == code,
    {
        match code {
            0 => Some(Severity::Emergency),
            1 => Some(Severity::Alert),
            2 => Some(Severity::Critical),
            3 => Some(Severity::Error),
            4 => Some(Severity::Warning),
            5 => Some(Severity::Notice),
            6 => Some(Severity::Info),
            7 => Some(Severity::Debug),
            _ => None,
        }
    }
}

impl Facility {
    /// The numeric code, 0 (kernel) to 23 (local7).
    pub open spec fn value(self) -> nat {
        match self {
            Facility::Kernel => 0,
            Facility::User => 1,
            Facility::Mail => 2,
            Facility::Daemon => 3,
            Facility::Auth => 4,
            Facility::Syslog => 5,
            Facility::Lpr => 6,
            Facility::News => 7,
            Facility::Uucp => 8,
            Facility::Cron => 9,
            Facility::AuthPriv => 10,
            Facility::Ftp => 11,
            Facility::Ntp => 12,
            Facility::Audit => 13,
            Facility::Alert => 14,
            Facility::Clock => 15,
            Facility::Local0 => 16,
            Facility::Local1 => 17,
            Facility::Local2 => 18,
            Facility::Local3 => 19,
            Facility::Local4 => 20,
            Facility::Local5 => 21,
            Facility::Local6 => 22,
            Facility::Local7 => 23,
        }
    }

    /// The numeric code of this facility.
    pub fn code(self) -> (c: u8)
        ensures
            c == self.value(),
            c <= 23,
    {
        match self {
            Facility::Kernel => 0,
            Facility::User => 1,
            Facility::Mail => 2,
            Facility::Daemon => 3,
            Facility::Auth => 4,
            Facility::Syslog => 5,
            Facility::Lpr => 6,
            Facility::News => 7,
            Facility::Uucp => 8,
            Facility::Cron => 9,
            Facility::AuthPriv => 10,
            Facility::Ftp => 11,
            Facility::Ntp => 12,
            Facility::Audit => 13,
            Facility::Alert => 14,
            Facility::Clock => 15,
            Facility::Local0 => 16,
            Facility::Local1 => 17,
            Facility::Local2 => 18,
            Facility::Local3 => 19,
            Facility::Local4 => 20,
            Facility::Local5 => 21,
            Facility::Local6 => 22,
            Facility::Local7 => 23,
        }
    }

    /// The facility with the given code, if the code is at most 23.
    pub fn from_code(code: u8) -> (r: Option<Facility>)
        ensures
            r.is_some() <==> code <= 23,
            r matches Some(f) ==> f.value() == code,
    {
        match code {
            0 => Some(Facility::Kernel),
            1 => Some(Facility::User),
            2 => Some(Facility::Mail),
            3 => Some(Facility::Daemon),
            4 => Some(Facility::Auth),
            5 => Some(Facility::Syslog),
            6 => Some(Facility::Lpr),
            7 => Some(Facility::News),
            8 => Some(Facility::Uucp),
            9 => Some(Facility::Cron),
            10 => Some(Facility::AuthPriv),
            11 => Some(Facility::Ftp),
            12 => Some(Facility::Ntp),
            13 => Some(Facility::Audit),
            14 => Some(Facility::Alert),
            15 => Some(Facility::Clock),
            16 => Some(Facility::Local0),
            17 => Some(Facility::Local1),
            18 => Some(Facility::Local2),
            19 => Some(Facility::Local3),
            20 => Some(Facility::Local4),
            21 => Some(Facility::Local5),
            22 => Some(Facility::Local6),
            23 => Some(Facility::Local7),
            _ => None,
        }
    }
}

/// The priority value of a facility and a severity: eight times the
/// facility's code plus the severity's code.
pub open spec fn priority_value(facility: Facility, severity: Severity) -> nat {
    facility.value() * 8 + severity.value()
}

/// Computes the priority value; it never exceeds 191.
pub fn priority(facility: Facility, severity: Severity) -> (pri: u8)
    ensures
        pri == priority_value(facility, severity),
        pri <= 191,
{
    facility.code() * 8 + severity.code()
}

} // verus!
