//! Allocation status of a registry record.

use vstd::prelude::*;

use crate::strutil::str_equal;

verus! {

/// Error returned when a textual status is not one of the four known ones.
#[derive(Debug, Copy, Clone, Hash, PartialEq, Eq, Structural)]
pub struct InvalidStatus;

/// Allocation status field of a registry record.
#[derive(Debug, Copy, Clone, Hash, PartialEq, Eq, Structural)]
pub enum Status {
    Allocated,
    Assigned,
    Available,
    Reserved,
}

/// The dense index of each status, as stored in serialized form.
pub open spec fn spec_status_index(s: Status) -> int {
    match s {
        Status::Allocated => 0,
        Status::Assigned => 1,
        Status::Available => 2,
        Status::Reserved => 3,
    }
}

/// The textual form of each status, as it appears in registry files.
pub open spec fn spec_status_text(s: Status) -> Seq<char> {
    match s {
        Status::Allocated => "allocated"@,
        Status::Assigned => "assigned"@,
        Status::Available => "available"@,
        Status::Reserved => "reserved"@,
    }
}

impl Status {
    /// Inverse of `index`: recovers a status from its dense index.
    pub fn from_index(index: u8) -> (r: Result<Self, ()>)
        ensures
            match r {
                Ok(s) => spec_status_index(s) == index,
                Err(()) => index >= 4,
            },
    {
        match index {
            0 => Ok(Status::Allocated),
            1 => Ok(Status::Assigned),
            2 => Ok(Status::Available),
            3 => Ok(Status::Reserved),
            _ => Err(()),
        }
    }

    /// The dense index of this status.
    pub fn index(&self) -> (r: u8)
        ensures
            r == spec_status_index(*self),
    {
        match *self {
            Status::Allocated => 0,
            Status::Assigned => 1,
            Status::Available => 2,
            Status::Reserved => 3,
        }
    }

    /// Parses the textual status field of a registry record.
    pub fn from_str(s: &str) -> (r: Result<Self, InvalidStatus>)
        ensures
            match r {
                Ok(st) => s@ == spec_status_text(st),
                Err(_) => forall|st: Status| s@ != spec_status_text(st),
            },
    {
        if str_equal(s, "allocated") {
            Ok(Status::Allocated)
        } else if str_equal(s, "assigned") {
            Ok(Status::Assigned)
        } else if str_equal(s, "available") {
            Ok(Status::Available)
        } else if str_equal(s, "reserved") {
            Ok(Status::Reserved)
        } else {
            Err(InvalidStatus)
        }
    }

    /// The textual form of this status.
    pub fn as_str(&self) -> (r: &'static str)
        ensures
            r@ == spec_status_text(*self),
    {
        match *self {
            Status::Allocated => "allocated",
            Status::Assigned => "assigned",
            Status::Available => "available",
            Status::Reserved => "reserved",
        }
    }
}

} // verus!
