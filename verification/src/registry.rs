//! The numbering registries that publish delegation records.

use vstd::prelude::*;

use crate::strutil::str_equal;

verus! {

/// Error returned when a textual registry name is not a known registry.
#[derive(Debug, Copy, Clone, Hash, PartialEq, Eq, Structural)]
pub struct InvalidRegistry;

/// One of the five regional registries, or the coordinating root registry.
#[derive(Debug, Copy, Clone, Hash, PartialEq, Eq, Structural)]
pub enum Registry {
    Afrinic,
    Apnic,
    Arin,
    Iana,
    Lacnic,
    Ripencc,
}

/// The textual form of each registry, as it appears in registry files.
pub open spec fn spec_registry_text(r: Registry) -> Seq<char> {
    match r {
        Registry::Afrinic => "afrinic"@,
        Registry::Apnic => "apnic"@,
        Registry::Arin => "arin"@,
        Registry::Iana => "iana"@,
        Registry::Lacnic => "lacnic"@,
        Registry::Ripencc => "ripencc"@,
    }
}

impl Registry {
    /// Parses the registry field of a registry record.
    pub fn from_str(s: &str) -> (r: Result<Self, InvalidRegistry>)
        ensures
            match r {
                Ok(reg) => s@ == spec_registry_text(reg),
                Err(_) => forall|reg: Registry| s@ != spec_registry_text(reg),
            },
    {
        if str_equal(s, "afrinic") {
            Ok(Registry::Afrinic)
        } else if str_equal(s, "apnic") {
            Ok(Registry::Apnic)
        } else if str_equal(s, "arin") {
            Ok(Registry::Arin)
        } else if str_equal(s, "iana") {
            Ok(Registry::Iana)
        } else if str_equal(s, "lacnic") {
            Ok(Registry::Lacnic)
        } else if str_equal(s, "ripencc") {
            Ok(Registry::Ripencc)
        } else {
            Err(InvalidRegistry)
        }
    }

    /// The textual form of this registry.
    pub fn as_str(&self) -> (r: &'static str)
        ensures
            r@ == spec_registry_text(*self),
    {
        match *self {
            Registry::Afrinic => "afrinic",
            Registry::Apnic => "apnic",
            Registry::Arin => "arin",
            Registry::Iana => "iana",
            Registry::Lacnic => "lacnic",
            Registry::Ripencc => "ripencc",
        }
    }
}

} // verus!
