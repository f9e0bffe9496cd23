//! The device configuration record, as far as the onboarding logic
//! reads it.
//!
//! The record comes in two formats.  The legacy `V1` format is
//! accepted only on the overlay-registration path and is rejected by
//! the registration authority; the current `V2` format additionally
//! carries the registration code.  Every consumer asks the same
//! capability question instead of re-deriving version-specific
//! behaviour.

use vstd::prelude::*;

verus! {

/// The administrator contact settings of the configuration record.
pub struct AdminSettings {
    /// The device administrator's email address, the target of every
    /// failure notification.
    pub email: String,
}

/// A versioned device configuration record, reduced to the fields the
/// onboarding logic reads.
pub enum Configuration {
    /// The legacy format: admin settings only.
    V1 { settings: AdminSettings },
    /// The current format: admin settings and a registration code.
    V2 { registration_code: String, settings: AdminSettings },
}

impl Configuration {
    /// Whether this record carries what the registration authority
    /// flow needs.
    pub open spec fn spec_supports_registration_authority(self) -> bool {
        self is V2
    }

    /// The admin email, in either format.
    pub open spec fn spec_email(self) -> Seq<char> {
        match self {
            Configuration::V1 { settings } => settings.email@,
            Configuration::V2 { settings, .. } => settings.email@,
        }
    }

    /// The registration code of a `V2` record.
    pub open spec fn spec_registration_code(self) -> Seq<char>
        recommends
            self is V2,
    {
        match self {
            Configuration::V1 { .. } => Seq::empty(),
            Configuration::V2 { registration_code, .. } => registration_code@,
        }
    }

    /// The capability query every consumer gates on: does this record
    /// support the registration-authority flow?
    pub fn supports_registration_authority(&self) -> (r: bool)
        ensures
            r == self.spec_supports_registration_authority(),
    {
        match self {
            Configuration::V1 { .. } => false,
            Configuration::V2 { .. } => true,
        }
    }

    /// The admin email this record names.
    pub fn email(&self) -> (r: &String)
        ensures
            r@ == self.spec_email(),
    {
        match self {
            Configuration::V1 { settings } => &settings.email,
            Configuration::V2 { settings, .. } => &settings.email,
        }
    }
}

} // verus!
