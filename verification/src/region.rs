//! Service regions of the appliance cloud and their fixed endpoints.

use vstd::prelude::*;

verus! {

/// A deployment region of the appliance cloud.
#[non_exhaustive]
#[derive(Clone, Copy, Debug, PartialEq, Eq, Structural)]
pub enum Region {
    Us,
    Eu,
}

impl Region {
    /// Base address of the user (account) service, as characters.
    pub open spec fn user_url_text(self) -> Seq<char> {
        match self {
            Region::Us => "https://user-field-39a9391a.aylanetworks.com"@,
            Region::Eu => "https://user-field-eu.aylanetworks.com"@,
        }
    }

    /// Base address of the device service, as characters.
    pub open spec fn device_url_text(self) -> Seq<char> {
        match self {
            Region::Us => "https://ads-field-39a9391a.aylanetworks.com"@,
            Region::Eu => "https://ads-eu.aylanetworks.com"@,
        }
    }

    /// Application identifier presented at sign-in, as characters.
    pub open spec fn app_id_text(self) -> Seq<char> {
        match self {
            Region::Us => "Shark-Android-field-id"@,
            Region::Eu => "Shark-Android-EUField-Fw-id"@,
        }
    }

    /// Application secret presented at sign-in, as characters.
    pub open spec fn app_secret_text(self) -> Seq<char> {
        match self {
            Region::Us => "Shark-Android-field-Wv43MbdXRM297HUHotqe6lU1n-w"@,
            Region::Eu => "Shark-Android-EUField-s-zTykblGJujGcSSTaJaeE4PESI"@,
        }
    }

    /// Base address of the user (account) service.
    pub fn user_url(&self) -> (url: &'static str)
        ensures
            url@ == self.user_url_text(),
    {
        match *self {
            Region::Us => "https://user-field-39a9391a.aylanetworks.com",
            Region::Eu => "https://user-field-eu.aylanetworks.com",
        }
    }

    /// Base address of the device service.
    pub fn device_url(&self) -> (url: &'static str)
        ensures
            url@ == self.device_url_text(),
    {
        match *self {
            Region::Us => "https://ads-field-39a9391a.aylanetworks.com",
            Region::Eu => "https://ads-eu.aylanetworks.com",
        }
    }

    /// Application identifier presented at sign-in.
    pub fn app_id(&self) -> (id: &'static str)
        ensures
            id@ == self.app_id_text(),
    {
        match *self {
            Region::Us => "Shark-Android-field-id",
            Region::Eu => "Shark-Android-EUField-Fw-id",
        }
    }

    /// Application secret presented at sign-in.
    pub fn app_secret(&self) -> (secret: &'static str)
        ensures
            secret@ == self.app_secret_text(),
    {
        match *self {
            Region::Us => "Shark-Android-field-Wv43MbdXRM297HUHotqe6lU1n-w",
            Region::Eu => "Shark-Android-EUField-s-zTykblGJujGcSSTaJaeE4PESI",
        }
    }
}

} // verus!
