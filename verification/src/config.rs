//! The values that the service is configured with.

use vstd::prelude::*;

verus! {

/// The account that the appliance cloud is signed in to with.
#[derive(Debug)]
pub struct SharkAuth {
    pub user: String,
    pub password: String,
}

/// The configuration of the service: the accepted API keys and the cloud
/// account.
#[derive(Debug)]
pub struct Config {
    pub user_auth: Vec<String>,
    pub shark: SharkAuth,
}

} // verus!
