//! The client of the directory that the kiosk talks to.

use vstd::prelude::*;
use crate::client::{LeashAuthenticator, LeashClient};

verus! {

/// The kiosk's client: it identifies itself by the API key and talks to the
/// directory at the base address, both as configured when the kiosk was
/// built.
pub fn get_leash_api(apikey: String, base_url: String) -> (client: LeashClient)
    ensures
        client.authenticator == LeashAuthenticator::ApiKey(apikey),
        client.base_url == base_url,
{
    LeashClient::new(LeashAuthenticator::ApiKey(apikey), base_url)
}

} // verus!
