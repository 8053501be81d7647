//! What a run is configured with: where the API is, whose token opens it,
//! and which state's grid the renewables queries are about.

use vstd::prelude::*;

verus! {

#[derive(Debug)]
pub struct AmberConfig {
    pub base_url: String,
}

#[derive(Debug)]
pub struct ApiToken {
    pub name: String,
    pub psk: String,
}

#[derive(Debug)]
pub struct AppConfig {
    pub amberconfig: AmberConfig,
    pub userconfig: UserConfig,
    pub apitoken: ApiToken,
}

#[derive(Debug)]
pub struct UserConfig {
    pub state: String,
}

} // verus!
