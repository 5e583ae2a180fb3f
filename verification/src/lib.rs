//! Verified core of the Token Monitor menu-bar client: request and reply
//! handling for the usage dashboard API, the credential rules, the command
//! flows with their single token refresh, and the popup window's auto-hide
//! rules.  Network, keychain and window-system work is done by the caller,
//! which feeds the results back into the functions here.
use vstd::prelude::*;

pub mod api;
pub mod auth;
pub mod session;
pub mod text;
pub mod window;

verus! {

} // verus!
