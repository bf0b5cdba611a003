//! The ambient settings of a session: server, user, current container and folder.

use vstd::prelude::*;

verus! {

/// Settings that commands take their defaults from.
#[derive(Debug, Clone, PartialEq, Eq)]
pub struct DxEnvironment {
    pub apiserver_protocol: String,
    pub username: String,
    pub cli_wd: String,
    pub apiserver_host: String,
    pub project_context_id: String,
    pub project_context_name: String,
    pub apiserver_port: u32,
    pub auth_token_type: String,
    pub auth_token: String,
}

} // verus!
