//! Endpoint roles and the engine mode each role maps to.

use vstd::prelude::*;

verus! {

/// The role a session plays in the handshake, fixed at construction.
#[derive(Clone, Copy, Debug, PartialEq, Eq, Structural)]
pub enum Role {
    Server,
    Client,
}

/// The mode an external engine connection is created in.
#[derive(Clone, Copy, Debug, PartialEq, Eq, Structural)]
pub enum Mode {
    Server,
    Client,
}

/// The engine mode that matches an endpoint role.
pub open spec fn spec_mode_of(role: Role) -> Mode {
    match role {
        Role::Server => Mode::Server,
        Role::Client => Mode::Client,
    }
}

/// Map an endpoint role to the engine mode a connection must be created in.
pub fn mode_of(role: Role) -> (m: Mode)
    ensures
        m == spec_mode_of(role),
{
    match role {
        Role::Server => Mode::Server,
        Role::Client => Mode::Client,
    }
}

} // verus!
