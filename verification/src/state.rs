//! The protocol state of a port.

use vstd::prelude::*;

verus! {

/// The protocol state of a port.
#[derive(Clone, Copy, Debug, PartialEq, Eq, Structural)]
pub enum PortState {
    /// Starting up.
    Initializing,
    /// Out of order.
    Faulty,
    /// Switched off.
    Disabled,
    /// Waiting for announce messages.
    Listening,
    /// About to become master.
    PreMaster,
    /// Source of time for the network.
    Master,
    /// Neither master nor slave.
    Passive,
    /// About to become slave.
    Uncalibrated,
    /// Following a master.
    Slave,
}

/// The name of a port state.
pub open spec fn spec_state_name(state: PortState) -> Seq<char> {
    match state {
        PortState::Initializing => "initializing"@,
        PortState::Faulty => "faulty"@,
        PortState::Disabled => "disabled"@,
        PortState::Listening => "listening"@,
        PortState::PreMaster => "pre_master"@,
        PortState::Master => "master"@,
        PortState::Passive => "passive"@,
        PortState::Uncalibrated => "uncalibrated"@,
        PortState::Slave => "slave"@,
    }
}

/// The name of a port state.
pub fn state_name(state: PortState) -> (r: &'static str)
    ensures
        r@ == spec_state_name(state),
{
    match state {
        PortState::Initializing => "initializing",
        PortState::Faulty => "faulty",
        PortState::Disabled => "disabled",
        PortState::Listening => "listening",
        PortState::PreMaster => "pre_master",
        PortState::Master => "master",
        PortState::Passive => "passive",
        PortState::Uncalibrated => "uncalibrated",
        PortState::Slave => "slave",
    }
}

/// Every state has its own name.
pub proof fn state_names_are_distinct(
    a: PortState,
    b: PortState,
    name_a: &'static str,
    name_b: &'static str,
)
    requires
        call_ensures(state_name, (a,), name_a),
        call_ensures(state_name, (b,), name_b),
    ensures
        a == PortState::Listening ==> name_a@ == "listening"@,
        a == PortState::Master ==> name_a@ == "master"@,
        a == PortState::Slave ==> name_a@ == "slave"@,
        name_a@ == name_b@ <==> a == b,
{
    reveal_strlit("initializing");
    reveal_strlit("faulty");
    reveal_strlit("disabled");
    reveal_strlit("listening");
    reveal_strlit("pre_master");
    reveal_strlit("master");
    reveal_strlit("passive");
    reveal_strlit("uncalibrated");
    reveal_strlit("slave");
    if name_a@ == name_b@ {
        assert(name_a@.len() == name_b@.len());
        assert(name_a@[0] == name_b@[0]);
        assert(name_a@[1] == name_b@[1]);
    }
}

} // verus!
