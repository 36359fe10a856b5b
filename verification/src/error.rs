//! Why the service could not start, and why a packet could not be received.

use vstd::prelude::*;
use vstd::string::StringExecFns;

use crate::net::Ipv4Addr;
use crate::text::{append_decimal, decimal, decimal_is_a_numeral, is_numeral};

verus! {

/// Why a multicast group could not be joined.
#[derive(Clone, Copy, Debug, PartialEq, Eq, Structural)]
pub enum MulticastError {
    /// No room for another group.
    GroupTableFull,
    /// The address is not one that can be joined.
    Unaddressable,
}

impl MulticastError {
    /// Name of the error.
    pub open spec fn spec_name(self) -> Seq<char> {
        match self {
            MulticastError::GroupTableFull => "GroupTableFull"@,
            MulticastError::Unaddressable => "Unaddressable"@,
        }
    }

    /// Name of the error.
    pub fn name(self) -> (r: &'static str)
        ensures
            r@ == self.spec_name(),
    {
        match self {
            MulticastError::GroupTableFull => "GroupTableFull",
            MulticastError::Unaddressable => "Unaddressable",
        }
    }
}

/// Why a UDP socket could not be bound.
#[derive(Clone, Copy, Debug, PartialEq, Eq, Structural)]
pub enum BindError {
    /// The socket was already open.
    InvalidState,
    /// No route to host.
    NoRoute,
}

impl BindError {
    /// Name of the error.
    pub open spec fn spec_name(self) -> Seq<char> {
        match self {
            BindError::InvalidState => "InvalidState"@,
            BindError::NoRoute => "NoRoute"@,
        }
    }

    /// Name of the error.
    pub fn name(self) -> (r: &'static str)
        ensures
            r@ == self.spec_name(),
    {
        match self {
            BindError::InvalidState => "InvalidState",
            BindError::NoRoute => "NoRoute",
        }
    }
}

/// Why a packet could not be taken from a UDP socket.
#[derive(Clone, Copy, Debug, PartialEq, Eq, Structural)]
pub enum RecvError {
    /// The packet is longer than the buffer for it.
    Truncated,
}

/// Error encountered while starting a [`Runner`](crate::runner::Runner).
#[derive(Clone, Copy, Debug, PartialEq, Eq, Structural)]
#[non_exhaustive]
#[allow(inconsistent_fields)]
pub enum RunError {
    /// The stack has no free UDP socket slot.
    Socket {
        /// PTP port requiring a socket.
        port: u16,
    },
    /// The network stack could not join a required PTP multicast group.
    Multicast {
        /// Multicast address the runner tried to join.
        address: Ipv4Addr,
        /// Error reported by the network stack.
        source: MulticastError,
    },
    /// A PTP UDP socket could not be bound.
    Bind {
        /// UDP port the runner tried to bind.
        port: u16,
        /// Error reported by the socket.
        source: BindError,
    },
}

impl RunError {
    /// The error in words.
    pub open spec fn spec_message(self) -> Seq<char> {
        match self {
            RunError::Socket { port } => "no UDP socket available for PTP port "@ + decimal(
                port as nat,
            ),
            RunError::Multicast { address, source } => "joining PTP multicast group "@
                + address.dotted() + ": "@ + source.spec_name(),
            RunError::Bind { port, source } => "binding PTP UDP port "@ + decimal(port as nat)
                + ": "@ + source.spec_name(),
        }
    }

    /// The error in words.
    pub fn message(&self) -> (r: String)
        ensures
            r@ == self.spec_message(),
    {
        let mut text = String::new();
        match *self {
            RunError::Socket { port } => {
                text.append("no UDP socket available for PTP port ");
                append_decimal(&mut text, port);
            },
            RunError::Multicast { address, source } => {
                text.append("joining PTP multicast group ");
                address.append_to(&mut text);
                text.append(": ");
                text.append(source.name());
            },
            RunError::Bind { port, source } => {
                text.append("binding PTP UDP port ");
                append_decimal(&mut text, port);
                text.append(": ");
                text.append(source.name());
            },
        }
        assert(text@ =~= self.spec_message());
        text
    }

    /// The network stack's error behind a failure to join a group; the other errors
    /// have no error behind them.
    pub fn source(&self) -> (r: Option<MulticastError>)
        ensures
            r == match *self {
                RunError::Multicast { address, source } => Some(source),
                _ => None,
            },
    {
        match *self {
            RunError::Multicast { address: _, source } => Some(source),
            _ => None,
        }
    }
}

/// Each error of the network stack has its own name.
pub proof fn error_names_are_those_of_the_variants(
    join: MulticastError,
    bind: BindError,
    names: (&'static str, &'static str),
)
    requires
        call_ensures(MulticastError::name, (join,), names.0),
        call_ensures(BindError::name, (bind,), names.1),
    ensures
        join is GroupTableFull ==> names.0@ == "GroupTableFull"@,
        join is Unaddressable ==> names.0@ == "Unaddressable"@,
        bind is InvalidState ==> names.1@ == "InvalidState"@,
        bind is NoRoute ==> names.1@ == "NoRoute"@,
{
}

/// The message of an error says what failed, names the port or the address in decimal,
/// and ends with the name of the stack's error where there is one.
pub proof fn messages_name_port_address_and_cause(error: RunError, r: String)
    requires
        call_ensures(RunError::message, (&error,), r),
    ensures
        error matches RunError::Socket { port } ==> exists|numeral: Seq<char>| #[trigger]
            is_numeral(numeral, port as int) && r@ == "no UDP socket available for PTP port "@
                + numeral,
        error matches RunError::Bind { port, source } ==> exists|numeral: Seq<char>| #[trigger]
            is_numeral(numeral, port as int) && r@ == "binding PTP UDP port "@ + numeral + ": "@
                + (if source is InvalidState {
                "InvalidState"@
            } else {
                "NoRoute"@
            }),
        error matches RunError::Multicast { address, source } ==> exists|
            a: Seq<char>,
            b: Seq<char>,
            c: Seq<char>,
            d: Seq<char>,
        |
            {
                &&& #[trigger] is_numeral(a, address.a as int)
                &&& #[trigger] is_numeral(b, address.b as int)
                &&& #[trigger] is_numeral(c, address.c as int)
                &&& #[trigger] is_numeral(d, address.d as int)
                &&& r@ == "joining PTP multicast group "@ + (a + seq!['.'] + b + seq!['.'] + c
                    + seq!['.'] + d) + ": "@ + (if source is GroupTableFull {
                    "GroupTableFull"@
                } else {
                    "Unaddressable"@
                })
            },
{
    reveal_strlit(".");
    assert("."@ =~= seq!['.']);
    match error {
        RunError::Socket { port } => {
            decimal_is_a_numeral(port as nat);
        },
        RunError::Bind { port, source } => {
            decimal_is_a_numeral(port as nat);
        },
        RunError::Multicast { address, source } => {
            decimal_is_a_numeral(address.a as nat);
            decimal_is_a_numeral(address.b as nat);
            decimal_is_a_numeral(address.c as nat);
            decimal_is_a_numeral(address.d as nat);
        },
    }
}

/// Only a failure to join a group has another error behind it, and it is the one that
/// the stack gave.
pub proof fn only_a_failed_join_has_a_source(error: RunError, r: Option<MulticastError>)
    requires
        call_ensures(RunError::source, (&error,), r),
    ensures
        r is Some <==> error is Multicast,
        error matches RunError::Multicast { address, source } ==> r == Some(source),
{
}

} // verus!
