//! The relay controller: turns a relay name and a requested action into one
//! protocol exchange, resolving the name through the registry first.

use vstd::prelude::*;
use vstd::string::StringExecFns;
use crate::frame::checksum_ok;
use crate::protocol::CommandOutcome;
use crate::protocol::Connection;
use crate::registry::RelayRegistry;
use crate::registry::first_pin;
use crate::registry::pairs_contain;
use crate::transport::TransportError;

verus! {

/// The opcode that toggles the relay at the pin carried in the data byte.
pub const TOGGLE_OPCODE: u8 = 8;

/// A requested relay action, validated once at the boundary.
#[derive(Clone, Copy, Debug, PartialEq, Eq, Structural)]
pub enum Action {
    SetRelay,
    ResetRelay,
    ToggleRelay,
    OnRelay,
    OffRelay,
}

/// Every recognised action currently drives the same toggle opcode.
pub open spec fn spec_opcode_for(action: Action) -> u8 {
    TOGGLE_OPCODE
}

/// The opcode sent for an action. Every recognised action currently maps to
/// the toggle opcode; the data byte carries the pin.
pub fn opcode_for(action: Action) -> (op: u8)
    ensures
        op == spec_opcode_for(action),
{
    TOGGLE_OPCODE
}

/// Parses an action keyword: exactly `set`, `reset`, `toggle`, `on` and
/// `off` are recognised; anything else is rejected.
pub fn parse_action(s: &str) -> (r: Option<Action>)
    ensures
        r == if s@ == "set"@ {
            Some(Action::SetRelay)
        } else if s@ == "reset"@ {
            Some(Action::ResetRelay)
        } else if s@ == "toggle"@ {
            Some(Action::ToggleRelay)
        } else if s@ == "on"@ {
            Some(Action::OnRelay)
        } else if s@ == "off"@ {
            Some(Action::OffRelay)
        } else {
            None::<Action>
        },
{
    let key = String::from_str(s);
    if key == String::from_str("set") {
        Some(Action::SetRelay)
    } else if key == String::from_str("reset") {
        Some(Action::ResetRelay)
    } else if key == String::from_str("toggle") {
        Some(Action::ToggleRelay)
    } else if key == String::from_str("on") {
        Some(Action::OnRelay)
    } else if key == String::from_str("off") {
        Some(Action::OffRelay)
    } else {
        None
    }
}

/// What the core consumes from the external configuration loader: a device
/// path, a baud rate, and the name-to-pin pairs of the relay mapping.
pub struct Config {
    pub relay: String,
    pub baudrate: u32,
    pub relays: Vec<(String, u8)>,
}

/// The outcome of performing an action on a named relay.
#[derive(Clone, Debug, PartialEq, Eq)]
pub enum ControlOutcome {
    /// The device answered with a checksum-valid frame.
    Acked { opcode: u8, data: u8 },
    /// The name is not in the registry; nothing was sent.
    UnknownRelay { name: String },
    /// The write or the read failed; a timed-out read counts as a failure.
    TransportFailure { message: String },
    /// A response arrived but its checksum is wrong.
    ChecksumMismatch { received: [u8; 4] },
}

/// Ties the relay registry to a protocol connection.
pub struct Control {
    relays: RelayRegistry,
    connection: Connection,
}

impl Control {
    /// Well-formed: each registry name has exactly one pin.
    pub closed spec fn wf(&self) -> bool {
        self.relays.wf()
    }

    /// Whether the registry knows `name`.
    pub closed spec fn knows(&self, name: Seq<char>) -> bool {
        self.relays.spec_contains(name)
    }

    /// The pin the registry holds for `name`.
    pub closed spec fn pin(&self, name: Seq<char>) -> u8 {
        self.relays.spec_pin(name)
    }

    /// Opens the connection named by the configuration, then builds the
    /// registry from its name/pin pairs; a device that cannot be opened is
    /// a fatal error, reported before anything is sent.
    pub fn new(config: &Config) -> (r: Result<Control, TransportError>)
        ensures
            r matches Ok(c) ==> c.wf() && (forall|name: Seq<char>|
                c.knows(name) <==> pairs_contain(config.relays@, name)) && (forall|
                name: Seq<char>,
            |
                c.knows(name) ==> c.pin(name) == first_pin(config.relays@, name)),
    {
        match Connection::new(config.relay.as_str(), config.baudrate) {
            Ok(connection) => Ok(
                Control { relays: RelayRegistry::from_pairs(&config.relays), connection },
            ),
            Err(e) => Err(e),
        }
    }

    /// Performs `action` on the relay called `name`: an unknown name is
    /// reported without sending anything; a known name sends one toggle
    /// command carrying its pin and reports the exchange's outcome. The
    /// registry is left untouched.
    pub fn perform(&mut self, name: &str, action: Action) -> (r: ControlOutcome)
        requires
            old(self).wf(),
        ensures
            final(self).wf(),
            forall|n: Seq<char>| final(self).knows(n) == old(self).knows(n),
            forall|n: Seq<char>| final(self).pin(n) == old(self).pin(n),
            !old(self).knows(name@) ==> (r matches ControlOutcome::UnknownRelay { name: n }
                && n@ == name@),
            old(self).knows(name@) ==> !(r matches ControlOutcome::UnknownRelay { .. }),
            r matches ControlOutcome::Acked { opcode: op, data: d } ==> old(self).knows(name@)
                && (exists|resp: Seq<u8>|
                resp.len() == 4 && checksum_ok(resp) && op == resp[0] && d == resp[2]),
            r matches ControlOutcome::ChecksumMismatch { received } ==> old(self).knows(name@)
                && !checksum_ok(received@),
    {
        match self.relays.resolve(name) {
            None => ControlOutcome::UnknownRelay { name: String::from_str(name) },
            Some(pin) => {
                let opcode = opcode_for(action);
                match self.connection.send_command(opcode, pin) {
                    CommandOutcome::Ack { opcode: op, data: d } => ControlOutcome::Acked {
                        opcode: op,
                        data: d,
                    },
                    CommandOutcome::TransportFailure { message } => ControlOutcome::TransportFailure {
                        message,
                    },
                    CommandOutcome::ChecksumMismatch { received } => ControlOutcome::ChecksumMismatch {
                        received,
                    },
                }
            }
        }
    }

    /// Toggles the relay called `relay_name`: one `perform` with the
    /// toggle action.
    pub fn toggle_relay(&mut self, relay_name: &str) -> (r: ControlOutcome)
        requires
            old(self).wf(),
        ensures
            final(self).wf(),
            forall|n: Seq<char>| final(self).knows(n) == old(self).knows(n),
            forall|n: Seq<char>| final(self).pin(n) == old(self).pin(n),
            !old(self).knows(relay_name@) ==> (r matches ControlOutcome::UnknownRelay { name: n }
                && n@ == relay_name@),
            old(self).knows(relay_name@) ==> !(r matches ControlOutcome::UnknownRelay { .. }),
            r matches ControlOutcome::Acked { opcode: op, data: d } ==> old(self).knows(
                relay_name@,
            ) && (exists|resp: Seq<u8>|
                resp.len() == 4 && checksum_ok(resp) && op == resp[0] && d == resp[2]),
            r matches ControlOutcome::ChecksumMismatch { received } ==> old(self).knows(
                relay_name@,
            ) && !checksum_ok(received@),
    {
        self.perform(relay_name, Action::ToggleRelay)
    }
}

} // verus!
