use vstd::prelude::*;

use crate::codec::{encode, framed, is_encodable};
use crate::error::BridgeError;
use crate::gatt::{first_index_of, is_first_index};
use crate::naming::{name_matches, name_matches_spec, NameRule};

verus! {

/// What the central role is asked to do.
#[derive(Debug, Clone)]
pub struct CentralConfig {
    /// The name, or part of the name, that the peripheral advertises.
    pub target_name: String,
    pub name_rule: NameRule,
    /// A service that the scan is narrowed to, if any.
    pub service_filter: Option<u128>,
    /// The characteristic that events are written to.
    pub characteristic_uuid: u128,
    /// How long the scan runs before the discovered peripherals are examined.
    pub scan_window_secs: u64,
}

/// The stage that a central bridge has reached.
#[derive(Debug, Clone, Copy, PartialEq, Eq, Structural)]
pub enum CentralState {
    Idle,
    Scanning,
    Connecting,
    Discovering,
    Ready,
    Closed,
    Failed(BridgeError),
}

/// What the radio stack or the event queue reports back to the central bridge.
#[derive(Debug, Clone)]
pub enum CentralEvent {
    /// Whether a first adapter could be had.
    AdapterAcquired { available: bool },
    /// The scan window ended; the advertised local name of each discovered
    /// peripheral, in the order the stack lists them.
    ScanCompleted { names: Vec<Option<String>> },
    ConnectCompleted { ok: bool },
    /// The identifiers of the characteristics that discovery found, in order.
    DiscoveryCompleted { characteristics: Vec<u128> },
    /// The next raw event, or `None` once the local source has closed.
    EventReceived { payload: Option<Vec<u8>> },
    WriteCompleted { ok: bool },
    /// The run was cancelled from outside.
    Cancelled,
}

/// What the central bridge asks its driver to do next.
#[derive(Debug, Clone, PartialEq, Eq)]
pub enum CentralAction {
    AcquireAdapter,
    StartScan { service_filter: Option<u128>, window_secs: u64 },
    /// Connect to the peripheral at this position of the scan's list.
    Connect { peripheral: usize },
    DiscoverServices,
    ReceiveEvent,
    /// Write `packet` without response to the characteristic at this position
    /// of the discovery's list.
    Write { characteristic: usize, packet: Vec<u8> },
    /// The run is over; `disconnect` tells whether a peripheral is connected
    /// and has to be released.
    Stop { disconnect: bool },
    /// The event does not apply to the current stage.
    Nothing,
}

/// Stages at which a peripheral link is open.
pub open spec fn is_connected(s: CentralState) -> bool {
    s is Discovering || s is Ready
}

/// Stages after which the bridge does nothing more.
pub open spec fn is_terminal(s: CentralState) -> bool {
    s is Closed || s is Failed
}

/// Whether the peripheral with this advertised name is the one sought.
pub open spec fn candidate_matches(name: Option<String>, target: Seq<char>, rule: NameRule) -> bool {
    name matches Some(n) && name_matches_spec(n@, target, rule)
}

/// The position of the first discovered peripheral whose advertised name
/// matches `target` under `rule`; a peripheral without a name never matches.
pub fn find_peripheral(names: &Vec<Option<String>>, target: &str, rule: NameRule) -> (r: Option<
    usize,
>)
    ensures
        r matches Some(i) ==> i < names@.len() && candidate_matches(names@[i as int], target@, rule)
            && forall|j: int| 0 <= j < i ==> !candidate_matches(names@[j], target@, rule),
        r is None ==> forall|j: int|
            0 <= j < names@.len() ==> !candidate_matches(names@[j], target@, rule),
{
    let mut i: usize = 0;
    while i < names.len()
        invariant
            i <= names@.len(),
            forall|j: int| 0 <= j < i ==> !candidate_matches(names@[j], target@, rule),
        decreases names@.len() - i,
    {
        match &names[i] {
            Some(n) => {
                if name_matches(n.as_str(), target, rule) {
                    return Some(i);
                }
            },
            None => {},
        }
        i += 1;
    }
    None
}

/// The central role: scan, match, connect, discover, then write each event.
pub struct CentralBridge {
    pub config: CentralConfig,
    pub state: CentralState,
    /// Position of the chosen peripheral in the scan's list, once matched.
    pub peripheral: usize,
    /// Position of the data characteristic in the discovery's list, once found.
    pub characteristic: usize,
}

impl CentralBridge {
    pub fn new(config: CentralConfig) -> (r: CentralBridge)
        ensures
            r.config == config,
            r.state == CentralState::Idle,
    {
        CentralBridge { config, state: CentralState::Idle, peripheral: 0, characteristic: 0 }
    }

    /// The first thing a fresh bridge needs: an adapter.
    pub fn first_action(&self) -> (r: CentralAction)
        ensures
            r == CentralAction::AcquireAdapter,
    {
        CentralAction::AcquireAdapter
    }

    /// Advances the bridge by one reported event and says what to do next.
    pub fn step(&mut self, event: CentralEvent) -> (a: CentralAction)
        ensures
            final(self).config == old(self).config,
            // a write goes out only from the ready stage, which it keeps
            a is Write ==> old(self).state is Ready && final(self).state is Ready,
            // the ready stage is entered only once discovery has succeeded
            final(self).state is Ready ==> old(self).state is Ready || old(self).state
                is Discovering,
            is_terminal(old(self).state) ==> final(self).state == old(self).state && a
                == CentralAction::Nothing,
            (!is_terminal(old(self).state) && event is Cancelled) ==> final(self).state
                == CentralState::Closed && a == (CentralAction::Stop {
                disconnect: is_connected(old(self).state),
            }),
            event matches CentralEvent::AdapterAcquired { available } ==> old(self).state is Idle ==> if available {
                final(self).state == CentralState::Scanning && a == (CentralAction::StartScan {
                    service_filter: old(self).config.service_filter,
                    window_secs: old(self).config.scan_window_secs,
                })
            } else {
                final(self).state == CentralState::Failed(BridgeError::AdapterUnavailable) && a
                    == (CentralAction::Stop { disconnect: false })
            },
            event matches CentralEvent::ScanCompleted { names } ==> old(self).state is Scanning ==> if exists|i: int|
                0 <= i < names@.len() && candidate_matches(
                    names@[i],
                    old(self).config.target_name@,
                    old(self).config.name_rule,
                ) {
                final(self).state == CentralState::Connecting && a == (CentralAction::Connect {
                    peripheral: final(self).peripheral,
                }) && final(self).peripheral < names@.len() && candidate_matches(
                    names@[final(self).peripheral as int],
                    old(self).config.target_name@,
                    old(self).config.name_rule,
                ) && forall|j: int|
                    0 <= j < final(self).peripheral ==> !candidate_matches(
                        names@[j],
                        old(self).config.target_name@,
                        old(self).config.name_rule,
                    )
            } else {
                final(self).state == CentralState::Failed(BridgeError::PeripheralNotFound) && a
                    == (CentralAction::Stop { disconnect: false })
            },
            event matches CentralEvent::ConnectCompleted { ok } ==> old(self).state is Connecting ==> if ok {
                final(self).state == CentralState::Discovering && a
                    == CentralAction::DiscoverServices
            } else {
                final(self).state == CentralState::Failed(BridgeError::ConnectionFailed) && a
                    == (CentralAction::Stop { disconnect: false })
            },
            event matches CentralEvent::DiscoveryCompleted { characteristics }
                ==> old(self).state is Discovering ==> if characteristics@.contains(old(self).config.characteristic_uuid) {
                final(self).state == CentralState::Ready && a == CentralAction::ReceiveEvent
                    && final(self).peripheral == old(self).peripheral && is_first_index(
                    characteristics@,
                    old(self).config.characteristic_uuid,
                    final(self).characteristic as int,
                )
            } else {
                final(self).state == CentralState::Failed(BridgeError::CharacteristicNotFound)
                    && a == (CentralAction::Stop { disconnect: true })
            },
            event matches CentralEvent::EventReceived { payload } ==> old(self).state is Ready ==> match payload {
                Some(p) => final(self).state == CentralState::Ready && final(self).characteristic
                    == old(self).characteristic && if is_encodable(p@) {
                    a matches CentralAction::Write { characteristic, packet } && characteristic
                        == old(self).characteristic && packet@ == framed(p@)
                } else {
                    a == CentralAction::ReceiveEvent
                },
                None => final(self).state == CentralState::Closed && a == (CentralAction::Stop {
                    disconnect: true,
                }),
            },
            event matches CentralEvent::WriteCompleted { ok } ==> old(self).state is Ready ==> if ok {
                final(self).state == CentralState::Ready && final(self).characteristic == old(
                    self,
                ).characteristic && a == CentralAction::ReceiveEvent
            } else {
                final(self).state == CentralState::Failed(BridgeError::WriteFailure) && a == (
                CentralAction::Stop { disconnect: true })
            },
    {
        if is_terminal_exec(self.state) {
            return CentralAction::Nothing;
        }
        match event {
            CentralEvent::Cancelled => {
                let disconnect = matches!(self.state, CentralState::Discovering | CentralState::Ready);
                self.state = CentralState::Closed;
                CentralAction::Stop { disconnect }
            },
            CentralEvent::AdapterAcquired { available } => {
                if !matches!(self.state, CentralState::Idle) {
                    return CentralAction::Nothing;
                }
                if available {
                    self.state = CentralState::Scanning;
                    CentralAction::StartScan {
                        service_filter: self.config.service_filter,
                        window_secs: self.config.scan_window_secs,
                    }
                } else {
                    self.state = CentralState::Failed(BridgeError::AdapterUnavailable);
                    CentralAction::Stop { disconnect: false }
                }
            },
            CentralEvent::ScanCompleted { names } => {
                if !matches!(self.state, CentralState::Scanning) {
                    return CentralAction::Nothing;
                }
                match find_peripheral(&names, self.config.target_name.as_str(), self.config.name_rule) {
                    Some(i) => {
                        self.state = CentralState::Connecting;
                        self.peripheral = i;
                        CentralAction::Connect { peripheral: i }
                    },
                    None => {
                        self.state = CentralState::Failed(BridgeError::PeripheralNotFound);
                        CentralAction::Stop { disconnect: false }
                    },
                }
            },
            CentralEvent::ConnectCompleted { ok } => {
                if !matches!(self.state, CentralState::Connecting) {
                    return CentralAction::Nothing;
                }
                if ok {
                    self.state = CentralState::Discovering;
                    CentralAction::DiscoverServices
                } else {
                    self.state = CentralState::Failed(BridgeError::ConnectionFailed);
                    CentralAction::Stop { disconnect: false }
                }
            },
            CentralEvent::DiscoveryCompleted { characteristics } => {
                if !matches!(self.state, CentralState::Discovering) {
                    return CentralAction::Nothing;
                }
                match first_index_of(&characteristics, self.config.characteristic_uuid) {
                    Some(i) => {
                        self.state = CentralState::Ready;
                        self.characteristic = i;
                        CentralAction::ReceiveEvent
                    },
                    None => {
                        self.state = CentralState::Failed(BridgeError::CharacteristicNotFound);
                        CentralAction::Stop { disconnect: true }
                    },
                }
            },
            CentralEvent::EventReceived { payload } => {
                if !matches!(self.state, CentralState::Ready) {
                    return CentralAction::Nothing;
                }
                match payload {
                    Some(p) => {
                        if p.len() == 0 || p.len() > usize::MAX - 2 {
                            return CentralAction::ReceiveEvent;
                        }
                        match encode(p.as_slice()) {
                            Ok(packet) => CentralAction::Write {
                                characteristic: self.characteristic,
                                packet,
                            },
                            Err(_) => CentralAction::ReceiveEvent,
                        }
                    },
                    None => {
                        self.state = CentralState::Closed;
                        CentralAction::Stop { disconnect: true }
                    },
                }
            },
            CentralEvent::WriteCompleted { ok } => {
                if !matches!(self.state, CentralState::Ready) {
                    return CentralAction::Nothing;
                }
                if ok {
                    CentralAction::ReceiveEvent
                } else {
                    self.state = CentralState::Failed(BridgeError::WriteFailure);
                    CentralAction::Stop { disconnect: true }
                }
            },
        }
    }
}

fn is_terminal_exec(s: CentralState) -> (r: bool)
    ensures
        r == is_terminal(s),
{
    matches!(s, CentralState::Closed | CentralState::Failed(_))
}

} // verus!
