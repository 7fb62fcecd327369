use vstd::prelude::*;

use crate::codec::{decode, encode, framed, is_encodable, is_well_framed, unframed};
use crate::error::BridgeError;
use crate::gatt::{characteristic_uuids, is_first_index, GattService};

verus! {

/// The stage that a peripheral bridge has reached.
#[derive(Debug, Clone, Copy, PartialEq, Eq, Structural)]
pub enum PeripheralState {
    PoweredOff,
    PoweredOn,
    ServiceRegistered,
    Advertising,
    Subscribed,
    Closed,
    Failed(BridgeError),
}

/// The single outcome that a request's responder receives.
#[derive(Debug, Clone, PartialEq, Eq)]
pub enum Response {
    /// The request succeeded; a read carries the bytes it returns.
    Success { value: Option<Vec<u8>> },
    Failure,
}

/// What the radio stack or the event queue reports to the peripheral bridge.
#[derive(Debug, Clone)]
pub enum PeripheralEvent {
    StateUpdate { is_powered: bool },
    RegistrationCompleted { ok: bool },
    AdvertisingCompleted { ok: bool },
    SubscriptionUpdate { characteristic: u128, subscribed: bool },
    ReadRequest { characteristic: u128, offset: usize },
    WriteRequest { characteristic: u128, offset: usize, value: Vec<u8> },
    /// The next raw event to send out, or `None` once the local source has closed.
    Outbound { payload: Option<Vec<u8>> },
    /// The run was cancelled from outside.
    Cancelled,
}

/// The stack-facing work that a step asks for.
#[derive(Debug, Clone, PartialEq, Eq)]
pub enum PeripheralCommand {
    RegisterService,
    StartAdvertising,
    /// Setup is done: serve requests and outbound events from now on.
    Serve,
    /// Push `packet` as a value update to the subscribers of `characteristic`.
    Notify { characteristic: u128, packet: Vec<u8> },
    /// The run is over; `stop_advertising` tells whether advertising is on and
    /// has to be switched off.
    Stop { stop_advertising: bool },
    Nothing,
}

/// Everything one step asks of its driver.
#[derive(Debug, Clone, PartialEq, Eq)]
pub struct PeripheralAction {
    pub command: PeripheralCommand,
    /// The answer for the request that the event carried, if it carried one.
    pub response: Option<Response>,
    /// A raw event for the local sink.
    pub deliver: Option<Vec<u8>>,
}

/// Events that carry a responder waiting for exactly one answer.
pub open spec fn is_request(e: PeripheralEvent) -> bool {
    e is ReadRequest || e is WriteRequest
}

/// Stages in which advertising is on.
pub open spec fn is_serving(s: PeripheralState) -> bool {
    s is Advertising || s is Subscribed
}

/// Stages after which the bridge does nothing more but answer requests.
pub open spec fn is_finished(s: PeripheralState) -> bool {
    s is Closed || s is Failed
}

/// The bytes that a read of a characteristic starts from: its cached value,
/// or nothing where none is cached.
pub open spec fn readable_value(v: Option<Vec<u8>>) -> Seq<u8> {
    match v {
        Some(b) => b@,
        None => Seq::empty(),
    }
}

/// `r` is the answer owed to a read of `characteristic` from `offset` on:
/// the cached bytes from that offset, or a failure for an unknown
/// characteristic or an offset past the end.
pub open spec fn is_read_answer(service: GattService, characteristic: u128, offset: usize, r: Response) -> bool {
    match service.find_characteristic_spec(characteristic) {
        Some(i) => {
            let v = readable_value(service.characteristics@[i].value);
            if offset <= v.len() {
                r matches Response::Success { value: Some(b) } && b@ == v.subrange(
                    offset as int,
                    v.len() as int,
                )
            } else {
                r == Response::Failure
            }
        },
        None => r == Response::Failure,
    }
}

/// `r` and `deliver` are what a write of `value` owes: success and the
/// decoded event for a well-framed packet, failure and nothing otherwise.
pub open spec fn is_write_answer(value: Seq<u8>, r: Response, deliver: Option<Vec<u8>>) -> bool {
    if is_well_framed(value) {
        r == (Response::Success { value: None }) && (deliver matches Some(p) && p@ == unframed(
            value,
        ))
    } else {
        r == Response::Failure && deliver is None
    }
}

proof fn lemma_push_contains(s: Seq<u128>, v: u128)
    ensures
        forall|x: u128| s.push(v).contains(x) <==> (s.contains(x) || x == v),
{
    assert forall|x: u128| s.push(v).contains(x) <==> (s.contains(x) || x == v) by {
        if s.contains(x) {
            let j = choose|j: int| 0 <= j < s.len() && s[j] == x;
            assert(s.push(v)[j] == x);
        }
        if x == v {
            assert(s.push(v)[s.len() as int] == v);
        }
        if s.push(v).contains(x) {
            let j = choose|j: int| 0 <= j < s.len() + 1 && s.push(v)[j] == x;
            if j < s.len() {
                assert(s[j] == x);
            }
        }
    }
}

/// The peripheral role: power, register, advertise, then serve.
pub struct PeripheralBridge {
    pub service: GattService,
    pub advertised_name: String,
    /// The characteristic that outbound events are pushed through.
    pub notify_characteristic: u128,
    pub state: PeripheralState,
    /// Characteristics that at least one central is subscribed to.
    pub subscriptions: Vec<u128>,
}

impl PeripheralBridge {
    /// Subscriptions are listed once each, and there are some exactly in the
    /// subscribed stage.
    pub open spec fn wf(&self) -> bool {
        self.subscriptions@.no_duplicates() && (self.state is Subscribed <==> self.subscriptions@.len()
            > 0)
    }

    pub fn new(service: GattService, advertised_name: String, notify_characteristic: u128) -> (r:
        PeripheralBridge)
        ensures
            r.wf(),
            r.service == service,
            r.advertised_name == advertised_name,
            r.notify_characteristic == notify_characteristic,
            r.state == PeripheralState::PoweredOff,
            r.subscriptions@.len() == 0,
    {
        PeripheralBridge {
            service,
            advertised_name,
            notify_characteristic,
            state: PeripheralState::PoweredOff,
            subscriptions: Vec::new(),
        }
    }

    /// Whether some central is subscribed to `characteristic`.
    pub fn is_subscribed(&self, characteristic: u128) -> (r: bool)
        ensures
            r == self.subscriptions@.contains(characteristic),
    {
        let mut i: usize = 0;
        while i < self.subscriptions.len()
            invariant
                i <= self.subscriptions@.len(),
                forall|j: int| 0 <= j < i ==> self.subscriptions@[j] != characteristic,
            decreases self.subscriptions@.len() - i,
        {
            if self.subscriptions[i] == characteristic {
                return true;
            }
            i += 1;
        }
        false
    }

    /// The packet to push for an outbound event: `None` where nobody is
    /// subscribed to `characteristic`, which is no error.
    pub fn notify(&self, characteristic: u128, payload: &[u8]) -> (r: Result<
        Option<Vec<u8>>,
        BridgeError,
    >)
        requires
            payload@.len() + 2 <= usize::MAX,
        ensures
            payload@.len() == 0 ==> r == Err::<Option<Vec<u8>>, BridgeError>(
                BridgeError::EmptyPayload,
            ),
            payload@.len() > 0 ==> r is Ok && if self.subscriptions@.contains(characteristic) {
                r->Ok_0 matches Some(p) && p@ == framed(payload@)
            } else {
                r->Ok_0 is None
            },
    {
        let packet = encode(payload)?;
        if self.is_subscribed(characteristic) {
            Ok(Some(packet))
        } else {
            Ok(None)
        }
    }

    /// The answer to a read of `characteristic` from `offset` on.
    pub fn read_response(&self, characteristic: u128, offset: usize) -> (r: Response)
        ensures
            is_read_answer(self.service, characteristic, offset, r),
    {
        match self.service.find_characteristic(characteristic) {
            Some(i) => {
                let empty: Vec<u8> = Vec::new();
                let v: &Vec<u8> = match &self.service.characteristics[i].value {
                    Some(b) => b,
                    None => &empty,
                };
                if offset > v.len() {
                    return Response::Failure;
                }
                let mut out: Vec<u8> = Vec::new();
                let mut k: usize = offset;
                while k < v.len()
                    invariant
                        offset <= k <= v@.len(),
                        out@ == v@.subrange(offset as int, k as int),
                    decreases v@.len() - k,
                {
                    out.push(v[k]);
                    k += 1;
                    assert(v@.subrange(offset as int, k as int) =~= v@.subrange(
                        offset as int,
                        k - 1 as int,
                    ).push(v@[k - 1]));
                }
                Response::Success { value: Some(out) }
            },
            None => Response::Failure,
        }
    }

    /// The answer to a write, and the raw event it hands to the local sink.
    pub fn write_response(value: &[u8]) -> (r: (Response, Option<Vec<u8>>))
        ensures
            is_write_answer(value@, r.0, r.1),
    {
        match decode(value) {
            Ok(p) => (Response::Success { value: None }, Some(p)),
            Err(_) => (Response::Failure, None),
        }
    }

    /// Records that `characteristic` has a subscriber.
    fn add_subscription(&mut self, characteristic: u128)
        requires
            old(self).subscriptions@.no_duplicates(),
        ensures
            final(self).subscriptions@.no_duplicates(),
            final(self).subscriptions@.len() > 0,
            forall|x: u128|
                final(self).subscriptions@.contains(x) <==> (old(self).subscriptions@.contains(x)
                    || x == characteristic),
            final(self).state == old(self).state,
            final(self).service == old(self).service,
            final(self).advertised_name == old(self).advertised_name,
            final(self).notify_characteristic == old(self).notify_characteristic,
    {
        if !self.is_subscribed(characteristic) {
            proof {
                lemma_push_contains(self.subscriptions@, characteristic);
            }
            self.subscriptions.push(characteristic);
        } else {
            assert(self.subscriptions@.len() > 0);
        }
    }

    /// Records that `characteristic` has no subscriber any more.
    fn remove_subscription(&mut self, characteristic: u128)
        requires
            old(self).subscriptions@.no_duplicates(),
        ensures
            final(self).subscriptions@.no_duplicates(),
            forall|x: u128|
                final(self).subscriptions@.contains(x) <==> (old(self).subscriptions@.contains(x)
                    && x != characteristic),
            final(self).state == old(self).state,
            final(self).service == old(self).service,
            final(self).advertised_name == old(self).advertised_name,
            final(self).notify_characteristic == old(self).notify_characteristic,
    {
        let mut kept: Vec<u128> = Vec::new();
        let mut i: usize = 0;
        while i < self.subscriptions.len()
            invariant
                i <= self.subscriptions@.len(),
                self.subscriptions@.no_duplicates(),
                kept@.no_duplicates(),
                forall|x: u128|
                    kept@.contains(x) <==> (x != characteristic && self.subscriptions@.subrange(
                        0,
                        i as int,
                    ).contains(x)),
            decreases self.subscriptions@.len() - i,
        {
            let c = self.subscriptions[i];
            let ghost before = self.subscriptions@.subrange(0, i as int);
            assert(self.subscriptions@.subrange(0, i + 1 as int) == before.push(c));
            proof {
                lemma_push_contains(before, c);
                lemma_push_contains(kept@, c);
                if before.contains(c) {
                    let j = choose|j: int| 0 <= j < before.len() && before[j] == c;
                    assert(self.subscriptions@[j] == self.subscriptions@[i as int]);
                }
            }
            let ghost kept_before = kept@;
            if c != characteristic {
                kept.push(c);
                proof {
                    assert(!kept_before.contains(c));
                    assert forall|p: int, q: int|
                        0 <= p < kept@.len() && 0 <= q < kept@.len() && p != q implies kept@[p]
                        != kept@[q] by {
                        if p == kept_before.len() {
                            assert(kept_before.contains(kept@[q]));
                        } else if q == kept_before.len() {
                            assert(kept_before.contains(kept@[p]));
                        }
                    }
                }
            }
            i += 1;
            assert forall|x: u128|
                kept@.contains(x) <==> (x != characteristic && self.subscriptions@.subrange(
                    0,
                    i as int,
                ).contains(x)) by {
                assert(kept_before.contains(x) <==> (x != characteristic && before.contains(x)));
            }
        }
        assert(self.subscriptions@.subrange(0, self.subscriptions@.len() as int)
            == self.subscriptions@);
        self.subscriptions = kept;
    }

    /// Advances the bridge by one reported event and says what to do next.
    /// Every read or write request is answered, whatever the stage.
    pub fn step(&mut self, event: PeripheralEvent) -> (a: PeripheralAction)
        requires
            old(self).wf(),
        ensures
            final(self).wf(),
            final(self).service == old(self).service,
            final(self).advertised_name == old(self).advertised_name,
            final(self).notify_characteristic == old(self).notify_characteristic,
            // each request gets exactly one answer, and nothing else gets one
            a.response is Some <==> is_request(event),
            a.deliver is Some ==> event is WriteRequest,
            is_request(event) ==> final(self).state == old(self).state
                && final(self).subscriptions@ == old(self).subscriptions@ && a.command
                == PeripheralCommand::Nothing,
            event matches PeripheralEvent::ReadRequest { characteristic, offset } ==> (a.response
                matches Some(r) && is_read_answer(old(self).service, characteristic, offset, r))
                && a.deliver is None,
            event matches PeripheralEvent::WriteRequest { value, .. } ==> a.response matches Some(
                r,
            ) && is_write_answer(value@, r, a.deliver),
            (is_finished(old(self).state) && !is_request(event)) ==> final(self).state == old(
                self,
            ).state && a.command == PeripheralCommand::Nothing,
            (!is_finished(old(self).state) && event is Cancelled) ==> final(self).state
                == PeripheralState::Closed && a.command == (PeripheralCommand::Stop {
                stop_advertising: is_serving(old(self).state),
            }),
            event matches PeripheralEvent::StateUpdate { is_powered } ==> if is_powered {
                if old(self).state is PoweredOff {
                    final(self).state == PeripheralState::PoweredOn && a.command
                        == PeripheralCommand::RegisterService
                } else {
                    final(self).state == old(self).state && a.command == PeripheralCommand::Nothing
                }
            } else {
                if old(self).state is PoweredOn {
                    final(self).state == PeripheralState::PoweredOff && a.command
                        == PeripheralCommand::Nothing
                } else if old(self).state is ServiceRegistered || is_serving(old(self).state) {
                    final(self).state == PeripheralState::Failed(BridgeError::AdapterPoweredOff)
                        && a.command == (PeripheralCommand::Stop {
                        stop_advertising: is_serving(old(self).state),
                    })
                } else {
                    final(self).state == old(self).state && a.command == PeripheralCommand::Nothing
                }
            },
            event matches PeripheralEvent::RegistrationCompleted { ok } ==> old(self).state
                is PoweredOn ==> if ok {
                final(self).state == PeripheralState::ServiceRegistered && a.command
                    == PeripheralCommand::StartAdvertising
            } else {
                final(self).state == PeripheralState::Failed(
                    BridgeError::ServiceRegistrationFailed,
                ) && a.command == (PeripheralCommand::Stop { stop_advertising: false })
            },
            event matches PeripheralEvent::AdvertisingCompleted { ok } ==> old(self).state
                is ServiceRegistered ==> if ok {
                final(self).state == PeripheralState::Advertising && a.command
                    == PeripheralCommand::Serve
            } else {
                final(self).state == PeripheralState::Failed(BridgeError::AdvertisingFailed)
                    && a.command == (PeripheralCommand::Stop { stop_advertising: false })
            },
            event matches PeripheralEvent::SubscriptionUpdate { characteristic, subscribed } ==> is_serving(
                old(self).state,
            ) ==> is_serving(final(self).state) && a.command == PeripheralCommand::Nothing
                && forall|x: u128|
                final(self).subscriptions@.contains(x) <==> if subscribed {
                    old(self).subscriptions@.contains(x) || x == characteristic
                } else {
                    old(self).subscriptions@.contains(x) && x != characteristic
                },
            event matches PeripheralEvent::Outbound { payload } ==> is_serving(old(self).state)
                ==> match payload {
                Some(p) => final(self).state == old(self).state && if is_encodable(p@)
                    && old(self).subscriptions@.contains(old(self).notify_characteristic) {
                    a.command matches PeripheralCommand::Notify { characteristic, packet }
                        && characteristic == old(self).notify_characteristic && packet@ == framed(
                        p@,
                    )
                } else {
                    a.command == PeripheralCommand::Nothing
                },
                None => final(self).state == PeripheralState::Closed && a.command == (
                PeripheralCommand::Stop { stop_advertising: true }),
            },
    {
        let nothing = PeripheralCommand::Nothing;
        match event {
            PeripheralEvent::ReadRequest { characteristic, offset } => {
                let r = self.read_response(characteristic, offset);
                return PeripheralAction { command: nothing, response: Some(r), deliver: None };
            },
            PeripheralEvent::WriteRequest { value, .. } => {
                let (r, deliver) = PeripheralBridge::write_response(value.as_slice());
                return PeripheralAction { command: nothing, response: Some(r), deliver };
            },
            _ => {},
        }
        if matches!(self.state, PeripheralState::Closed | PeripheralState::Failed(_)) {
            return PeripheralAction { command: nothing, response: None, deliver: None };
        }
        let serving = matches!(self.state, PeripheralState::Advertising | PeripheralState::Subscribed);
        let command = match event {
            PeripheralEvent::Cancelled => {
                self.finish(PeripheralState::Closed);
                PeripheralCommand::Stop { stop_advertising: serving }
            },
            PeripheralEvent::StateUpdate { is_powered } => {
                if is_powered {
                    if matches!(self.state, PeripheralState::PoweredOff) {
                        self.state = PeripheralState::PoweredOn;
                        PeripheralCommand::RegisterService
                    } else {
                        nothing
                    }
                } else if matches!(self.state, PeripheralState::PoweredOn) {
                    self.state = PeripheralState::PoweredOff;
                    nothing
                } else if serving || matches!(self.state, PeripheralState::ServiceRegistered) {
                    self.finish(PeripheralState::Failed(BridgeError::AdapterPoweredOff));
                    PeripheralCommand::Stop { stop_advertising: serving }
                } else {
                    nothing
                }
            },
            PeripheralEvent::RegistrationCompleted { ok } => {
                if !matches!(self.state, PeripheralState::PoweredOn) {
                    nothing
                } else if ok {
                    self.state = PeripheralState::ServiceRegistered;
                    PeripheralCommand::StartAdvertising
                } else {
                    self.state = PeripheralState::Failed(BridgeError::ServiceRegistrationFailed);
                    PeripheralCommand::Stop { stop_advertising: false }
                }
            },
            PeripheralEvent::AdvertisingCompleted { ok } => {
                if !matches!(self.state, PeripheralState::ServiceRegistered) {
                    nothing
                } else if ok {
                    self.state = PeripheralState::Advertising;
                    PeripheralCommand::Serve
                } else {
                    self.state = PeripheralState::Failed(BridgeError::AdvertisingFailed);
                    PeripheralCommand::Stop { stop_advertising: false }
                }
            },
            PeripheralEvent::SubscriptionUpdate { characteristic, subscribed } => {
                if serving {
                    if subscribed {
                        self.add_subscription(characteristic);
                    } else {
                        self.remove_subscription(characteristic);
                    }
                    if self.subscriptions.len() > 0 {
                        self.state = PeripheralState::Subscribed;
                    } else {
                        self.state = PeripheralState::Advertising;
                    }
                }
                nothing
            },
            PeripheralEvent::Outbound { payload } => {
                if !serving {
                    nothing
                } else {
                    match payload {
                        Some(p) => {
                            if p.len() == 0 || p.len() > usize::MAX - 2 {
                                nothing
                            } else {
                                match self.notify(self.notify_characteristic, p.as_slice()) {
                                    Ok(Some(packet)) => PeripheralCommand::Notify {
                                        characteristic: self.notify_characteristic,
                                        packet,
                                    },
                                    _ => nothing,
                                }
                            }
                        },
                        None => {
                            self.finish(PeripheralState::Closed);
                            PeripheralCommand::Stop { stop_advertising: true }
                        },
                    }
                }
            },
            _ => nothing,
        };
        PeripheralAction { command, response: None, deliver: None }
    }

    /// Ends the run in `state`, forgetting every subscription.
    fn finish(&mut self, state: PeripheralState)
        requires
            !(state is Subscribed),
        ensures
            final(self).state == state,
            final(self).subscriptions@.len() == 0,
            final(self).service == old(self).service,
            final(self).advertised_name == old(self).advertised_name,
            final(self).notify_characteristic == old(self).notify_characteristic,
    {
        self.state = state;
        self.subscriptions = Vec::new();
    }
}

} // verus!
