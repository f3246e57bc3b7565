//! The relay device and the builder that stages it.
//!
//! A device is built in two phases. A [`RelayDeviceBuilder`] collects one
//! registration per message type; [`RelayDeviceBuilder::finish`] consumes it
//! and yields a [`RelayDevice`] whose dispatch table never changes again.
//!
//! The device does no I/O of its own. Whoever runs it hands it one
//! [`Event`] at a time and carries out the [`Action`] it answers with.
use crate::envelope::{decode_envelope, encode_envelope, lemma_envelope_round_trip, Envelope};
use crate::msgs::{into_relay_data, tag, RelayData, TaggedData};
use std::collections::HashMap;
use vstd::prelude::*;

verus! {

/// The dispatch table that a sequence of registrations builds. Each
/// registration takes the next slot, counted from zero, and a tag leads to
/// the slot of the last registration that was made for it.
pub open spec fn dispatch_table(subs: Seq<u64>) -> Map<u64, usize>
    decreases subs.len(),
{
    if subs.len() == 0 {
        Map::empty()
    } else {
        dispatch_table(subs.drop_last()).insert(subs.last(), (subs.len() - 1) as usize)
    }
}

/// One more registration adds one entry, over the entry that the tag had.
pub proof fn lemma_dispatch_table_push(subs: Seq<u64>, tag: u64)
    ensures
        dispatch_table(subs.push(tag)) == dispatch_table(subs).insert(tag, subs.len() as usize),
{
    assert(subs.push(tag).drop_last() =~= subs);
}

/// What a builder holds: the diagnostic name, if one was given, and the
/// tags that were registered, in the order of their registration.
pub struct BuilderView {
    pub name: Option<Seq<char>>,
    pub subs: Seq<u64>,
}

/// Stages the registrations of a device that is not active yet.
pub struct RelayDeviceBuilder {
    name: Option<String>,
    subs: Vec<u64>,
    handlers: HashMap<u64, usize>,
}

impl View for RelayDeviceBuilder {
    type V = BuilderView;

    closed spec fn view(&self) -> BuilderView {
        BuilderView {
            name: match self.name {
                Some(n) => Some(n@),
                None => None,
            },
            subs: self.subs@,
        }
    }
}

impl RelayDeviceBuilder {
    #[verifier::type_invariant]
    spec fn table_follows_registrations(self) -> bool {
        self.handlers@ == dispatch_table(self.subs@)
    }

    /// Attaches a diagnostic name. The name has no effect on relaying.
    pub fn with_name(self, name: &str) -> (b: RelayDeviceBuilder)
        ensures
            b@ == (BuilderView { name: Some(name@), subs: self@.subs }),
    {
        proof {
            use_type_invariant(&self);
        }
        let RelayDeviceBuilder { name: _, subs, handlers } = self;
        RelayDeviceBuilder { name: Some(name.to_owned()), subs, handlers }
    }

    /// Registers the message type that has the wire tag `tag`: the device
    /// will take in what the bus publishes of that type, and hand what
    /// arrives under that tag to the slot of this registration.
    pub fn register(self, tag: u64) -> (b: RelayDeviceBuilder)
        ensures
            b@ == (BuilderView { name: self@.name, subs: self@.subs.push(tag) }),
    {
        proof {
            use_type_invariant(&self);
            lemma_dispatch_table_push(self.subs@, tag);
        }
        let RelayDeviceBuilder { name, mut subs, mut handlers } = self;
        let slot: usize = subs.len();
        subs.push(tag);
        handlers.insert(tag, slot);
        RelayDeviceBuilder { name, subs, handlers }
    }

    /// Registers the message type `M` under its wire tag.
    pub fn add_sub<M: 'static>(self) -> (b: RelayDeviceBuilder)
        ensures
            b@.name == self@.name,
            b@.subs.len() == self@.subs.len() + 1,
            b@.subs.drop_last() == self@.subs,
    {
        let t: u64 = tag::<M>();
        let b = self.register(t);
        assert(b@.subs.drop_last() =~= self@.subs);
        b
    }

    /// Ends the building: the device is active from here on, and its
    /// registrations are those of the builder, for good.
    pub fn finish(self) -> (dev: RelayDevice)
        ensures
            dev@ == (DeviceView {
                name: self@.name,
                subs: self@.subs,
                state: DeviceState::Active,
            }),
    {
        proof {
            use_type_invariant(&self);
        }
        let RelayDeviceBuilder { name, subs, handlers } = self;
        RelayDevice { name, subs, handlers, state: DeviceState::Active }
    }
}

/// Where a device stands in its life. The phase before, in which the
/// registrations are made, is the builder's.
#[derive(Clone, Copy, Debug, PartialEq, Eq, Structural)]
pub enum DeviceState {
    /// The device relays.
    Active,
    /// The transport failed or the device was shut down; nothing is relayed
    /// any more.
    Stopped,
}

/// The two ways in which the transport can fail its device.
#[derive(Clone, Copy, Debug, PartialEq, Eq, Structural)]
pub enum TransportFailure {
    /// An outbound buffer could not be delivered.
    Send,
    /// The inbound stream broke.
    Receive,
}

/// Why an inbound buffer was dropped. Such a buffer is foreign or corrupt
/// traffic; dropping it is silent and never stops the device.
#[derive(Clone, Copy, Debug, PartialEq, Eq, Structural)]
pub enum DropReason {
    /// The buffer does not start with a complete envelope.
    MalformedEnvelope,
    /// The envelope carries a tag that no registration was made for.
    UnknownTag,
}

/// What can happen to a device.
#[derive(Debug)]
pub enum Event {
    /// The local bus published a message of the type with tag `tag`, whose
    /// encoded bytes are `payload`.
    Published { tag: u64, payload: Vec<u8> },
    /// The transport delivered a buffer.
    Received(RelayData),
    /// The transport reported a failure.
    TransportFailed(TransportFailure),
    /// The device is asked to shut down.
    Shutdown,
}

/// What the runner of a device has to do in answer to an event.
#[derive(Debug)]
pub enum Action {
    /// Hand the buffer to the transport, without waiting for it.
    Send(RelayData),
    /// Decode `payload` as the message type that was registered in `slot`
    /// and publish the message on the local bus. A payload that does not
    /// decode as that type is dropped in silence.
    Republish { slot: usize, payload: Vec<u8> },
    /// Nothing: the buffer was dropped.
    Drop(DropReason),
    /// Release the transport and report the failure to the supervisor.
    Escalate(TransportFailure),
    /// Release the transport.
    Release,
    /// Nothing: the device is stopped.
    Nothing,
}

/// An event as a mathematical value.
pub enum EventView {
    Published { tag: u64, payload: Seq<u8> },
    Received(Seq<u8>),
    TransportFailed(TransportFailure),
    Shutdown,
}

/// An action as a mathematical value.
pub enum ActionView {
    Send(Seq<u8>),
    Republish { slot: usize, payload: Seq<u8> },
    Drop(DropReason),
    Escalate(TransportFailure),
    Release,
    Nothing,
}

impl View for Event {
    type V = EventView;

    open spec fn view(&self) -> EventView {
        match *self {
            Event::Published { tag, payload } => EventView::Published { tag, payload: payload@ },
            Event::Received(rd) => EventView::Received(rd@),
            Event::TransportFailed(failure) => EventView::TransportFailed(failure),
            Event::Shutdown => EventView::Shutdown,
        }
    }
}

impl View for Action {
    type V = ActionView;

    open spec fn view(&self) -> ActionView {
        match *self {
            Action::Send(rd) => ActionView::Send(rd@),
            Action::Republish { slot, payload } => ActionView::Republish { slot, payload: payload@ },
            Action::Drop(reason) => ActionView::Drop(reason),
            Action::Escalate(failure) => ActionView::Escalate(failure),
            Action::Release => ActionView::Release,
            Action::Nothing => ActionView::Nothing,
        }
    }
}

/// What a device holds: its diagnostic name, the tags that were registered,
/// in the order of their registration, and its state.
pub struct DeviceView {
    pub name: Option<Seq<char>>,
    pub subs: Seq<u64>,
    pub state: DeviceState,
}

/// The state that follows `state` on `event`. A transport failure and a
/// shutdown stop an active device; a stopped device stays stopped.
pub open spec fn next_state(state: DeviceState, event: EventView) -> DeviceState {
    match event {
        EventView::TransportFailed(_) | EventView::Shutdown => DeviceState::Stopped,
        _ => state,
    }
}

/// What an active device with the registrations `subs` does with an inbound
/// buffer.
pub open spec fn inbound_action(subs: Seq<u64>, bytes: Seq<u8>) -> ActionView {
    match decode_envelope(bytes) {
        None => ActionView::Drop(DropReason::MalformedEnvelope),
        Some(e) => if dispatch_table(subs).contains_key(e.tag) {
            ActionView::Republish { slot: dispatch_table(subs)[e.tag], payload: e.payload }
        } else {
            ActionView::Drop(DropReason::UnknownTag)
        },
    }
}

/// The action with which the device `dev` answers `event`.
pub open spec fn action_for(dev: DeviceView, event: EventView) -> ActionView {
    match dev.state {
        DeviceState::Stopped => ActionView::Nothing,
        DeviceState::Active => match event {
            EventView::Published { tag, payload } => ActionView::Send(
                encode_envelope(Envelope { tag, payload }),
            ),
            EventView::Received(bytes) => inbound_action(dev.subs, bytes),
            EventView::TransportFailed(failure) => ActionView::Escalate(failure),
            EventView::Shutdown => ActionView::Release,
        },
    }
}

/// Bridges a local message bus and one transport.
pub struct RelayDevice {
    name: Option<String>,
    subs: Vec<u64>,
    handlers: HashMap<u64, usize>,
    state: DeviceState,
}

impl View for RelayDevice {
    type V = DeviceView;

    closed spec fn view(&self) -> DeviceView {
        DeviceView {
            name: match self.name {
                Some(n) => Some(n@),
                None => None,
            },
            subs: self.subs@,
            state: self.state,
        }
    }
}

impl RelayDevice {
    #[verifier::type_invariant]
    spec fn table_follows_registrations(self) -> bool {
        self.handlers@ == dispatch_table(self.subs@)
    }

    /// Starts the building of a device: no name, no registration.
    pub fn new() -> (b: RelayDeviceBuilder)
        ensures
            b@ == (BuilderView { name: None, subs: Seq::empty() }),
    {
        RelayDeviceBuilder { name: None, subs: Vec::new(), handlers: HashMap::new() }
    }

    /// Takes one event and says what is to be done about it.
    pub fn handle(&mut self, event: Event) -> (action: Action)
        ensures
            final(self)@ == (DeviceView {
                state: next_state(old(self)@.state, event@),
                ..old(self)@
            }),
            action@ == action_for(old(self)@, event@),
    {
        proof {
            use_type_invariant(&*self);
        }
        match self.state {
            DeviceState::Stopped => Action::Nothing,
            DeviceState::Active => match event {
                Event::Published { tag, payload } => Action::Send(into_relay_data(tag, payload)),
                Event::Received(msg) => self.dispatch(&msg),
                Event::TransportFailed(failure) => {
                    self.state = DeviceState::Stopped;
                    Action::Escalate(failure)
                },
                Event::Shutdown => {
                    self.state = DeviceState::Stopped;
                    Action::Release
                },
            },
        }
    }

    /// The state of the device.
    pub fn state(&self) -> (state: DeviceState)
        ensures
            state == self@.state,
    {
        self.state
    }

    /// The tags that were registered, in the order of their registration:
    /// the slot of a registration is its place in this list.
    pub fn subscriptions(&self) -> (subs: &Vec<u64>)
        ensures
            subs@ == self@.subs,
    {
        &self.subs
    }

    /// The name to show for the device: the one it was given, or `Unnamed`.
    pub fn display_name(&self) -> (shown: String)
        ensures
            shown@ == match self@.name {
                Some(name) => name,
                None => "Unnamed"@,
            },
    {
        match &self.name {
            Some(name) => name.clone(),
            None => "Unnamed".to_owned(),
        }
    }

    /// Looks an inbound buffer up in the dispatch table.
    fn dispatch(&self, msg: &RelayData) -> (action: Action)
        ensures
            action@ == inbound_action(self@.subs, msg@),
    {
        proof {
            use_type_invariant(self);
        }
        match TaggedData::from_relay_data(msg) {
            None => Action::Drop(DropReason::MalformedEnvelope),
            Some(tagged_data) => match self.handlers.get(&tagged_data.tag) {
                Some(slot) => Action::Republish { slot: *slot, payload: tagged_data.data },
                None => Action::Drop(DropReason::UnknownTag),
            },
        }
    }
}

/// The dispatch table holds a tag exactly if a registration was made for
/// it, and leads from the tag to the last such registration.
pub proof fn lemma_last_registration_wins(subs: Seq<u64>, tag: u64)
    requires
        subs.len() <= usize::MAX,
    ensures
        dispatch_table(subs).contains_key(tag) <==> subs.contains(tag),
        dispatch_table(subs).contains_key(tag) ==> {
            let slot = dispatch_table(subs)[tag];
            &&& slot < subs.len()
            &&& subs[slot as int] == tag
            &&& forall|later: int| slot < later < subs.len() ==> subs[later] != tag
        },
    decreases subs.len(),
{
    if subs.len() > 0 {
        let before = subs.drop_last();
        lemma_last_registration_wins(before, tag);
        if subs.last() == tag {
            assert(subs[subs.len() - 1] == tag);
        } else if before.contains(tag) {
            let at = choose|at: int| 0 <= at < before.len() && before[at] == tag;
            assert(subs[at] == tag);
            let slot = dispatch_table(before)[tag];
            assert(dispatch_table(subs)[tag] == slot);
            assert forall|later: int| slot < later < subs.len() implies subs[later] != tag by {
                if later < before.len() {
                    assert(before[later] != tag);
                }
            }
        } else if subs.contains(tag) {
            let at = choose|at: int| 0 <= at < subs.len() && subs[at] == tag;
            assert(before[at] == tag);
        }
    }
}

/// Where no tag was registered twice, every registration is reached by its
/// own tag: no registration hides another.
pub proof fn lemma_distinct_tags_keep_their_slots(subs: Seq<u64>, slot: int)
    requires
        subs.len() <= usize::MAX,
        subs.no_duplicates(),
        0 <= slot < subs.len(),
    ensures
        dispatch_table(subs).contains_key(subs[slot]),
        dispatch_table(subs)[subs[slot]] == slot,
{
    lemma_last_registration_wins(subs, subs[slot]);
}

/// A republish always names a registration that was made for the tag of
/// the envelope, and carries the payload of the envelope unchanged: no
/// buffer reaches a slot of another tag.
pub proof fn lemma_republish_names_a_registration(dev: DeviceView, bytes: Seq<u8>)
    requires
        dev.subs.len() <= usize::MAX,
        action_for(dev, EventView::Received(bytes)) is Republish,
    ensures
        ({
            let slot = action_for(dev, EventView::Received(bytes))->slot;
            let payload = action_for(dev, EventView::Received(bytes))->payload;
            &&& dev.state == DeviceState::Active
            &&& slot < dev.subs.len()
            &&& decode_envelope(bytes) == Some(Envelope { tag: dev.subs[slot as int], payload })
        }),
{
    lemma_last_registration_wins(dev.subs, decode_envelope(bytes).unwrap().tag);
}

/// A buffer whose tag was never registered is dropped: the device keeps its
/// state and republishes nothing.
pub proof fn lemma_unknown_tag_is_dropped(dev: DeviceView, bytes: Seq<u8>)
    requires
        dev.subs.len() <= usize::MAX,
        decode_envelope(bytes) matches Some(e) && !dev.subs.contains(e.tag),
    ensures
        next_state(dev.state, EventView::Received(bytes)) == dev.state,
        !(action_for(dev, EventView::Received(bytes)) is Republish),
        dev.state == DeviceState::Active ==> action_for(dev, EventView::Received(bytes))
            == ActionView::Drop(DropReason::UnknownTag),
{
    lemma_last_registration_wins(dev.subs, decode_envelope(bytes).unwrap().tag);
}

/// A buffer that does not start with a complete envelope is dropped,
/// whatever bytes it holds: the device keeps its state and republishes
/// nothing.
pub proof fn lemma_malformed_bytes_are_dropped(dev: DeviceView, bytes: Seq<u8>)
    requires
        decode_envelope(bytes) is None,
    ensures
        next_state(dev.state, EventView::Received(bytes)) == dev.state,
        !(action_for(dev, EventView::Received(bytes)) is Republish),
        dev.state == DeviceState::Active ==> action_for(dev, EventView::Received(bytes))
            == ActionView::Drop(DropReason::MalformedEnvelope),
{
}

/// What one active device sends for a published message, another active
/// device that has a registration for the tag republishes unchanged, from
/// the slot of that registration.
pub proof fn lemma_relayed_message_arrives(
    sender: DeviceView,
    receiver: DeviceView,
    tag: u64,
    payload: Seq<u8>,
)
    requires
        payload.len() <= u64::MAX,
        receiver.subs.len() <= usize::MAX,
        sender.state == DeviceState::Active,
        receiver.state == DeviceState::Active,
        receiver.subs.contains(tag),
    ensures
        action_for(sender, EventView::Published { tag, payload }) matches ActionView::Send(bytes)
            && decode_envelope(bytes) == Some(Envelope { tag, payload }) && action_for(
            receiver,
            EventView::Received(bytes),
        ) == (ActionView::Republish { slot: dispatch_table(receiver.subs)[tag], payload }),
{
    lemma_envelope_round_trip(Envelope { tag, payload });
    lemma_last_registration_wins(receiver.subs, tag);
}

/// A stopped device stays stopped and asks for nothing, whatever happens.
pub proof fn lemma_stopped_device_is_silent(dev: DeviceView, event: EventView)
    requires
        dev.state == DeviceState::Stopped,
    ensures
        next_state(dev.state, event) == DeviceState::Stopped,
        action_for(dev, event) == ActionView::Nothing,
{
}

} // verus!
