use vstd::prelude::*;
use std::collections::{HashMap, HashSet};
use crate::class_of_ms::ClassOfMs;
use crate::mm_enums::EnergySavingMode;
use crate::telemetry::{TelemetryEvent, TelemetrySink, sent_one, after_send, lemma_sent_one};

verus! {

/// Errors of the client registry.
#[derive(Debug, Clone, Copy, PartialEq, Eq, Structural)]
pub enum ClientMgrErr {
    ClientNotFound { issi: u32 },
    GroupNotFound { gssi: u32 },
    IssiInGroupRange { issi: u32 },
    GssiInClientRange { gssi: u32 },
}

/// Registration state of a mobile station.
#[derive(Debug, PartialEq, Eq, Clone, Copy, Structural)]
pub enum MmClientState {
    Unknown,
    Attached,
    Detached,
}

/// What the registry keeps of one mobile station.
pub struct MmClientProperties {
    pub issi: u32,
    pub state: MmClientState,
    pub groups: HashSet<u32>,
    pub energy_saving_mode: EnergySavingMode,
    pub class_of_ms: Option<ClassOfMs>,
}

/// The contents of `MmClientProperties`, with the groups as a set.
pub struct ClientView {
    pub issi: u32,
    pub state: MmClientState,
    pub groups: Set<u32>,
    pub energy_saving_mode: EnergySavingMode,
    pub class_of_ms: Option<ClassOfMs>,
}

impl View for MmClientProperties {
    type V = ClientView;

    open spec fn view(&self) -> ClientView {
        ClientView {
            issi: self.issi,
            state: self.state,
            groups: self.groups@,
            energy_saving_mode: self.energy_saving_mode,
            class_of_ms: self.class_of_ms,
        }
    }
}

/// A mobile station just registered under `issi` in `state`: in no group, staying alive,
/// its class unknown.
pub open spec fn fresh_client(issi: u32, state: MmClientState) -> ClientView {
    ClientView {
        issi: issi,
        state: state,
        groups: Set::<u32>::empty(),
        energy_saving_mode: EnergySavingMode::StayAlive,
        class_of_ms: None,
    }
}

/// The state a registration gives: attached where the station says so, else unknown.
pub open spec fn registration_state(attached: bool) -> MmClientState {
    if attached {
        MmClientState::Attached
    } else {
        MmClientState::Unknown
    }
}

/// `c` with its group memberships replaced by `groups`.
pub open spec fn with_groups(c: ClientView, groups: Set<u32>) -> ClientView {
    ClientView { groups: groups, ..c }
}

/// The registry `m` after `issi` registered: a fresh record in place of any earlier one.
pub open spec fn registered(m: Map<u32, ClientView>, issi: u32, attached: bool) -> Map<u32, ClientView> {
    m.insert(issi, fresh_client(issi, registration_state(attached)))
}

/// The record `c` after it attached to (`do_attach`) or detached from the group `gssi`.
pub open spec fn group_changed(c: ClientView, gssi: u32, do_attach: bool) -> ClientView {
    with_groups(
        c,
        if do_attach {
            c.groups.insert(gssi)
        } else {
            c.groups.remove(gssi)
        },
    )
}

/// What attaching or detaching answers: whether the membership of `c` in `gssi` changed.
pub open spec fn group_change_result(c: ClientView, gssi: u32, do_attach: bool) -> bool {
    if do_attach {
        !c.groups.contains(gssi)
    } else {
        c.groups.contains(gssi)
    }
}

impl MmClientProperties {
    /// The properties of a station that has just become known under `ssi`.
    pub fn new(ssi: u32) -> (r: Self)
        ensures
            r@ == fresh_client(ssi, MmClientState::Unknown),
    {
        MmClientProperties {
            issi: ssi,
            state: MmClientState::Unknown,
            groups: HashSet::new(),
            energy_saving_mode: EnergySavingMode::StayAlive,
            class_of_ms: None,
        }
    }
}

/// Whether `issi` is an individual identity; every identity is, until the ranges come
/// from configuration.
pub open spec fn spec_is_individual(issi: u32) -> bool {
    true
}

/// Whether `gssi` lies in the group range; every identity does, until the ranges come
/// from configuration.
pub open spec fn spec_in_group_range(gssi: u32) -> bool {
    true
}

/// Whether `gssi` is a known group; every identity is, until the groups come from
/// configuration.
pub open spec fn spec_is_group(gssi: u32) -> bool {
    true
}

/// Whether `issi` may attach to `gssi`; every station may, until the rights come from
/// configuration.
pub open spec fn spec_may_attach(issi: u32, gssi: u32) -> bool {
    true
}

/// Stub function, to be replaced with checks based on configuration file
fn is_individual(_issi: u32) -> (r: bool)
    ensures
        r == spec_is_individual(_issi),
{
    return true;
}

/// Stub function, to be replaced with checks based on configuration file
fn in_group_range(_gssi: u32) -> (r: bool)
    ensures
        r == spec_in_group_range(_gssi),
{
    return true;
}

/// Stub function, to be replaced with checks based on configuration file
fn is_group(_gssi: u32) -> (r: bool)
    ensures
        r == spec_is_group(_gssi),
{
    return true;
}

/// Stub function, to be replaced with checks based on configuration file
fn may_attach(_issi: u32, _gssi: u32) -> (r: bool)
    ensures
        r == spec_may_attach(_issi, _gssi),
{
    return true;
}

/// The lists of a set's members that name each member once.
fn collect_groups(groups: &HashSet<u32>) -> (r: Vec<u32>)
    ensures
        r@.no_duplicates(),
        r@.to_set() == groups@,
{
    let mut out: Vec<u32> = Vec::new();
    for g in it: groups.iter()
        invariant
            it.seq().unref().to_set() == groups@,
            it.seq().unref().no_duplicates(),
            out@ == it.seq().unref().take(it.index()),
            it.index() == it.seq().len() ==> out@ == it.seq().unref(),
    {
        proof {
            assert(it.seq().unref().take(it.index() + 1) =~= out@.push(*g));
            assert(it.seq().unref().take(it.seq().len() as int) =~= it.seq().unref());
        }
        out.push(*g);
    }
    out
}

/// The registry of mobile stations known to mobility management.
pub struct MmClientMgr {
    clients: HashMap<u32, MmClientProperties>,
    telemetry_sink: Option<TelemetrySink>,
}

impl MmClientMgr {
    /// The registered stations, by identity.
    pub closed spec fn clients(&self) -> Map<u32, ClientView> {
        self.clients@.map_values(|p: MmClientProperties| p@)
    }

    /// The events waiting in the telemetry outbox, where there is one.
    pub closed spec fn telemetry(&self) -> Option<Seq<TelemetryEvent>> {
        match self.telemetry_sink {
            Some(s) => Some(s.pending()),
            None => None,
        }
    }

    /// Each station is stored under its own identity.
    pub open spec fn wf(&self) -> bool {
        forall|k: u32| #[trigger] self.clients().contains_key(k) ==> self.clients()[k].issi == k
    }

    /// An empty registry that reports to `telemetry_sink`, if given.
    pub fn new(telemetry_sink: Option<TelemetrySink>) -> (r: Self)
        ensures
            r.clients() == Map::<u32, ClientView>::empty(),
            r.telemetry() == (match telemetry_sink {
                Some(s) => Some(s.pending()),
                None => None,
            }),
            r.wf(),
    {
        let r = MmClientMgr { clients: HashMap::new(), telemetry_sink };
        assert(r.clients() =~= Map::<u32, ClientView>::empty());
        r
    }

    /// Sends `event` to the telemetry outbox, where there is one.
    fn report(&mut self, event: TelemetryEvent)
        ensures
            final(self).clients@ == old(self).clients@,
            final(self).telemetry() == after_send(old(self).telemetry(), event),
    {
        match &mut self.telemetry_sink {
            Some(sink) => sink.send(event),
            None => {},
        }
    }

    /// The properties of the station registered under `issi`, if any.
    pub fn get_client_by_issi(&mut self, issi: u32) -> (r: Option<&MmClientProperties>)
        ensures
            final(self).clients() == old(self).clients(),
            final(self).telemetry() == old(self).telemetry(),
            match r {
                Some(p) => old(self).clients().contains_key(issi) && p@ == old(self).clients()[issi],
                None => !old(self).clients().contains_key(issi),
            },
    {
        self.clients.get(&issi)
    }

    /// Whether a station is registered under `issi`.
    pub fn client_is_known(&self, issi: u32) -> (r: bool)
        ensures
            r == self.clients().contains_key(issi),
    {
        self.clients.contains_key(&issi)
    }

    /// Sets the registration state of the station under `issi`.
    pub fn set_client_state(&mut self, issi: u32, state: MmClientState) -> (r: Result<(), ClientMgrErr>)
        ensures
            final(self).telemetry() == old(self).telemetry(),
            old(self).clients().contains_key(issi) ==> {
                &&& r is Ok
                &&& final(self).clients() == old(self).clients().insert(
                    issi,
                    (ClientView { state: state, ..old(self).clients()[issi] }),
                )
            },
            !old(self).clients().contains_key(issi) ==> {
                &&& r == Err::<(), ClientMgrErr>(ClientMgrErr::ClientNotFound { issi: issi })
                &&& final(self).clients() == old(self).clients()
            },
            old(self).wf() ==> final(self).wf(),
    {
        match self.clients.remove(&issi) {
            Some(mut client) => {
                client.state = state;
                self.clients.insert(issi, client);
                assert(self.clients() =~= old(self).clients().insert(issi, client@));
                Ok(())
            },
            None => {
                assert(self.clients() =~= old(self).clients());
                Err(ClientMgrErr::ClientNotFound { issi })
            },
        }
    }

    /// Sets the energy saving mode of the station under `issi`.
    pub fn set_client_energy_saving_mode(&mut self, issi: u32, mode: EnergySavingMode) -> (r: Result<
        (),
        ClientMgrErr,
    >)
        ensures
            final(self).telemetry() == old(self).telemetry(),
            old(self).clients().contains_key(issi) ==> {
                &&& r is Ok
                &&& final(self).clients() == old(self).clients().insert(
                    issi,
                    (ClientView { energy_saving_mode: mode, ..old(self).clients()[issi] }),
                )
            },
            !old(self).clients().contains_key(issi) ==> {
                &&& r == Err::<(), ClientMgrErr>(ClientMgrErr::ClientNotFound { issi: issi })
                &&& final(self).clients() == old(self).clients()
            },
            old(self).wf() ==> final(self).wf(),
    {
        match self.clients.remove(&issi) {
            Some(mut client) => {
                client.energy_saving_mode = mode;
                self.clients.insert(issi, client);
                assert(self.clients() =~= old(self).clients().insert(issi, client@));
                Ok(())
            },
            None => {
                assert(self.clients() =~= old(self).clients());
                Err(ClientMgrErr::ClientNotFound { issi })
            },
        }
    }

    /// Sets, or clears, the class of MS of the station under `issi`.
    pub fn set_client_class_of_ms(&mut self, issi: u32, class: Option<ClassOfMs>) -> (r: Result<
        (),
        ClientMgrErr,
    >)
        ensures
            final(self).telemetry() == old(self).telemetry(),
            old(self).clients().contains_key(issi) ==> {
                &&& r is Ok
                &&& final(self).clients() == old(self).clients().insert(
                    issi,
                    (ClientView { class_of_ms: class, ..old(self).clients()[issi] }),
                )
            },
            !old(self).clients().contains_key(issi) ==> {
                &&& r == Err::<(), ClientMgrErr>(ClientMgrErr::ClientNotFound { issi: issi })
                &&& final(self).clients() == old(self).clients()
            },
            old(self).wf() ==> final(self).wf(),
    {
        match self.clients.remove(&issi) {
            Some(mut client) => {
                client.class_of_ms = class;
                self.clients.insert(issi, client);
                assert(self.clients() =~= old(self).clients().insert(issi, client@));
                Ok(())
            },
            None => {
                assert(self.clients() =~= old(self).clients());
                Err(ClientMgrErr::ClientNotFound { issi })
            },
        }
    }

    /// Registers a fresh state for a client, based on ssi
    /// If client is already registered, previous state is discarded.
    pub fn try_register_client(&mut self, issi: u32, attached: bool) -> (r: Result<bool, ClientMgrErr>)
        ensures
            !spec_is_individual(issi) ==> {
                &&& r == Err::<bool, ClientMgrErr>(ClientMgrErr::IssiInGroupRange { issi: issi })
                &&& final(self).clients() == old(self).clients()
                &&& final(self).telemetry() == old(self).telemetry()
            },
            spec_is_individual(issi) ==> {
                &&& r == Ok::<bool, ClientMgrErr>(true)
                &&& final(self).clients() == registered(old(self).clients(), issi, attached)
                &&& sent_one(
                    old(self).telemetry(),
                    final(self).telemetry(),
                    |e: TelemetryEvent| e == (TelemetryEvent::MsRegistration { issi: issi }),
                )
            },
            r == Ok::<bool, ClientMgrErr>(true),
            final(self).clients() == registered(old(self).clients(), issi, attached),
            final(self).clients()[issi].state == registration_state(attached),
            old(self).wf() ==> final(self).wf(),
    {
        if !is_individual(issi) {
            return Err(ClientMgrErr::IssiInGroupRange { issi });
        };

        // discard previous state if any
        self.clients.remove(&issi);

        // Create and insert new client state
        let mut elem = MmClientProperties::new(issi);
        elem.state = if attached {
            MmClientState::Attached
        } else {
            MmClientState::Unknown
        };
        self.clients.insert(issi, elem);
        assert(self.clients() =~= old(self).clients().insert(issi, elem@));

        // Send telemetry event
        let event = TelemetryEvent::MsRegistration { issi };
        proof {
            lemma_sent_one(
                old(self).telemetry(),
                event,
                |e: TelemetryEvent| e == (TelemetryEvent::MsRegistration { issi: issi }),
            );
        }
        self.report(event);

        Ok(true)
    }

    /// Removes a client from the registry, returning its properties if found
    pub fn remove_client(&mut self, ssi: u32) -> (r: Option<MmClientProperties>)
        ensures
            final(self).clients() == old(self).clients().remove(ssi),
            r is Some <==> old(self).clients().contains_key(ssi),
            r matches Some(p) ==> {
                &&& p@ == old(self).clients()[ssi]
                &&& sent_one(
                    old(self).telemetry(),
                    final(self).telemetry(),
                    |e: TelemetryEvent| e == (TelemetryEvent::MsDeregistration { issi: ssi }),
                )
            },
            r is None ==> final(self).telemetry() == old(self).telemetry(),
            old(self).wf() ==> final(self).wf(),
    {
        let removed = self.clients.remove(&ssi);
        assert(self.clients() =~= old(self).clients().remove(ssi));
        if let Some(client) = removed {
            // Send telemetry event
            let event = TelemetryEvent::MsDeregistration { issi: ssi };
            proof {
                lemma_sent_one(
                    old(self).telemetry(),
                    event,
                    |e: TelemetryEvent| e == (TelemetryEvent::MsDeregistration { issi: ssi }),
                );
            }
            self.report(event);
            Some(client)
        } else {
            None
        }
    }

    /// Detaches all groups from a client
    pub fn client_detach_all_groups(&mut self, issi: u32) -> (r: Result<bool, ClientMgrErr>)
        ensures
            old(self).clients().contains_key(issi) ==> {
                &&& r == Ok::<bool, ClientMgrErr>(true)
                &&& final(self).clients() == old(self).clients().insert(
                    issi,
                    with_groups(old(self).clients()[issi], Set::<u32>::empty()),
                )
                &&& sent_one(
                    old(self).telemetry(),
                    final(self).telemetry(),
                    |e: TelemetryEvent|
                        e.is_group_detach(
                            old(self).clients()[issi].issi,
                            old(self).clients()[issi].groups,
                        ),
                )
            },
            !old(self).clients().contains_key(issi) ==> {
                &&& r == Err::<bool, ClientMgrErr>(ClientMgrErr::ClientNotFound { issi: issi })
                &&& final(self).clients() == old(self).clients()
                &&& final(self).telemetry() == old(self).telemetry()
            },
            old(self).wf() ==> final(self).wf(),
    {
        match self.clients.remove(&issi) {
            Some(mut client) => {
                // Send telemetry event
                let event = TelemetryEvent::MsGroupDetach {
                    issi: client.issi,
                    gssis: collect_groups(&client.groups),
                };
                proof {
                    lemma_sent_one(
                        old(self).telemetry(),
                        event,
                        |e: TelemetryEvent|
                            e.is_group_detach(
                                old(self).clients()[issi].issi,
                                old(self).clients()[issi].groups,
                            ),
                    );
                }
                self.report(event);
                client.groups.clear();
                self.clients.insert(issi, client);
                assert(self.clients() =~= old(self).clients().insert(issi, client@));
                Ok(true)
            },
            None => {
                assert(self.clients() =~= old(self).clients());
                Err(ClientMgrErr::ClientNotFound { issi })
            },
        }
    }

    /// Attaches or detaches a client from a group
    pub fn client_group_attach(&mut self, issi: u32, gssi: u32, do_attach: bool) -> (r: Result<
        bool,
        ClientMgrErr,
    >)
        ensures
            !spec_in_group_range(gssi) ==> r == Err::<bool, ClientMgrErr>(
                ClientMgrErr::GssiInClientRange { gssi: gssi },
            ),
            spec_in_group_range(gssi) && !spec_is_group(gssi) ==> r == Err::<bool, ClientMgrErr>(
                ClientMgrErr::GroupNotFound { gssi: gssi },
            ),
            spec_in_group_range(gssi) && spec_is_group(gssi) && !spec_may_attach(issi, gssi) ==> r
                == Err::<bool, ClientMgrErr>(ClientMgrErr::GroupNotFound { gssi: gssi }),
            spec_in_group_range(gssi) && spec_is_group(gssi) && spec_may_attach(issi, gssi)
                && !old(self).clients().contains_key(issi) ==> r == Err::<bool, ClientMgrErr>(
                ClientMgrErr::ClientNotFound { issi: issi },
            ),
            r is Err ==> {
                &&& final(self).clients() == old(self).clients()
                &&& final(self).telemetry() == old(self).telemetry()
            },
            spec_in_group_range(gssi) && spec_is_group(gssi) && spec_may_attach(issi, gssi)
                && old(self).clients().contains_key(issi) ==> {
                &&& r == Ok::<bool, ClientMgrErr>(
                    group_change_result(old(self).clients()[issi], gssi, do_attach),
                )
                &&& final(self).clients() == old(self).clients().insert(
                    issi,
                    group_changed(old(self).clients()[issi], gssi, do_attach),
                )
                &&& do_attach ==> sent_one(
                    old(self).telemetry(),
                    final(self).telemetry(),
                    |e: TelemetryEvent| e.is_group_attach(old(self).clients()[issi].issi, gssi),
                )
                &&& !do_attach ==> final(self).telemetry() == old(self).telemetry()
            },
            old(self).clients().contains_key(issi) ==> {
                &&& r == Ok::<bool, ClientMgrErr>(
                    group_change_result(old(self).clients()[issi], gssi, do_attach),
                )
                &&& final(self).clients() == old(self).clients().insert(
                    issi,
                    group_changed(old(self).clients()[issi], gssi, do_attach),
                )
            },
            !old(self).clients().contains_key(issi) ==> r == Err::<bool, ClientMgrErr>(
                ClientMgrErr::ClientNotFound { issi: issi },
            ),
            old(self).wf() ==> final(self).wf(),
    {
        // Checks
        if !in_group_range(gssi) {
            return Err(ClientMgrErr::GssiInClientRange { gssi });
        };
        if !is_group(gssi) {
            return Err(ClientMgrErr::GroupNotFound { gssi });
        };
        if !may_attach(issi, gssi) {
            return Err(ClientMgrErr::GroupNotFound { gssi });
        };

        match self.clients.remove(&issi) {
            Some(mut client) => {
                let changed: bool = if do_attach {
                    // Send telemetry event
                    let mut gssis: Vec<u32> = Vec::new();
                    gssis.push(gssi);
                    assert(gssis@ =~= seq![gssi]);
                    let event = TelemetryEvent::MsGroupAttach { issi: client.issi, gssis };
                    proof {
                        lemma_sent_one(
                            old(self).telemetry(),
                            event,
                            |e: TelemetryEvent| e.is_group_attach(old(self).clients()[issi].issi, gssi),
                        );
                    }
                    self.report(event);
                    client.groups.insert(gssi)
                } else {
                    client.groups.remove(&gssi)
                };
                self.clients.insert(issi, client);
                assert(self.clients() =~= old(self).clients().insert(issi, client@));
                Ok(changed)
            },
            None => {
                assert(self.clients() =~= old(self).clients());
                Err(ClientMgrErr::ClientNotFound { issi })
            },
        }
    }

    /// Hands out the queued telemetry events, oldest first, and empties the outbox;
    /// without an outbox, nothing.
    pub fn take_telemetry_events(&mut self) -> (r: Vec<TelemetryEvent>)
        ensures
            final(self).clients() == old(self).clients(),
            match old(self).telemetry() {
                Some(q) => r@ == q && final(self).telemetry() == Some(Seq::<TelemetryEvent>::empty()),
                None => r@ == Seq::<TelemetryEvent>::empty() && final(self).telemetry() is None,
            },
    {
        match &mut self.telemetry_sink {
            Some(sink) => sink.take_events(),
            None => Vec::new(),
        }
    }
}

/// Registering a station again discards what the first registration left: two
/// registrations under one identity leave the registry as the second alone does, with
/// the station in no group.
pub proof fn lemma_register_replaces(m: Map<u32, ClientView>, issi: u32, first: bool, second: bool)
    ensures
        registered(registered(m, issi, first), issi, second) == registered(m, issi, second),
        registered(m, issi, second)[issi].groups == Set::<u32>::empty(),
{
    assert(registered(registered(m, issi, first), issi, second) =~= registered(m, issi, second));
}

/// A lookup after a registration finds the fresh record, and the other stations as
/// they were.
pub proof fn lemma_register_then_lookup(m: Map<u32, ClientView>, issi: u32, attached: bool, other: u32)
    requires
        other != issi,
    ensures
        registered(m, issi, attached).contains_key(issi),
        registered(m, issi, attached)[issi] == fresh_client(issi, registration_state(attached)),
        registered(m, issi, attached).contains_key(other) == m.contains_key(other),
        m.contains_key(other) ==> registered(m, issi, attached)[other] == m[other],
{
}

/// Removing a station just registered hands back the fresh record and leaves the
/// registry as removing it would have left it before the registration.
pub proof fn lemma_register_then_remove(m: Map<u32, ClientView>, issi: u32, attached: bool)
    ensures
        registered(m, issi, attached).contains_key(issi),
        registered(m, issi, attached)[issi] == fresh_client(issi, registration_state(attached)),
        registered(m, issi, attached).remove(issi) == m.remove(issi),
{
    assert(registered(m, issi, attached).remove(issi) =~= m.remove(issi));
}

/// Attaching to a group and then detaching from it reports both changes and leaves the
/// record as it was, where the station was not in the group before.
pub proof fn lemma_attach_then_detach(c: ClientView, gssi: u32)
    ensures
        group_change_result(group_changed(c, gssi, true), gssi, false),
        group_changed(group_changed(c, gssi, true), gssi, false) == group_changed(c, gssi, false),
        !c.groups.contains(gssi) ==> group_change_result(c, gssi, true)
            && group_changed(group_changed(c, gssi, true), gssi, false) == c,
{
    assert(c.groups.insert(gssi).remove(gssi) =~= c.groups.remove(gssi));
    if !c.groups.contains(gssi) {
        assert(c.groups.remove(gssi) =~= c.groups);
    }
}

/// Attaching twice to one group changes nothing the second time, and says so; the same
/// holds of detaching twice.
pub proof fn lemma_group_change_idempotent(c: ClientView, gssi: u32, do_attach: bool)
    ensures
        !group_change_result(group_changed(c, gssi, do_attach), gssi, do_attach),
        group_changed(group_changed(c, gssi, do_attach), gssi, do_attach) == group_changed(
            c,
            gssi,
            do_attach,
        ),
{
    assert(c.groups.insert(gssi).insert(gssi) =~= c.groups.insert(gssi));
    assert(c.groups.remove(gssi).remove(gssi) =~= c.groups.remove(gssi));
}

/// After all groups were detached, an attach leaves the station in that one group.
pub proof fn lemma_detach_all_then_attach(c: ClientView, gssi: u32)
    ensures
        group_change_result(with_groups(c, Set::<u32>::empty()), gssi, true),
        group_changed(with_groups(c, Set::<u32>::empty()), gssi, true).groups == set![gssi],
{
    assert(Set::<u32>::empty().insert(gssi) =~= set![gssi]);
}

/// A change of group membership touches nothing else of the record.
pub proof fn lemma_group_change_keeps_record(c: ClientView, gssi: u32, do_attach: bool)
    ensures
        group_changed(c, gssi, do_attach).issi == c.issi,
        group_changed(c, gssi, do_attach).state == c.state,
        group_changed(c, gssi, do_attach).energy_saving_mode == c.energy_saving_mode,
        group_changed(c, gssi, do_attach).class_of_ms == c.class_of_ms,
        group_changed(c, gssi, do_attach).groups.contains(gssi) == do_attach,
{
}

/// Until identity ranges and rights come from configuration, every identity is taken as
/// an individual one, every identity lies in the group range and is a known group, and
/// every station may attach to every group.
pub proof fn lemma_identity_checks_accept_all(issi: u32, gssi: u32)
    ensures
        spec_is_individual(issi),
        spec_in_group_range(gssi),
        spec_is_group(gssi),
        spec_may_attach(issi, gssi),
{
}

/// A registration leaves exactly one record under the identity: attached where the
/// station said so and otherwise of unknown state, in no group, staying alive, its class
/// of MS unknown.
pub proof fn lemma_registration_record(m: Map<u32, ClientView>, issi: u32, attached: bool)
    ensures
        registered(m, issi, attached).contains_key(issi),
        registered(m, issi, attached)[issi].issi == issi,
        attached ==> registered(m, issi, attached)[issi].state == MmClientState::Attached,
        !attached ==> registered(m, issi, attached)[issi].state == MmClientState::Unknown,
        registered(m, issi, attached)[issi].groups.is_empty(),
        registered(m, issi, attached)[issi].energy_saving_mode == EnergySavingMode::StayAlive,
        registered(m, issi, attached)[issi].class_of_ms is None,
        registered(m, issi, attached).dom() == m.dom().insert(issi),
{
    assert(registered(m, issi, attached).dom() =~= m.dom().insert(issi));
}

/// Attaching puts the station in the group and detaching takes it out, every other
/// membership stays as it was, and the answer tells whether the membership changed.
pub proof fn lemma_group_change_membership(c: ClientView, gssi: u32, do_attach: bool, other: u32)
    requires
        other != gssi,
    ensures
        group_changed(c, gssi, do_attach).groups.contains(gssi) == do_attach,
        group_changed(c, gssi, do_attach).groups.contains(other) == c.groups.contains(other),
        group_change_result(c, gssi, do_attach) == (c.groups.contains(gssi) != do_attach),
        group_change_result(c, gssi, do_attach) == (c.groups.contains(gssi)
            != group_changed(c, gssi, do_attach).groups.contains(gssi)),
{
}

} // verus!
