//! The registry of live channels and the steps that move a channel through
//! its life: opened, serving an exec request, attached to a process, removed.
use crate::cli::{parse_and_match_args, parsed_args, ContainerArgs, ContainerArgsView};
use crate::docker::{records, resolve_container_id, resolved_id, ContainerRecord};
use crate::error::{GatewayError, GatewayErrorView};
use crate::exec::{
    attached_start, exec_options, shell_options, ExecAction, ExecActionView, StartOptions,
    StartedProcess, LIST_ALL_CONTAINERS,
};
use std::collections::HashMap;
use vstd::prelude::*;

verus! {

broadcast use vstd::std_specs::hash::group_hash_axioms;

/// The two ends of an attached process: the stream that yields its output
/// and the sink that takes its input.
pub struct OutputInputPair<O, I> {
    pub output: O,
    pub input: I,
}

/// How far a channel has come.
pub enum Phase<O, I> {
    /// Registered; nothing was requested yet.
    Open,
    /// An exec request was read; the engine's containers are being listed.
    Resolving { args: ContainerArgs },
    /// A container was chosen; the process is being created in it.
    Creating,
    /// The process was created and is being started.
    Starting,
    /// The process runs and these are its streams.
    Attached { io: OutputInputPair<O, I> },
}

/// The mathematical value of a `Phase`.
pub enum PhaseView<O, I> {
    Open,
    Resolving { args: ContainerArgsView },
    Creating,
    Starting,
    Attached { io: OutputInputPair<O, I> },
}

impl<O, I> View for Phase<O, I> {
    type V = PhaseView<O, I>;

    open spec fn view(&self) -> PhaseView<O, I> {
        match self {
            Phase::Open => PhaseView::Open,
            Phase::Resolving { args } => PhaseView::Resolving { args: args@ },
            Phase::Creating => PhaseView::Creating,
            Phase::Starting => PhaseView::Starting,
            Phase::Attached { io } => PhaseView::Attached { io: *io },
        }
    }
}

/// One channel's entry in the registry: the handle that sends data back
/// over the channel, and how far the channel has come.
pub struct Client<H, O, I> {
    pub session_handle: H,
    pub phase: Phase<O, I>,
}

/// The mathematical value of a `Client`.
pub struct ClientView<H, O, I> {
    pub session_handle: H,
    pub phase: PhaseView<O, I>,
}

impl<H, O, I> View for Client<H, O, I> {
    type V = ClientView<H, O, I>;

    open spec fn view(&self) -> ClientView<H, O, I> {
        ClientView { session_handle: self.session_handle, phase: self.phase@ }
    }
}

impl<H, O, I> ClientView<H, O, I> {
    /// The streams of the attached process, once there is one.
    pub open spec fn io(self) -> Option<OutputInputPair<O, I>> {
        match self.phase {
            PhaseView::Attached { io } => Some(io),
            _ => None,
        }
    }
}

/// The states of a channel's life.
#[derive(Clone, Copy, Debug, PartialEq, Eq, Structural)]
pub enum ChannelState {
    /// Not in the registry: never opened, or removed.
    Closed,
    /// Registered, without a process.
    Open,
    /// An exec request is being served.
    Attaching,
    /// Bound to a running process.
    Attached,
}

/// The registry as a map from (connection, channel) to the channel's entry.
pub type Registry<H, O, I> = Map<(usize, u32), ClientView<H, O, I>>;

/// The state of the channel `client_id` in a registry.
pub open spec fn channel_state<H, O, I>(
    registry: Registry<H, O, I>,
    client_id: (usize, u32),
) -> ChannelState {
    if !registry.contains_key(client_id) {
        ChannelState::Closed
    } else {
        match registry[client_id].phase {
            PhaseView::Open => ChannelState::Open,
            PhaseView::Attached { .. } => ChannelState::Attached,
            _ => ChannelState::Attaching,
        }
    }
}

/// The registry with the entry of `client_id` moved to `phase`.
pub open spec fn with_phase<H, O, I>(
    registry: Registry<H, O, I>,
    client_id: (usize, u32),
    phase: PhaseView<O, I>,
) -> Registry<H, O, I> {
    registry.insert(
        client_id,
        ClientView { session_handle: registry[client_id].session_handle, phase },
    )
}

/// The gateway's state: the registry of live channels and the identifier
/// that the next connection gets.
pub struct Server<H, O, I> {
    clients: HashMap<u128, Client<H, O, I>>,
    id: usize,
}

/// The slot of the hash table that holds the entry of `client_id`.
pub closed spec fn slot(client_id: (usize, u32)) -> u128 {
    (client_id.0 as int * 0x1_0000_0000 + client_id.1 as int) as u128
}

proof fn lemma_slot_injective(a: (usize, u32), b: (usize, u32))
    requires
        slot(a) == slot(b),
    ensures
        a == b,
{
}

fn slot_of(client_id: (usize, u32)) -> (s: u128)
    ensures
        s == slot(client_id),
{
    let conn: u128 = client_id.0 as u128;
    let channel: u128 = client_id.1 as u128;
    conn * 0x1_0000_0000u128 + channel
}

impl<H, O, I> View for Server<H, O, I> {
    type V = Registry<H, O, I>;

    closed spec fn view(&self) -> Registry<H, O, I> {
        Map::new(
            |client_id: (usize, u32)| self.clients@.contains_key(slot(client_id)),
            |client_id: (usize, u32)| self.clients@[slot(client_id)]@,
        )
    }
}

impl<H, O, I> Server<H, O, I> {
    /// The identifier that the next connection gets.
    pub closed spec fn next_id(&self) -> usize {
        self.id
    }

    /// A gateway without channels, whose first connection gets the identifier 0.
    pub fn new() -> (server: Self)
        ensures
            server@ == Map::<(usize, u32), ClientView<H, O, I>>::empty(),
            server.next_id() == 0,
    {
        let server = Server { clients: HashMap::new(), id: 0 };
        assert(server@ =~= Map::<(usize, u32), ClientView<H, O, I>>::empty());
        server
    }

    /// Takes the entry of `client_id` out of the registry, if it has one.
    fn take(&mut self, client_id: (usize, u32)) -> (entry: Option<Client<H, O, I>>)
        ensures
            final(self)@ == old(self)@.remove(client_id),
            final(self).next_id() == old(self).next_id(),
            match entry {
                Some(client) => old(self)@.contains_key(client_id) && old(self)@[client_id]
                    == client@,
                None => !old(self)@.contains_key(client_id),
            },
    {
        let s = slot_of(client_id);
        let entry = self.clients.remove(&s);
        proof {
            assert forall|other: (usize, u32)| other != client_id implies slot(other) != s by {
                if slot(other) == s {
                    lemma_slot_injective(other, client_id);
                }
            }
            assert(self@ =~= old(self)@.remove(client_id));
        }
        entry
    }

    /// Puts `client` into the registry as the entry of `client_id`.
    fn put(&mut self, client_id: (usize, u32), client: Client<H, O, I>)
        ensures
            final(self)@ == old(self)@.insert(client_id, client@),
            final(self).next_id() == old(self).next_id(),
    {
        let s = slot_of(client_id);
        self.clients.insert(s, client);
        proof {
            assert forall|other: (usize, u32)| other != client_id implies slot(other) != s by {
                if slot(other) == s {
                    lemma_slot_injective(other, client_id);
                }
            }
            assert(self@ =~= old(self)@.insert(client_id, client@));
        }
    }

    /// Hands out the identifier of a new connection and moves on to the next.
    pub fn new_client(&mut self) -> (id: usize)
        requires
            old(self).next_id() < usize::MAX,
        ensures
            id == old(self).next_id(),
            final(self).next_id() == id + 1,
            final(self)@ == old(self)@,
    {
        let id = self.id;
        self.id = self.id + 1;
        id
    }

    /// Registers a channel that was opened, with the handle that sends data
    /// back over it. The channel starts out `Open`; an earlier entry under
    /// the same key is replaced. Opening is always accepted.
    pub fn channel_open_session(&mut self, client_id: (usize, u32), session_handle: H) -> (accepted:
        bool)
        ensures
            accepted,
            final(self)@ == old(self)@.insert(
                client_id,
                ClientView { session_handle, phase: PhaseView::Open },
            ),
            final(self).next_id() == old(self).next_id(),
    {
        self.put(client_id, Client { session_handle, phase: Phase::Open });
        true
    }

    /// Drops the entry of `client_id`, and with it the process's streams.
    /// Says whether there was an entry. Every other entry stays as it is.
    pub fn remove(&mut self, client_id: (usize, u32)) -> (removed: bool)
        ensures
            removed == old(self)@.contains_key(client_id),
            final(self)@ == old(self)@.remove(client_id),
            final(self).next_id() == old(self).next_id(),
    {
        self.take(client_id).is_some()
    }
}

/// What becomes of the bytes that arrive on a channel.
pub enum Inbound<'a, I> {
    /// Write `bytes` to `sink`, the input of the channel's process.
    Forward { sink: &'a I, bytes: &'a [u8] },
    /// The channel has no process: the bytes are dropped, silently.
    Discard,
}

impl<'a, I> Inbound<'a, I> {
    /// The bytes that this decision brings to the process's input.
    pub open spec fn written(self) -> Seq<u8> {
        match self {
            Inbound::Forward { bytes, .. } => bytes@,
            Inbound::Discard => Seq::<u8>::empty(),
        }
    }
}

/// The reply to a refusal that leaves everything as it was.
pub open spec fn refused<H, O, I>(
    before: Registry<H, O, I>,
    after: Registry<H, O, I>,
    action: ExecActionView,
) -> bool {
    &&& after == before
    &&& action == ExecActionView::Reject(GatewayErrorView::ProtocolMisuse)
}

/// The reply to a failure of the engine: the channel is `Open` again and the
/// request is rejected with the engine's own words.
pub open spec fn engine_failed<H, O, I>(
    before: Registry<H, O, I>,
    client_id: (usize, u32),
    after: Registry<H, O, I>,
    action: ExecActionView,
    text: Seq<char>,
) -> bool {
    &&& after == with_phase(before, client_id, PhaseView::Open)
    &&& action == ExecActionView::Reject(GatewayErrorView::EngineError(text))
}

impl<H, O, I> Server<H, O, I> {
    /// Moves the entry of `client_id` to `phase`.
    fn set_phase(&mut self, client_id: (usize, u32), phase: Phase<O, I>)
        requires
            old(self)@.contains_key(client_id),
        ensures
            final(self)@ == with_phase(old(self)@, client_id, phase@),
            final(self).next_id() == old(self).next_id(),
    {
        match self.take(client_id) {
            Some(client) => {
                self.put(client_id, Client { session_handle: client.session_handle, phase });
                assert(self@ =~= with_phase(old(self)@, client_id, phase@));
            },
            None => {},
        }
    }

    /// Takes up an exec request on a channel. Only an `Open` channel takes
    /// one: any other is refused as misuse and stays as it is. A payload
    /// that is no request is rejected and the channel stays `Open`.
    /// Otherwise the channel remembers the request and asks for the
    /// engine's containers, stopped ones included.
    pub fn exec_request(&mut self, client_id: (usize, u32), data: &[u8]) -> (action: ExecAction)
        ensures
            final(self).next_id() == old(self).next_id(),
            match (channel_state(old(self)@, client_id), parsed_args(data@)) {
                (ChannelState::Open, Some(args)) => {
                    &&& final(self)@ == with_phase(
                        old(self)@,
                        client_id,
                        PhaseView::Resolving { args },
                    )
                    &&& action@ == ExecActionView::ListContainers { all: LIST_ALL_CONTAINERS }
                },
                (ChannelState::Open, None) => {
                    &&& final(self)@ == old(self)@
                    &&& action@ == ExecActionView::Reject(GatewayErrorView::InvalidArguments)
                },
                _ => refused(old(self)@, final(self)@, action@),
            },
    {
        match self.take(client_id) {
            None => {
                assert(self@ =~= old(self)@);
                ExecAction::Reject(GatewayError::ProtocolMisuse)
            },
            Some(client) => {
                let Client { session_handle, phase } = client;
                match phase {
                    Phase::Open => match parse_and_match_args(data) {
                        Some(args) => {
                            self.put(
                                client_id,
                                Client { session_handle, phase: Phase::Resolving { args } },
                            );
                            assert(self@ =~= with_phase(
                                old(self)@,
                                client_id,
                                PhaseView::Resolving { args: args@ },
                            ));
                            ExecAction::ListContainers { all: LIST_ALL_CONTAINERS }
                        },
                        None => {
                            self.put(client_id, Client { session_handle, phase: Phase::Open });
                            assert(self@ =~= old(self)@);
                            ExecAction::Reject(GatewayError::InvalidArguments)
                        },
                    },
                    other => {
                        self.put(client_id, Client { session_handle, phase: other });
                        assert(self@ =~= old(self)@);
                        ExecAction::Reject(GatewayError::ProtocolMisuse)
                    },
                }
            },
        }
    }

    /// The first step of a launch: asks the engine to create the
    /// interactive process for `args` in the container `container_id`.
    pub fn create_and_start_exec(args: &ContainerArgs, container_id: String) -> (action: ExecAction)
        ensures
            action@ == (ExecActionView::CreateExec {
                container_id: container_id@,
                options: shell_options(args@),
            }),
    {
        ExecAction::CreateExec { container_id, options: exec_options(args) }
    }

    /// Takes the engine's answer to the listing. On a channel that waits
    /// for it, a failed listing or a request that resolves to no container
    /// rejects the request and leaves the channel `Open`; a resolved request
    /// goes on to create the process. A channel that does not wait for a
    /// listing refuses the answer as misuse.
    pub fn containers_listed(
        &mut self,
        client_id: (usize, u32),
        listing: Result<Vec<ContainerRecord>, String>,
    ) -> (action: ExecAction)
        ensures
            final(self).next_id() == old(self).next_id(),
            match channel_phase(old(self)@, client_id) {
                Some(PhaseView::Resolving { args }) => match listing {
                    Err(text) => engine_failed(
                        old(self)@,
                        client_id,
                        final(self)@,
                        action@,
                        text@,
                    ),
                    Ok(list) => match resolved_id(records(list@), args) {
                        Ok(id) => {
                            &&& final(self)@ == with_phase(
                                old(self)@,
                                client_id,
                                PhaseView::Creating,
                            )
                            &&& action@ == (ExecActionView::CreateExec {
                                container_id: id,
                                options: shell_options(args),
                            })
                        },
                        Err(e) => {
                            &&& final(self)@ == with_phase(old(self)@, client_id, PhaseView::Open)
                            &&& action@ == ExecActionView::Reject(e)
                        },
                    },
                },
                _ => refused(old(self)@, final(self)@, action@),
            },
    {
        match self.take(client_id) {
            None => {
                assert(self@ =~= old(self)@);
                ExecAction::Reject(GatewayError::ProtocolMisuse)
            },
            Some(client) => {
                let Client { session_handle, phase } = client;
                match phase {
                    Phase::Resolving { args } => {
                        let outcome = match listing {
                            Ok(list) => resolve_container_id(&list, &args),
                            Err(text) => Err(GatewayError::EngineError(text)),
                        };
                        match outcome {
                            Ok(id) => {
                                self.put(client_id, Client { session_handle, phase: Phase::Creating });
                                assert(self@ =~= with_phase(
                                    old(self)@,
                                    client_id,
                                    PhaseView::Creating,
                                ));
                                Self::create_and_start_exec(&args, id)
                            },
                            Err(e) => {
                                self.put(client_id, Client { session_handle, phase: Phase::Open });
                                assert(self@ =~= with_phase(
                                    old(self)@,
                                    client_id,
                                    PhaseView::Open,
                                ));
                                ExecAction::Reject(e)
                            },
                        }
                    },
                    other => {
                        self.put(client_id, Client { session_handle, phase: other });
                        assert(self@ =~= old(self)@);
                        ExecAction::Reject(GatewayError::ProtocolMisuse)
                    },
                }
            },
        }
    }

    /// Takes the engine's answer to the creation of the process. On a
    /// channel that waits for it, a failure rejects the request and leaves
    /// the channel `Open`; a created process is started, attached. A channel
    /// that does not wait for it refuses the answer as misuse.
    pub fn exec_created(&mut self, client_id: (usize, u32), created: Result<String, String>) -> (action:
        ExecAction)
        ensures
            final(self).next_id() == old(self).next_id(),
            match channel_phase(old(self)@, client_id) {
                Some(PhaseView::Creating) => match created {
                    Err(text) => engine_failed(
                        old(self)@,
                        client_id,
                        final(self)@,
                        action@,
                        text@,
                    ),
                    Ok(exec_id) => {
                        &&& final(self)@ == with_phase(old(self)@, client_id, PhaseView::Starting)
                        &&& action@ == (ExecActionView::StartExec {
                            exec_id: exec_id@,
                            start_options: attached_start(),
                        })
                    },
                },
                _ => refused(old(self)@, final(self)@, action@),
            },
    {
        if !self.is_in(client_id, ChannelStep::Creating) {
            return ExecAction::Reject(GatewayError::ProtocolMisuse);
        }
        match created {
            Ok(exec_id) => {
                self.set_phase(client_id, Phase::Starting);
                ExecAction::StartExec { exec_id, start_options: StartOptions { detach: false } }
            },
            Err(text) => {
                self.set_phase(client_id, Phase::Open);
                ExecAction::Reject(GatewayError::EngineError(text))
            },
        }
    }

    /// Takes the engine's answer to the start of the process. On a channel
    /// that waits for it, a failure rejects the request and leaves the
    /// channel `Open`; a started process is handed to `handle_output`. A
    /// channel that does not wait for it refuses the answer as misuse.
    pub fn exec_started(
        &mut self,
        client_id: (usize, u32),
        started: Result<StartedProcess<O, I>, String>,
    ) -> (action: ExecAction)
        ensures
            final(self).next_id() == old(self).next_id(),
            match channel_phase(old(self)@, client_id) {
                Some(PhaseView::Starting) => match started {
                    Err(text) => engine_failed(
                        old(self)@,
                        client_id,
                        final(self)@,
                        action@,
                        text@,
                    ),
                    Ok(process) => handed_over(old(self)@, client_id, process, final(self)@, action@),
                },
                _ => refused(old(self)@, final(self)@, action@),
            },
    {
        if !self.is_in(client_id, ChannelStep::Starting) {
            return ExecAction::Reject(GatewayError::ProtocolMisuse);
        }
        match started {
            Ok(process) => self.handle_output(client_id, process),
            Err(text) => {
                self.set_phase(client_id, Phase::Open);
                ExecAction::Reject(GatewayError::EngineError(text))
            },
        }
    }

    /// Takes a started process. One that runs attached is bound to the
    /// channel by `link_io`, and the request is accepted with a bridge to
    /// run, or rejected where `link_io` refuses. One that runs detached
    /// has no streams: the channel, if it has an entry without a process, is
    /// `Open` again and the request is accepted without a bridge.
    pub fn handle_output(&mut self, client_id: (usize, u32), process: StartedProcess<O, I>) -> (action:
        ExecAction)
        ensures
            final(self).next_id() == old(self).next_id(),
            handed_over(old(self)@, client_id, process, final(self)@, action@),
    {
        match process {
            StartedProcess::Attached { output, input } => {
                match self.link_io(client_id, input, output) {
                    Ok(()) => ExecAction::Accept { bridge: true },
                    Err(e) => ExecAction::Reject(e),
                }
            },
            StartedProcess::Detached => {
                if self.is_in(client_id, ChannelStep::Unattached) {
                    self.set_phase(client_id, Phase::Open);
                }
                ExecAction::Accept { bridge: false }
            },
        }
    }

    /// Binds the streams of a process to a channel. The channel must have an
    /// entry, and no process yet: else nothing changes and the attempt is
    /// refused as misuse. No other channel's entry is touched.
    pub fn link_io(&mut self, client_id: (usize, u32), input: I, output: O) -> (linked: Result<
        (),
        GatewayError,
    >)
        ensures
            final(self).next_id() == old(self).next_id(),
            match linked {
                Ok(()) => {
                    &&& can_attach(old(self)@, client_id)
                    &&& final(self)@ == with_phase(
                        old(self)@,
                        client_id,
                        PhaseView::Attached { io: OutputInputPair { output, input } },
                    )
                },
                Err(e) => {
                    &&& !can_attach(old(self)@, client_id)
                    &&& final(self)@ == old(self)@
                    &&& e@ == GatewayErrorView::ProtocolMisuse
                },
            },
    {
        if !self.is_in(client_id, ChannelStep::Unattached) {
            return Err(GatewayError::ProtocolMisuse);
        }
        self.set_phase(client_id, Phase::Attached { io: OutputInputPair { output, input } });
        Ok(())
    }

    /// Decides what becomes of bytes that arrive on a channel. Without an
    /// entry the event is misuse. With a process, the bytes go to its input,
    /// unchanged. Without one they are dropped. The registry is only read.
    pub fn data<'a>(&'a self, client_id: (usize, u32), data: &'a [u8]) -> (inbound: Result<
        Inbound<'a, I>,
        GatewayError,
    >)
        ensures
            match channel_phase(self@, client_id) {
                None => inbound matches Err(e) && e@ == GatewayErrorView::ProtocolMisuse,
                Some(PhaseView::Attached { io }) => inbound matches Ok(
                    Inbound::Forward { sink, bytes },
                ) && *sink == io.input && bytes@ == data@,
                Some(_) => inbound matches Ok(Inbound::Discard),
            },
            inbound matches Ok(decision) ==> decision.written() == delivered(
                self@,
                client_id,
                data@,
            ),
    {
        let s = slot_of(client_id);
        match self.clients.get(&s) {
            None => Err(GatewayError::ProtocolMisuse),
            Some(client) => match &client.phase {
                Phase::Attached { io } => Ok(Inbound::Forward { sink: &io.input, bytes: data }),
                _ => Ok(Inbound::Discard),
            },
        }
    }

    /// The state of the channel `client_id`.
    pub fn state(&self, client_id: (usize, u32)) -> (state: ChannelState)
        ensures
            state == channel_state(self@, client_id),
    {
        let s = slot_of(client_id);
        match self.clients.get(&s) {
            None => ChannelState::Closed,
            Some(client) => match &client.phase {
                Phase::Open => ChannelState::Open,
                Phase::Attached { .. } => ChannelState::Attached,
                _ => ChannelState::Attaching,
            },
        }
    }

    /// The handle that sends data back over the channel `client_id`, if it has an entry.
    pub fn session_handle(&self, client_id: (usize, u32)) -> (handle: Option<&H>)
        ensures
            match handle {
                Some(h) => self@.contains_key(client_id) && self@[client_id].session_handle == *h,
                None => !self@.contains_key(client_id),
            },
    {
        let s = slot_of(client_id);
        match self.clients.get(&s) {
            None => None,
            Some(client) => Some(&client.session_handle),
        }
    }

    /// The identifier that the next connection gets.
    pub fn id(&self) -> (id: usize)
        ensures
            id == self.next_id(),
    {
        self.id
    }

    /// Whether the channel `client_id` stands at `step`.
    fn is_in(&self, client_id: (usize, u32), step: ChannelStep) -> (yes: bool)
        ensures
            yes == match channel_phase(self@, client_id) {
                None => false,
                Some(phase) => match step {
                    ChannelStep::Creating => phase is Creating,
                    ChannelStep::Starting => phase is Starting,
                    ChannelStep::Unattached => !(phase is Attached),
                },
            },
    {
        let s = slot_of(client_id);
        match self.clients.get(&s) {
            None => false,
            Some(client) => match (&client.phase, step) {
                (Phase::Creating, ChannelStep::Creating) => true,
                (Phase::Starting, ChannelStep::Starting) => true,
                (Phase::Attached { .. }, ChannelStep::Unattached) => false,
                (_, ChannelStep::Unattached) => true,
                _ => false,
            },
        }
    }
}

/// A question about where a channel stands.
enum ChannelStep {
    Creating,
    Starting,
    Unattached,
}

/// The phase of the channel `client_id`, if the registry has an entry for it.
pub open spec fn channel_phase<H, O, I>(
    registry: Registry<H, O, I>,
    client_id: (usize, u32),
) -> Option<PhaseView<O, I>> {
    if registry.contains_key(client_id) {
        Some(registry[client_id].phase)
    } else {
        None
    }
}

/// Whether a process can be bound to the channel: it has an entry, and the
/// entry holds no process yet.
pub open spec fn can_attach<H, O, I>(registry: Registry<H, O, I>, client_id: (usize, u32)) -> bool {
    registry.contains_key(client_id) && !(registry[client_id].phase is Attached)
}

/// What handing a started process to a channel does to the registry, and
/// the reply to the exec request.
pub open spec fn handed_over<H, O, I>(
    before: Registry<H, O, I>,
    client_id: (usize, u32),
    process: StartedProcess<O, I>,
    after: Registry<H, O, I>,
    action: ExecActionView,
) -> bool {
    match process {
        StartedProcess::Attached { output, input } => if can_attach(before, client_id) {
            &&& after == with_phase(
                before,
                client_id,
                PhaseView::Attached { io: OutputInputPair { output, input } },
            )
            &&& action == ExecActionView::Accept { bridge: true }
        } else {
            refused(before, after, action)
        },
        StartedProcess::Detached => {
            &&& after == if can_attach(before, client_id) {
                with_phase(before, client_id, PhaseView::Open)
            } else {
                before
            }
            &&& action == ExecActionView::Accept { bridge: false }
        },
    }
}

/// The bytes that one arrival of `data` on the channel brings to the input
/// of its process: all of them where a process is attached, none otherwise.
pub open spec fn delivered<H, O, I>(
    registry: Registry<H, O, I>,
    client_id: (usize, u32),
    data: Seq<u8>,
) -> Seq<u8> {
    if channel_state(registry, client_id) == ChannelState::Attached {
        data
    } else {
        Seq::<u8>::empty()
    }
}

/// The bytes that reach the input of the channel's process when `chunks`
/// arrive on the channel one after another.
pub open spec fn delivered_in_all<H, O, I>(
    registry: Registry<H, O, I>,
    client_id: (usize, u32),
    chunks: Seq<Seq<u8>>,
) -> Seq<u8>
    decreases chunks.len(),
{
    if chunks.len() == 0 {
        Seq::<u8>::empty()
    } else {
        delivered_in_all(registry, client_id, chunks.drop_last()) + delivered(
            registry,
            client_id,
            chunks.last(),
        )
    }
}

/// What arrives on an attached channel reaches the input of its process
/// whole, unchanged and in the order of arrival.
pub proof fn lemma_inbound_round_trip<H, O, I>(
    registry: Registry<H, O, I>,
    client_id: (usize, u32),
    chunks: Seq<Seq<u8>>,
)
    requires
        channel_state(registry, client_id) == ChannelState::Attached,
    ensures
        delivered_in_all(registry, client_id, chunks) == chunks.flatten(),
    decreases chunks.len(),
{
    chunks.lemma_flatten_and_flatten_alt_are_equivalent();
    if chunks.len() > 0 {
        lemma_inbound_round_trip(registry, client_id, chunks.drop_last());
        chunks.drop_last().lemma_flatten_and_flatten_alt_are_equivalent();
    }
}

/// What arrives on a channel without a process reaches nothing.
pub proof fn lemma_inbound_dropped_unattached<H, O, I>(
    registry: Registry<H, O, I>,
    client_id: (usize, u32),
    chunks: Seq<Seq<u8>>,
)
    requires
        channel_state(registry, client_id) != ChannelState::Attached,
    ensures
        delivered_in_all(registry, client_id, chunks) == Seq::<u8>::empty(),
    decreases chunks.len(),
{
    if chunks.len() > 0 {
        lemma_inbound_dropped_unattached(registry, client_id, chunks.drop_last());
    }
}

/// Removing a channel a second time changes nothing, and removing it at
/// all leaves every other channel's entry as it was.
pub proof fn lemma_remove_idempotent<H, O, I>(registry: Registry<H, O, I>, client_id: (usize, u32))
    ensures
        registry.remove(client_id).remove(client_id) == registry.remove(client_id),
        channel_state(registry.remove(client_id), client_id) == ChannelState::Closed,
        forall|other: (usize, u32)|
            other != client_id ==> {
                &&& #[trigger] registry.remove(client_id).contains_key(other)
                    == registry.contains_key(other)
                &&& registry.contains_key(other) ==> registry.remove(client_id)[other]
                    == registry[other]
            },
{
    assert(registry.remove(client_id).remove(client_id) =~= registry.remove(client_id));
}

/// A step that moves one channel to another phase leaves every other
/// channel's entry as it was, and keeps the channel's own handle.
pub proof fn lemma_with_phase_is_local<H, O, I>(
    registry: Registry<H, O, I>,
    client_id: (usize, u32),
    phase: PhaseView<O, I>,
)
    ensures
        with_phase(registry, client_id, phase)[client_id].session_handle
            == registry[client_id].session_handle,
        with_phase(registry, client_id, phase)[client_id].phase == phase,
        forall|other: (usize, u32)|
            other != client_id ==> {
                &&& #[trigger] with_phase(registry, client_id, phase).contains_key(other)
                    == registry.contains_key(other)
                &&& registry.contains_key(other) ==> with_phase(registry, client_id, phase)[other]
                    == registry[other]
            },
{
}

/// What the supervisor does when the server loop has come to an end.
#[derive(Clone, Copy, Debug, PartialEq, Eq, Structural)]
pub enum Supervision {
    /// Run the server loop again, at once.
    Restart,
    /// Leave: the loop ended of its own accord.
    Exit,
}

/// Decides what follows the end of the server loop: a loop that ended with
/// an error is run again, one that ended cleanly ends the gateway.
pub fn after_server_loop(outcome: &Result<(), String>) -> (next: Supervision)
    ensures
        next == if outcome is Err {
            Supervision::Restart
        } else {
            Supervision::Exit
        },
{
    match outcome {
        Err(_) => Supervision::Restart,
        Ok(_) => Supervision::Exit,
    }
}

} // verus!
