//! Per-role synchronization engines.
//!
//! Each peer runs an event loop that multiplexes local occurrences and
//! inbound datagrams. The loop body never simulates or renders: it only moves
//! typed messages between the wire and the handoff channels. The decision
//! each loop iteration takes is captured here as a step function from one
//! observed event to the datagram to put on the wire, if any, together with
//! the handoff and counter updates; the surrounding tasks perform the actual
//! socket and timer waits and feed every outcome back in as the next event.
//!
//! Per-message failures are recovered locally: a datagram that does not
//! decode is dropped and counted, never escalated, so a corrupted or foreign
//! datagram on the bound port cannot take the peer down.

use vstd::prelude::*;
use crate::channel::{Handoff, spec_handoff_send};
use crate::codec::{
    GameData, UserCommand, spec_decode_command, spec_decode_game_data, spec_encode_command,
    spec_encode_game_data,
};

verus! {

/// A counter bumped once per observed occurrence; sticks at its ceiling
/// rather than wrapping.
pub open spec fn spec_bump(c: u64) -> u64 {
    if c == u64::MAX {
        c
    } else {
        (c + 1) as u64
    }
}

fn bump(c: u64) -> (r: u64)
    ensures
        r == spec_bump(c),
{
    if c == u64::MAX {
        c
    } else {
        c + 1
    }
}

/// One occurrence the input peer's loop can observe: a locally polled command
/// or an inbound datagram.
pub enum InputPeerEvent {
    LocalCommand(UserCommand),
    Inbound(Vec<u8>),
}

/// The input-producing peer's synchronization engine: forwards local commands
/// to the wire and inbound snapshots to the presentation collaborator.
pub struct InputPeer {
    /// Handoff of decoded snapshots toward the presentation collaborator.
    pub to_presentation: Handoff<GameData>,
    /// Commands encoded and handed to the transport so far.
    pub commands_sent: u64,
    /// Snapshots decoded and handed to the presentation collaborator so far.
    pub snapshots_delivered: u64,
    /// Inbound datagrams dropped because they decoded to no snapshot.
    pub malformed_dropped: u64,
}

impl InputPeer {
    pub open spec fn wf(&self) -> bool {
        self.to_presentation.wf()
    }

    pub fn new(capacity: usize) -> (r: Self)
        requires
            capacity >= 1,
        ensures
            r.wf(),
            r.to_presentation@ == Seq::<GameData>::empty(),
            r.to_presentation.spec_capacity() == capacity,
            r.commands_sent == 0,
            r.snapshots_delivered == 0,
            r.malformed_dropped == 0,
    {
        InputPeer {
            to_presentation: Handoff::new(capacity),
            commands_sent: 0,
            snapshots_delivered: 0,
            malformed_dropped: 0,
        }
    }

    /// One iteration of the input-peer loop: reacts to a single event and
    /// returns the datagram to send, if the event calls for one.
    ///
    /// An `Up` or `Down` command is encoded and emitted at once; an `Idle`
    /// command is a local-only signal and produces no network traffic. An
    /// inbound datagram that decodes to a snapshot is handed toward the
    /// presentation collaborator; one that does not is dropped and counted.
    pub fn step(&mut self, event: InputPeerEvent) -> (out: Option<Vec<u8>>)
        requires
            old(self).wf(),
        ensures
            final(self).wf(),
            final(self).to_presentation.spec_capacity() == old(self).to_presentation.spec_capacity(),
            (match event {
                InputPeerEvent::LocalCommand(c) => {
                    &&& (c matches UserCommand::Idle ==> {
                        &&& out is None
                        &&& final(self).to_presentation@ == old(self).to_presentation@
                        &&& final(self).commands_sent == old(self).commands_sent
                    })
                    &&& (!(c matches UserCommand::Idle) ==> {
                        &&& (out matches Option::Some(d) && d@ == spec_encode_command(c))
                        &&& final(self).to_presentation@ == old(self).to_presentation@
                        &&& final(self).commands_sent == spec_bump(old(self).commands_sent)
                    })
                    &&& final(self).snapshots_delivered == old(self).snapshots_delivered
                    &&& final(self).malformed_dropped == old(self).malformed_dropped
                },
                InputPeerEvent::Inbound(bytes) => {
                    &&& out is None
                    &&& final(self).commands_sent == old(self).commands_sent
                    &&& (match spec_decode_game_data(bytes@) {
                        Option::Some(g) => {
                            &&& final(self).to_presentation@ == spec_handoff_send(
                                old(self).to_presentation@,
                                old(self).to_presentation.spec_capacity(),
                                g,
                            )
                            &&& final(self).snapshots_delivered == spec_bump(
                                old(self).snapshots_delivered,
                            )
                            &&& final(self).malformed_dropped == old(self).malformed_dropped
                        },
                        Option::None => {
                            &&& final(self).to_presentation@ == old(self).to_presentation@
                            &&& final(self).snapshots_delivered == old(self).snapshots_delivered
                            &&& final(self).malformed_dropped == spec_bump(
                                old(self).malformed_dropped,
                            )
                        },
                    })
                },
            }),
    {
        match event {
            InputPeerEvent::LocalCommand(c) => {
                match c {
                    UserCommand::Idle => Option::None,
                    _ => {
                        self.commands_sent = bump(self.commands_sent);
                        Option::Some(c.encode())
                    },
                }
            },
            InputPeerEvent::Inbound(bytes) => {
                match GameData::decode(bytes.as_slice()) {
                    Ok(g) => {
                        self.to_presentation.send(g);
                        self.snapshots_delivered = bump(self.snapshots_delivered);
                    },
                    Err(_) => {
                        self.malformed_dropped = bump(self.malformed_dropped);
                    },
                }
                Option::None
            },
        }
    }
}

/// The datagrams the input peer puts on the wire while observing `events` in
/// order: one encoded command per `Up` or `Down`, nothing for anything else.
pub open spec fn spec_emitted_commands(events: Seq<InputPeerEvent>) -> Seq<Seq<u8>>
    decreases events.len(),
{
    if events.len() == 0 {
        Seq::empty()
    } else {
        let prev = spec_emitted_commands(events.drop_last());
        match events.last() {
            InputPeerEvent::LocalCommand(c) => match c {
                UserCommand::Idle => prev,
                UserCommand::Up => prev.push(spec_encode_command(c)),
                UserCommand::Down => prev.push(spec_encode_command(c)),
            },
            InputPeerEvent::Inbound(_) => prev,
        }
    }
}

/// The snapshot handoff the input peer leaves behind after observing
/// `events` in order, starting from queue `s0` with capacity `cap`: one
/// bounded send per inbound datagram that decodes to a snapshot.
pub open spec fn spec_delivered_snapshots(
    s0: Seq<GameData>,
    cap: nat,
    events: Seq<InputPeerEvent>,
) -> Seq<GameData>
    decreases events.len(),
{
    if events.len() == 0 {
        s0
    } else {
        let prev = spec_delivered_snapshots(s0, cap, events.drop_last());
        match events.last() {
            InputPeerEvent::LocalCommand(_) => prev,
            InputPeerEvent::Inbound(bytes) => match spec_decode_game_data(bytes@) {
                Option::Some(g) => spec_handoff_send(prev, cap, g),
                Option::None => prev,
            },
        }
    }
}

impl InputPeer {
    /// Runs the loop body over a whole sequence of observed events, gathering
    /// the datagrams to send in order: exactly one per `Up` or `Down` command
    /// observed, none for idle polls or inbound datagrams, however the two
    /// event kinds interleave. Every inbound snapshot ends up handed toward
    /// the presentation collaborator, through the bounded handoff.
    pub fn run(&mut self, events: Vec<InputPeerEvent>) -> (outs: Vec<Vec<u8>>)
        requires
            old(self).wf(),
        ensures
            final(self).wf(),
            final(self).to_presentation.spec_capacity() == old(self).to_presentation.spec_capacity(),
            outs@.map_values(|d: Vec<u8>| d@) == spec_emitted_commands(events@),
            final(self).to_presentation@ == spec_delivered_snapshots(
                old(self).to_presentation@,
                old(self).to_presentation.spec_capacity(),
                events@,
            ),
    {
        let mut evs = events;
        let mut outs: Vec<Vec<u8>> = Vec::new();
        let ghost mut processed: Seq<InputPeerEvent> = Seq::empty();
        proof {
            assert(processed + evs@ =~= events@);
        }
        while evs.len() > 0
            invariant
                self.wf(),
                self.to_presentation.spec_capacity() == old(self).to_presentation.spec_capacity(),
                processed + evs@ == events@,
                outs@.map_values(|d: Vec<u8>| d@) == spec_emitted_commands(processed),
                self.to_presentation@ == spec_delivered_snapshots(
                    old(self).to_presentation@,
                    old(self).to_presentation.spec_capacity(),
                    processed,
                ),
            decreases evs@.len(),
        {
            let ev = evs.remove(0);
            let ghost gev = ev;
            let out = self.step(ev);
            match out {
                Option::Some(d) => outs.push(d),
                Option::None => {},
            }
            proof {
                assert((processed.push(gev)).drop_last() =~= processed);
                processed = processed.push(gev);
                assert(processed + evs@ =~= events@);
                assert(outs@.map_values(|d: Vec<u8>| d@) =~= spec_emitted_commands(processed));
            }
        }
        proof {
            assert(processed =~= events@);
        }
        outs
    }
}

/// One occurrence the authoritative peer's loop can observe: an inbound
/// datagram or a freshly computed snapshot drained from the simulation
/// collaborator.
pub enum AuthoritativePeerEvent {
    Inbound(Vec<u8>),
    SnapshotReady(GameData),
}

/// The authoritative peer's synchronization engine: forwards inbound commands
/// to the simulation collaborator and freshly computed snapshots to the wire.
pub struct AuthoritativePeer {
    /// Handoff of decoded commands toward the simulation collaborator.
    pub to_simulation: Handoff<UserCommand>,
    /// Snapshots encoded and handed to the transport so far.
    pub snapshots_sent: u64,
    /// Commands decoded and handed to the simulation collaborator so far.
    pub commands_delivered: u64,
    /// Inbound datagrams dropped because they decoded to no command.
    pub malformed_dropped: u64,
}

impl AuthoritativePeer {
    pub open spec fn wf(&self) -> bool {
        self.to_simulation.wf()
    }

    pub fn new(capacity: usize) -> (r: Self)
        requires
            capacity >= 1,
        ensures
            r.wf(),
            r.to_simulation@ == Seq::<UserCommand>::empty(),
            r.to_simulation.spec_capacity() == capacity,
            r.snapshots_sent == 0,
            r.commands_delivered == 0,
            r.malformed_dropped == 0,
    {
        AuthoritativePeer {
            to_simulation: Handoff::new(capacity),
            snapshots_sent: 0,
            commands_delivered: 0,
            malformed_dropped: 0,
        }
    }

    /// One iteration of the authoritative-peer loop: reacts to a single event
    /// and returns the datagram to send, if the event calls for one.
    ///
    /// An inbound datagram that decodes to a command is handed toward the
    /// simulation collaborator; one that does not is dropped and counted. A
    /// snapshot drained from the simulation collaborator is encoded and
    /// emitted at once.
    pub fn step(&mut self, event: AuthoritativePeerEvent) -> (out: Option<Vec<u8>>)
        requires
            old(self).wf(),
        ensures
            final(self).wf(),
            final(self).to_simulation.spec_capacity() == old(self).to_simulation.spec_capacity(),
            (match event {
                AuthoritativePeerEvent::Inbound(bytes) => {
                    &&& out is None
                    &&& final(self).snapshots_sent == old(self).snapshots_sent
                    &&& (match spec_decode_command(bytes@) {
                        Option::Some(c) => {
                            &&& final(self).to_simulation@ == spec_handoff_send(
                                old(self).to_simulation@,
                                old(self).to_simulation.spec_capacity(),
                                c,
                            )
                            &&& final(self).commands_delivered == spec_bump(
                                old(self).commands_delivered,
                            )
                            &&& final(self).malformed_dropped == old(self).malformed_dropped
                        },
                        Option::None => {
                            &&& final(self).to_simulation@ == old(self).to_simulation@
                            &&& final(self).commands_delivered == old(self).commands_delivered
                            &&& final(self).malformed_dropped == spec_bump(
                                old(self).malformed_dropped,
                            )
                        },
                    })
                },
                AuthoritativePeerEvent::SnapshotReady(g) => {
                    &&& (out matches Option::Some(d) && d@ == spec_encode_game_data(g))
                    &&& final(self).to_simulation@ == old(self).to_simulation@
                    &&& final(self).snapshots_sent == spec_bump(old(self).snapshots_sent)
                    &&& final(self).commands_delivered == old(self).commands_delivered
                    &&& final(self).malformed_dropped == old(self).malformed_dropped
                },
            }),
    {
        match event {
            AuthoritativePeerEvent::Inbound(bytes) => {
                match UserCommand::decode(bytes.as_slice()) {
                    Ok(c) => {
                        self.to_simulation.send(c);
                        self.commands_delivered = bump(self.commands_delivered);
                    },
                    Err(_) => {
                        self.malformed_dropped = bump(self.malformed_dropped);
                    },
                }
                Option::None
            },
            AuthoritativePeerEvent::SnapshotReady(g) => {
                self.snapshots_sent = bump(self.snapshots_sent);
                Option::Some(g.encode())
            },
        }
    }
}

/// The datagrams the authoritative peer puts on the wire while observing
/// `events` in order: one encoded snapshot per snapshot drained from the
/// simulation collaborator, nothing for inbound datagrams.
pub open spec fn spec_emitted_snapshots(events: Seq<AuthoritativePeerEvent>) -> Seq<Seq<u8>>
    decreases events.len(),
{
    if events.len() == 0 {
        Seq::empty()
    } else {
        let prev = spec_emitted_snapshots(events.drop_last());
        match events.last() {
            AuthoritativePeerEvent::Inbound(_) => prev,
            AuthoritativePeerEvent::SnapshotReady(g) => prev.push(spec_encode_game_data(g)),
        }
    }
}

/// The command handoff the authoritative peer leaves behind after observing
/// `events` in order, starting from queue `s0` with capacity `cap`: one
/// bounded send per inbound datagram that decodes to a command.
pub open spec fn spec_delivered_commands(
    s0: Seq<UserCommand>,
    cap: nat,
    events: Seq<AuthoritativePeerEvent>,
) -> Seq<UserCommand>
    decreases events.len(),
{
    if events.len() == 0 {
        s0
    } else {
        let prev = spec_delivered_commands(s0, cap, events.drop_last());
        match events.last() {
            AuthoritativePeerEvent::Inbound(bytes) => match spec_decode_command(bytes@) {
                Option::Some(c) => spec_handoff_send(prev, cap, c),
                Option::None => prev,
            },
            AuthoritativePeerEvent::SnapshotReady(_) => prev,
        }
    }
}

impl AuthoritativePeer {
    /// Runs the loop body over a whole sequence of observed events, gathering
    /// the datagrams to send in order: exactly one per snapshot the
    /// simulation collaborator produced, none for inbound datagrams, however
    /// the two event kinds interleave. Every inbound command ends up handed
    /// toward the simulation collaborator, through the bounded handoff.
    pub fn run(&mut self, events: Vec<AuthoritativePeerEvent>) -> (outs: Vec<Vec<u8>>)
        requires
            old(self).wf(),
        ensures
            final(self).wf(),
            final(self).to_simulation.spec_capacity() == old(self).to_simulation.spec_capacity(),
            outs@.map_values(|d: Vec<u8>| d@) == spec_emitted_snapshots(events@),
            final(self).to_simulation@ == spec_delivered_commands(
                old(self).to_simulation@,
                old(self).to_simulation.spec_capacity(),
                events@,
            ),
    {
        let mut evs = events;
        let mut outs: Vec<Vec<u8>> = Vec::new();
        let ghost mut processed: Seq<AuthoritativePeerEvent> = Seq::empty();
        proof {
            assert(processed + evs@ =~= events@);
        }
        while evs.len() > 0
            invariant
                self.wf(),
                self.to_simulation.spec_capacity() == old(self).to_simulation.spec_capacity(),
                processed + evs@ == events@,
                outs@.map_values(|d: Vec<u8>| d@) == spec_emitted_snapshots(processed),
                self.to_simulation@ == spec_delivered_commands(
                    old(self).to_simulation@,
                    old(self).to_simulation.spec_capacity(),
                    processed,
                ),
            decreases evs@.len(),
        {
            let ev = evs.remove(0);
            let ghost gev = ev;
            let out = self.step(ev);
            match out {
                Option::Some(d) => outs.push(d),
                Option::None => {},
            }
            proof {
                assert((processed.push(gev)).drop_last() =~= processed);
                processed = processed.push(gev);
                assert(processed + evs@ =~= events@);
                assert(outs@.map_values(|d: Vec<u8>| d@) =~= spec_emitted_snapshots(processed));
            }
        }
        proof {
            assert(processed =~= events@);
        }
        outs
    }
}

} // verus!
