//! Per-connection relay: one session pairs an inbound (client) connection
//! with an outbound (server) connection and relays bytes in both directions,
//! each direction independently, with half-close propagation.
//!
//! The runtime reads from one half of a connection and hands the result in as
//! a [`ReadEvent`]; the session answers with the [`DirAction`] to carry out
//! on the opposite write half: forward the bytes, shut the write half down on
//! end-of-stream, or abandon the direction on an error.

use vstd::prelude::*;

verus! {

/// What one read on a connection half yielded.
pub enum ReadEvent {
    /// Bytes arrived.
    Data(Vec<u8>),
    /// The peer closed its write side: end-of-stream.
    Eof,
    /// The read failed.
    ReadError,
}

/// Mathematical model of a [`ReadEvent`].
pub enum EventModel {
    Data(Seq<u8>),
    Eof,
    ReadError,
}

impl View for ReadEvent {
    type V = EventModel;

    open spec fn view(&self) -> EventModel {
        match self {
            ReadEvent::Data(bytes) => EventModel::Data(bytes@),
            ReadEvent::Eof => EventModel::Eof,
            ReadEvent::ReadError => EventModel::ReadError,
        }
    }
}

/// What the runtime must do on the write half opposite a read.
pub enum DirAction {
    /// Write these bytes out, in this order.
    Forward(Vec<u8>),
    /// Shut down the write half: propagate the half-close.
    ShutdownWrite,
    /// Abandon this direction; its error is the session's result.
    Abort,
}

/// Mathematical model of a [`DirAction`].
pub enum ActionModel {
    Forward(Seq<u8>),
    ShutdownWrite,
    Abort,
}

impl View for DirAction {
    type V = ActionModel;

    open spec fn view(&self) -> ActionModel {
        match self {
            DirAction::Forward(bytes) => ActionModel::Forward(bytes@),
            DirAction::ShutdownWrite => ActionModel::ShutdownWrite,
            DirAction::Abort => ActionModel::Abort,
        }
    }
}

/// Where one relay direction stands.
#[derive(Clone, Copy, Debug, PartialEq, Eq, Structural)]
pub enum DirStatus {
    /// Bytes may still flow.
    Streaming,
    /// End-of-stream was relayed; the direction finished cleanly.
    Closed,
    /// A read error ended the direction.
    Failed,
}

/// Mathematical model of one relay direction: its status, the bytes read so
/// far from the source half, and the bytes handed to the sink half.
#[verifier::ext_equal]
pub struct DirModel {
    pub status: DirStatus,
    pub received: Seq<u8>,
    pub forwarded: Seq<u8>,
}

/// A direction that has not seen any bytes yet.
pub open spec fn fresh_dir() -> DirModel {
    DirModel { status: DirStatus::Streaming, received: Seq::empty(), forwarded: Seq::empty() }
}

/// How one read event moves a direction forward.
pub open spec fn dir_after(d: DirModel, ev: EventModel) -> DirModel {
    match ev {
        EventModel::Data(bytes) => DirModel {
            status: d.status,
            received: d.received + bytes,
            forwarded: d.forwarded + bytes,
        },
        EventModel::Eof => DirModel { status: DirStatus::Closed, ..d },
        EventModel::ReadError => DirModel { status: DirStatus::Failed, ..d },
    }
}

/// The action a read event calls for, independent of the direction's past.
pub open spec fn action_for(ev: EventModel) -> ActionModel {
    match ev {
        EventModel::Data(bytes) => ActionModel::Forward(bytes),
        EventModel::Eof => ActionModel::ShutdownWrite,
        EventModel::ReadError => ActionModel::Abort,
    }
}

/// A direction folded over a whole sequence of read events.
pub open spec fn dir_after_seq(d: DirModel, evs: Seq<EventModel>) -> DirModel
    decreases evs.len(),
{
    if evs.len() == 0 {
        d
    } else {
        dir_after_seq(dir_after(d, evs[0]), evs.skip(1))
    }
}

/// The bytes carried by the data events of a sequence, in order.
pub open spec fn data_bytes(evs: Seq<EventModel>) -> Seq<u8>
    decreases evs.len(),
{
    if evs.len() == 0 {
        Seq::empty()
    } else {
        (match evs[0] {
            EventModel::Data(bytes) => bytes,
            _ => Seq::empty(),
        }) + data_bytes(evs.skip(1))
    }
}

/// One relay direction, as the runtime drives it.
pub struct RelayDir {
    pub status: DirStatus,
    pub received: Ghost<Seq<u8>>,
    pub forwarded: Ghost<Seq<u8>>,
}

impl View for RelayDir {
    type V = DirModel;

    open spec fn view(&self) -> DirModel {
        DirModel { status: self.status, received: self.received@, forwarded: self.forwarded@ }
    }
}

impl RelayDir {
    /// A fresh direction with nothing relayed yet.
    pub fn new() -> (d: RelayDir)
        ensures
            d@ == fresh_dir(),
    {
        let d = RelayDir {
            status: DirStatus::Streaming,
            received: Ghost(Seq::empty()),
            forwarded: Ghost(Seq::empty()),
        };
        proof {
            assert(d@ =~= fresh_dir());
        }
        d
    }

    /// Feeds one read event in; the returned action is what the runtime must
    /// do on the sink half. Bytes are forwarded unchanged and in order;
    /// end-of-stream shuts the sink down within this very step.
    pub fn on_read(&mut self, ev: ReadEvent) -> (act: DirAction)
        requires
            old(self)@.status is Streaming,
        ensures
            final(self)@ == dir_after(old(self)@, ev@),
            act@ == action_for(ev@),
    {
        match ev {
            ReadEvent::Data(bytes) => {
                self.received = Ghost(self.received@ + bytes@);
                self.forwarded = Ghost(self.forwarded@ + bytes@);
                proof {
                    assert(self@ =~= dir_after(old(self)@, ev@));
                }
                DirAction::Forward(bytes)
            },
            ReadEvent::Eof => {
                self.status = DirStatus::Closed;
                proof {
                    assert(self@ =~= dir_after(old(self)@, ev@));
                }
                DirAction::ShutdownWrite
            },
            ReadEvent::ReadError => {
                self.status = DirStatus::Failed;
                proof {
                    assert(self@ =~= dir_after(old(self)@, ev@));
                }
                DirAction::Abort
            },
        }
    }
}

/// Which direction of a session an error ended.
#[derive(Clone, Copy, Debug, PartialEq, Eq, Structural)]
pub enum RelayError {
    /// The client-to-server direction failed.
    ClientToServer,
    /// The server-to-client direction failed.
    ServerToClient,
}

/// Mathematical model of a session: its two directions.
#[verifier::ext_equal]
pub struct SessionModel {
    pub client_to_server: DirModel,
    pub server_to_client: DirModel,
}

/// A session with nothing relayed yet.
pub open spec fn fresh_session() -> SessionModel {
    SessionModel { client_to_server: fresh_dir(), server_to_client: fresh_dir() }
}

/// A read event of a session, tagged with the side it was read from.
pub enum SessionEventModel {
    FromClient(EventModel),
    FromServer(EventModel),
}

/// How one session event moves a session forward: it touches the direction
/// it belongs to and nothing else.
pub open spec fn session_step(s: SessionModel, ev: SessionEventModel) -> SessionModel {
    match ev {
        SessionEventModel::FromClient(e) => SessionModel {
            client_to_server: dir_after(s.client_to_server, e),
            ..s
        },
        SessionEventModel::FromServer(e) => SessionModel {
            server_to_client: dir_after(s.server_to_client, e),
            ..s
        },
    }
}

/// A session folded over a whole sequence of events.
pub open spec fn session_after(s: SessionModel, evs: Seq<SessionEventModel>) -> SessionModel
    decreases evs.len(),
{
    if evs.len() == 0 {
        s
    } else {
        session_after(session_step(s, evs[0]), evs.skip(1))
    }
}

/// The client-side read events of a session trace, in order.
pub open spec fn client_events(evs: Seq<SessionEventModel>) -> Seq<EventModel>
    decreases evs.len(),
{
    if evs.len() == 0 {
        Seq::empty()
    } else {
        (match evs[0] {
            SessionEventModel::FromClient(e) => seq![e],
            SessionEventModel::FromServer(_) => Seq::empty(),
        }) + client_events(evs.skip(1))
    }
}

/// The server-side read events of a session trace, in order.
pub open spec fn server_events(evs: Seq<SessionEventModel>) -> Seq<EventModel>
    decreases evs.len(),
{
    if evs.len() == 0 {
        Seq::empty()
    } else {
        (match evs[0] {
            SessionEventModel::FromServer(e) => seq![e],
            SessionEventModel::FromClient(_) => Seq::empty(),
        }) + server_events(evs.skip(1))
    }
}

/// One relayed session: exactly one inbound/outbound connection pair.
pub struct Session {
    pub client_to_server: RelayDir,
    pub server_to_client: RelayDir,
}

impl View for Session {
    type V = SessionModel;

    open spec fn view(&self) -> SessionModel {
        SessionModel {
            client_to_server: self.client_to_server@,
            server_to_client: self.server_to_client@,
        }
    }
}

impl Session {
    /// A fresh session with nothing relayed yet.
    pub fn new() -> (s: Session)
        ensures
            s@ == fresh_session(),
    {
        let s = Session { client_to_server: RelayDir::new(), server_to_client: RelayDir::new() };
        proof {
            assert(s@ =~= fresh_session());
        }
        s
    }

    /// Feeds in one read from the client side. Only the client-to-server
    /// direction moves; the server-to-client direction is untouched, so a
    /// client half-close never stops data still flowing back to the client.
    pub fn on_client_read(&mut self, ev: ReadEvent) -> (act: DirAction)
        requires
            old(self)@.client_to_server.status is Streaming,
        ensures
            final(self)@ == session_step(old(self)@, SessionEventModel::FromClient(ev@)),
            final(self)@.server_to_client == old(self)@.server_to_client,
            act@ == action_for(ev@),
    {
        let act = self.client_to_server.on_read(ev);
        proof {
            assert(self@ =~= session_step(old(self)@, SessionEventModel::FromClient(ev@)));
        }
        act
    }

    /// Feeds in one read from the server side; the mirror of
    /// [`Session::on_client_read`].
    pub fn on_server_read(&mut self, ev: ReadEvent) -> (act: DirAction)
        requires
            old(self)@.server_to_client.status is Streaming,
        ensures
            final(self)@ == session_step(old(self)@, SessionEventModel::FromServer(ev@)),
            final(self)@.client_to_server == old(self)@.client_to_server,
            act@ == action_for(ev@),
    {
        let act = self.server_to_client.on_read(ev);
        proof {
            assert(self@ =~= session_step(old(self)@, SessionEventModel::FromServer(ev@)));
        }
        act
    }

    /// Whether both directions have come to rest.
    pub fn finished(&self) -> (r: bool)
        ensures
            r == (!(self@.client_to_server.status is Streaming) && !(self@.server_to_client.status
                is Streaming)),
    {
        !matches!(self.client_to_server.status, DirStatus::Streaming) && !matches!(
            self.server_to_client.status,
            DirStatus::Streaming,
        )
    }

    /// The session's result, once both directions are done: success exactly
    /// when both directions ended in a clean end-of-stream; otherwise the
    /// error of a failed direction, the client-to-server one first.
    pub fn outcome(&self) -> (r: Result<(), RelayError>)
        requires
            !(self@.client_to_server.status is Streaming),
            !(self@.server_to_client.status is Streaming),
        ensures
            r is Ok <==> (self@.client_to_server.status is Closed && self@.server_to_client.status
                is Closed),
            self@.client_to_server.status is Failed ==> r == Result::<(), RelayError>::Err(
                RelayError::ClientToServer,
            ),
            (self@.client_to_server.status is Closed && self@.server_to_client.status is Failed)
                ==> r == Result::<(), RelayError>::Err(RelayError::ServerToClient),
    {
        if matches!(self.client_to_server.status, DirStatus::Failed) {
            Err(RelayError::ClientToServer)
        } else if matches!(self.server_to_client.status, DirStatus::Failed) {
            Err(RelayError::ServerToClient)
        } else {
            Ok(())
        }
    }
}

/// Law: the two directions of a session are independent. Over any trace, each
/// direction ends exactly where its own side's events alone take it; events
/// of the other side have no effect on it.
pub proof fn lemma_directions_independent(s: SessionModel, evs: Seq<SessionEventModel>)
    ensures
        session_after(s, evs).client_to_server == dir_after_seq(
            s.client_to_server,
            client_events(evs),
        ),
        session_after(s, evs).server_to_client == dir_after_seq(
            s.server_to_client,
            server_events(evs),
        ),
    decreases evs.len(),
{
    if evs.len() > 0 {
        lemma_directions_independent(session_step(s, evs[0]), evs.skip(1));
        match evs[0] {
            SessionEventModel::FromClient(e) => {
                assert(client_events(evs) =~= seq![e] + client_events(evs.skip(1)));
                assert(client_events(evs).skip(1) =~= client_events(evs.skip(1)));
                assert(server_events(evs) =~= server_events(evs.skip(1)));
            },
            SessionEventModel::FromServer(e) => {
                assert(server_events(evs) =~= seq![e] + server_events(evs.skip(1)));
                assert(server_events(evs).skip(1) =~= server_events(evs.skip(1)));
                assert(client_events(evs) =~= client_events(evs.skip(1)));
            },
        }
    }
}

/// Law: one direction relays byte for byte. Folding any events over a
/// direction forwards exactly the bytes the events carried, appended in
/// order, and the bytes forwarded always equal the bytes received.
pub proof fn lemma_dir_relays_faithfully(d: DirModel, evs: Seq<EventModel>)
    requires
        d.forwarded == d.received,
    ensures
        dir_after_seq(d, evs).forwarded == d.forwarded + data_bytes(evs),
        dir_after_seq(d, evs).forwarded == dir_after_seq(d, evs).received,
    decreases evs.len(),
{
    if evs.len() == 0 {
        assert(d.forwarded + data_bytes(evs) =~= d.forwarded);
    } else {
        lemma_dir_relays_faithfully(dir_after(d, evs[0]), evs.skip(1));
        match evs[0] {
            EventModel::Data(bytes) => {
                assert((d.forwarded + bytes) + data_bytes(evs.skip(1)) =~= d.forwarded + (bytes
                    + data_bytes(evs.skip(1))));
            },
            _ => {
                assert(d.forwarded + data_bytes(evs) =~= d.forwarded + data_bytes(evs.skip(1)));
            },
        }
    }
}

/// Law: a session relays byte for byte, in both directions. Over any trace
/// from a fresh session, the server receives exactly the bytes the client's
/// data events carried, in order, and the client exactly the server's.
pub proof fn lemma_session_relays_faithfully(evs: Seq<SessionEventModel>)
    ensures
        session_after(fresh_session(), evs).client_to_server.forwarded == data_bytes(
            client_events(evs),
        ),
        session_after(fresh_session(), evs).server_to_client.forwarded == data_bytes(
            server_events(evs),
        ),
{
    lemma_directions_independent(fresh_session(), evs);
    lemma_dir_relays_faithfully(fresh_dir(), client_events(evs));
    lemma_dir_relays_faithfully(fresh_dir(), server_events(evs));
    assert(Seq::<u8>::empty() + data_bytes(client_events(evs)) =~= data_bytes(client_events(evs)));
    assert(Seq::<u8>::empty() + data_bytes(server_events(evs)) =~= data_bytes(server_events(evs)));
}

/// Law: half-close propagation. End-of-stream from the client closes the
/// client-to-server direction in that very step (the action is the shutdown
/// of the server-side write half), and whatever the session sees afterwards,
/// the server-to-client direction goes on exactly as the server's own events
/// take it: remaining server data still reaches the client.
pub proof fn lemma_half_close(s: SessionModel, tail: Seq<SessionEventModel>)
    ensures
        session_step(s, SessionEventModel::FromClient(EventModel::Eof)).client_to_server.status
            is Closed,
        action_for(EventModel::Eof) is ShutdownWrite,
        session_after(session_step(s, SessionEventModel::FromClient(EventModel::Eof)), tail)
            .server_to_client == dir_after_seq(s.server_to_client, server_events(tail)),
{
    lemma_directions_independent(
        session_step(s, SessionEventModel::FromClient(EventModel::Eof)),
        tail,
    );
}

}
