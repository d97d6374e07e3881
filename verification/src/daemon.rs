//! The bridge router: what the daemon answers to each client opcode, and what
//! it asks to be done towards the robot session.
//!
//! The router owns no socket either. The accept loop reads the opcode and the
//! request's body, calls the handler, and carries out the returned actions in
//! order. Where an action's outcome decides what is said next (a dial, a file
//! transfer, a devices reply), the outcome is handed to the handler that
//! concludes the request.

use crate::codec::HEADER_SIZE;
use crate::request::{
    local_path, local_path_of, parse_transfer, transfer_cwd, transfer_rel_path,
    transfer_well_formed, ConnectRequest, HOST_FIELD, TRANSFER_FIELD,
};
use crate::robot::{event_type_id, EventType};
use crate::telemetry::{
    devices_reply_at, parse_devices_reply, DevicesReply, DevicesReplyModel, DEVICES_ABSENT,
    DEVICES_PRESENT,
};
use vstd::prelude::*;
use vstd::slice::{slice_subrange, slice_to_vec};

verus! {

/// Acknowledged; more follows.
pub const STATUS_ACK: u8 = 1;

/// An input listener was set up.
pub const STATUS_LISTENING: u8 = 2;

/// A precondition failed: no robot, unknown kind of robot, or a malformed
/// request.
pub const STATUS_PRECONDITION: u8 = 50;

/// The operation failed.
pub const STATUS_FAILED: u8 = 100;

/// The remote side refused the credentials.
pub const STATUS_AUTH: u8 = 101;

/// The file transport could not connect.
pub const STATUS_TRANSPORT: u8 = 102;

/// A local file could not be read or written.
pub const STATUS_LOCAL_IO: u8 = 103;

/// Success.
pub const STATUS_OK: u8 = 200;

/// The name of the socket on which the router takes clients, in the
/// directory for temporary files.
pub const CLIENT_SOCKET: &'static str = "daybreak.sock";

/// The name of the socket on which the session takes the router, in the
/// directory for temporary files.
pub const SESSION_SOCKET: &'static str = "daybreak.robot.sock";

/// The name of the log scratch file, in the directory for temporary files.
pub const RUN_LOG: &'static str = "robot.run.txt";

/// Where the student's code lives on the robot.
pub const REMOTE_CODE_PATH: &'static str = "/home/pi/runtime/executor/studentcode.py";

/// What the daemon does when it is asked to start.
#[derive(Clone, Copy, Debug, PartialEq, Eq, Structural)]
pub enum Startup {
    /// Bind the client socket and serve.
    Start,
    /// Remove the client socket's file, then bind the socket and serve.
    RemoveThenStart,
    /// Do not start: the socket's file says that a daemon is running.
    Refuse,
}

/// Decides how the daemon starts. A socket file that is already there stops
/// it, unless it is told to start by force.
pub fn startup(socket_exists: bool, force: bool) -> (out: Startup)
    ensures
        !socket_exists ==> out == Startup::Start,
        socket_exists && force ==> out == Startup::RemoveThenStart,
        socket_exists && !force ==> out == Startup::Refuse,
{
    if !socket_exists {
        Startup::Start
    } else if force {
        Startup::RemoveThenStart
    } else {
        Startup::Refuse
    }
}

/// The opcodes that a client opens its request with.
#[derive(Clone, Copy, Debug, PartialEq, Eq, Structural)]
pub enum MsgDaemonType {
    Upload,
    Connect,
    Run,
    QueryDevices,
    Download,
    InputListener,
    Kill,
}

/// The opcode byte that stands for a request.
pub open spec fn daemon_type_id(request: MsgDaemonType) -> u8 {
    match request {
        MsgDaemonType::Upload => 1,
        MsgDaemonType::Connect => 2,
        MsgDaemonType::Run => 3,
        MsgDaemonType::QueryDevices => 4,
        MsgDaemonType::Download => 5,
        MsgDaemonType::InputListener => 6,
        MsgDaemonType::Kill => 255,
    }
}

/// The request that an opcode byte stands for, if any.
pub open spec fn daemon_type_of(id: u8) -> Option<MsgDaemonType> {
    if id == 1 {
        Some(MsgDaemonType::Upload)
    } else if id == 2 {
        Some(MsgDaemonType::Connect)
    } else if id == 3 {
        Some(MsgDaemonType::Run)
    } else if id == 4 {
        Some(MsgDaemonType::QueryDevices)
    } else if id == 5 {
        Some(MsgDaemonType::Download)
    } else if id == 6 {
        Some(MsgDaemonType::InputListener)
    } else if id == 255 {
        Some(MsgDaemonType::Kill)
    } else {
        None
    }
}

/// How many bytes of body the router reads behind an opcode, at most: a kind
/// byte and the address behind a connect request, the mode byte behind a run
/// request, the names behind an upload or download request.
pub open spec fn body_limit_of(request: MsgDaemonType) -> usize {
    match request {
        MsgDaemonType::Connect => (1 + HOST_FIELD) as usize,
        MsgDaemonType::Run => 1,
        MsgDaemonType::Upload => TRANSFER_FIELD,
        MsgDaemonType::Download => TRANSFER_FIELD,
        _ => 0,
    }
}

impl MsgDaemonType {
    /// How many bytes of body the router reads behind this opcode, at most.
    pub fn body_limit(self) -> (out: usize)
        ensures
            out == body_limit_of(self),
    {
        match self {
            MsgDaemonType::Connect => 1 + HOST_FIELD,
            MsgDaemonType::Run => 1,
            MsgDaemonType::Upload => TRANSFER_FIELD,
            MsgDaemonType::Download => TRANSFER_FIELD,
            _ => 0,
        }
    }

    /// The opcode byte that stands for this request.
    pub fn id(self) -> (out: u8)
        ensures
            out == daemon_type_id(self),
    {
        match self {
            MsgDaemonType::Upload => 1,
            MsgDaemonType::Connect => 2,
            MsgDaemonType::Run => 3,
            MsgDaemonType::QueryDevices => 4,
            MsgDaemonType::Download => 5,
            MsgDaemonType::InputListener => 6,
            MsgDaemonType::Kill => 255,
        }
    }
}

/// The request that a client's message opens with: its first byte is the
/// opcode.
pub fn query_message_daemon_type(message: &Vec<u8>) -> (out: Option<MsgDaemonType>)
    requires
        message@.len() > 0,
    ensures
        out == daemon_type_of(message@[0]),
{
    match message[0] {
        1 => Some(MsgDaemonType::Upload),
        2 => Some(MsgDaemonType::Connect),
        3 => Some(MsgDaemonType::Run),
        4 => Some(MsgDaemonType::QueryDevices),
        5 => Some(MsgDaemonType::Download),
        6 => Some(MsgDaemonType::InputListener),
        255 => Some(MsgDaemonType::Kill),
        _ => None,
    }
}

/// The kinds of robot. The kind selects the credentials of the file
/// transport.
#[derive(Clone, Copy, Debug, PartialEq, Eq, Structural)]
pub enum RobotKind {
    Potato,
    Raspberry,
}

/// The kind that a kind byte stands for, if any.
pub open spec fn robot_kind_of(byte: u8) -> Option<RobotKind> {
    if byte == 1 {
        Some(RobotKind::Potato)
    } else if byte == 2 {
        Some(RobotKind::Raspberry)
    } else {
        None
    }
}

/// The kind byte that stands for a kind.
pub open spec fn robot_kind_byte(kind: RobotKind) -> u8 {
    match kind {
        RobotKind::Potato => 1,
        RobotKind::Raspberry => 2,
    }
}

impl RobotKind {
    /// The kind that a kind byte stands for, if any.
    pub fn from_byte(byte: u8) -> (out: Option<RobotKind>)
        ensures
            out == robot_kind_of(byte),
    {
        match byte {
            1 => Some(RobotKind::Potato),
            2 => Some(RobotKind::Raspberry),
            _ => None,
        }
    }

    /// The kind byte that stands for this kind.
    pub fn byte(self) -> (out: u8)
        ensures
            out == robot_kind_byte(self),
            robot_kind_of(out) == Some(self),
    {
        match self {
            RobotKind::Potato => 1,
            RobotKind::Raspberry => 2,
        }
    }
}

/// How an attempt to reach a robot ended.
#[derive(Clone, Copy, Debug, PartialEq, Eq, Structural)]
pub enum DialOutcome {
    /// The robot answered and the session's rendezvous socket was reached.
    Linked,
    /// The robot did not answer.
    NoRobot,
    /// The robot answered, but the session's rendezvous socket was not
    /// reached.
    NoRendezvous,
}

/// How a file transfer ended.
#[derive(Clone, Copy, Debug, PartialEq, Eq, Structural)]
pub enum TransferOutcome {
    /// The file arrived.
    Done,
    /// The remote side refused the credentials.
    AuthFailed,
    /// The transport could not connect.
    ConnectFailed,
    /// The local file could not be read or written.
    LocalIo,
    /// The remote side did not take or give the file.
    RemoteFailed,
}

/// The status byte that reports how a file transfer ended.
pub open spec fn transfer_status(outcome: TransferOutcome) -> u8 {
    match outcome {
        TransferOutcome::Done => STATUS_OK,
        TransferOutcome::AuthFailed => STATUS_AUTH,
        TransferOutcome::ConnectFailed => STATUS_TRANSPORT,
        TransferOutcome::LocalIo => STATUS_LOCAL_IO,
        TransferOutcome::RemoteFailed => STATUS_FAILED,
    }
}

impl TransferOutcome {
    /// The status byte that reports this outcome.
    pub fn status(self) -> (out: u8)
        ensures
            out == transfer_status(self),
    {
        match self {
            TransferOutcome::Done => STATUS_OK,
            TransferOutcome::AuthFailed => STATUS_AUTH,
            TransferOutcome::ConnectFailed => STATUS_TRANSPORT,
            TransferOutcome::LocalIo => STATUS_LOCAL_IO,
            TransferOutcome::RemoteFailed => STATUS_FAILED,
        }
    }
}

/// A file transfer that the router admitted.
#[derive(Clone, Debug, PartialEq, Eq)]
pub struct Transfer {
    /// Towards the robot (`true`) or from it.
    pub upload: bool,
    /// The local file.
    pub local_path: Vec<u8>,
    /// The robot's address.
    pub host: Vec<u8>,
    /// The kind of robot, which selects the credentials.
    pub kind: RobotKind,
}

/// A file transfer, as a mathematical value.
pub struct TransferModel {
    pub upload: bool,
    pub local_path: Seq<u8>,
    pub host: Seq<u8>,
    pub kind: RobotKind,
}

impl View for Transfer {
    type V = TransferModel;

    open spec fn view(&self) -> TransferModel {
        TransferModel {
            upload: self.upload,
            local_path: self.local_path@,
            host: self.host@,
            kind: self.kind,
        }
    }
}

/// What the router asks its caller to do.
#[derive(Clone, Debug, PartialEq, Eq)]
pub enum RouterAction {
    /// Write this status byte to the client and flush.
    Status(u8),
    /// Write these bytes to the client and flush.
    Body(Vec<u8>),
    /// Close the session's connection to the robot and its rendezvous
    /// socket, if there are any.
    CloseSession,
    /// Reach the robot at this address and start a session with it; hand the
    /// outcome to [`Router::finish_connect`].
    Dial { host: Vec<u8> },
    /// Write these bytes to the session and flush. If that fails, tell
    /// [`Router::session_lost`].
    ToSession(Vec<u8>),
    /// Read the session's devices reply and hand it to
    /// [`Router::relay_devices`].
    AwaitDevices,
    /// Empty the log scratch file.
    TruncateLog,
    /// Keep the client open and hand it to an input listener.
    Listen,
    /// Check that the local file is there, if it is to be uploaded, and hand
    /// the answer to [`Router::admit_transfer`].
    Probe(Transfer),
    /// Move the file and hand the outcome to [`Router::conclude_transfer`].
    Move(Transfer),
    /// Remove the rendezvous socket files.
    RemoveSockets,
    /// End the process with this exit code.
    Exit(u8),
}

/// A router action, as a mathematical value.
pub enum RouterActionModel {
    Status(u8),
    Body(Seq<u8>),
    CloseSession,
    Dial { host: Seq<u8> },
    ToSession(Seq<u8>),
    AwaitDevices,
    TruncateLog,
    Listen,
    Probe(TransferModel),
    Move(TransferModel),
    RemoveSockets,
    Exit(u8),
}

impl View for RouterAction {
    type V = RouterActionModel;

    open spec fn view(&self) -> RouterActionModel {
        match self {
            RouterAction::Status(status) => RouterActionModel::Status(*status),
            RouterAction::Body(bytes) => RouterActionModel::Body(bytes@),
            RouterAction::CloseSession => RouterActionModel::CloseSession,
            RouterAction::Dial { host } => RouterActionModel::Dial { host: host@ },
            RouterAction::ToSession(bytes) => RouterActionModel::ToSession(bytes@),
            RouterAction::AwaitDevices => RouterActionModel::AwaitDevices,
            RouterAction::TruncateLog => RouterActionModel::TruncateLog,
            RouterAction::Listen => RouterActionModel::Listen,
            RouterAction::Probe(transfer) => RouterActionModel::Probe(transfer@),
            RouterAction::Move(transfer) => RouterActionModel::Move(transfer@),
            RouterAction::RemoveSockets => RouterActionModel::RemoveSockets,
            RouterAction::Exit(code) => RouterActionModel::Exit(*code),
        }
    }
}

/// The models of a list of router actions, in order.
pub open spec fn router_action_models(actions: Seq<RouterAction>) -> Seq<RouterActionModel> {
    Seq::new(actions.len(), |i: int| actions[i]@)
}

/// What the router knows.
pub struct RouterModel {
    /// Whether there is a session with a robot.
    pub live: bool,
    /// The address given in the last connect request.
    pub remote_ip: Option<Seq<u8>>,
    /// The kind of robot of the last connect request that succeeded.
    pub robot_kind: Option<RobotKind>,
}

/// The router before any request: no session, nothing recorded.
pub open spec fn initial_router() -> RouterModel {
    RouterModel { live: false, remote_ip: None, robot_kind: None }
}

/// A connect request arrives. It is acknowledged; whatever session there is
/// is closed before the robot is dialled; the address is recorded.
pub open spec fn connect_effect(s: RouterModel, host: Seq<u8>) -> (
    RouterModel,
    Seq<RouterActionModel>,
) {
    (
        RouterModel { live: false, remote_ip: Some(host), ..s },
        seq![
            RouterActionModel::Status(STATUS_ACK),
            RouterActionModel::CloseSession,
            RouterActionModel::Dial { host },
        ],
    )
}

/// The dial of a connect request ended. On success the session and the kind
/// of robot are recorded; otherwise nothing of the attempt stays open and no
/// session is recorded.
pub open spec fn dialed_effect(s: RouterModel, kind: u8, outcome: DialOutcome) -> (
    RouterModel,
    Seq<RouterActionModel>,
) {
    if outcome == DialOutcome::Linked {
        (
            RouterModel { live: true, robot_kind: robot_kind_of(kind), ..s },
            seq![RouterActionModel::Status(STATUS_OK)],
        )
    } else {
        (
            RouterModel { live: false, ..s },
            seq![RouterActionModel::CloseSession, RouterActionModel::Status(STATUS_FAILED)],
        )
    }
}

/// A run request arrives with its mode byte: 1 starts a teleoperated run, 2
/// stops the run, 3 starts an autonomous run.
pub open spec fn run_effect(s: RouterModel, mode: u8) -> (RouterModel, Seq<RouterActionModel>) {
    if !s.live {
        (s, seq![RouterActionModel::Status(STATUS_FAILED)])
    } else if mode == event_type_id(EventType::RobotStop) {
        (s, seq![RouterActionModel::ToSession(seq![mode]), RouterActionModel::Status(STATUS_ACK)])
    } else if mode == event_type_id(EventType::RobotStart) || mode == event_type_id(
        EventType::RobotAuto,
    ) {
        (
            s,
            seq![
                RouterActionModel::ToSession(seq![mode]),
                RouterActionModel::Status(STATUS_ACK),
                RouterActionModel::TruncateLog,
                RouterActionModel::Listen,
            ],
        )
    } else {
        (s, seq![RouterActionModel::Status(STATUS_PRECONDITION)])
    }
}

/// A client asks to have its inputs forwarded.
pub open spec fn listener_effect(s: RouterModel) -> (RouterModel, Seq<RouterActionModel>) {
    if !s.live {
        (s, seq![RouterActionModel::Status(STATUS_ACK)])
    } else {
        (s, seq![RouterActionModel::Status(STATUS_LISTENING), RouterActionModel::Listen])
    }
}

/// A client asks for the devices.
pub open spec fn query_effect(s: RouterModel) -> (RouterModel, Seq<RouterActionModel>) {
    if !s.live {
        (s, seq![RouterActionModel::Status(DEVICES_ABSENT)])
    } else {
        (
            s,
            seq![
                RouterActionModel::ToSession(seq![event_type_id(EventType::RobotGiveDevices)]),
                RouterActionModel::AwaitDevices,
            ],
        )
    }
}

/// The session's devices reply is relayed to the client as it came: the
/// first byte, then, where there is telemetry, its length and the telemetry.
/// A reply that is not all there yet is not relayed, unless the session has
/// closed its socket: then the session is gone, and the client is told that
/// there is no telemetry.
pub open spec fn relay_effect(s: RouterModel, reply: Seq<u8>, closed: bool) -> (
    RouterModel,
    Seq<RouterActionModel>,
) {
    match devices_reply_at(reply) {
        DevicesReplyModel::Incomplete => if closed {
            (
                RouterModel { live: false, ..s },
                seq![RouterActionModel::CloseSession, RouterActionModel::Status(DEVICES_ABSENT)],
            )
        } else {
            (s, Seq::empty())
        },
        DevicesReplyModel::Absent => (s, seq![RouterActionModel::Status(DEVICES_ABSENT)]),
        DevicesReplyModel::Present(bytes) => (
            s,
            seq![
                RouterActionModel::Status(DEVICES_PRESENT),
                RouterActionModel::Body(reply.subrange(1, HEADER_SIZE + bytes.len())),
            ],
        ),
    }
}

/// The session could not be written to: it is gone, and no session is
/// recorded until a connect request succeeds.
pub open spec fn lost_effect(s: RouterModel) -> (RouterModel, Seq<RouterActionModel>) {
    (RouterModel { live: false, ..s }, seq![RouterActionModel::CloseSession])
}

/// An upload or download request arrives with its body.
pub open spec fn transfer_effect(s: RouterModel, upload: bool, body: Seq<u8>) -> (
    RouterModel,
    Seq<RouterActionModel>,
) {
    if s.robot_kind is None || s.remote_ip is None || !transfer_well_formed(body) {
        (s, seq![RouterActionModel::Status(STATUS_PRECONDITION)])
    } else {
        (
            s,
            seq![
                RouterActionModel::Probe(
                    TransferModel {
                        upload,
                        local_path: local_path_of(transfer_cwd(body), transfer_rel_path(body)),
                        host: s.remote_ip->Some_0,
                        kind: s.robot_kind->Some_0,
                    },
                ),
            ],
        )
    }
}

/// The local file of a transfer was looked for. A file to upload must be
/// there.
pub open spec fn admit_effect(s: RouterModel, transfer: TransferModel, file_exists: bool) -> (
    RouterModel,
    Seq<RouterActionModel>,
) {
    if transfer.upload && !file_exists {
        (s, seq![RouterActionModel::Status(STATUS_FAILED)])
    } else {
        (s, seq![RouterActionModel::Status(STATUS_OK), RouterActionModel::Move(transfer)])
    }
}

/// A file transfer ended.
pub open spec fn conclude_effect(s: RouterModel, outcome: TransferOutcome) -> (
    RouterModel,
    Seq<RouterActionModel>,
) {
    (s, seq![RouterActionModel::Status(transfer_status(outcome))])
}

/// A client asks the daemon to end.
pub open spec fn kill_effect(s: RouterModel) -> (RouterModel, Seq<RouterActionModel>) {
    (
        s,
        seq![
            RouterActionModel::RemoveSockets,
            RouterActionModel::Status(STATUS_OK),
            RouterActionModel::Exit(0),
        ],
    )
}

/// A vector that holds one byte.
fn single(byte: u8) -> (out: Vec<u8>)
    ensures
        out@ == seq![byte],
{
    let mut bytes: Vec<u8> = Vec::new();
    bytes.push(byte);
    assert(bytes@ =~= seq![byte]);
    bytes
}

/// The router.
pub struct Router {
    live: bool,
    remote_ip: Option<Vec<u8>>,
    robot_kind: Option<RobotKind>,
}

impl View for Router {
    type V = RouterModel;

    closed spec fn view(&self) -> RouterModel {
        RouterModel {
            live: self.live,
            remote_ip: match self.remote_ip {
                Some(host) => Some(host@),
                None => None,
            },
            robot_kind: self.robot_kind,
        }
    }
}

impl Router {
    /// A router that has served no request.
    pub fn new() -> (out: Router)
        ensures
            out@ == initial_router(),
    {
        Router { live: false, remote_ip: None, robot_kind: None }
    }

    /// Whether there is a session with a robot.
    pub fn has_session(&self) -> (out: bool)
        ensures
            out == self@.live,
    {
        self.live
    }

    /// The kind of robot that was connected to last.
    pub fn robot_kind(&self) -> (out: Option<RobotKind>)
        ensures
            out == self@.robot_kind,
    {
        self.robot_kind
    }

    /// A copy of the address given in the last connect request.
    pub fn remote_ip(&self) -> (out: Option<Vec<u8>>)
        ensures
            match out {
                Some(host) => self@.remote_ip == Some(host@),
                None => self@.remote_ip is None,
            },
    {
        match &self.remote_ip {
            Some(host) => Some(slice_to_vec(host.as_slice())),
            None => None,
        }
    }

    /// Serves a connect request up to the dial.
    pub fn begin_connect(&mut self, request: &ConnectRequest) -> (actions: Vec<RouterAction>)
        ensures
            (final(self)@, router_action_models(actions@)) == connect_effect(
                old(self)@,
                request.host@,
            ),
    {
        self.live = false;
        self.remote_ip = Some(slice_to_vec(request.host.as_slice()));
        let mut actions: Vec<RouterAction> = Vec::new();
        actions.push(RouterAction::Status(STATUS_ACK));
        actions.push(RouterAction::CloseSession);
        actions.push(RouterAction::Dial { host: slice_to_vec(request.host.as_slice()) });
        assert(router_action_models(actions@) =~= connect_effect(old(self)@, request.host@).1);
        actions
    }

    /// Concludes a connect request once the dial has ended.
    pub fn finish_connect(&mut self, request: &ConnectRequest, outcome: DialOutcome) -> (actions:
        Vec<RouterAction>)
        ensures
            (final(self)@, router_action_models(actions@)) == dialed_effect(
                old(self)@,
                request.kind,
                outcome,
            ),
    {
        let mut actions: Vec<RouterAction> = Vec::new();
        match outcome {
            DialOutcome::Linked => {
                self.live = true;
                self.robot_kind = RobotKind::from_byte(request.kind);
                actions.push(RouterAction::Status(STATUS_OK));
            },
            _ => {
                self.live = false;
                actions.push(RouterAction::CloseSession);
                actions.push(RouterAction::Status(STATUS_FAILED));
            },
        }
        assert(router_action_models(actions@) =~= dialed_effect(
            old(self)@,
            request.kind,
            outcome,
        ).1);
        actions
    }

    /// Serves a run request.
    pub fn handle_run(&self, mode: u8) -> (actions: Vec<RouterAction>)
        ensures
            router_action_models(actions@) == run_effect(self@, mode).1,
    {
        let mut actions: Vec<RouterAction> = Vec::new();
        if !self.live {
            actions.push(RouterAction::Status(STATUS_FAILED));
        } else if mode == EventType::RobotStop.id() {
            actions.push(RouterAction::ToSession(single(mode)));
            actions.push(RouterAction::Status(STATUS_ACK));
        } else if mode == EventType::RobotStart.id() || mode == EventType::RobotAuto.id() {
            actions.push(RouterAction::ToSession(single(mode)));
            actions.push(RouterAction::Status(STATUS_ACK));
            actions.push(RouterAction::TruncateLog);
            actions.push(RouterAction::Listen);
        } else {
            actions.push(RouterAction::Status(STATUS_PRECONDITION));
        }
        assert(router_action_models(actions@) =~= run_effect(self@, mode).1);
        actions
    }

    /// Serves a request to have inputs forwarded.
    pub fn handle_input_listener(&self) -> (actions: Vec<RouterAction>)
        ensures
            router_action_models(actions@) == listener_effect(self@).1,
    {
        let mut actions: Vec<RouterAction> = Vec::new();
        if !self.live {
            actions.push(RouterAction::Status(STATUS_ACK));
        } else {
            actions.push(RouterAction::Status(STATUS_LISTENING));
            actions.push(RouterAction::Listen);
        }
        assert(router_action_models(actions@) =~= listener_effect(self@).1);
        actions
    }

    /// Serves a devices query up to the session's reply.
    pub fn handle_query_devices(&self) -> (actions: Vec<RouterAction>)
        ensures
            router_action_models(actions@) == query_effect(self@).1,
    {
        let mut actions: Vec<RouterAction> = Vec::new();
        if !self.live {
            actions.push(RouterAction::Status(DEVICES_ABSENT));
        } else {
            actions.push(RouterAction::ToSession(single(EventType::RobotGiveDevices.id())));
            actions.push(RouterAction::AwaitDevices);
        }
        assert(router_action_models(actions@) =~= query_effect(self@).1);
        actions
    }

    /// Concludes a devices query with what was read of the session's reply;
    /// `closed` says whether the session has closed its socket. A reply that
    /// is not all there yet is not relayed: read on and call again.
    pub fn relay_devices(&mut self, reply: &[u8], closed: bool) -> (actions: Vec<RouterAction>)
        ensures
            (final(self)@, router_action_models(actions@)) == relay_effect(
                old(self)@,
                reply@,
                closed,
            ),
    {
        let mut actions: Vec<RouterAction> = Vec::new();
        match parse_devices_reply(reply) {
            DevicesReply::Incomplete => {
                if closed {
                    self.live = false;
                    actions.push(RouterAction::CloseSession);
                    actions.push(RouterAction::Status(DEVICES_ABSENT));
                }
            },
            DevicesReply::Absent => {
                actions.push(RouterAction::Status(DEVICES_ABSENT));
            },
            DevicesReply::Present(bytes) => {
                let body = slice_to_vec(slice_subrange(reply, 1, HEADER_SIZE + bytes.len()));
                actions.push(RouterAction::Status(DEVICES_PRESENT));
                actions.push(RouterAction::Body(body));
            },
        }
        assert(router_action_models(actions@) =~= relay_effect(old(self)@, reply@, closed).1);
        actions
    }

    /// The session could not be written to. It is given up.
    pub fn session_lost(&mut self) -> (actions: Vec<RouterAction>)
        ensures
            (final(self)@, router_action_models(actions@)) == lost_effect(old(self)@),
    {
        self.live = false;
        let mut actions: Vec<RouterAction> = Vec::new();
        actions.push(RouterAction::CloseSession);
        assert(router_action_models(actions@) =~= lost_effect(old(self)@).1);
        actions
    }

    /// Serves an upload or download request up to the look at the local
    /// file.
    pub fn handle_transfer(&self, upload: bool, body: &[u8]) -> (actions: Vec<RouterAction>)
        ensures
            router_action_models(actions@) == transfer_effect(self@, upload, body@).1,
    {
        let mut actions: Vec<RouterAction> = Vec::new();
        let names = parse_transfer(body);
        match (self.robot_kind, &self.remote_ip, names) {
            (Some(kind), Some(host), Some(names)) => {
                actions.push(
                    RouterAction::Probe(
                        Transfer {
                            upload,
                            local_path: local_path(&names),
                            host: slice_to_vec(host.as_slice()),
                            kind,
                        },
                    ),
                );
            },
            _ => {
                actions.push(RouterAction::Status(STATUS_PRECONDITION));
            },
        }
        assert(router_action_models(actions@) =~= transfer_effect(self@, upload, body@).1);
        actions
    }

    /// Goes on with a transfer once the local file has been looked for.
    pub fn admit_transfer(&self, transfer: Transfer, file_exists: bool) -> (actions: Vec<
        RouterAction,
    >)
        ensures
            router_action_models(actions@) == admit_effect(self@, transfer@, file_exists).1,
    {
        let mut actions: Vec<RouterAction> = Vec::new();
        if transfer.upload && !file_exists {
            actions.push(RouterAction::Status(STATUS_FAILED));
        } else {
            actions.push(RouterAction::Status(STATUS_OK));
            actions.push(RouterAction::Move(transfer));
        }
        assert(router_action_models(actions@) =~= admit_effect(self@, transfer@, file_exists).1);
        actions
    }

    /// Concludes a transfer once the file has moved, or has not.
    pub fn conclude_transfer(&self, outcome: TransferOutcome) -> (actions: Vec<RouterAction>)
        ensures
            router_action_models(actions@) == conclude_effect(self@, outcome).1,
    {
        let mut actions: Vec<RouterAction> = Vec::new();
        actions.push(RouterAction::Status(outcome.status()));
        assert(router_action_models(actions@) =~= conclude_effect(self@, outcome).1);
        actions
    }

    /// Serves a kill request.
    pub fn handle_kill(&self) -> (actions: Vec<RouterAction>)
        ensures
            router_action_models(actions@) == kill_effect(self@).1,
    {
        let mut actions: Vec<RouterAction> = Vec::new();
        actions.push(RouterAction::RemoveSockets);
        actions.push(RouterAction::Status(STATUS_OK));
        actions.push(RouterAction::Exit(0));
        assert(router_action_models(actions@) =~= kill_effect(self@).1);
        actions
    }
}

} // verus!
