//! The decisions of a client session of the simulation server: what each
//! remote call asks the server to do, given what the session has done so far.
//! Reading the calls, running the simulation and writing the replies is the
//! caller's work; it reports back when a plane has been pushed.

use vstd::prelude::*;
use vstd::string::*;

verus! {

/// The kind of arguments a decoded remote call carried.
#[derive(Debug, Clone, Copy, PartialEq, Eq, Structural)]
pub enum RpcArgs {
    /// The call carried no arguments.
    Absent,
    /// The arguments of a `PushPlane` call.
    PushPlane,
    /// The arguments of a `SendControl` call.
    SendControl,
}

/// The signal shared by the sessions of a server that lets the simulation
/// step: it is red while a plane is being pushed.
#[derive(Debug, Clone, Copy, PartialEq, Eq, Structural)]
pub enum RunSignal {
    Green,
    Red,
}

/// The run signal once the call named `name` has been looked at: a
/// `PushPlane` call from a client without a plane stops the run (whatever
/// its arguments; it stays stopped when they are wrong); any other call
/// leaves the signal as it is.
pub open spec fn rpc_signal(session: RpcSession, name: Seq<char>, signal: RunSignal) -> RunSignal {
    if name == "PushPlane"@ && !session.has_plane {
        RunSignal::Red
    } else {
        signal
    }
}

/// What the server's stepping loop does next.
#[derive(Debug, Clone, Copy, PartialEq, Eq, Structural)]
pub enum StepTurn {
    /// The server is shutting down: the loop ends.
    Stop,
    /// Step the simulation once.
    Step,
    /// Let the other tasks run and look again.
    Yield,
}

/// The stepping loop's turn: it ends once the server is cancelled, and
/// otherwise steps only while there is at least one plane and the run
/// signal is green.
pub open spec fn step_turn_of(cancelled: bool, plane_count: usize, signal: RunSignal) -> StepTurn {
    if cancelled {
        StepTurn::Stop
    } else if plane_count >= 1 && signal == RunSignal::Green {
        StepTurn::Step
    } else {
        StepTurn::Yield
    }
}

/// Decides the stepping loop's next turn.
pub fn step_turn(cancelled: bool, plane_count: usize, signal: RunSignal) -> (t: StepTurn)
    ensures
        t == step_turn_of(cancelled, plane_count, signal),
{
    if cancelled {
        StepTurn::Stop
    } else if plane_count >= 1 && signal == RunSignal::Green {
        StepTurn::Step
    } else {
        StepTurn::Yield
    }
}

/// What a client session has done so far.
#[derive(Debug, Clone, Copy, PartialEq, Eq, Structural)]
pub struct RpcSession {
    /// A plane has been pushed for this client, and a controller set for it.
    pub has_plane: bool,
    /// The instant of the client's last tick, in nanoseconds on the caller's
    /// monotonic clock; the session's start until the first tick.
    pub last_tick: u64,
}

/// What the server does in answer to one remote call.
#[derive(Debug)]
pub enum RpcAction {
    /// Reply with the information and state of every model.
    ReplyModelInfos,
    /// Push a plane for the requested model, set its controller, reply with
    /// its id and announce it to every client.
    PushPlane,
    /// Forward the control to the controller of the client's plane.
    ForwardControl,
    /// Restart the client's tick timer.
    RecordTick,
    /// Reply to the call named `name` with the error `message`.
    ReplyError { name: String, message: String },
    /// Nothing is done.
    Ignore,
}

/// An action, with its texts as sequences of characters.
pub enum RpcPlan {
    ReplyModelInfos,
    PushPlane,
    ForwardControl,
    RecordTick,
    ReplyError(Seq<char>, Seq<char>),
    Ignore,
}

impl View for RpcAction {
    type V = RpcPlan;

    open spec fn view(&self) -> RpcPlan {
        match self {
            RpcAction::ReplyModelInfos => RpcPlan::ReplyModelInfos,
            RpcAction::PushPlane => RpcPlan::PushPlane,
            RpcAction::ForwardControl => RpcPlan::ForwardControl,
            RpcAction::RecordTick => RpcPlan::RecordTick,
            RpcAction::ReplyError { name, message } => RpcPlan::ReplyError(name@, message@),
            RpcAction::Ignore => RpcPlan::Ignore,
        }
    }
}

/// The message of the error answered to a call with arguments of the wrong
/// kind.
pub open spec fn invalid_args_text() -> Seq<char> {
    "Invalid RPC args"@
}

/// The message of the error answered to a call of unknown name.
pub open spec fn invalid_command_text(name: Seq<char>) -> Seq<char> {
    "Invalid RPC command: "@ + name
}

/// What the server does for the call named `name` with arguments `args`:
/// - `GetModelInfos` is always answered with the models;
/// - `PushPlane` pushes a plane when the client has none yet and the call
///   carries push arguments, answers an argument error when it carries
///   other ones, and is ignored once the client has a plane;
/// - `SendControl` forwards the control when the client has a plane and the
///   call carries control arguments, answers an argument error when it
///   carries other ones, and is ignored while the client has no plane;
/// - `Tick` restarts the tick timer;
/// - any other name is answered with an error that names it.
pub open spec fn rpc_plan(session: RpcSession, name: Seq<char>, args: RpcArgs) -> RpcPlan {
    if name == "GetModelInfos"@ {
        RpcPlan::ReplyModelInfos
    } else if name == "PushPlane"@ {
        if session.has_plane {
            RpcPlan::Ignore
        } else if args == RpcArgs::PushPlane {
            RpcPlan::PushPlane
        } else {
            RpcPlan::ReplyError("PushPlane"@, invalid_args_text())
        }
    } else if name == "SendControl"@ {
        if !session.has_plane {
            RpcPlan::Ignore
        } else if args == RpcArgs::SendControl {
            RpcPlan::ForwardControl
        } else {
            RpcPlan::ReplyError("SendControl"@, invalid_args_text())
        }
    } else if name == "Tick"@ {
        RpcPlan::RecordTick
    } else {
        RpcPlan::ReplyError(name, invalid_command_text(name))
    }
}

impl RpcSession {
    /// A session started at instant `now` that has done nothing yet.
    pub fn new(now: u64) -> (s: Self)
        ensures
            !s.has_plane,
            s.last_tick == now,
    {
        RpcSession { has_plane: false, last_tick: now }
    }

    /// Decides what to do for the call named `name` with arguments `args`,
    /// and stops the run while a plane is pushed.
    pub fn decide(&self, name: &str, args: RpcArgs, signal: &mut RunSignal) -> (a: RpcAction)
        ensures
            a@ == rpc_plan(*self, name@, args),
            *final(signal) == rpc_signal(*self, name@, *old(signal)),
    {
        let name = String::from_str(name);
        if name == String::from_str("GetModelInfos") {
            proof {
                reveal_strlit("GetModelInfos");
                reveal_strlit("PushPlane");
                assert("GetModelInfos"@.len() != "PushPlane"@.len());
            }
            RpcAction::ReplyModelInfos
        } else if name == String::from_str("PushPlane") {
            if !self.has_plane {
                *signal = RunSignal::Red;
            }
            if self.has_plane {
                RpcAction::Ignore
            } else if args == RpcArgs::PushPlane {
                RpcAction::PushPlane
            } else {
                RpcAction::ReplyError {
                    name: String::from_str("PushPlane"),
                    message: String::from_str("Invalid RPC args"),
                }
            }
        } else if name == String::from_str("SendControl") {
            if !self.has_plane {
                RpcAction::Ignore
            } else if args == RpcArgs::SendControl {
                RpcAction::ForwardControl
            } else {
                RpcAction::ReplyError {
                    name: String::from_str("SendControl"),
                    message: String::from_str("Invalid RPC args"),
                }
            }
        } else if name == String::from_str("Tick") {
            RpcAction::RecordTick
        } else {
            let message = String::from_str("Invalid RPC command: ").concat(name.as_str());
            RpcAction::ReplyError { name, message }
        }
    }

    /// Records that a plane has been pushed for the client and its
    /// controller set, which lets the run go on.
    pub fn record_plane(&mut self, signal: &mut RunSignal)
        ensures
            *final(self) == (RpcSession { has_plane: true, ..*old(self) }),
            *final(signal) == RunSignal::Green,
    {
        self.has_plane = true;
        *signal = RunSignal::Green;
    }

    /// Records a tick of the client at instant `now`.
    pub fn record_tick(&mut self, now: u64)
        ensures
            *final(self) == (RpcSession { last_tick: now, ..*old(self) }),
    {
        self.last_tick = now;
    }

    /// Whether the client missed its tick: more than `tick_timeout`
    /// milliseconds passed from its last tick to the instant `now`, which
    /// ends the session.
    pub fn tick_timed_out(&self, now: u64, tick_timeout: u64) -> (r: bool)
        ensures
            r == tick_missed(self.last_tick, now, tick_timeout),
    {
        if now <= self.last_tick {
            false
        } else {
            ((now - self.last_tick) as u128) > (tick_timeout as u128) * 1_000_000u128
        }
    }
}

/// More than `tick_timeout` milliseconds passed from the instant `last_tick`
/// to the instant `now` (instants in nanoseconds; time does not run
/// backwards, so an earlier `now` means no time passed).
pub open spec fn tick_missed(last_tick: u64, now: u64, tick_timeout: u64) -> bool {
    now > last_tick && now - last_tick > tick_timeout * 1_000_000
}

/// A client that ticks keeps its session: right after a tick at `t`, the
/// session times out at no instant up to `tick_timeout` milliseconds later,
/// and at every instant beyond.
pub proof fn ticks_keep_the_session(t: u64, now: u64, tick_timeout: u64)
    ensures
        now <= t + tick_timeout * 1_000_000 ==> !tick_missed(t, now, tick_timeout),
        now > t + tick_timeout * 1_000_000 ==> tick_missed(t, now, tick_timeout),
{
}

/// A client pushes at most one plane: once it has one, a `PushPlane` call is
/// ignored whatever it carries, and only a `PushPlane` call with push
/// arguments, from a client without a plane, pushes one.
pub proof fn one_plane_per_client(session: RpcSession, name: Seq<char>, args: RpcArgs)
    ensures
        session.has_plane ==> rpc_plan(session, "PushPlane"@, args) is Ignore,
        rpc_plan(session, name, args) is PushPlane <==> (name == "PushPlane"@ && !session.has_plane
            && args == RpcArgs::PushPlane),
{
    reveal_strlit("GetModelInfos");
    reveal_strlit("PushPlane");
    assert("PushPlane"@.len() != "GetModelInfos"@.len());
}

/// The run stops for a `PushPlane` call from a client without a plane, and
/// no other call changes the run signal.
pub proof fn pushing_stops_the_run(session: RpcSession, name: Seq<char>, signal: RunSignal)
    ensures
        !session.has_plane ==> rpc_signal(session, "PushPlane"@, signal) == RunSignal::Red,
        name != "PushPlane"@ ==> rpc_signal(session, name, signal) == signal,
        session.has_plane ==> rpc_signal(session, name, signal) == signal,
{
}

/// Controls are forwarded only for a client that has a plane, and only from
/// a `SendControl` call with control arguments.
pub proof fn controls_need_a_plane(session: RpcSession, name: Seq<char>, args: RpcArgs)
    ensures
        rpc_plan(session, name, args) is ForwardControl <==> (name == "SendControl"@
            && session.has_plane && args == RpcArgs::SendControl),
{
    reveal_strlit("GetModelInfos");
    reveal_strlit("PushPlane");
    reveal_strlit("SendControl");
    assert("SendControl"@.len() != "GetModelInfos"@.len());
    assert("SendControl"@.len() != "PushPlane"@.len());
}

/// Every call of a name the server does not know is answered with an error
/// under that name, whose message names it.
pub proof fn unknown_calls_are_answered(session: RpcSession, name: Seq<char>, args: RpcArgs)
    requires
        name != "GetModelInfos"@,
        name != "PushPlane"@,
        name != "SendControl"@,
        name != "Tick"@,
    ensures
        rpc_plan(session, name, args) == RpcPlan::ReplyError(name, invalid_command_text(name)),
{
}

/// A `Tick` call always restarts the client's tick timer, whether or not the
/// client has a plane and whatever arguments it carries.
pub proof fn ticks_are_always_recorded(session: RpcSession, args: RpcArgs)
    ensures
        rpc_plan(session, "Tick"@, args) == RpcPlan::RecordTick,
        rpc_signal(session, "Tick"@, RunSignal::Green) == RunSignal::Green,
{
    reveal_strlit("Tick");
    reveal_strlit("GetModelInfos");
    reveal_strlit("PushPlane");
    reveal_strlit("SendControl");
    assert("Tick"@.len() != "GetModelInfos"@.len());
    assert("Tick"@.len() != "PushPlane"@.len());
    assert("Tick"@.len() != "SendControl"@.len());
}

/// A `GetModelInfos` call is always answered with the models, whatever the
/// session has done and whatever arguments it carries.
pub proof fn model_infos_are_always_answered(session: RpcSession, args: RpcArgs)
    ensures
        rpc_plan(session, "GetModelInfos"@, args) == RpcPlan::ReplyModelInfos,
{
}

/// A cancelled server always stops its stepping loop, whatever the planes
/// and the run signal; a running one steps exactly when it has a plane and
/// the signal is green, and otherwise yields.
pub proof fn stepping_follows_cancellation_planes_and_signal(
    cancelled: bool,
    plane_count: usize,
    signal: RunSignal,
)
    ensures
        cancelled ==> step_turn_of(cancelled, plane_count, signal) == StepTurn::Stop,
        step_turn_of(cancelled, plane_count, signal) == StepTurn::Step <==> (!cancelled && plane_count
            > 0 && signal == RunSignal::Green),
        step_turn_of(cancelled, plane_count, signal) == StepTurn::Yield <==> (!cancelled && (
        plane_count == 0 || signal == RunSignal::Red)),
{
}

} // verus!
