use vstd::prelude::*;

verus! {

/// Milliseconds between two looks at whether DHCP has configured the network.
pub const DHCP_POLL_MS: u64 = 100;

/// How far the console has got in bringing up its WiFi connection.
#[derive(Clone, Copy, PartialEq, Eq, Debug, Structural)]
pub enum NetPhase {
    /// Joining the WiFi network, trying again after each failure.
    Joining,
    /// Joined; waiting until DHCP has configured the network.
    AwaitingDhcp,
    /// The network is up and the console has been started.
    Online,
}

/// What the firmware reports back after carrying out an action.
#[derive(Clone, Copy, PartialEq, Eq, Debug, Structural)]
pub enum NetEvent {
    /// The join attempt succeeded.
    Joined,
    /// The join attempt failed.
    JoinFailed,
    /// DHCP has configured the network.
    ConfigUp,
    /// DHCP has not configured the network yet.
    ConfigPending,
}

/// What the firmware is to do next, in order.
#[derive(Clone, Copy, PartialEq, Eq, Debug, Structural)]
pub enum NetAction {
    /// Try to join the WiFi network.
    Join,
    /// Log the failed join attempt with its error.
    ReportJoinFailure,
    /// Log that the console waits for DHCP.
    AnnounceDhcpWait,
    /// Look whether DHCP has configured the network.
    CheckConfig,
    /// Wait `DHCP_POLL_MS` milliseconds.
    Sleep,
    /// Log that DHCP is up.
    AnnounceOnline,
    /// Switch the connection light on.
    LightOn,
    /// Start the console's display task.
    StartConsole,
}

/// What bringing up the network starts with: a join attempt.
pub open spec fn net_start_spec() -> (NetPhase, Seq<NetAction>) {
    (NetPhase::Joining, seq![NetAction::Join])
}

/// The phase and actions after an event: a failed join is logged and tried
/// again; a successful join starts the wait for DHCP, which looks at the
/// configuration, sleeps while it is pending, and on success announces it,
/// switches the light on and starts the console. An event that does not
/// belong to the phase changes nothing.
pub open spec fn net_step_spec(phase: NetPhase, event: NetEvent) -> (NetPhase, Seq<NetAction>) {
    match (phase, event) {
        (NetPhase::Joining, NetEvent::JoinFailed) => (NetPhase::Joining, seq![NetAction::ReportJoinFailure, NetAction::Join]),
        (NetPhase::Joining, NetEvent::Joined) => (NetPhase::AwaitingDhcp, seq![NetAction::AnnounceDhcpWait, NetAction::CheckConfig]),
        (NetPhase::AwaitingDhcp, NetEvent::ConfigPending) => (NetPhase::AwaitingDhcp, seq![NetAction::Sleep, NetAction::CheckConfig]),
        (NetPhase::AwaitingDhcp, NetEvent::ConfigUp) => (
            NetPhase::Online,
            seq![NetAction::AnnounceOnline, NetAction::LightOn, NetAction::StartConsole],
        ),
        _ => (phase, Seq::empty()),
    }
}

/// What bringing up the network starts with: a join attempt.
pub fn net_start() -> (res: (NetPhase, Vec<NetAction>))
    ensures
        (res.0, res.1@) == net_start_spec(),
{
    (NetPhase::Joining, vec![NetAction::Join])
}

/// The next phase and the actions to carry out after `event`.
pub fn net_step(phase: NetPhase, event: NetEvent) -> (res: (NetPhase, Vec<NetAction>))
    ensures
        (res.0, res.1@) == net_step_spec(phase, event),
{
    let mut actions: Vec<NetAction> = Vec::new();
    let next = match (phase, event) {
        (NetPhase::Joining, NetEvent::JoinFailed) => {
            actions.push(NetAction::ReportJoinFailure);
            actions.push(NetAction::Join);
            NetPhase::Joining
        },
        (NetPhase::Joining, NetEvent::Joined) => {
            actions.push(NetAction::AnnounceDhcpWait);
            actions.push(NetAction::CheckConfig);
            NetPhase::AwaitingDhcp
        },
        (NetPhase::AwaitingDhcp, NetEvent::ConfigPending) => {
            actions.push(NetAction::Sleep);
            actions.push(NetAction::CheckConfig);
            NetPhase::AwaitingDhcp
        },
        (NetPhase::AwaitingDhcp, NetEvent::ConfigUp) => {
            actions.push(NetAction::AnnounceOnline);
            actions.push(NetAction::LightOn);
            actions.push(NetAction::StartConsole);
            NetPhase::Online
        },
        _ => phase,
    };
    assert(actions@ =~= net_step_spec(phase, event).1);
    (next, actions)
}

} // verus!
