use vstd::prelude::*;

verus! {

/// Connectivity state reported by the streaming transport.
#[derive(Clone, Copy, Debug, PartialEq, Eq, Structural)]
pub enum ConnectState {
    Connecting,
    Connected,
    Disconnected,
    PingTimeout,
    Lost,
    Unauthorized,
}

/// Raw token signal emitted by the auth client.
#[derive(Clone, Copy, Debug, PartialEq, Eq, Structural)]
pub enum TokenState {
    Refresh,
    Invalid,
}

/// Delay floor, in seconds, for a reconnect after the connection was lost or
/// timed out.
pub const LOST_RECONNECT_MIN_DELAY_SECS: u64 = 2;

/// Delay floor, in seconds, for a reconnect after the token was refreshed.
pub const TOKEN_RECONNECT_MIN_DELAY_SECS: u64 = 5;

/// What the connection supervisor does in answer to one connectivity event.
#[derive(Clone, Copy, Debug, PartialEq, Eq, Structural)]
pub enum SupervisorAction {
    /// Nothing: the event is only relayed to subscribers.
    Ignore,
    /// Schedule a reconnect no sooner than the given number of seconds.
    ScheduleReconnect { minimum_delay_secs: u64 },
    /// Ask the auth client for a fresh token (fire and forget).
    RefreshToken,
}

/// What the token bridge does in answer to one raw token event.
#[derive(Clone, Copy, Debug, PartialEq, Eq, Structural)]
pub enum TokenAction {
    /// Schedule a reconnect no sooner than the given number of seconds.
    ScheduleReconnect { minimum_delay_secs: u64 },
    /// Close the transport; nothing is rescheduled.
    Disconnect,
}

/// The supervisor's transition table.
pub open spec fn connect_state_action(
    state: ConnectState,
    auth_client_alive: bool,
    sync_enabled: bool,
) -> SupervisorAction {
    match state {
        ConnectState::PingTimeout | ConnectState::Lost => {
            if auth_client_alive && sync_enabled {
                SupervisorAction::ScheduleReconnect {
                    minimum_delay_secs: LOST_RECONNECT_MIN_DELAY_SECS,
                }
            } else {
                SupervisorAction::Ignore
            }
        },
        ConnectState::Unauthorized => {
            if auth_client_alive {
                SupervisorAction::RefreshToken
            } else {
                SupervisorAction::Ignore
            }
        },
        _ => SupervisorAction::Ignore,
    }
}

/// The token bridge's transition table.
pub open spec fn token_state_action(state: TokenState) -> TokenAction {
    match state {
        TokenState::Refresh => TokenAction::ScheduleReconnect {
            minimum_delay_secs: TOKEN_RECONNECT_MIN_DELAY_SECS,
        },
        TokenState::Invalid => TokenAction::Disconnect,
    }
}

/// Decides the supervisor's reaction to a connectivity event, given whether
/// the auth client is still alive and whether sync is enabled at this moment.
pub fn on_connect_state(
    state: ConnectState,
    auth_client_alive: bool,
    sync_enabled: bool,
) -> (r: SupervisorAction)
    ensures
        r == connect_state_action(state, auth_client_alive, sync_enabled),
        !sync_enabled ==> !(r is ScheduleReconnect),
{
    match state {
        ConnectState::PingTimeout | ConnectState::Lost => {
            if auth_client_alive && sync_enabled {
                SupervisorAction::ScheduleReconnect {
                    minimum_delay_secs: LOST_RECONNECT_MIN_DELAY_SECS,
                }
            } else {
                SupervisorAction::Ignore
            }
        },
        ConnectState::Unauthorized => {
            if auth_client_alive {
                SupervisorAction::RefreshToken
            } else {
                SupervisorAction::Ignore
            }
        },
        _ => SupervisorAction::Ignore,
    }
}

/// Decides the token bridge's reaction to a raw token event: a refresh
/// re-establishes the channel under the new token, an invalid token tears it
/// down.
pub fn on_token_state(state: TokenState) -> (r: TokenAction)
    ensures
        r == token_state_action(state),
        state == TokenState::Invalid ==> r == TokenAction::Disconnect,
{
    match state {
        TokenState::Refresh => TokenAction::ScheduleReconnect {
            minimum_delay_secs: TOKEN_RECONNECT_MIN_DELAY_SECS,
        },
        TokenState::Invalid => TokenAction::Disconnect,
    }
}

} // verus!
