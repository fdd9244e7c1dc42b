use vstd::prelude::*;
use crate::events::{
    connect_state_action, on_connect_state, on_token_state, token_state_action, ConnectState,
    SupervisorAction, TokenAction, TokenState,
};
use crate::reconnect::{ReconnectAttempt, ReconnectScheduler, RECONNECT_JITTER_SECS};

verus! {

/// What the runtime must carry out after the supervisor has seen one event.
#[derive(Clone, Copy, Debug, PartialEq, Eq, Structural)]
pub enum SessionEffect {
    /// Nothing to do.
    Nothing,
    /// Cancel any pending reconnect, wait `attempt.delay_secs`, then connect
    /// if the attempt is still live.
    Reconnect(ReconnectAttempt),
    /// Ask the auth client for a fresh token.
    RefreshToken,
    /// Close the transport.
    Disconnect,
}

/// The decisions of one session, driven by its connectivity and token
/// streams; it owns the single-flight reconnect scheduler that both streams
/// share.
#[derive(Debug)]
pub struct ConnectionSupervisor {
    scheduler: ReconnectScheduler,
}

impl ConnectionSupervisor {
    /// The reconnect scheduler shared by both event streams.
    pub closed spec fn scheduler(&self) -> ReconnectScheduler {
        self.scheduler
    }

    /// A supervisor with no reconnect pending.
    pub fn new() -> (r: ConnectionSupervisor)
        ensures
            r.scheduler().issued_count() == 0,
            forall|a: ReconnectAttempt| !r.scheduler().live(a),
    {
        ConnectionSupervisor { scheduler: ReconnectScheduler::new() }
    }

    /// Whether another reconnect can still be scheduled.
    pub fn can_schedule(&self) -> (r: bool)
        ensures
            r == (self.scheduler().issued_count() < u64::MAX),
    {
        self.scheduler.can_schedule()
    }

    /// Handles one connectivity event. A lost or timed-out connection
    /// schedules a reconnect, only while the auth client is alive and sync is
    /// enabled; an unauthorized one asks for a token refresh; anything else
    /// changes nothing.
    pub fn handle_connect_state(
        &mut self,
        state: ConnectState,
        auth_client_alive: bool,
        sync_enabled: bool,
    ) -> (r: SessionEffect)
        requires
            connect_state_action(state, auth_client_alive, sync_enabled) is ScheduleReconnect
                ==> old(self).scheduler().issued_count() < u64::MAX,
        ensures
            match connect_state_action(state, auth_client_alive, sync_enabled) {
                SupervisorAction::ScheduleReconnect { minimum_delay_secs } => {
                    &&& r matches SessionEffect::Reconnect(a)
                    &&& minimum_delay_secs <= a.delay_secs < minimum_delay_secs
                        + RECONNECT_JITTER_SECS
                    &&& a.id == final(self).scheduler().issued_count()
                    &&& final(self).scheduler().issued_count() == old(
                        self,
                    ).scheduler().issued_count() + 1
                    &&& final(self).scheduler().live(a)
                },
                SupervisorAction::RefreshToken => {
                    &&& r == SessionEffect::RefreshToken
                    &&& final(self).scheduler() == old(self).scheduler()
                },
                SupervisorAction::Ignore => {
                    &&& r == SessionEffect::Nothing
                    &&& final(self).scheduler() == old(self).scheduler()
                },
            },
    {
        match on_connect_state(state, auth_client_alive, sync_enabled) {
            SupervisorAction::ScheduleReconnect { minimum_delay_secs } => {
                SessionEffect::Reconnect(self.scheduler.schedule_reconnect(minimum_delay_secs))
            },
            SupervisorAction::RefreshToken => SessionEffect::RefreshToken,
            SupervisorAction::Ignore => SessionEffect::Nothing,
        }
    }

    /// Handles one raw token event: a refresh schedules a reconnect under the
    /// new token, an invalid token disconnects and schedules nothing.
    pub fn handle_token_state(&mut self, state: TokenState) -> (r: SessionEffect)
        requires
            token_state_action(state) is ScheduleReconnect ==> old(self).scheduler().issued_count()
                < u64::MAX,
        ensures
            match token_state_action(state) {
                TokenAction::ScheduleReconnect { minimum_delay_secs } => {
                    &&& r matches SessionEffect::Reconnect(a)
                    &&& minimum_delay_secs <= a.delay_secs < minimum_delay_secs
                        + RECONNECT_JITTER_SECS
                    &&& a.id == final(self).scheduler().issued_count()
                    &&& final(self).scheduler().issued_count() == old(
                        self,
                    ).scheduler().issued_count() + 1
                    &&& final(self).scheduler().live(a)
                },
                TokenAction::Disconnect => {
                    &&& r == SessionEffect::Disconnect
                    &&& final(self).scheduler() == old(self).scheduler()
                },
            },
    {
        match on_token_state(state) {
            TokenAction::ScheduleReconnect { minimum_delay_secs } => {
                SessionEffect::Reconnect(self.scheduler.schedule_reconnect(minimum_delay_secs))
            },
            TokenAction::Disconnect => SessionEffect::Disconnect,
        }
    }

    /// Asked when an attempt's delay has elapsed: connect only if no later
    /// attempt has superseded it.
    pub fn should_connect(&self, attempt: &ReconnectAttempt) -> (r: bool)
        ensures
            r == self.scheduler().live(*attempt),
    {
        self.scheduler.is_live(attempt)
    }
}

/// With sync disabled, a lost or timed-out connection calls for no action,
/// whether or not the auth client is alive; by the contract of
/// `handle_connect_state` the scheduler is then left as it was.
pub proof fn lemma_sync_gate(state: ConnectState, auth_client_alive: bool)
    requires
        state == ConnectState::Lost || state == ConnectState::PingTimeout,
    ensures
        connect_state_action(state, auth_client_alive, false) == SupervisorAction::Ignore,
{
}

} // verus!
