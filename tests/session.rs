use std::sync::Arc;

use af_session::events::{
    on_connect_state, on_token_state, ConnectState, SupervisorAction, TokenAction, TokenState,
    LOST_RECONNECT_MIN_DELAY_SECS, TOKEN_RECONNECT_MIN_DELAY_SECS,
};
use af_session::reconnect::{reconnect_delay_secs, ReconnectScheduler, RECONNECT_JITTER_SECS};
use af_session::server::{
    bind_sub_channel, resolve_device_id, token_restore_result, AFServer, AFServerImpl, AppFlowyCloudServer,
    ServerError,
};
use af_session::supervisor::{ConnectionSupervisor, SessionEffect};
use af_session::token::{observe_token_state, TokenStateWatch, UserTokenState};

#[test]
fn lost_and_ping_timeout_reconnect_when_sync_enabled() {
    for state in [ConnectState::Lost, ConnectState::PingTimeout] {
        assert_eq!(
            on_connect_state(state, true, true),
            SupervisorAction::ScheduleReconnect { minimum_delay_secs: 2 }
        );
    }
    assert_eq!(LOST_RECONNECT_MIN_DELAY_SECS, 2);
}

#[test]
fn sync_disabled_blocks_reconnect() {
    for state in [ConnectState::Lost, ConnectState::PingTimeout] {
        assert_eq!(on_connect_state(state, true, false), SupervisorAction::Ignore);
        assert_eq!(on_connect_state(state, false, true), SupervisorAction::Ignore);
    }
}

#[test]
fn sync_disabled_event_is_not_replayed_after_enabling() {
    let mut sup = ConnectionSupervisor::new();
    assert_eq!(sup.handle_connect_state(ConnectState::Lost, true, false), SessionEffect::Nothing);
    // Sync turned back on: the stale event produced nothing, and a later
    // informational event still produces nothing.
    assert_eq!(
        sup.handle_connect_state(ConnectState::Connected, true, true),
        SessionEffect::Nothing
    );
    match sup.handle_connect_state(ConnectState::Lost, true, true) {
        SessionEffect::Reconnect(a) => assert_eq!(a.id, 1),
        other => panic!("unexpected effect {:?}", other),
    }
}

#[test]
fn unauthorized_requests_refresh_only() {
    assert_eq!(on_connect_state(ConnectState::Unauthorized, true, true), SupervisorAction::RefreshToken);
    assert_eq!(on_connect_state(ConnectState::Unauthorized, true, false), SupervisorAction::RefreshToken);
    assert_eq!(on_connect_state(ConnectState::Unauthorized, false, true), SupervisorAction::Ignore);
}

#[test]
fn informational_states_are_ignored() {
    for state in [ConnectState::Connected, ConnectState::Connecting, ConnectState::Disconnected] {
        assert_eq!(on_connect_state(state, true, true), SupervisorAction::Ignore);
    }
}

#[test]
fn token_events_map_to_reconnect_or_disconnect() {
    assert_eq!(
        on_token_state(TokenState::Refresh),
        TokenAction::ScheduleReconnect { minimum_delay_secs: 5 }
    );
    assert_eq!(TOKEN_RECONNECT_MIN_DELAY_SECS, 5);
    assert_eq!(on_token_state(TokenState::Invalid), TokenAction::Disconnect);
}

#[test]
fn jitter_stays_in_window_and_varies() {
    for d in [2u64, 5u64, 0u64] {
        let mut seen = std::collections::HashSet::new();
        for _ in 0..300 {
            let delay = reconnect_delay_secs(d);
            assert!(delay >= d && delay < d + 10, "delay {} out of range for {}", delay, d);
            seen.insert(delay);
        }
        assert!(seen.len() > 1, "delays were constant");
    }
    assert_eq!(RECONNECT_JITTER_SECS, 10);
}

#[test]
fn only_last_of_a_burst_stays_live() {
    let mut s = ReconnectScheduler::new();
    let attempts: Vec<_> = (0..5).map(|_| s.schedule_reconnect(2)).collect();
    for (i, a) in attempts.iter().enumerate() {
        assert_eq!(s.is_live(a), i == 4);
        assert_eq!(a.id, i as u64 + 1);
    }
}

#[test]
fn issue_keeps_given_delay() {
    let mut s = ReconnectScheduler::new();
    assert!(s.can_schedule());
    let a = s.issue(7);
    assert_eq!(a.delay_secs, 7);
    assert!(s.is_live(&a));
    let b = s.issue(3);
    assert!(!s.is_live(&a));
    assert!(s.is_live(&b));
}

#[test]
fn lost_schedules_one_attempt_in_window() {
    let mut sup = ConnectionSupervisor::new();
    match sup.handle_connect_state(ConnectState::Lost, true, true) {
        SessionEffect::Reconnect(a) => {
            assert!(a.delay_secs >= 2 && a.delay_secs < 12);
            assert!(sup.should_connect(&a));
        },
        other => panic!("unexpected effect {:?}", other),
    }
}

#[test]
fn two_lost_events_leave_one_connect() {
    let mut sup = ConnectionSupervisor::new();
    let first = match sup.handle_connect_state(ConnectState::Lost, true, true) {
        SessionEffect::Reconnect(a) => a,
        other => panic!("unexpected effect {:?}", other),
    };
    let second = match sup.handle_connect_state(ConnectState::Lost, true, true) {
        SessionEffect::Reconnect(a) => a,
        other => panic!("unexpected effect {:?}", other),
    };
    assert!(!sup.should_connect(&first));
    assert!(sup.should_connect(&second));
}

#[test]
fn invalid_token_disconnects_without_reconnect() {
    let mut sup = ConnectionSupervisor::new();
    let pending = match sup.handle_token_state(TokenState::Refresh) {
        SessionEffect::Reconnect(a) => a,
        other => panic!("unexpected effect {:?}", other),
    };
    assert!(pending.delay_secs >= 5 && pending.delay_secs < 15);
    assert_eq!(sup.handle_token_state(TokenState::Invalid), SessionEffect::Disconnect);
    // No new attempt was issued by the invalid token.
    assert!(sup.should_connect(&pending));

    let mut watch = TokenStateWatch::new();
    assert!(watch.publish(TokenState::Invalid, None));
    assert!(matches!(watch.current(), UserTokenState::Invalid));
}

#[test]
fn token_watch_starts_at_init_and_never_returns_to_it() {
    let mut watch = TokenStateWatch::new();
    assert!(matches!(watch.current(), UserTokenState::Init));
    assert!(watch.publish(TokenState::Refresh, Some("abc".to_string())));
    match watch.current() {
        UserTokenState::Refresh { token } => assert_eq!(token, "abc"),
        other => panic!("unexpected state {:?}", other),
    }
    assert!(!watch.publish(TokenState::Refresh, None));
    assert!(matches!(watch.current(), UserTokenState::Refresh { .. }));
    assert!(watch.publish(TokenState::Invalid, Some("ignored".to_string())));
    assert!(matches!(watch.current(), UserTokenState::Invalid));
}

#[test]
fn observe_token_state_cases() {
    match observe_token_state(TokenState::Refresh, Some("t".to_string())) {
        Some(UserTokenState::Refresh { token }) => assert_eq!(token, "t"),
        other => panic!("unexpected {:?}", other),
    }
    assert!(observe_token_state(TokenState::Refresh, None).is_none());
    assert!(matches!(observe_token_state(TokenState::Invalid, None), Some(UserTokenState::Invalid)));
}

#[test]
fn server_impl_follows_sync_flag() {
    let client = Arc::new(17u32);
    let on = AFServerImpl::from_sync_state(&client, true);
    assert!(Arc::ptr_eq(&on.get_client().unwrap(), &client));
    assert!(Arc::ptr_eq(&on.try_get_client().unwrap(), &client));
    assert!(Arc::ptr_eq(&on.clone_handle().get_client().unwrap(), &client));
    let off = AFServerImpl::from_sync_state(&client, false);
    assert!(off.get_client().is_none());
    assert_eq!(off.try_get_client().err(), Some(ServerError::DataSyncRequired));
    assert_eq!(
        ServerError::DataSyncRequired.message(),
        "Data Sync is disabled, please enable it first"
    );
    assert_eq!(ServerError::Unauthorized.message(), "Unauthorized");
}

#[test]
fn session_snapshot_is_taken_at_call() {
    let server = AppFlowyCloudServer::new(Arc::new(1u8), true, "device-1".to_string());
    assert_eq!(server.device_id(), "device-1");
    assert!(server.is_sync_enabled());
    assert!(server.is_network_reachable());
    let before = server.get_server_impl();
    server.set_enable_sync(false);
    assert!(!server.is_sync_enabled());
    let after = server.get_server_impl();
    assert!(before.get_client().is_some());
    assert_eq!(after.try_get_client().err(), Some(ServerError::DataSyncRequired));
    server.set_network_reachable(false);
    assert!(!server.is_network_reachable());
    assert!(Arc::ptr_eq(server.client(), &before.get_client().unwrap()));
    assert!(server.enable_sync_flag().load(std::sync::atomic::Ordering::SeqCst) == false);
}

#[test]
fn empty_device_id_is_generated() {
    let id = resolve_device_id(String::new());
    assert_eq!(id.chars().count(), 36);
    for (i, c) in id.chars().enumerate() {
        if [8, 13, 18, 23].contains(&i) {
            assert_eq!(c, '-');
        } else {
            assert!(c.is_ascii_digit() || ('a'..='f').contains(&c), "bad char {}", c);
        }
    }
    assert_ne!(id, resolve_device_id(String::new()));
    assert_eq!(resolve_device_id("given".to_string()), "given");
    let server = AppFlowyCloudServer::new(Arc::new(()), false, String::new());
    assert_eq!(server.device_id().len(), 36);
}

#[test]
fn rejected_token_is_unauthorized() {
    assert_eq!(token_restore_result::<String>(Ok(())), Ok(()));
    assert_eq!(token_restore_result(Err("bad".to_string())), Err(ServerError::Unauthorized));
}

#[test]
fn sub_channel_binding_is_empty_when_refused() {
    let bound = bind_sub_channel::<u8, String, u16>(Ok(3), 9, true);
    assert_eq!(bound, Some((3, 9, true)));
    let refused = bind_sub_channel::<u8, String, u16>(Err("bad id".to_string()), 9, false);
    assert_eq!(refused, None);
}
