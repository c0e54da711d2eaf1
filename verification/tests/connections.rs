use majsoul_max_rs::connections::{
    answers_ping, goes_through_modder, is_observer_path, register_direction, ConnectionState,
};

#[test]
fn directions_share_requests_but_connections_do_not() {
    // Both directions of a connection share one state; another connection has its own.
    let mut shared = ConnectionState::new();
    let mut other = ConnectionState::new();

    shared.track_request(7, ".lq.Lobby.login".into());
    other.track_request(7, ".lq.FastTest.authGame".into());
    assert_eq!(shared.take_request(7).as_deref(), Some(".lq.Lobby.login"));
    assert_eq!(other.take_request(7).as_deref(), Some(".lq.FastTest.authGame"));
    assert!(shared.take_request(7).is_none());
}

#[test]
fn a_later_request_with_the_same_id_replaces_the_earlier() {
    let mut state = ConnectionState::new();
    state.track_request(42, ".lq.Lobby.login".into());
    state.track_request(42, ".lq.Lobby.fetchInfo".into());
    state.track_request(43, ".lq.Lobby.fetchRoom".into());
    assert_eq!(state.take_request(42).as_deref(), Some(".lq.Lobby.fetchInfo"));
    assert_eq!(state.take_request(43).as_deref(), Some(".lq.Lobby.fetchRoom"));
    assert!(state.take_request(42).is_none());
}

#[test]
fn closing_is_remembered_for_the_other_direction() {
    let mut state = ConnectionState::new();
    assert!(!state.is_closed());
    state.track_request(1, "m".into());
    state.close();
    assert!(state.is_closed());
    assert_eq!(state.take_request(1).as_deref(), Some("m"));
}

#[test]
fn both_directions_complete_the_mask() {
    assert_eq!(register_direction(0, true), (1, false));
    assert_eq!(register_direction(1, false), (3, true));
    assert_eq!(register_direction(2, true), (3, true));
    assert_eq!(register_direction(2, false), (2, false));
}

#[test]
fn only_binary_game_messages_reach_the_modder() {
    assert!(is_observer_path("/ob"));
    assert!(!is_observer_path("/gateway"));
    assert!(answers_ping("/ping"));
    assert!(!answers_ping("/pong"));
    assert!(goes_through_modder("/gateway", true, true));
    assert!(!goes_through_modder("/ob", true, true));
    assert!(!goes_through_modder("/gateway", false, true));
    assert!(!goes_through_modder("/gateway", true, false));
}
