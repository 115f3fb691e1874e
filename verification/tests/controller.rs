use jellyfin_rpc::activity::{ActivityPayload, Fatal, Notice, LARGE_IMAGE, LARGE_TEXT};
use jellyfin_rpc::controller::{
    Command, Event, SessionState, CLOSE_SETTLE_SECS, CONNECT_RETRY_SECS, POLL_PERIOD_SECS,
};
use jellyfin_rpc::probe::{fail_open, probe_body, ProbeError};
use jellyfin_rpc::snapshot::{present, MediaSnapshot, PresentationText};

fn movie(title: &str) -> MediaSnapshot {
    MediaSnapshot::Movie { title: title.to_string() }
}

fn episode(number: i64, title: &str) -> MediaSnapshot {
    MediaSnapshot::Episode {
        series: "Lost".to_string(),
        episode_title: title.to_string(),
        season_number: 1,
        episode_number: number,
    }
}

fn payload(snapshot: &MediaSnapshot, start: i64) -> ActivityPayload {
    ActivityPayload::new(&present(snapshot).unwrap(), start)
}

fn rest() -> Vec<Command> {
    vec![Command::Wait { seconds: 18 }]
}

fn teardown() -> Vec<Command> {
    vec![
        Command::Close,
        Command::Wait { seconds: 8 },
        Command::Announce(Notice::Disconnected),
        Command::Wait { seconds: 18 },
    ]
}

fn connected_with(snapshot: &MediaSnapshot, now: i64) -> SessionState {
    let mut state = SessionState::new();
    assert_eq!(state.handle(Event::Observed(snapshot.clone())), vec![Command::Connect]);
    state.handle(Event::ConnectEstablished { now });
    assert!(state.connected());
    state
}

fn count(commands: &[Command], wanted: fn(&Command) -> bool) -> usize {
    commands.iter().filter(|c| wanted(c)).count()
}

fn is_connect(command: &Command) -> bool {
    matches!(command, Command::Connect)
}

fn is_push(command: &Command) -> bool {
    matches!(command, Command::Push(_))
}

fn is_close(command: &Command) -> bool {
    matches!(command, Command::Close)
}

#[test]
fn periods_are_fixed() {
    assert_eq!(POLL_PERIOD_SECS, 18);
    assert_eq!(CONNECT_RETRY_SECS, 10);
    assert_eq!(CLOSE_SETTLE_SECS, 8);
}

#[test]
fn starts_disconnected_with_nothing_announced() {
    let state = SessionState::new();
    assert!(!state.connected());
    assert!(!state.opening());
    assert_eq!(state.last_presentation(), None);
    assert_eq!(state.session_start(), 0);
}

#[test]
fn disconnected_and_idle_rests() {
    let mut state = SessionState::new();
    for _ in 0..3 {
        assert_eq!(state.handle(Event::Observed(MediaSnapshot::Idle)), rest());
        assert_eq!(state, SessionState::new());
    }
}

#[test]
fn disconnected_and_playing_connects() {
    let mut state = SessionState::new();
    assert_eq!(state.handle(Event::Observed(movie("Arrival"))), vec![Command::Connect]);
    assert!(state.opening());
    assert!(!state.connected());
    assert_eq!(state.last_presentation(), None);
    let commands = state.handle(Event::ConnectEstablished { now: 1_700_000_000 });
    assert_eq!(
        commands,
        vec![
            Command::Announce(Notice::Connected { details: "Arrival".to_string() }),
            Command::Push(payload(&movie("Arrival"), 1_700_000_000)),
            Command::Wait { seconds: 18 },
        ]
    );
    assert!(state.connected());
    assert!(!state.opening());
    assert_eq!(state.session_start(), 1_700_000_000);
    assert_eq!(state.last_presentation(), present(&movie("Arrival")));
}

#[test]
fn failed_connect_is_tried_again_after_ten_seconds() {
    let mut state = SessionState::new();
    let mut all = state.handle(Event::Observed(episode(1, "Pilot")));
    for _ in 0..5 {
        let commands = state.handle(Event::ConnectFailed);
        assert_eq!(
            commands,
            vec![
                Command::Announce(Notice::ConnectRetry),
                Command::Wait { seconds: 10 },
                Command::Connect,
            ]
        );
        assert!(state.opening());
        all.extend(commands);
    }
    all.extend(state.handle(Event::ConnectEstablished { now: 42 }));
    assert!(state.connected());
    assert_eq!(state.session_start(), 42);
    assert_eq!(state.last_presentation(), present(&episode(1, "Pilot")));
    assert_eq!(count(&all, is_connect), 6);
    assert_eq!(count(&all, is_push), 1);
    assert_eq!(count(&all, is_close), 0);
    assert!(all.contains(&Command::Push(payload(&episode(1, "Pilot"), 42))));
}

#[test]
fn connect_that_succeeds_at_once_is_one_attempt() {
    let mut state = SessionState::new();
    let mut all = state.handle(Event::Observed(movie("Arrival")));
    all.extend(state.handle(Event::ConnectEstablished { now: 9 }));
    assert_eq!(count(&all, is_connect), 1);
    assert_eq!(count(&all, is_push), 1);
    assert_eq!(count(&all, is_close), 0);
    assert_eq!(state.session_start(), 9);
}

#[test]
fn unchanged_content_is_pushed_again() {
    let playing = episode(1, "Pilot");
    let mut state = connected_with(&playing, 500);
    let mut all = Vec::new();
    for _ in 0..7 {
        let commands = state.handle(Event::Observed(playing.clone()));
        assert_eq!(
            commands,
            vec![Command::Push(payload(&playing, 500)), Command::Wait { seconds: 18 }]
        );
        assert!(state.connected());
        assert_eq!(state.session_start(), 500);
        assert_eq!(state.last_presentation(), present(&playing));
        all.extend(commands);
    }
    assert_eq!(count(&all, is_push), 7);
    assert_eq!(count(&all, is_connect), 0);
    assert_eq!(count(&all, is_close), 0);
}

#[test]
fn changed_content_closes_and_reopens() {
    let first = movie("Arrival");
    let second = movie("Heat");
    let mut state = connected_with(&first, 100);
    assert_eq!(state.handle(Event::Observed(second.clone())), teardown());
    assert!(!state.connected());
    assert!(!state.opening());
    assert_eq!(state.last_presentation(), present(&first));
    assert_eq!(state.session_start(), 100);
    assert_eq!(state.handle(Event::Observed(second.clone())), vec![Command::Connect]);
    let commands = state.handle(Event::ConnectEstablished { now: 200 });
    assert_eq!(
        commands,
        vec![
            Command::Announce(Notice::Connected { details: "Heat".to_string() }),
            Command::Push(payload(&second, 200)),
            Command::Wait { seconds: 18 },
        ]
    );
    assert!(state.connected());
    assert_eq!(state.session_start(), 200);
    assert_eq!(state.last_presentation(), present(&second));
}

#[test]
fn next_episode_is_a_change() {
    let mut state = connected_with(&episode(1, "Pilot"), 100);
    assert_eq!(state.handle(Event::Observed(episode(2, "Pilot, Part 2"))), teardown());
    assert!(!state.connected());
}

#[test]
fn vanished_content_closes() {
    let mut state = connected_with(&movie("Arrival"), 100);
    assert_eq!(state.handle(Event::Observed(MediaSnapshot::Idle)), teardown());
    assert!(!state.connected());
    assert_eq!(state.last_presentation(), present(&movie("Arrival")));
    assert_eq!(state.handle(Event::Observed(MediaSnapshot::Idle)), rest());
    assert!(!state.connected());
}

#[test]
fn same_content_after_a_pause_opens_anew() {
    let playing = movie("Arrival");
    let mut state = connected_with(&playing, 100);
    state.handle(Event::Observed(MediaSnapshot::Idle));
    assert_eq!(state.handle(Event::Observed(playing.clone())), vec![Command::Connect]);
    state.handle(Event::ConnectEstablished { now: 300 });
    assert_eq!(state.session_start(), 300);
    assert_eq!(
        state.handle(Event::Observed(playing.clone())),
        vec![Command::Push(payload(&playing, 300)), Command::Wait { seconds: 18 }]
    );
}

#[test]
fn failed_probe_closes_like_idle() {
    let mut state = connected_with(&movie("Arrival"), 100);
    let observed = fail_open(Err(ProbeError::Network));
    assert_eq!(state.handle(Event::Observed(observed)), teardown());
    let mut state = SessionState::new();
    let observed = fail_open(probe_body("{", "alice"));
    assert_eq!(state.handle(Event::Observed(observed)), rest());
}

#[test]
fn outcome_without_an_attempt_is_passed_over() {
    let mut state = SessionState::new();
    assert_eq!(state.handle(Event::ConnectFailed), rest());
    assert_eq!(state.handle(Event::ConnectEstablished { now: 5 }), rest());
    assert_eq!(state, SessionState::new());
    let mut state = connected_with(&movie("Arrival"), 100);
    assert_eq!(state.handle(Event::ConnectEstablished { now: 5 }), rest());
    assert_eq!(state.handle(Event::ConnectFailed), rest());
    assert!(state.connected());
    assert_eq!(state.session_start(), 100);
}

#[test]
fn look_while_opening_takes_the_newer_content() {
    let mut state = SessionState::new();
    state.handle(Event::Observed(movie("Arrival")));
    assert_eq!(state.handle(Event::Observed(movie("Heat"))), vec![Command::Connect]);
    let commands = state.handle(Event::ConnectEstablished { now: 1 });
    assert_eq!(commands[1], Command::Push(payload(&movie("Heat"), 1)));
    let mut state = SessionState::new();
    state.handle(Event::Observed(movie("Arrival")));
    assert_eq!(state.handle(Event::Observed(MediaSnapshot::Idle)), rest());
    assert!(!state.opening());
}

#[test]
fn payload_of_a_movie_has_no_second_line() {
    let built = payload(&movie("Arrival"), 123);
    assert_eq!(
        built,
        ActivityPayload {
            details: "Arrival".to_string(),
            state: None,
            start: 123,
            large_image: LARGE_IMAGE.to_string(),
            large_text: LARGE_TEXT.to_string(),
        }
    );
}

#[test]
fn payload_of_an_episode_has_both_lines() {
    let built = payload(&episode(4, "Walkabout"), -5);
    assert_eq!(built.details, "Watching Lost");
    assert_eq!(built.state, Some("S1E4 Walkabout".to_string()));
    assert_eq!(built.start, -5);
    assert_eq!(built.large_text, "https://github.com/Radiicall/jellyfin-rpc");
    assert!(built.large_image.starts_with("https://s2.qwant.com/thumbr/0x380/"));
}

#[test]
fn payload_keeps_any_non_empty_second_line() {
    let shown = PresentationText { details: String::new(), state: " ".to_string() };
    let built = ActivityPayload::new(&shown, 0);
    assert_eq!(built.details, "");
    assert_eq!(built.state, Some(" ".to_string()));
}

#[test]
fn notices_read_as_status_lines() {
    assert_eq!(Notice::ConnectRetry.line(), "Failed to connect, retrying in 10 seconds");
    assert_eq!(Notice::Disconnected.line(), "Disconnected from Discord RPC client");
    let bar = "/".repeat(66);
    assert_eq!(
        Notice::Connected { details: "Watching Lost".to_string() }.line(),
        format!("{}\nConnected to Discord RPC client\n{}\nWatching Lost", bar, bar)
    );
}

#[test]
fn fatal_failures_have_messages() {
    assert_eq!(Fatal::ActivityPush.message(), "Failed to set activity");
    assert_eq!(Fatal::Close.message(), "Failed to close Discord RPC client");
    assert_eq!(
        Fatal::ClientSetup.message(),
        "Failed to create Discord RPC client, discord is down or the Client ID is invalid."
    );
}
