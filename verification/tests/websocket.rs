use league_config_manager::websocket::champion_uri;
use league_config_manager::websocket::read;
use league_config_manager::websocket::subscription;
use league_config_manager::websocket::Action;
use league_config_manager::websocket::Event;
use league_config_manager::websocket::Payload;
use league_config_manager::websocket::Phase;
use league_config_manager::websocket::Reading;
use league_config_manager::websocket::Signal;
use league_config_manager::websocket::Watcher;

fn champion(payload: Payload) -> Signal {
    Signal::Received { uri: champion_uri().to_string(), payload }
}

fn connected() -> Watcher {
    let mut watcher = Watcher::new();
    watcher.step(&Signal::Start);
    watcher.step(&Signal::Subscribed);
    assert_eq!(watcher.phase(), Phase::Connected);
    watcher
}

#[test]
fn start_connects() {
    let mut watcher = Watcher::new();
    assert_eq!(watcher.phase(), Phase::Idle);
    assert_eq!(watcher.step(&Signal::Start), vec![Action::Connect]);
    assert_eq!(watcher.phase(), Phase::Connecting);
}

#[test]
fn subscription_is_reported_then_listening_begins() {
    let mut watcher = Watcher::new();
    watcher.step(&Signal::Start);
    assert_eq!(
        watcher.step(&Signal::Subscribed),
        vec![Action::Emit(Event::Connected), Action::Listen]
    );
    assert_eq!(watcher.phase(), Phase::Connected);
}

#[test]
fn failed_attempt_runs_the_whole_retry_cycle() {
    let mut watcher = Watcher::new();
    watcher.step(&Signal::Start);
    let mut actions = watcher.step(&Signal::Lost);
    assert_eq!(
        actions,
        vec![
            Action::Emit(Event::Disconnected),
            Action::Emit(Event::Retrying(10)),
            Action::Sleep
        ]
    );
    assert_eq!(watcher.phase(), Phase::Retrying(10));
    for _ in 0..10 {
        assert!(matches!(watcher.phase(), Phase::Retrying(_)));
        actions.extend(watcher.step(&Signal::Tick));
    }
    assert_eq!(watcher.phase(), Phase::Connecting);
    let mut expected = vec![Action::Emit(Event::Disconnected)];
    for left in (1..=10).rev() {
        expected.push(Action::Emit(Event::Retrying(left)));
        expected.push(Action::Sleep);
    }
    expected.push(Action::Connect);
    assert_eq!(actions, expected);
    let announced: Vec<u32> = actions
        .iter()
        .filter_map(|action| match action {
            Action::Emit(Event::Retrying(left)) => Some(*left),
            _ => None,
        })
        .collect();
    assert_eq!(announced, vec![10, 9, 8, 7, 6, 5, 4, 3, 2, 1]);
    let sleeps = actions.iter().filter(|action| **action == Action::Sleep).count();
    assert_eq!(sleeps, 10);
}

#[test]
fn lost_connection_runs_the_same_cycle() {
    let mut watcher = connected();
    assert_eq!(
        watcher.step(&Signal::Lost),
        vec![
            Action::Emit(Event::Disconnected),
            Action::Emit(Event::Retrying(10)),
            Action::Sleep
        ]
    );
    assert_eq!(
        watcher.step(&Signal::Tick),
        vec![Action::Emit(Event::Retrying(9)), Action::Sleep]
    );
    assert_eq!(watcher.phase(), Phase::Retrying(9));
}

#[test]
fn the_cycle_repeats_without_end() {
    let mut watcher = Watcher::new();
    watcher.step(&Signal::Start);
    for _ in 0..5 {
        assert_eq!(watcher.phase(), Phase::Connecting);
        watcher.step(&Signal::Lost);
        for _ in 0..9 {
            watcher.step(&Signal::Tick);
        }
        assert_eq!(watcher.phase(), Phase::Retrying(1));
        assert_eq!(watcher.step(&Signal::Tick), vec![Action::Connect]);
    }
}

#[test]
fn selection_is_forwarded_as_it_is() {
    let mut watcher = connected();
    assert_eq!(
        watcher.step(&champion(Payload::Number(Some(523)))),
        vec![Action::Emit(Event::Selected(523)), Action::Listen]
    );
    assert_eq!(
        watcher.step(&champion(Payload::Number(Some(0)))),
        vec![Action::Emit(Event::Selected(0)), Action::Listen]
    );
    assert_eq!(watcher.phase(), Phase::Connected);
}

#[test]
fn payload_that_is_no_number_is_a_disconnect() {
    let mut watcher = connected();
    assert_eq!(
        watcher.step(&champion(Payload::Other)),
        vec![
            Action::Emit(Event::Disconnected),
            Action::Emit(Event::Retrying(10)),
            Action::Sleep
        ]
    );
    assert_eq!(watcher.phase(), Phase::Retrying(10));
}

#[test]
fn number_too_large_for_an_id_is_a_disconnect() {
    let mut watcher = connected();
    assert_eq!(
        watcher.step(&champion(Payload::Number(Some(4_294_967_303)))),
        vec![
            Action::Emit(Event::Disconnected),
            Action::Emit(Event::Retrying(10)),
            Action::Sleep
        ]
    );
    assert_eq!(watcher.phase(), Phase::Retrying(10));
}

#[test]
fn unreadable_number_is_a_disconnect() {
    let mut watcher = connected();
    assert_eq!(
        watcher.step(&champion(Payload::Number(None))),
        vec![
            Action::Emit(Event::Disconnected),
            Action::Emit(Event::Retrying(10)),
            Action::Sleep
        ]
    );
    assert_eq!(watcher.phase(), Phase::Retrying(10));
}

#[test]
fn other_traffic_is_ignored() {
    let mut watcher = connected();
    let signal = Signal::Received {
        uri: "/lol-champ-select/v1/skin-selector-info".to_string(),
        payload: Payload::Number(Some(5)),
    };
    assert_eq!(watcher.step(&signal), vec![Action::Listen]);
    assert_eq!(watcher.phase(), Phase::Connected);
}

#[test]
fn signals_out_of_turn_change_nothing() {
    let mut watcher = Watcher::new();
    assert_eq!(watcher.step(&Signal::Tick), vec![]);
    assert_eq!(watcher.step(&Signal::Lost), vec![]);
    assert_eq!(watcher.step(&Signal::Subscribed), vec![]);
    assert_eq!(watcher.phase(), Phase::Idle);
    let mut watcher = connected();
    assert_eq!(watcher.step(&Signal::Tick), vec![]);
    assert_eq!(watcher.step(&Signal::Start), vec![]);
    assert_eq!(watcher.phase(), Phase::Connected);
    watcher.step(&Signal::Lost);
    assert_eq!(watcher.step(&champion(Payload::Number(Some(1)))), vec![]);
    assert_eq!(watcher.phase(), Phase::Retrying(10));
}

#[test]
fn readings() {
    assert_eq!(read(champion_uri(), Payload::Number(Some(84))), Reading::Selected(84));
    assert_eq!(read(champion_uri(), Payload::Number(None)), Reading::Malformed);
    assert_eq!(read(champion_uri(), Payload::Other), Reading::Malformed);
    assert_eq!(read("/other", Payload::Number(Some(84))), Reading::Ignored);
    assert_eq!(read("", Payload::Other), Reading::Ignored);
    assert_eq!(
        read(champion_uri(), Payload::Number(Some(u32::MAX as u64))),
        Reading::Selected(u32::MAX)
    );
    assert_eq!(
        read(champion_uri(), Payload::Number(Some((1u64 << 32) + 7))),
        Reading::Malformed
    );
    assert_eq!(read(champion_uri(), Payload::Number(Some(1u64 << 32))), Reading::Malformed);
    assert_eq!(read(champion_uri(), Payload::Number(Some(u64::MAX))), Reading::Malformed);
}

#[test]
fn fixed_texts() {
    assert_eq!(champion_uri(), "/lol-champ-select/v1/current-champion");
    assert_eq!(subscription(), "[5,\"OnJsonApiEvent\"]");
}

#[test]
fn subscription_is_the_json_of_the_request() {
    let request = serde_json::to_string(&(5, "OnJsonApiEvent")).unwrap();
    assert_eq!(subscription(), request);
}
