use jellyfin_rpc::snapshot::{present, MediaSnapshot, PresentationText};

fn episode(series: &str, title: &str, season: i64, number: i64) -> MediaSnapshot {
    MediaSnapshot::Episode {
        series: series.to_string(),
        episode_title: title.to_string(),
        season_number: season,
        episode_number: number,
    }
}

#[test]
fn idle_has_no_presentation() {
    assert_eq!(present(&MediaSnapshot::Idle), None);
    assert!(MediaSnapshot::Idle.is_idle());
}

#[test]
fn movie_is_shown_by_its_title() {
    let snapshot = MediaSnapshot::Movie { title: "Arrival".to_string() };
    assert!(!snapshot.is_idle());
    assert_eq!(
        present(&snapshot),
        Some(PresentationText { details: "Arrival".to_string(), state: String::new() })
    );
}

#[test]
fn episode_is_shown_by_series_and_numbers() {
    let shown = present(&episode("Lost", "Pilot", 1, 1)).unwrap();
    assert_eq!(shown.details, "Watching Lost");
    assert_eq!(shown.state, "S1E1 Pilot");
    let shown = present(&episode("Twin Peaks", "Zen, or the Skill to Catch a Killer", 2, 13)).unwrap();
    assert_eq!(shown.details, "Watching Twin Peaks");
    assert_eq!(shown.state, "S2E13 Zen, or the Skill to Catch a Killer");
}

#[test]
fn numbers_are_not_padded() {
    assert_eq!(present(&episode("Lost", "Pilot", 0, 100)).unwrap().state, "S0E100 Pilot");
    assert_eq!(present(&episode("Lost", "Pilot", -1, 7)).unwrap().state, "S-1E7 Pilot");
}

#[test]
fn equal_snapshots_are_shown_alike() {
    let first = episode("Lost", "Pilot", 1, 2);
    let second = episode("Lost", "Pilot", 1, 2);
    let a = present(&first).unwrap();
    let b = present(&second).unwrap();
    assert_eq!(a, b);
    assert_eq!(a.details.as_bytes(), b.details.as_bytes());
    assert_eq!(a.state.as_bytes(), b.state.as_bytes());
    assert!(a.same_as(&b));
    assert_eq!(present(&first.clone()), present(&first));
}

#[test]
fn presentations_differ_in_either_line() {
    let a = present(&episode("Lost", "Pilot", 1, 1)).unwrap();
    let next = present(&episode("Lost", "Tabula Rasa", 1, 3)).unwrap();
    let other = present(&episode("Dark", "Pilot", 1, 1)).unwrap();
    assert_eq!(a.details, next.details);
    assert!(!a.same_as(&next));
    assert_eq!(a.state, other.state);
    assert!(!a.same_as(&other));
    assert!(a.same_as(&a.clone()));
}

#[test]
fn non_ascii_text_is_kept() {
    let shown = present(&episode("Haikyū!!", "終わりと始まり", 1, 1)).unwrap();
    assert_eq!(shown.details, "Watching Haikyū!!");
    assert_eq!(shown.state, "S1E1 終わりと始まり");
}
