use brp_web::brp::books::Book;
use brp_web::brp::model::UserReadings;
use brp_web::brp::model::parse_track;
use brp_web::brp::model::serialize_track;

#[test]
fn serialize_track_joins_names() {
    let track = vec![Book::Matthew, Book::Mark, Book::Luke];
    assert_eq!(serialize_track(&track), "Matthew|Mark|Luke");

    let single = vec![Book::Psalms];
    assert_eq!(serialize_track(&single), "Psalms");

    let spaced = vec![Book::FirstSamuel, Book::SongOfSolomon];
    assert_eq!(serialize_track(&spaced), "1 Samuel|Song of Solomon");
}

#[test]
fn parse_track_reads_storage_form() {
    assert_eq!(
        parse_track("Matthew|Mark|Luke"),
        Some(vec![Book::Matthew, Book::Mark, Book::Luke]),
    );
    assert_eq!(parse_track("Psalms"), Some(vec![Book::Psalms]));
}

#[test]
fn track_round_trip() {
    let tracks = [
        vec![Book::Matthew, Book::Mark, Book::Luke, Book::John],
        vec![Book::Jude],
        vec![Book::FirstSamuel, Book::SecondSamuel, Book::SongOfSolomon],
        vec![Book::Genesis, Book::Genesis],
    ];
    for track in tracks {
        let stored = serialize_track(&track);
        assert_eq!(parse_track(&stored), Some(track));
    }
}

#[test]
fn parse_track_rejects_unknown_name() {
    assert_eq!(parse_track("Matthew|Nope|Luke"), None);
    assert_eq!(parse_track("matthew"), None);
}

#[test]
fn parse_track_rejects_empty_segments() {
    assert_eq!(parse_track(""), None);
    assert_eq!(parse_track("Matthew||Luke"), None);
    assert_eq!(parse_track("Matthew|"), None);
    assert_eq!(parse_track("|Matthew"), None);
}

#[test]
fn default_readings_shape() {
    let r = UserReadings::new_with_default_readings(7);
    assert_eq!(r.user_id, 7);
    assert_eq!(r.readings.len(), 10);
    assert_eq!(r.readings[0], vec![Book::Matthew, Book::Mark, Book::Luke, Book::John]);
    assert_eq!(r.readings[5], vec![Book::Psalms]);
    assert_eq!(r.readings[9], vec![Book::Acts]);
    for track in &r.readings {
        assert!(track.len() >= 1);
        let stored = serialize_track(track);
        assert_eq!(parse_track(&stored).as_ref(), Some(track));
    }
}

#[test]
fn new_keeps_given_readings() {
    let readings = vec![vec![Book::Job], vec![Book::Acts, Book::Romans]];
    let r = UserReadings::new(42, readings.clone());
    assert_eq!(r.user_id, 42);
    assert_eq!(r.readings, readings);
}
