use brp_web::brp::books::Book;
use brp_web::brp::books::PlanError;
use brp_web::brp::books::get_day_plan;

#[test]
fn catalog_counts_and_ordinals() {
    assert_eq!(Book::Genesis.total_chapters(), 50);
    assert_eq!(Book::Psalms.total_chapters(), 150);
    assert_eq!(Book::Obadiah.total_chapters(), 1);
    assert_eq!(Book::Revelation.total_chapters(), 22);
    assert_eq!(Book::Genesis.index(), 1);
    assert_eq!(Book::Matthew.index(), 40);
    assert_eq!(Book::John.index(), 43);
    assert_eq!(Book::Revelation.index(), 66);
}

#[test]
fn catalog_info_record() {
    let info = Book::Mark.info();
    assert_eq!(info.book, Book::Mark);
    assert_eq!(info.name, "Mark");
    assert_eq!(info.chapters, 16);
    assert_eq!(info.ordinal, 41);
}

#[test]
fn display_names() {
    assert_eq!(Book::Genesis.display_name(), "Genesis");
    assert_eq!(Book::FirstSamuel.display_name(), "1 Samuel");
    assert_eq!(Book::SongOfSolomon.display_name(), "Song of Solomon");
    assert_eq!(Book::ThirdJohn.display_name(), "3 John");
}

#[test]
fn from_display_name_total() {
    assert_eq!(Book::from_display_name("Genesis"), Some(Book::Genesis));
    assert_eq!(Book::from_display_name("2 Chronicles"), Some(Book::SecondChronicles));
    assert_eq!(Book::from_display_name("Revelation"), Some(Book::Revelation));
    assert_eq!(Book::from_display_name("Genessis"), None);
    assert_eq!(Book::from_display_name(""), None);
    assert_eq!(Book::from_display_name("genesis"), None);
}

#[test]
fn every_name_parses_back() {
    let all = [
        Book::Genesis,
        Book::Exodus,
        Book::Leviticus,
        Book::Numbers,
        Book::Deuteronomy,
        Book::Joshua,
        Book::Judges,
        Book::Ruth,
        Book::FirstSamuel,
        Book::SecondSamuel,
        Book::FirstKings,
        Book::SecondKings,
        Book::FirstChronicles,
        Book::SecondChronicles,
        Book::Ezra,
        Book::Nehemiah,
        Book::Esther,
        Book::Job,
        Book::Psalms,
        Book::Proverbs,
        Book::Ecclesiastes,
        Book::SongOfSolomon,
        Book::Isaiah,
        Book::Jeremiah,
        Book::Lamentations,
        Book::Ezekiel,
        Book::Daniel,
        Book::Hosea,
        Book::Joel,
        Book::Amos,
        Book::Obadiah,
        Book::Jonah,
        Book::Micah,
        Book::Nahum,
        Book::Habakkuk,
        Book::Zephaniah,
        Book::Haggai,
        Book::Zechariah,
        Book::Malachi,
        Book::Matthew,
        Book::Mark,
        Book::Luke,
        Book::John,
        Book::Acts,
        Book::Romans,
        Book::FirstCorinthians,
        Book::SecondCorinthians,
        Book::Galatians,
        Book::Ephesians,
        Book::Philippians,
        Book::Colossians,
        Book::FirstThessalonians,
        Book::SecondThessalonians,
        Book::FirstTimothy,
        Book::SecondTimothy,
        Book::Titus,
        Book::Philemon,
        Book::Hebrews,
        Book::James,
        Book::FirstPeter,
        Book::SecondPeter,
        Book::FirstJohn,
        Book::SecondJohn,
        Book::ThirdJohn,
        Book::Jude,
        Book::Revelation,
    ];
    for b in all {
        let name = b.display_name();
        assert_eq!(Book::from_display_name(&name), Some(b));
        assert!(b.total_chapters() >= 1);
        assert!(!name.contains('|'));
    }
}

#[test]
fn day_plan_example_track() {
    let track = vec![Book::Matthew, Book::Mark, Book::Luke];

    let (info, span) = get_day_plan(&track, 1).unwrap();
    assert_eq!(span, 68);
    assert_eq!(info.book, Book::Matthew);
    assert_eq!(info.chapter, 1);

    let (info, _) = get_day_plan(&track, 28).unwrap();
    assert_eq!(info.book, Book::Matthew);
    assert_eq!(info.chapter, 28);

    let (info, _) = get_day_plan(&track, 29).unwrap();
    assert_eq!(info.book, Book::Mark);
    assert_eq!(info.chapter, 1);

    let (info, _) = get_day_plan(&track, 68).unwrap();
    assert_eq!(info.book, Book::Luke);
    assert_eq!(info.chapter, 24);

    let (info, _) = get_day_plan(&track, 69).unwrap();
    assert_eq!(info.book, Book::Matthew);
    assert_eq!(info.chapter, 1);

    let (info, _) = get_day_plan(&track, 0).unwrap();
    assert_eq!(info.book, Book::Luke);
    assert_eq!(info.chapter, 24);
}

#[test]
fn day_plan_is_periodic() {
    let track = vec![Book::Matthew, Book::Mark, Book::Luke];
    let (base, span) = get_day_plan(&track, 5).unwrap();
    assert_eq!(span, 68);
    for k in [-2i64, -1, 1, 2, 10] {
        let (shifted, _) = get_day_plan(&track, 5 + k * span).unwrap();
        assert_eq!(shifted.book, base.book);
        assert_eq!(shifted.chapter, base.chapter);
    }
}

#[test]
fn day_plan_negative_day_wraps() {
    let track = vec![Book::Matthew, Book::Mark, Book::Luke];
    let (info, _) = get_day_plan(&track, -1).unwrap();
    assert_eq!(info.book, Book::Luke);
    assert_eq!(info.chapter, 23);
}

#[test]
fn day_plan_single_book_cycle() {
    let track = vec![Book::Ruth];
    for r in 1..=4i64 {
        let (info, span) = get_day_plan(&track, r).unwrap();
        assert_eq!(span, 4);
        assert_eq!(info.book, Book::Ruth);
        assert_eq!(info.chapter, r);
    }
    let (info, _) = get_day_plan(&track, 5).unwrap();
    assert_eq!(info.book, Book::Ruth);
    assert_eq!(info.chapter, 1);

    let one = vec![Book::Jude];
    let (info, span) = get_day_plan(&one, 1).unwrap();
    assert_eq!(span, 1);
    assert_eq!(info.book, Book::Jude);
    assert_eq!(info.chapter, 1);
    let (info, _) = get_day_plan(&one, 2).unwrap();
    assert_eq!(info.book, Book::Jude);
    assert_eq!(info.chapter, 1);
}

#[test]
fn day_plan_position_always_in_range() {
    let track = vec![Book::Obadiah, Book::Psalms, Book::Jude];
    for day in -400..400i64 {
        let (info, span) = get_day_plan(&track, day).unwrap();
        assert_eq!(span, 152);
        assert!(info.chapter >= 1);
        assert!(info.chapter <= info.book.total_chapters() as i64);
        assert!(track.contains(&info.book));
    }
}

#[test]
fn day_plan_rejects_empty_track() {
    let empty: Vec<Book> = Vec::new();
    assert_eq!(get_day_plan(&empty, 3), Err(PlanError::InvalidTrack));
}
