use brp_web::brp::books::Book;
use brp_web::brp::content::ChapterCache;
use brp_web::brp::content::ChapterError;
use brp_web::brp::content::ChapterFetch;
use brp_web::brp::content::FetchAction;
use brp_web::brp::content::FetchEvent;
use brp_web::brp::content::cache_key;
use brp_web::brp::content::fetch_chapter;
use brp_web::brp::content::parse_chapter;

fn sample_doc() -> Vec<u8> {
    let doc = "<bible>\n  <title>Yohanes 3</title>\n  <book>43</book>\n  <bookname>Yohanes</bookname>\n  <chapter>3</chapter>\n  <chapter_count>21</chapter_count>\n  <verses>\n    <verse><number>1</number><title>A visit at night</title><text>Adalah seorang Farisi</text></verse>\n    <verse><number>2</number><text>Ia datang pada waktu malam</text></verse>\n  </verses>\n</bible>\n";
    doc.as_bytes().to_vec()
}

#[test]
fn parse_chapter_reads_sample_document() {
    let b = parse_chapter(&sample_doc()).unwrap();
    assert_eq!(b.title, "Yohanes 3");
    assert_eq!(b.book, 43);
    assert_eq!(b.bookname, "Yohanes");
    assert_eq!(b.chapter, 3);
    assert_eq!(b.chapter_count, 21);
    assert_eq!(b.verses.verse.len(), 2);
    assert_eq!(b.verses.verse[0].number, 1);
    assert_eq!(b.verses.verse[0].title.as_deref(), Some("A visit at night"));
    assert_eq!(b.verses.verse[0].text, "Adalah seorang Farisi");
    assert_eq!(b.verses.verse[1].number, 2);
    assert_eq!(b.verses.verse[1].title, None);
    assert_eq!(b.verses.verse[1].text, "Ia datang pada waktu malam");
}

#[test]
fn parse_chapter_accepts_empty_verse_list() {
    let doc = "<bible><title>T</title><book>1</book><bookname>B</bookname><chapter>1</chapter><chapter_count>2</chapter_count><verses></verses></bible>";
    let b = parse_chapter(&doc.as_bytes().to_vec()).unwrap();
    assert_eq!(b.verses.verse.len(), 0);
}

#[test]
fn parse_chapter_rejects_bad_input() {
    assert_eq!(parse_chapter(&b"garbage".to_vec()), None);
    assert_eq!(parse_chapter(&Vec::new()), None);
    assert_eq!(parse_chapter(&vec![0xff, 0xfe, 0x00]), None);

    let unclosed = "<bible><title>T</title><book>1</book>";
    assert_eq!(parse_chapter(&unclosed.as_bytes().to_vec()), None);

    let trailing = "<bible><title>T</title><book>1</book><bookname>B</bookname><chapter>1</chapter><chapter_count>2</chapter_count><verses></verses></bible>extra";
    assert_eq!(parse_chapter(&trailing.as_bytes().to_vec()), None);

    let long_number = "<bible><title>T</title><book>1234567890</book><bookname>B</bookname><chapter>1</chapter><chapter_count>2</chapter_count><verses></verses></bible>";
    assert_eq!(parse_chapter(&long_number.as_bytes().to_vec()), None);

    let empty_number = "<bible><title>T</title><book></book><bookname>B</bookname><chapter>1</chapter><chapter_count>2</chapter_count><verses></verses></bible>";
    assert_eq!(parse_chapter(&empty_number.as_bytes().to_vec()), None);
}

#[test]
fn cache_key_is_deterministic() {
    assert_eq!(cache_key(43, 3), "id_43_3");
    assert_eq!(cache_key(1, 150), "id_1_150");
    assert_eq!(cache_key(40, 28), "id_40_28");
}

#[test]
fn fetch_populates_cache_then_reads_it() {
    let mut store = ChapterCache::new();

    let first = fetch_chapter(Book::John, 3, &mut store, Some(sample_doc())).unwrap();
    assert_eq!(first.title, "Yohanes 3");
    assert!(store.get("id_43_3").is_some());

    // The second fetch answers from the store alone: the remote reply is a
    // transport failure here, yet the same content comes back.
    let second = fetch_chapter(Book::John, 3, &mut store, None).unwrap();
    assert_eq!(first, second);
}

#[test]
fn fetch_corrupt_cache_entry_fails_without_refetch() {
    let mut store = ChapterCache::new();
    store.put(cache_key(43, 3), b"scrambled bytes \xf0\x28\x8c\x28".to_vec());

    // Even a perfectly good remote answer must not mask the corrupt entry.
    let res = fetch_chapter(Book::John, 3, &mut store, Some(sample_doc()));
    assert_eq!(res, Err(ChapterError::CorruptCache));

    let again = fetch_chapter(Book::John, 3, &mut store, None);
    assert_eq!(again, Err(ChapterError::CorruptCache));
}

#[test]
fn fetch_transport_failure_surfaces() {
    let mut store = ChapterCache::new();
    let res = fetch_chapter(Book::John, 3, &mut store, None);
    assert_eq!(res, Err(ChapterError::Transport));
    assert!(store.get("id_43_3").is_none());
}

#[test]
fn fetch_corrupt_remote_is_not_cached() {
    let mut store = ChapterCache::new();
    let res = fetch_chapter(Book::John, 3, &mut store, Some(b"not a chapter".to_vec()));
    assert_eq!(res, Err(ChapterError::CorruptRemote));
    assert!(store.get("id_43_3").is_none());

    // Nothing was cached, so the next call still depends on the remote.
    let after = fetch_chapter(Book::John, 3, &mut store, None);
    assert_eq!(after, Err(ChapterError::Transport));
}

#[test]
fn fetch_machine_hit_never_asks_remote() {
    let (m, a) = ChapterFetch::new(Book::Matthew, 28);
    assert!(matches!(a, FetchAction::EnsureStorage));

    let (m, a) = m.step(FetchEvent::StorageReady);
    let key = match a {
        FetchAction::ReadCache(k) => k,
        _ => panic!("expected a cache read"),
    };
    assert_eq!(key, "id_40_28");

    let (m, a) = m.step(FetchEvent::CacheHit(sample_doc()));
    assert!(matches!(a, FetchAction::Halt));
    let b = m.into_result().unwrap();
    assert_eq!(b.bookname, "Yohanes");
}

#[test]
fn fetch_machine_miss_fetches_and_persists() {
    let (m, _) = ChapterFetch::new(Book::John, 3);
    let (m, _) = m.step(FetchEvent::StorageReady);
    let (m, a) = m.step(FetchEvent::CacheMiss);
    match a {
        FetchAction::FetchRemote(ordinal, chapter) => {
            assert_eq!(ordinal, 43);
            assert_eq!(chapter, 3);
        },
        _ => panic!("expected a remote fetch"),
    }
    let (m, a) = m.step(FetchEvent::RemoteOk(sample_doc()));
    match a {
        FetchAction::WriteCache(key, body) => {
            assert_eq!(key, "id_43_3");
            assert_eq!(body, sample_doc());
        },
        _ => panic!("expected a cache write"),
    }
    let (m, a) = m.step(FetchEvent::Persisted);
    assert!(matches!(a, FetchAction::Halt));
    assert_eq!(m.into_result().unwrap().chapter, 3);
}

#[test]
fn fetch_machine_storage_failure_aborts() {
    let (m, _) = ChapterFetch::new(Book::John, 3);
    let (m, a) = m.step(FetchEvent::StorageFailed);
    assert!(matches!(a, FetchAction::Halt));
    assert_eq!(m.into_result(), Err(ChapterError::StorageUnavailable));
}

#[test]
fn fetch_machine_persist_failure_is_storage_error() {
    let (m, _) = ChapterFetch::new(Book::John, 3);
    let (m, _) = m.step(FetchEvent::StorageReady);
    let (m, _) = m.step(FetchEvent::CacheMiss);
    let (m, _) = m.step(FetchEvent::RemoteOk(sample_doc()));
    let (m, _) = m.step(FetchEvent::PersistFailed);
    assert_eq!(m.into_result(), Err(ChapterError::StorageUnavailable));
}

#[test]
fn cache_put_replaces_entry() {
    let mut store = ChapterCache::new();
    store.put("id_1_1".to_string(), b"old".to_vec());
    store.put("id_1_1".to_string(), b"new".to_vec());
    assert_eq!(store.get("id_1_1").map(|v| v.as_slice()), Some(b"new".as_slice()));
    assert!(store.get("id_1_2").is_none());
}
