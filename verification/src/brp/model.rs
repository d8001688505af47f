use vstd::prelude::*;

use crate::brp::books::Book;
use crate::brp::books::lemma_name_round_trip;
use crate::brp::books::lemma_name_wellformed;
use crate::brp::books::spec_book_of_name;
use crate::brp::books::spec_display_name;

verus! {

/// The reading plan a user owns: an ordered list of tracks, each an
/// ordered list of books read as one continuous, cyclic plan.
#[derive(Debug)]
pub struct UserReadings {
    pub user_id: i64,
    pub readings: Vec<Vec<Book>>,
}

/// The default plan handed to a user on first login: ten tracks that
/// together cover the whole catalog.
pub open spec fn spec_default_readings() -> Seq<Seq<Book>> {
    seq![
        seq![Book::Matthew, Book::Mark, Book::Luke, Book::John],
        seq![Book::Genesis, Book::Exodus, Book::Leviticus, Book::Numbers, Book::Deuteronomy],
        seq![
            Book::Romans,
            Book::FirstCorinthians,
            Book::SecondCorinthians,
            Book::Galatians,
            Book::Ephesians,
            Book::Philippians,
            Book::Colossians,
            Book::Hebrews,
        ],
        seq![
            Book::FirstThessalonians,
            Book::SecondThessalonians,
            Book::FirstTimothy,
            Book::SecondTimothy,
            Book::Titus,
            Book::Philemon,
            Book::James,
            Book::FirstPeter,
            Book::SecondPeter,
            Book::FirstJohn,
            Book::SecondJohn,
            Book::ThirdJohn,
            Book::Jude,
            Book::Revelation,
        ],
        seq![Book::Job, Book::Ecclesiastes, Book::SongOfSolomon],
        seq![Book::Psalms],
        seq![Book::Proverbs],
        seq![
            Book::Joshua,
            Book::Judges,
            Book::Ruth,
            Book::FirstSamuel,
            Book::SecondSamuel,
            Book::FirstKings,
            Book::SecondKings,
            Book::FirstChronicles,
            Book::SecondChronicles,
            Book::Ezra,
            Book::Nehemiah,
            Book::Esther,
        ],
        seq![
            Book::Isaiah,
            Book::Jeremiah,
            Book::Lamentations,
            Book::Ezekiel,
            Book::Daniel,
            Book::Hosea,
            Book::Joel,
            Book::Amos,
            Book::Obadiah,
            Book::Jonah,
            Book::Micah,
            Book::Nahum,
            Book::Habakkuk,
            Book::Zephaniah,
            Book::Haggai,
            Book::Zechariah,
            Book::Malachi,
        ],
        seq![Book::Acts],
    ]
}

impl UserReadings {
    /// A reading plan for a user, exactly as given.
    pub fn new(user_id: i64, readings: Vec<Vec<Book>>) -> (r: Self)
        ensures
            r.user_id == user_id,
            r.readings == readings,
    {
        Self { user_id, readings }
    }

    /// The default reading plan for a user.
    pub fn new_with_default_readings(user_id: i64) -> (r: Self)
        ensures
            r.user_id == user_id,
            r.readings@.map_values(|t: Vec<Book>| t@) == spec_default_readings(),
            forall|i: int| 0 <= i < r.readings@.len() ==> #[trigger] r.readings@[i]@.len() >= 1,
    {
        let readings: Vec<Vec<Book>> = vec![
            vec![Book::Matthew, Book::Mark, Book::Luke, Book::John],
            vec![Book::Genesis, Book::Exodus, Book::Leviticus, Book::Numbers, Book::Deuteronomy],
            vec![
                Book::Romans,
                Book::FirstCorinthians,
                Book::SecondCorinthians,
                Book::Galatians,
                Book::Ephesians,
                Book::Philippians,
                Book::Colossians,
                Book::Hebrews,
            ],
            vec![
                Book::FirstThessalonians,
                Book::SecondThessalonians,
                Book::FirstTimothy,
                Book::SecondTimothy,
                Book::Titus,
                Book::Philemon,
                Book::James,
                Book::FirstPeter,
                Book::SecondPeter,
                Book::FirstJohn,
                Book::SecondJohn,
                Book::ThirdJohn,
                Book::Jude,
                Book::Revelation,
            ],
            vec![Book::Job, Book::Ecclesiastes, Book::SongOfSolomon],
            vec![Book::Psalms],
            vec![Book::Proverbs],
            vec![
                Book::Joshua,
                Book::Judges,
                Book::Ruth,
                Book::FirstSamuel,
                Book::SecondSamuel,
                Book::FirstKings,
                Book::SecondKings,
                Book::FirstChronicles,
                Book::SecondChronicles,
                Book::Ezra,
                Book::Nehemiah,
                Book::Esther,
            ],
            vec![
                Book::Isaiah,
                Book::Jeremiah,
                Book::Lamentations,
                Book::Ezekiel,
                Book::Daniel,
                Book::Hosea,
                Book::Joel,
                Book::Amos,
                Book::Obadiah,
                Book::Jonah,
                Book::Micah,
                Book::Nahum,
                Book::Habakkuk,
                Book::Zephaniah,
                Book::Haggai,
                Book::Zechariah,
                Book::Malachi,
            ],
            vec![Book::Acts],
        ];
        proof {
            assert(readings@.map_values(|t: Vec<Book>| t@) =~~= spec_default_readings());
        }
        Self { user_id, readings }
    }
}


/// True when the storage delimiter occurs nowhere in the segment.
pub open spec fn seg_has_no_sep(s: Seq<char>) -> bool {
    forall|i: int| 0 <= i < s.len() ==> s[i] != '|'
}

/// Storage form of a track: the display names of its books joined by the
/// delimiter, which occurs in no display name.
pub open spec fn spec_serialize_track(t: Seq<Book>) -> Seq<char>
    decreases t.len(),
{
    if t.len() == 0 {
        Seq::empty()
    } else if t.len() == 1 {
        spec_display_name(t[0])
    } else {
        spec_display_name(t[0]) + seq!['|'] + spec_serialize_track(t.skip(1))
    }
}

/// Splits a character sequence at every delimiter occurrence; the result
/// holds one segment more than there are delimiters.
pub open spec fn spec_split(s: Seq<char>) -> Seq<Seq<char>>
    decreases s.len(),
{
    if s.len() == 0 {
        seq![Seq::<char>::empty()]
    } else {
        let rest = spec_split(s.skip(1));
        if s[0] == '|' {
            seq![Seq::<char>::empty()] + rest
        } else {
            seq![seq![s[0]] + rest[0]] + rest.skip(1)
        }
    }
}

/// A split result always holds at least one segment.
pub proof fn lemma_split_nonempty(s: Seq<char>)
    ensures
        spec_split(s).len() >= 1,
    decreases s.len(),
{
    if s.len() > 0 {
        lemma_split_nonempty(s.skip(1));
    }
}

/// A sequence without the delimiter splits into itself alone.
pub proof fn lemma_split_whole(s: Seq<char>)
    requires
        seg_has_no_sep(s),
    ensures
        spec_split(s) == seq![s],
    decreases s.len(),
{
    if s.len() == 0 {
        assert(spec_split(s) =~~= seq![s]);
    } else {
        lemma_split_whole(s.skip(1));
        assert(seq![s[0]] + s.skip(1) =~= s);
        assert(spec_split(s) =~~= seq![s]);
    }
}

/// Splitting a delimited concatenation peels off the first segment.
pub proof fn lemma_split_concat(a: Seq<char>, b: Seq<char>)
    requires
        seg_has_no_sep(a),
    ensures
        spec_split(a + seq!['|'] + b) == seq![a] + spec_split(b),
    decreases a.len(),
{
    let s = a + seq!['|'] + b;
    if a.len() == 0 {
        assert(s =~= seq!['|'] + b);
        assert(s.skip(1) =~= b);
        assert(a =~= Seq::<char>::empty());
        assert(spec_split(s) =~~= seq![a] + spec_split(b));
    } else {
        lemma_split_concat(a.skip(1), b);
        assert(s.skip(1) =~= a.skip(1) + seq!['|'] + b);
        assert(s[0] == a[0]);
        assert(seq![a[0]] + a.skip(1) =~= a);
        assert((seq![a.skip(1)] + spec_split(b)).skip(1) =~= spec_split(b));
        assert(spec_split(s) =~~= seq![a] + spec_split(b));
    }
}

/// The storage form of a non-empty track splits back into the display
/// names of its books, in order.
pub proof fn lemma_split_serialize(t: Seq<Book>)
    requires
        t.len() >= 1,
    ensures
        spec_split(spec_serialize_track(t)) == t.map_values(|b: Book| spec_display_name(b)),
    decreases t.len(),
{
    lemma_name_wellformed(t[0]);
    if t.len() == 1 {
        lemma_split_whole(spec_display_name(t[0]));
        assert(spec_split(spec_serialize_track(t)) =~~= t.map_values(
            |b: Book| spec_display_name(b),
        ));
    } else {
        lemma_split_serialize(t.skip(1));
        lemma_split_concat(spec_display_name(t[0]), spec_serialize_track(t.skip(1)));
        assert(seq![spec_display_name(t[0])] + t.skip(1).map_values(
            |b: Book| spec_display_name(b),
        ) =~~= t.map_values(|b: Book| spec_display_name(b)));
    }
}

/// Parse of a storage form: every segment must name a catalog book, else
/// the whole parse is rejected.
pub open spec fn spec_parse_track(s: Seq<char>) -> Option<Seq<Book>> {
    let segs = spec_split(s);
    if forall|i: int| 0 <= i < segs.len() ==> (#[trigger] spec_book_of_name(segs[i])) is Some {
        Some(Seq::new(segs.len(), |i: int| spec_book_of_name(segs[i]).unwrap()))
    } else {
        None
    }
}

/// A non-empty track serialized to its storage form and parsed back
/// yields the same ordered list of books.
pub proof fn lemma_track_round_trip(t: Seq<Book>)
    requires
        t.len() >= 1,
    ensures
        spec_parse_track(spec_serialize_track(t)) == Some(t),
{
    lemma_split_serialize(t);
    let segs = spec_split(spec_serialize_track(t));
    assert forall|i: int| 0 <= i < segs.len() implies (#[trigger] spec_book_of_name(
        segs[i],
    )) is Some by {
        lemma_name_round_trip(t[i]);
    }
    assert forall|i: int|
        0 <= i < segs.len() implies #[trigger] spec_book_of_name(segs[i]).unwrap() == t[i] by {
        lemma_name_round_trip(t[i]);
    }
    assert(Seq::new(segs.len(), |i: int| spec_book_of_name(segs[i]).unwrap()) =~= t);
}


/// Serializing one more book appends a delimiter and that book's name.
pub proof fn lemma_serialize_push(t: Seq<Book>, b: Book)
    requires
        t.len() >= 1,
    ensures
        spec_serialize_track(t.push(b)) == spec_serialize_track(t) + seq!['|']
            + spec_display_name(b),
    decreases t.len(),
{
    if t.len() == 1 {
        assert(t.push(b).skip(1) =~= seq![b]);
        assert(spec_serialize_track(seq![b]) == spec_display_name(seq![b][0]));
        assert(spec_serialize_track(t.push(b)) =~= spec_serialize_track(t) + seq!['|']
            + spec_display_name(b));
    } else {
        lemma_serialize_push(t.skip(1), b);
        assert(t.push(b).skip(1) =~= t.skip(1).push(b));
        assert(spec_serialize_track(t.push(b)) =~= spec_serialize_track(t) + seq!['|']
            + spec_display_name(b));
    }
}

/// Serializes a non-empty track to its storage form.
pub fn serialize_track(t: &Vec<Book>) -> (r: String)
    requires
        t@.len() >= 1,
    ensures
        r@ == spec_serialize_track(t@),
{
    let mut out: String = t[0].display_name();
    let mut i: usize = 1;
    proof {
        assert(t@.take(1) =~= seq![t@[0]]);
        assert(spec_serialize_track(seq![t@[0]]) == spec_display_name(seq![t@[0]][0]));
    }
    while i < t.len()
        invariant
            1 <= i <= t@.len(),
            out@ == spec_serialize_track(t@.take(i as int)),
        decreases t@.len() - i,
    {
        proof {
            lemma_serialize_push(t@.take(i as int), t@[i as int]);
            assert(t@.take(i as int).push(t@[i as int]) =~= t@.take(i as int + 1));
        }
        out.append("|");
        let name = t[i].display_name();
        out.append(name.as_str());
        proof {
            reveal_strlit("|");
            assert("|"@ =~= seq!['|']);
        }
        i = i + 1;
    }
    proof {
        assert(t@.take(t@.len() as int) =~= t@);
    }
    out
}

/// Parses a storage form back into a track: `None` as soon as any
/// segment is not a catalog book name, the empty form included.
pub fn parse_track(s: &str) -> (r: Option<Vec<Book>>)
    ensures
        match r {
            Some(v) => spec_parse_track(s@) == Some(v@),
            None => spec_parse_track(s@) is None,
        },
{
    let ghost target = spec_split(s@);
    let n = s.unicode_len();
    let mut books: Vec<Book> = Vec::new();
    let mut start: usize = 0;
    let mut i: usize = 0;
    proof {
        assert(s@.skip(0) =~= s@);
        assert(target.skip(0) =~= target);
    }
    while i < n
        invariant
            0 <= start <= i <= n,
            n == s@.len(),
            target == spec_split(s@),
            seg_has_no_sep(s@.subrange(start as int, i as int)),
            spec_split(s@.skip(start as int)) == target.skip(books@.len() as int),
            books@.len() + spec_split(s@.skip(start as int)).len() == target.len(),
            forall|j: int|
                0 <= j < books@.len() ==> #[trigger] spec_book_of_name(target[j]) == Some(
                    books@[j],
                ),
        decreases n - i,
    {
        let c = s.get_char(i);
        if c == '|' {
            let ghost a = s@.subrange(start as int, i as int);
            proof {
                assert(s@.skip(start as int) =~= a + seq!['|'] + s@.skip(i as int + 1));
                lemma_split_concat(a, s@.skip(i as int + 1));
                lemma_split_nonempty(s@.skip(i as int + 1));
                assert((seq![a] + spec_split(s@.skip(i as int + 1)))[0] == a);
                assert(target.skip(books@.len() as int)[0] == target[books@.len() as int]);
                assert(target[books@.len() as int] == a);
            }
            let seg = s.substring_char(start, i);
            match Book::from_display_name(seg) {
                Some(b) => {
                    proof {
                        assert((seq![a] + spec_split(s@.skip(i as int + 1))).skip(1) =~= spec_split(
                            s@.skip(i as int + 1),
                        ));
                        assert(target.skip(books@.len() as int).skip(1) =~= target.skip(
                            books@.len() as int + 1,
                        ));
                    }
                    books.push(b);
                },
                None => {
                    proof {
                        assert(spec_book_of_name(spec_split(s@)[books@.len() as int]) is None);
                    }
                    return None;
                },
            }
            start = i + 1;
            proof {
                assert(s@.subrange(start as int, i as int + 1) =~= Seq::<char>::empty());
            }
        }
        i = i + 1;
        proof {
            assert(seg_has_no_sep(s@.subrange(start as int, i as int)));
        }
    }
    let ghost a = s@.subrange(start as int, n as int);
    proof {
        assert(s@.skip(start as int) =~= a);
        lemma_split_whole(a);
        assert(target.skip(books@.len() as int) =~= seq![a]);
        assert(target.skip(books@.len() as int)[0] == target[books@.len() as int]);
        assert(target[books@.len() as int] == a);
        assert(target.len() == books@.len() + 1);
    }
    let seg = s.substring_char(start, n);
    match Book::from_display_name(seg) {
        Some(b) => {
            books.push(b);
            proof {
                assert(spec_parse_track(s@) is Some);
                assert(Seq::new(target.len(), |j: int| spec_book_of_name(target[j]).unwrap())
                    =~= books@);
            }
            Some(books)
        },
        None => {
            proof {
                assert(spec_book_of_name(spec_split(s@)[books@.len() as int]) is None);
            }
            None
        },
    }
}

} // verus!
