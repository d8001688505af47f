use vstd::prelude::*;

verus! {

/// One reading unit of the fixed canonical catalog: a book of the Bible.
/// The catalog is compiled in, loaded once and never mutated.
#[derive(Debug, Clone, Copy, PartialEq, Eq, Structural, Hash)]
pub enum Book {
    Genesis,
    Exodus,
    Leviticus,
    Numbers,
    Deuteronomy,
    Joshua,
    Judges,
    Ruth,
    FirstSamuel,
    SecondSamuel,
    FirstKings,
    SecondKings,
    FirstChronicles,
    SecondChronicles,
    Ezra,
    Nehemiah,
    Esther,
    Job,
    Psalms,
    Proverbs,
    Ecclesiastes,
    SongOfSolomon,
    Isaiah,
    Jeremiah,
    Lamentations,
    Ezekiel,
    Daniel,
    Hosea,
    Joel,
    Amos,
    Obadiah,
    Jonah,
    Micah,
    Nahum,
    Habakkuk,
    Zephaniah,
    Haggai,
    Zechariah,
    Malachi,
    Matthew,
    Mark,
    Luke,
    John,
    Acts,
    Romans,
    FirstCorinthians,
    SecondCorinthians,
    Galatians,
    Ephesians,
    Philippians,
    Colossians,
    FirstThessalonians,
    SecondThessalonians,
    FirstTimothy,
    SecondTimothy,
    Titus,
    Philemon,
    Hebrews,
    James,
    FirstPeter,
    SecondPeter,
    FirstJohn,
    SecondJohn,
    ThirdJohn,
    Jude,
    Revelation,
}

/// Chapter count of a book; strictly positive for every catalog entry.
pub open spec fn spec_total_chapters(b: Book) -> u16 {
    match b {
        Book::Genesis => 50,
        Book::Exodus => 40,
        Book::Leviticus => 27,
        Book::Numbers => 36,
        Book::Deuteronomy => 34,
        Book::Joshua => 24,
        Book::Judges => 21,
        Book::Ruth => 4,
        Book::FirstSamuel => 31,
        Book::SecondSamuel => 24,
        Book::FirstKings => 22,
        Book::SecondKings => 25,
        Book::FirstChronicles => 29,
        Book::SecondChronicles => 36,
        Book::Ezra => 10,
        Book::Nehemiah => 13,
        Book::Esther => 10,
        Book::Job => 42,
        Book::Psalms => 150,
        Book::Proverbs => 31,
        Book::Ecclesiastes => 12,
        Book::SongOfSolomon => 8,
        Book::Isaiah => 66,
        Book::Jeremiah => 52,
        Book::Lamentations => 5,
        Book::Ezekiel => 48,
        Book::Daniel => 12,
        Book::Hosea => 14,
        Book::Joel => 3,
        Book::Amos => 9,
        Book::Obadiah => 1,
        Book::Jonah => 4,
        Book::Micah => 7,
        Book::Nahum => 3,
        Book::Habakkuk => 3,
        Book::Zephaniah => 3,
        Book::Haggai => 2,
        Book::Zechariah => 14,
        Book::Malachi => 4,
        Book::Matthew => 28,
        Book::Mark => 16,
        Book::Luke => 24,
        Book::John => 21,
        Book::Acts => 28,
        Book::Romans => 16,
        Book::FirstCorinthians => 16,
        Book::SecondCorinthians => 13,
        Book::Galatians => 6,
        Book::Ephesians => 6,
        Book::Philippians => 4,
        Book::Colossians => 4,
        Book::FirstThessalonians => 5,
        Book::SecondThessalonians => 3,
        Book::FirstTimothy => 6,
        Book::SecondTimothy => 4,
        Book::Titus => 3,
        Book::Philemon => 1,
        Book::Hebrews => 13,
        Book::James => 5,
        Book::FirstPeter => 5,
        Book::SecondPeter => 3,
        Book::FirstJohn => 5,
        Book::SecondJohn => 1,
        Book::ThirdJohn => 1,
        Book::Jude => 1,
        Book::Revelation => 22,
    }
}

/// Fixed ordinal of a book within the canonical catalog (1 through 66).
/// It only addresses the external content source and is unrelated to the
/// order of books inside a reading track.
pub open spec fn spec_ordinal(b: Book) -> usize {
    match b {
        Book::Genesis => 1,
        Book::Exodus => 2,
        Book::Leviticus => 3,
        Book::Numbers => 4,
        Book::Deuteronomy => 5,
        Book::Joshua => 6,
        Book::Judges => 7,
        Book::Ruth => 8,
        Book::FirstSamuel => 9,
        Book::SecondSamuel => 10,
        Book::FirstKings => 11,
        Book::SecondKings => 12,
        Book::FirstChronicles => 13,
        Book::SecondChronicles => 14,
        Book::Ezra => 15,
        Book::Nehemiah => 16,
        Book::Esther => 17,
        Book::Job => 18,
        Book::Psalms => 19,
        Book::Proverbs => 20,
        Book::Ecclesiastes => 21,
        Book::SongOfSolomon => 22,
        Book::Isaiah => 23,
        Book::Jeremiah => 24,
        Book::Lamentations => 25,
        Book::Ezekiel => 26,
        Book::Daniel => 27,
        Book::Hosea => 28,
        Book::Joel => 29,
        Book::Amos => 30,
        Book::Obadiah => 31,
        Book::Jonah => 32,
        Book::Micah => 33,
        Book::Nahum => 34,
        Book::Habakkuk => 35,
        Book::Zephaniah => 36,
        Book::Haggai => 37,
        Book::Zechariah => 38,
        Book::Malachi => 39,
        Book::Matthew => 40,
        Book::Mark => 41,
        Book::Luke => 42,
        Book::John => 43,
        Book::Acts => 44,
        Book::Romans => 45,
        Book::FirstCorinthians => 46,
        Book::SecondCorinthians => 47,
        Book::Galatians => 48,
        Book::Ephesians => 49,
        Book::Philippians => 50,
        Book::Colossians => 51,
        Book::FirstThessalonians => 52,
        Book::SecondThessalonians => 53,
        Book::FirstTimothy => 54,
        Book::SecondTimothy => 55,
        Book::Titus => 56,
        Book::Philemon => 57,
        Book::Hebrews => 58,
        Book::James => 59,
        Book::FirstPeter => 60,
        Book::SecondPeter => 61,
        Book::FirstJohn => 62,
        Book::SecondJohn => 63,
        Book::ThirdJohn => 64,
        Book::Jude => 65,
        Book::Revelation => 66,
    }
}

/// Display name of a book, the stable identifier used in storage.
pub open spec fn spec_display_name(b: Book) -> Seq<char> {
    match b {
        Book::Genesis => "Genesis"@,
        Book::Exodus => "Exodus"@,
        Book::Leviticus => "Leviticus"@,
        Book::Numbers => "Numbers"@,
        Book::Deuteronomy => "Deuteronomy"@,
        Book::Joshua => "Joshua"@,
        Book::Judges => "Judges"@,
        Book::Ruth => "Ruth"@,
        Book::FirstSamuel => "1 Samuel"@,
        Book::SecondSamuel => "2 Samuel"@,
        Book::FirstKings => "1 Kings"@,
        Book::SecondKings => "2 Kings"@,
        Book::FirstChronicles => "1 Chronicles"@,
        Book::SecondChronicles => "2 Chronicles"@,
        Book::Ezra => "Ezra"@,
        Book::Nehemiah => "Nehemiah"@,
        Book::Esther => "Esther"@,
        Book::Job => "Job"@,
        Book::Psalms => "Psalms"@,
        Book::Proverbs => "Proverbs"@,
        Book::Ecclesiastes => "Ecclesiastes"@,
        Book::SongOfSolomon => "Song of Solomon"@,
        Book::Isaiah => "Isaiah"@,
        Book::Jeremiah => "Jeremiah"@,
        Book::Lamentations => "Lamentations"@,
        Book::Ezekiel => "Ezekiel"@,
        Book::Daniel => "Daniel"@,
        Book::Hosea => "Hosea"@,
        Book::Joel => "Joel"@,
        Book::Amos => "Amos"@,
        Book::Obadiah => "Obadiah"@,
        Book::Jonah => "Jonah"@,
        Book::Micah => "Micah"@,
        Book::Nahum => "Nahum"@,
        Book::Habakkuk => "Habakkuk"@,
        Book::Zephaniah => "Zephaniah"@,
        Book::Haggai => "Haggai"@,
        Book::Zechariah => "Zechariah"@,
        Book::Malachi => "Malachi"@,
        Book::Matthew => "Matthew"@,
        Book::Mark => "Mark"@,
        Book::Luke => "Luke"@,
        Book::John => "John"@,
        Book::Acts => "Acts"@,
        Book::Romans => "Romans"@,
        Book::FirstCorinthians => "1 Corinthians"@,
        Book::SecondCorinthians => "2 Corinthians"@,
        Book::Galatians => "Galatians"@,
        Book::Ephesians => "Ephesians"@,
        Book::Philippians => "Philippians"@,
        Book::Colossians => "Colossians"@,
        Book::FirstThessalonians => "1 Thessalonians"@,
        Book::SecondThessalonians => "2 Thessalonians"@,
        Book::FirstTimothy => "1 Timothy"@,
        Book::SecondTimothy => "2 Timothy"@,
        Book::Titus => "Titus"@,
        Book::Philemon => "Philemon"@,
        Book::Hebrews => "Hebrews"@,
        Book::James => "James"@,
        Book::FirstPeter => "1 Peter"@,
        Book::SecondPeter => "2 Peter"@,
        Book::FirstJohn => "1 John"@,
        Book::SecondJohn => "2 John"@,
        Book::ThirdJohn => "3 John"@,
        Book::Jude => "Jude"@,
        Book::Revelation => "Revelation"@,
    }
}

/// Total parse from a display name back to the catalog entry:
/// a name outside the catalog yields `None`, never a panic.
pub open spec fn spec_book_of_name(s: Seq<char>) -> Option<Book> {
    if s == "Genesis"@ {
        Some(Book::Genesis)
    } else if s == "Exodus"@ {
        Some(Book::Exodus)
    } else if s == "Leviticus"@ {
        Some(Book::Leviticus)
    } else if s == "Numbers"@ {
        Some(Book::Numbers)
    } else if s == "Deuteronomy"@ {
        Some(Book::Deuteronomy)
    } else if s == "Joshua"@ {
        Some(Book::Joshua)
    } else if s == "Judges"@ {
        Some(Book::Judges)
    } else if s == "Ruth"@ {
        Some(Book::Ruth)
    } else if s == "1 Samuel"@ {
        Some(Book::FirstSamuel)
    } else if s == "2 Samuel"@ {
        Some(Book::SecondSamuel)
    } else if s == "1 Kings"@ {
        Some(Book::FirstKings)
    } else if s == "2 Kings"@ {
        Some(Book::SecondKings)
    } else if s == "1 Chronicles"@ {
        Some(Book::FirstChronicles)
    } else if s == "2 Chronicles"@ {
        Some(Book::SecondChronicles)
    } else if s == "Ezra"@ {
        Some(Book::Ezra)
    } else if s == "Nehemiah"@ {
        Some(Book::Nehemiah)
    } else if s == "Esther"@ {
        Some(Book::Esther)
    } else if s == "Job"@ {
        Some(Book::Job)
    } else if s == "Psalms"@ {
        Some(Book::Psalms)
    } else if s == "Proverbs"@ {
        Some(Book::Proverbs)
    } else if s == "Ecclesiastes"@ {
        Some(Book::Ecclesiastes)
    } else if s == "Song of Solomon"@ {
        Some(Book::SongOfSolomon)
    } else if s == "Isaiah"@ {
        Some(Book::Isaiah)
    } else if s == "Jeremiah"@ {
        Some(Book::Jeremiah)
    } else if s == "Lamentations"@ {
        Some(Book::Lamentations)
    } else if s == "Ezekiel"@ {
        Some(Book::Ezekiel)
    } else if s == "Daniel"@ {
        Some(Book::Daniel)
    } else if s == "Hosea"@ {
        Some(Book::Hosea)
    } else if s == "Joel"@ {
        Some(Book::Joel)
    } else if s == "Amos"@ {
        Some(Book::Amos)
    } else if s == "Obadiah"@ {
        Some(Book::Obadiah)
    } else if s == "Jonah"@ {
        Some(Book::Jonah)
    } else if s == "Micah"@ {
        Some(Book::Micah)
    } else if s == "Nahum"@ {
        Some(Book::Nahum)
    } else if s == "Habakkuk"@ {
        Some(Book::Habakkuk)
    } else if s == "Zephaniah"@ {
        Some(Book::Zephaniah)
    } else if s == "Haggai"@ {
        Some(Book::Haggai)
    } else if s == "Zechariah"@ {
        Some(Book::Zechariah)
    } else if s == "Malachi"@ {
        Some(Book::Malachi)
    } else if s == "Matthew"@ {
        Some(Book::Matthew)
    } else if s == "Mark"@ {
        Some(Book::Mark)
    } else if s == "Luke"@ {
        Some(Book::Luke)
    } else if s == "John"@ {
        Some(Book::John)
    } else if s == "Acts"@ {
        Some(Book::Acts)
    } else if s == "Romans"@ {
        Some(Book::Romans)
    } else if s == "1 Corinthians"@ {
        Some(Book::FirstCorinthians)
    } else if s == "2 Corinthians"@ {
        Some(Book::SecondCorinthians)
    } else if s == "Galatians"@ {
        Some(Book::Galatians)
    } else if s == "Ephesians"@ {
        Some(Book::Ephesians)
    } else if s == "Philippians"@ {
        Some(Book::Philippians)
    } else if s == "Colossians"@ {
        Some(Book::Colossians)
    } else if s == "1 Thessalonians"@ {
        Some(Book::FirstThessalonians)
    } else if s == "2 Thessalonians"@ {
        Some(Book::SecondThessalonians)
    } else if s == "1 Timothy"@ {
        Some(Book::FirstTimothy)
    } else if s == "2 Timothy"@ {
        Some(Book::SecondTimothy)
    } else if s == "Titus"@ {
        Some(Book::Titus)
    } else if s == "Philemon"@ {
        Some(Book::Philemon)
    } else if s == "Hebrews"@ {
        Some(Book::Hebrews)
    } else if s == "James"@ {
        Some(Book::James)
    } else if s == "1 Peter"@ {
        Some(Book::FirstPeter)
    } else if s == "2 Peter"@ {
        Some(Book::SecondPeter)
    } else if s == "1 John"@ {
        Some(Book::FirstJohn)
    } else if s == "2 John"@ {
        Some(Book::SecondJohn)
    } else if s == "3 John"@ {
        Some(Book::ThirdJohn)
    } else if s == "Jude"@ {
        Some(Book::Jude)
    } else if s == "Revelation"@ {
        Some(Book::Revelation)
    } else {
        None
    }
}

/// String equality by contents.
pub fn str_eq(a: &str, b: &str) -> (r: bool)
    ensures
        r == (a@ == b@),
{
    let x: String = a.to_owned();
    let y: String = b.to_owned();
    x == y
}

impl Book {
    /// Chapter count of the book, always at least 1.
    pub fn total_chapters(&self) -> (r: u16)
        ensures
            r == spec_total_chapters(*self),
            1 <= r <= 150,
    {
        match self {
            Book::Genesis => 50,
            Book::Exodus => 40,
            Book::Leviticus => 27,
            Book::Numbers => 36,
            Book::Deuteronomy => 34,
            Book::Joshua => 24,
            Book::Judges => 21,
            Book::Ruth => 4,
            Book::FirstSamuel => 31,
            Book::SecondSamuel => 24,
            Book::FirstKings => 22,
            Book::SecondKings => 25,
            Book::FirstChronicles => 29,
            Book::SecondChronicles => 36,
            Book::Ezra => 10,
            Book::Nehemiah => 13,
            Book::Esther => 10,
            Book::Job => 42,
            Book::Psalms => 150,
            Book::Proverbs => 31,
            Book::Ecclesiastes => 12,
            Book::SongOfSolomon => 8,
            Book::Isaiah => 66,
            Book::Jeremiah => 52,
            Book::Lamentations => 5,
            Book::Ezekiel => 48,
            Book::Daniel => 12,
            Book::Hosea => 14,
            Book::Joel => 3,
            Book::Amos => 9,
            Book::Obadiah => 1,
            Book::Jonah => 4,
            Book::Micah => 7,
            Book::Nahum => 3,
            Book::Habakkuk => 3,
            Book::Zephaniah => 3,
            Book::Haggai => 2,
            Book::Zechariah => 14,
            Book::Malachi => 4,
            Book::Matthew => 28,
            Book::Mark => 16,
            Book::Luke => 24,
            Book::John => 21,
            Book::Acts => 28,
            Book::Romans => 16,
            Book::FirstCorinthians => 16,
            Book::SecondCorinthians => 13,
            Book::Galatians => 6,
            Book::Ephesians => 6,
            Book::Philippians => 4,
            Book::Colossians => 4,
            Book::FirstThessalonians => 5,
            Book::SecondThessalonians => 3,
            Book::FirstTimothy => 6,
            Book::SecondTimothy => 4,
            Book::Titus => 3,
            Book::Philemon => 1,
            Book::Hebrews => 13,
            Book::James => 5,
            Book::FirstPeter => 5,
            Book::SecondPeter => 3,
            Book::FirstJohn => 5,
            Book::SecondJohn => 1,
            Book::ThirdJohn => 1,
            Book::Jude => 1,
            Book::Revelation => 22,
        }
    }

    /// Ordinal of the book within the canonical catalog (1 through 66).
    pub fn index(&self) -> (r: usize)
        ensures
            r == spec_ordinal(*self),
            1 <= r <= 66,
    {
        match self {
            Book::Genesis => 1,
            Book::Exodus => 2,
            Book::Leviticus => 3,
            Book::Numbers => 4,
            Book::Deuteronomy => 5,
            Book::Joshua => 6,
            Book::Judges => 7,
            Book::Ruth => 8,
            Book::FirstSamuel => 9,
            Book::SecondSamuel => 10,
            Book::FirstKings => 11,
            Book::SecondKings => 12,
            Book::FirstChronicles => 13,
            Book::SecondChronicles => 14,
            Book::Ezra => 15,
            Book::Nehemiah => 16,
            Book::Esther => 17,
            Book::Job => 18,
            Book::Psalms => 19,
            Book::Proverbs => 20,
            Book::Ecclesiastes => 21,
            Book::SongOfSolomon => 22,
            Book::Isaiah => 23,
            Book::Jeremiah => 24,
            Book::Lamentations => 25,
            Book::Ezekiel => 26,
            Book::Daniel => 27,
            Book::Hosea => 28,
            Book::Joel => 29,
            Book::Amos => 30,
            Book::Obadiah => 31,
            Book::Jonah => 32,
            Book::Micah => 33,
            Book::Nahum => 34,
            Book::Habakkuk => 35,
            Book::Zephaniah => 36,
            Book::Haggai => 37,
            Book::Zechariah => 38,
            Book::Malachi => 39,
            Book::Matthew => 40,
            Book::Mark => 41,
            Book::Luke => 42,
            Book::John => 43,
            Book::Acts => 44,
            Book::Romans => 45,
            Book::FirstCorinthians => 46,
            Book::SecondCorinthians => 47,
            Book::Galatians => 48,
            Book::Ephesians => 49,
            Book::Philippians => 50,
            Book::Colossians => 51,
            Book::FirstThessalonians => 52,
            Book::SecondThessalonians => 53,
            Book::FirstTimothy => 54,
            Book::SecondTimothy => 55,
            Book::Titus => 56,
            Book::Philemon => 57,
            Book::Hebrews => 58,
            Book::James => 59,
            Book::FirstPeter => 60,
            Book::SecondPeter => 61,
            Book::FirstJohn => 62,
            Book::SecondJohn => 63,
            Book::ThirdJohn => 64,
            Book::Jude => 65,
            Book::Revelation => 66,
        }
    }

    /// Display name of the book.
    pub fn display_name(&self) -> (r: String)
        ensures
            r@ == spec_display_name(*self),
    {
        match self {
            Book::Genesis => "Genesis".to_owned(),
            Book::Exodus => "Exodus".to_owned(),
            Book::Leviticus => "Leviticus".to_owned(),
            Book::Numbers => "Numbers".to_owned(),
            Book::Deuteronomy => "Deuteronomy".to_owned(),
            Book::Joshua => "Joshua".to_owned(),
            Book::Judges => "Judges".to_owned(),
            Book::Ruth => "Ruth".to_owned(),
            Book::FirstSamuel => "1 Samuel".to_owned(),
            Book::SecondSamuel => "2 Samuel".to_owned(),
            Book::FirstKings => "1 Kings".to_owned(),
            Book::SecondKings => "2 Kings".to_owned(),
            Book::FirstChronicles => "1 Chronicles".to_owned(),
            Book::SecondChronicles => "2 Chronicles".to_owned(),
            Book::Ezra => "Ezra".to_owned(),
            Book::Nehemiah => "Nehemiah".to_owned(),
            Book::Esther => "Esther".to_owned(),
            Book::Job => "Job".to_owned(),
            Book::Psalms => "Psalms".to_owned(),
            Book::Proverbs => "Proverbs".to_owned(),
            Book::Ecclesiastes => "Ecclesiastes".to_owned(),
            Book::SongOfSolomon => "Song of Solomon".to_owned(),
            Book::Isaiah => "Isaiah".to_owned(),
            Book::Jeremiah => "Jeremiah".to_owned(),
            Book::Lamentations => "Lamentations".to_owned(),
            Book::Ezekiel => "Ezekiel".to_owned(),
            Book::Daniel => "Daniel".to_owned(),
            Book::Hosea => "Hosea".to_owned(),
            Book::Joel => "Joel".to_owned(),
            Book::Amos => "Amos".to_owned(),
            Book::Obadiah => "Obadiah".to_owned(),
            Book::Jonah => "Jonah".to_owned(),
            Book::Micah => "Micah".to_owned(),
            Book::Nahum => "Nahum".to_owned(),
            Book::Habakkuk => "Habakkuk".to_owned(),
            Book::Zephaniah => "Zephaniah".to_owned(),
            Book::Haggai => "Haggai".to_owned(),
            Book::Zechariah => "Zechariah".to_owned(),
            Book::Malachi => "Malachi".to_owned(),
            Book::Matthew => "Matthew".to_owned(),
            Book::Mark => "Mark".to_owned(),
            Book::Luke => "Luke".to_owned(),
            Book::John => "John".to_owned(),
            Book::Acts => "Acts".to_owned(),
            Book::Romans => "Romans".to_owned(),
            Book::FirstCorinthians => "1 Corinthians".to_owned(),
            Book::SecondCorinthians => "2 Corinthians".to_owned(),
            Book::Galatians => "Galatians".to_owned(),
            Book::Ephesians => "Ephesians".to_owned(),
            Book::Philippians => "Philippians".to_owned(),
            Book::Colossians => "Colossians".to_owned(),
            Book::FirstThessalonians => "1 Thessalonians".to_owned(),
            Book::SecondThessalonians => "2 Thessalonians".to_owned(),
            Book::FirstTimothy => "1 Timothy".to_owned(),
            Book::SecondTimothy => "2 Timothy".to_owned(),
            Book::Titus => "Titus".to_owned(),
            Book::Philemon => "Philemon".to_owned(),
            Book::Hebrews => "Hebrews".to_owned(),
            Book::James => "James".to_owned(),
            Book::FirstPeter => "1 Peter".to_owned(),
            Book::SecondPeter => "2 Peter".to_owned(),
            Book::FirstJohn => "1 John".to_owned(),
            Book::SecondJohn => "2 John".to_owned(),
            Book::ThirdJohn => "3 John".to_owned(),
            Book::Jude => "Jude".to_owned(),
            Book::Revelation => "Revelation".to_owned(),
        }
    }

    /// Looks a display name up in the catalog; `None` for a name that is
    /// not in the catalog.
    pub fn from_display_name(s: &str) -> (r: Option<Book>)
        ensures
            r == spec_book_of_name(s@),
    {
        if str_eq(s, "Genesis") {
            return Some(Book::Genesis);
        }
        if str_eq(s, "Exodus") {
            return Some(Book::Exodus);
        }
        if str_eq(s, "Leviticus") {
            return Some(Book::Leviticus);
        }
        if str_eq(s, "Numbers") {
            return Some(Book::Numbers);
        }
        if str_eq(s, "Deuteronomy") {
            return Some(Book::Deuteronomy);
        }
        if str_eq(s, "Joshua") {
            return Some(Book::Joshua);
        }
        if str_eq(s, "Judges") {
            return Some(Book::Judges);
        }
        if str_eq(s, "Ruth") {
            return Some(Book::Ruth);
        }
        if str_eq(s, "1 Samuel") {
            return Some(Book::FirstSamuel);
        }
        if str_eq(s, "2 Samuel") {
            return Some(Book::SecondSamuel);
        }
        if str_eq(s, "1 Kings") {
            return Some(Book::FirstKings);
        }
        if str_eq(s, "2 Kings") {
            return Some(Book::SecondKings);
        }
        if str_eq(s, "1 Chronicles") {
            return Some(Book::FirstChronicles);
        }
        if str_eq(s, "2 Chronicles") {
            return Some(Book::SecondChronicles);
        }
        if str_eq(s, "Ezra") {
            return Some(Book::Ezra);
        }
        if str_eq(s, "Nehemiah") {
            return Some(Book::Nehemiah);
        }
        if str_eq(s, "Esther") {
            return Some(Book::Esther);
        }
        if str_eq(s, "Job") {
            return Some(Book::Job);
        }
        if str_eq(s, "Psalms") {
            return Some(Book::Psalms);
        }
        if str_eq(s, "Proverbs") {
            return Some(Book::Proverbs);
        }
        if str_eq(s, "Ecclesiastes") {
            return Some(Book::Ecclesiastes);
        }
        if str_eq(s, "Song of Solomon") {
            return Some(Book::SongOfSolomon);
        }
        if str_eq(s, "Isaiah") {
            return Some(Book::Isaiah);
        }
        if str_eq(s, "Jeremiah") {
            return Some(Book::Jeremiah);
        }
        if str_eq(s, "Lamentations") {
            return Some(Book::Lamentations);
        }
        if str_eq(s, "Ezekiel") {
            return Some(Book::Ezekiel);
        }
        if str_eq(s, "Daniel") {
            return Some(Book::Daniel);
        }
        if str_eq(s, "Hosea") {
            return Some(Book::Hosea);
        }
        if str_eq(s, "Joel") {
            return Some(Book::Joel);
        }
        if str_eq(s, "Amos") {
            return Some(Book::Amos);
        }
        if str_eq(s, "Obadiah") {
            return Some(Book::Obadiah);
        }
        if str_eq(s, "Jonah") {
            return Some(Book::Jonah);
        }
        if str_eq(s, "Micah") {
            return Some(Book::Micah);
        }
        if str_eq(s, "Nahum") {
            return Some(Book::Nahum);
        }
        if str_eq(s, "Habakkuk") {
            return Some(Book::Habakkuk);
        }
        if str_eq(s, "Zephaniah") {
            return Some(Book::Zephaniah);
        }
        if str_eq(s, "Haggai") {
            return Some(Book::Haggai);
        }
        if str_eq(s, "Zechariah") {
            return Some(Book::Zechariah);
        }
        if str_eq(s, "Malachi") {
            return Some(Book::Malachi);
        }
        if str_eq(s, "Matthew") {
            return Some(Book::Matthew);
        }
        if str_eq(s, "Mark") {
            return Some(Book::Mark);
        }
        if str_eq(s, "Luke") {
            return Some(Book::Luke);
        }
        if str_eq(s, "John") {
            return Some(Book::John);
        }
        if str_eq(s, "Acts") {
            return Some(Book::Acts);
        }
        if str_eq(s, "Romans") {
            return Some(Book::Romans);
        }
        if str_eq(s, "1 Corinthians") {
            return Some(Book::FirstCorinthians);
        }
        if str_eq(s, "2 Corinthians") {
            return Some(Book::SecondCorinthians);
        }
        if str_eq(s, "Galatians") {
            return Some(Book::Galatians);
        }
        if str_eq(s, "Ephesians") {
            return Some(Book::Ephesians);
        }
        if str_eq(s, "Philippians") {
            return Some(Book::Philippians);
        }
        if str_eq(s, "Colossians") {
            return Some(Book::Colossians);
        }
        if str_eq(s, "1 Thessalonians") {
            return Some(Book::FirstThessalonians);
        }
        if str_eq(s, "2 Thessalonians") {
            return Some(Book::SecondThessalonians);
        }
        if str_eq(s, "1 Timothy") {
            return Some(Book::FirstTimothy);
        }
        if str_eq(s, "2 Timothy") {
            return Some(Book::SecondTimothy);
        }
        if str_eq(s, "Titus") {
            return Some(Book::Titus);
        }
        if str_eq(s, "Philemon") {
            return Some(Book::Philemon);
        }
        if str_eq(s, "Hebrews") {
            return Some(Book::Hebrews);
        }
        if str_eq(s, "James") {
            return Some(Book::James);
        }
        if str_eq(s, "1 Peter") {
            return Some(Book::FirstPeter);
        }
        if str_eq(s, "2 Peter") {
            return Some(Book::SecondPeter);
        }
        if str_eq(s, "1 John") {
            return Some(Book::FirstJohn);
        }
        if str_eq(s, "2 John") {
            return Some(Book::SecondJohn);
        }
        if str_eq(s, "3 John") {
            return Some(Book::ThirdJohn);
        }
        if str_eq(s, "Jude") {
            return Some(Book::Jude);
        }
        if str_eq(s, "Revelation") {
            return Some(Book::Revelation);
        }
        None
    }
}


/// Why the scheduler rejected its input.
#[derive(Debug, Clone, Copy, PartialEq, Eq, Structural)]
pub enum PlanError {
    /// The track holds no book at all.
    InvalidTrack,
}

/// A resolved reading position: a book plus a 1-based chapter number.
#[derive(Debug, Clone, Copy, PartialEq, Eq, Structural)]
pub struct ChapterInfo {
    pub book: Book,
    pub chapter: i64,
}

/// Span of a track: the sum of the chapter counts of its books.
pub open spec fn spec_span(books: Seq<Book>) -> int
    decreases books.len(),
{
    if books.len() == 0 {
        0
    } else {
        spec_total_chapters(books[0]) + spec_span(books.skip(1))
    }
}

/// Walks a remainder through a track front to back, landing on the first
/// book whose chapter count it does not exceed.
pub open spec fn spec_walk(books: Seq<Book>, r: int) -> (Book, int)
    recommends
        1 <= r <= spec_span(books),
    decreases books.len(),
{
    if books.len() == 0 {
        arbitrary()
    } else if r <= spec_total_chapters(books[0]) {
        (books[0], r)
    } else {
        spec_walk(books.skip(1), r - spec_total_chapters(books[0]))
    }
}

/// The scheduled position of a day inside a non-empty track: the day wraps
/// modulo the span, and a remainder of zero lands on the last book's final
/// chapter rather than on the start of the cycle.
pub open spec fn spec_locate(books: Seq<Book>, day: int) -> (Book, int)
    recommends
        books.len() > 0,
{
    let r = day % spec_span(books);
    if r == 0 {
        (books.last(), spec_total_chapters(books.last()) as int)
    } else {
        spec_walk(books, r)
    }
}

/// Every chapter count of the catalog lies between 1 and 150.
pub proof fn lemma_chapters_range(b: Book)
    ensures
        1 <= spec_total_chapters(b) <= 150,
{
}

/// A track's span is bounded below by its length and above by 150 times
/// its length.
pub proof fn lemma_span_bounds(books: Seq<Book>)
    ensures
        books.len() <= spec_span(books) <= 150 * books.len(),
    decreases books.len(),
{
    if books.len() > 0 {
        lemma_chapters_range(books[0]);
        lemma_span_bounds(books.skip(1));
    }
}

/// The span of a one-book track is that book's chapter count.
pub proof fn lemma_span_singleton(b: Book)
    ensures
        spec_span(seq![b]) == spec_total_chapters(b),
{
    assert(seq![b].skip(1) =~= Seq::<Book>::empty());
    assert(spec_span(Seq::<Book>::empty()) == 0);
    assert(seq![b][0] == b);
}

/// Span distributes over concatenation of tracks.
pub proof fn lemma_span_append(a: Seq<Book>, b: Seq<Book>)
    ensures
        spec_span(a + b) == spec_span(a) + spec_span(b),
    decreases a.len(),
{
    if a.len() == 0 {
        assert(a + b =~= b);
    } else {
        assert((a + b).skip(1) =~= a.skip(1) + b);
        lemma_span_append(a.skip(1), b);
    }
}

/// The walk of a remainder that lies within the span lands on a book of
/// the track, at a chapter between 1 and that book's chapter count.
pub proof fn lemma_walk_valid(books: Seq<Book>, r: int)
    requires
        1 <= r <= spec_span(books),
    ensures
        ({
            let (b, c) = spec_walk(books, r);
            &&& 1 <= c <= spec_total_chapters(b)
            &&& books.contains(b)
        }),
    decreases books.len(),
{
    if books.len() == 0 {
        assert(spec_span(books) == 0);
    } else if r <= spec_total_chapters(books[0]) {
        assert(books[0] == books.index(0));
    } else {
        lemma_walk_valid(books.skip(1), r - spec_total_chapters(books[0]));
        let (b, c) = spec_walk(books.skip(1), r - spec_total_chapters(books[0]));
        let i = choose|i: int| 0 <= i < books.skip(1).len() && books.skip(1)[i] == b;
        assert(books[i + 1] == b);
    }
}

/// Resolves a day number to a reading position inside a track, together
/// with the track's span. The day wraps modulo the span, so any integer
/// day resolves; an empty track is rejected, never walked.
pub fn get_day_plan(books: &Vec<Book>, day: i64) -> (res: Result<(ChapterInfo, i64), PlanError>)
    requires
        spec_span(books@) <= i64::MAX,
    ensures
        match res {
            Ok(p) => {
                &&& books@.len() > 0
                &&& p.1 == spec_span(books@)
                &&& (p.0.book, p.0.chapter as int) == spec_locate(books@, day as int)
                &&& 1 <= p.0.chapter <= spec_total_chapters(p.0.book)
                &&& books@.contains(p.0.book)
            },
            Err(e) => books@.len() == 0 && e == PlanError::InvalidTrack,
        },
{
    if books.len() == 0 {
        return Err(PlanError::InvalidTrack);
    }

    let n = books.len();
    let mut total: i64 = 0;
    let mut i: usize = 0;
    while i < n
        invariant
            0 <= i <= n,
            n == books@.len(),
            spec_span(books@) <= i64::MAX,
            total == spec_span(books@.take(i as int)),
        decreases n - i,
    {
        proof {
            assert(books@.take(i as int + 1) =~= books@.take(i as int) + seq![books@[i as int]]);
            lemma_span_append(books@.take(i as int), seq![books@[i as int]]);
            lemma_span_singleton(books@[i as int]);
            assert(books@.take(i as int + 1) + books@.skip(i as int + 1) =~= books@);
            lemma_span_append(books@.take(i as int + 1), books@.skip(i as int + 1));
            lemma_span_bounds(books@.skip(i as int + 1));
        }
        total = total + books[i].total_chapters() as i64;
        i = i + 1;
    }
    proof {
        assert(books@.take(n as int) =~= books@);
        lemma_span_bounds(books@);
    }

    let r: i64 = match day.checked_rem_euclid(total) {
        Some(v) => v,
        None => {
            proof {
                assert(false);
            }
            return Err(PlanError::InvalidTrack);
        },
    };
    proof {
        vstd::arithmetic::div_mod::lemma_mod_bound(day as int, total as int);
    }

    if r == 0 {
        let last = books[n - 1];
        proof {
            assert(books@.last() == books@[n as int - 1]);
        }
        return Ok((
            ChapterInfo { book: last, chapter: last.total_chapters() as i64 },
            total,
        ));
    }

    let mut idx: usize = 0;
    let mut rem: i64 = r;
    proof {
        assert(books@.skip(0) =~= books@);
    }
    while idx < n
        invariant
            0 <= idx <= n,
            n == books@.len(),
            total == spec_span(books@),
            1 <= rem <= spec_span(books@.skip(idx as int)),
            spec_walk(books@.skip(idx as int), rem as int) == spec_walk(books@, r as int),
            r == day as int % spec_span(books@),
            1 <= r < total,
        decreases n - idx,
    {
        let ch = books[idx].total_chapters() as i64;
        proof {
            assert(books@.skip(idx as int)[0] == books@[idx as int]);
        }
        if rem <= ch {
            proof {
                lemma_walk_valid(books@, r as int);
            }
            return Ok((ChapterInfo { book: books[idx], chapter: rem }, total));
        }
        proof {
            assert(books@.skip(idx as int).skip(1) =~= books@.skip(idx as int + 1));
        }
        rem = rem - ch;
        idx = idx + 1;
    }
    proof {
        assert(books@.skip(n as int) =~= Seq::<Book>::empty());
        assert(false);
    }
    Err(PlanError::InvalidTrack)
}


/// An immutable catalog record for one book: its display name, chapter
/// count and canonical ordinal, as the compiled-in catalog defines them.
#[derive(Debug, Clone)]
pub struct BookInfo {
    pub book: Book,
    pub name: String,
    pub chapters: u16,
    pub ordinal: usize,
}

impl Book {
    /// The catalog record of this book.
    pub fn info(&self) -> (r: BookInfo)
        ensures
            r.book == *self,
            r.name@ == spec_display_name(*self),
            r.chapters == spec_total_chapters(*self),
            r.ordinal == spec_ordinal(*self),
    {
        BookInfo {
            book: *self,
            name: self.display_name(),
            chapters: self.total_chapters(),
            ordinal: self.index(),
        }
    }
}

/// Any day of any non-empty track resolves to a book of the track, at a
/// chapter between 1 and that book's chapter count.
pub proof fn lemma_locate_in_range(books: Seq<Book>, day: int)
    requires
        books.len() > 0,
    ensures
        ({
            let (b, c) = spec_locate(books, day);
            &&& 1 <= c <= spec_total_chapters(b)
            &&& books.contains(b)
        }),
{
    lemma_span_bounds(books);
    let s = spec_span(books);
    vstd::arithmetic::div_mod::lemma_mod_bound(day, s);
    let r = day % s;
    if r == 0 {
        assert(books.last() == books[books.len() - 1]);
    } else {
        lemma_walk_valid(books, r);
    }
}

/// Shifting the day by any whole number of spans leaves the scheduled
/// position unchanged: the plan is periodic with period span.
pub proof fn lemma_locate_periodic(books: Seq<Book>, day: int, k: int)
    requires
        books.len() > 0,
    ensures
        spec_locate(books, day + k * spec_span(books)) == spec_locate(books, day),
{
    lemma_span_bounds(books);
    let s = spec_span(books);
    vstd::arithmetic::div_mod::lemma_mod_multiples_vanish(k, day, s);
    assert(day + k * s == s * k + day) by (nonlinear_arith);
}

/// Day zero and day span (and so every multiple of the span) land on the
/// last book's final chapter: the cycle wraps to its end, not its start.
pub proof fn lemma_locate_wraps_to_end(books: Seq<Book>)
    requires
        books.len() > 0,
    ensures
        spec_locate(books, spec_span(books)) == spec_locate(books, 0),
        spec_locate(books, 0) == (books.last(), spec_total_chapters(books.last()) as int),
{
    lemma_span_bounds(books);
    let s = spec_span(books);
    vstd::arithmetic::div_mod::lemma_mod_self_0(s);
    assert(0int % s == 0) by {
        vstd::arithmetic::div_mod::lemma_small_mod(0, s as nat);
    }
}

/// On a one-book track the plan reads the book chapter by chapter: days 1
/// through the chapter count resolve to those chapters, and the following
/// day restarts the cycle at chapter 1.
pub proof fn lemma_single_book_cycle(b: Book, r: int)
    requires
        1 <= r <= spec_total_chapters(b),
    ensures
        spec_locate(seq![b], r) == (b, r),
        spec_locate(seq![b], spec_total_chapters(b) + 1) == (b, 1int),
{
    lemma_span_singleton(b);
    lemma_chapters_range(b);
    let n = spec_total_chapters(b) as int;
    assert(seq![b].last() == b);
    if r < n {
        vstd::arithmetic::div_mod::lemma_small_mod(r as nat, n as nat);
        assert(spec_walk(seq![b], r) == (b, r));
    } else {
        vstd::arithmetic::div_mod::lemma_mod_self_0(n);
        assert(spec_locate(seq![b], r) == (b, n));
    }
    if n == 1 {
        assert((n + 1) % n == 0) by {
            vstd::arithmetic::div_mod::lemma_mod_multiples_vanish(1, 1, 1);
            vstd::arithmetic::div_mod::lemma_small_mod(0, 1);
        }
    } else {
        assert((n + 1) % n == 1) by {
            vstd::arithmetic::div_mod::lemma_mod_multiples_vanish(1, 1, n);
            vstd::arithmetic::div_mod::lemma_small_mod(1, n as nat);
        }
        assert(spec_walk(seq![b], 1) == (b, 1int));
    }
}


/// Parsing a catalog book's display name yields that book back: the
/// display names are pairwise distinct identifiers.
#[verifier::rlimit(100)]
pub proof fn lemma_name_round_trip(b: Book)
    ensures
        spec_book_of_name(spec_display_name(b)) == Some(b),
{
    reveal_strlit("Genesis");
    reveal_strlit("Exodus");
    reveal_strlit("Leviticus");
    reveal_strlit("Numbers");
    reveal_strlit("Deuteronomy");
    reveal_strlit("Joshua");
    reveal_strlit("Judges");
    reveal_strlit("Ruth");
    reveal_strlit("1 Samuel");
    reveal_strlit("2 Samuel");
    reveal_strlit("1 Kings");
    reveal_strlit("2 Kings");
    reveal_strlit("1 Chronicles");
    reveal_strlit("2 Chronicles");
    reveal_strlit("Ezra");
    reveal_strlit("Nehemiah");
    reveal_strlit("Esther");
    reveal_strlit("Job");
    reveal_strlit("Psalms");
    reveal_strlit("Proverbs");
    reveal_strlit("Ecclesiastes");
    reveal_strlit("Song of Solomon");
    reveal_strlit("Isaiah");
    reveal_strlit("Jeremiah");
    reveal_strlit("Lamentations");
    reveal_strlit("Ezekiel");
    reveal_strlit("Daniel");
    reveal_strlit("Hosea");
    reveal_strlit("Joel");
    reveal_strlit("Amos");
    reveal_strlit("Obadiah");
    reveal_strlit("Jonah");
    reveal_strlit("Micah");
    reveal_strlit("Nahum");
    reveal_strlit("Habakkuk");
    reveal_strlit("Zephaniah");
    reveal_strlit("Haggai");
    reveal_strlit("Zechariah");
    reveal_strlit("Malachi");
    reveal_strlit("Matthew");
    reveal_strlit("Mark");
    reveal_strlit("Luke");
    reveal_strlit("John");
    reveal_strlit("Acts");
    reveal_strlit("Romans");
    reveal_strlit("1 Corinthians");
    reveal_strlit("2 Corinthians");
    reveal_strlit("Galatians");
    reveal_strlit("Ephesians");
    reveal_strlit("Philippians");
    reveal_strlit("Colossians");
    reveal_strlit("1 Thessalonians");
    reveal_strlit("2 Thessalonians");
    reveal_strlit("1 Timothy");
    reveal_strlit("2 Timothy");
    reveal_strlit("Titus");
    reveal_strlit("Philemon");
    reveal_strlit("Hebrews");
    reveal_strlit("James");
    reveal_strlit("1 Peter");
    reveal_strlit("2 Peter");
    reveal_strlit("1 John");
    reveal_strlit("2 John");
    reveal_strlit("3 John");
    reveal_strlit("Jude");
    reveal_strlit("Revelation");
    assert("Genesis"@.len() == 7);
    assert("Exodus"@.len() == 6);
    assert("Leviticus"@.len() == 9);
    assert("Numbers"@.len() == 7);
    assert("Deuteronomy"@.len() == 11);
    assert("Joshua"@.len() == 6);
    assert("Judges"@.len() == 6);
    assert("Ruth"@.len() == 4);
    assert("1 Samuel"@.len() == 8);
    assert("2 Samuel"@.len() == 8);
    assert("1 Kings"@.len() == 7);
    assert("2 Kings"@.len() == 7);
    assert("1 Chronicles"@.len() == 12);
    assert("2 Chronicles"@.len() == 12);
    assert("Ezra"@.len() == 4);
    assert("Nehemiah"@.len() == 8);
    assert("Esther"@.len() == 6);
    assert("Job"@.len() == 3);
    assert("Psalms"@.len() == 6);
    assert("Proverbs"@.len() == 8);
    assert("Ecclesiastes"@.len() == 12);
    assert("Song of Solomon"@.len() == 15);
    assert("Isaiah"@.len() == 6);
    assert("Jeremiah"@.len() == 8);
    assert("Lamentations"@.len() == 12);
    assert("Ezekiel"@.len() == 7);
    assert("Daniel"@.len() == 6);
    assert("Hosea"@.len() == 5);
    assert("Joel"@.len() == 4);
    assert("Amos"@.len() == 4);
    assert("Obadiah"@.len() == 7);
    assert("Jonah"@.len() == 5);
    assert("Micah"@.len() == 5);
    assert("Nahum"@.len() == 5);
    assert("Habakkuk"@.len() == 8);
    assert("Zephaniah"@.len() == 9);
    assert("Haggai"@.len() == 6);
    assert("Zechariah"@.len() == 9);
    assert("Malachi"@.len() == 7);
    assert("Matthew"@.len() == 7);
    assert("Mark"@.len() == 4);
    assert("Luke"@.len() == 4);
    assert("John"@.len() == 4);
    assert("Acts"@.len() == 4);
    assert("Romans"@.len() == 6);
    assert("1 Corinthians"@.len() == 13);
    assert("2 Corinthians"@.len() == 13);
    assert("Galatians"@.len() == 9);
    assert("Ephesians"@.len() == 9);
    assert("Philippians"@.len() == 11);
    assert("Colossians"@.len() == 10);
    assert("1 Thessalonians"@.len() == 15);
    assert("2 Thessalonians"@.len() == 15);
    assert("1 Timothy"@.len() == 9);
    assert("2 Timothy"@.len() == 9);
    assert("Titus"@.len() == 5);
    assert("Philemon"@.len() == 8);
    assert("Hebrews"@.len() == 7);
    assert("James"@.len() == 5);
    assert("1 Peter"@.len() == 7);
    assert("2 Peter"@.len() == 7);
    assert("1 John"@.len() == 6);
    assert("2 John"@.len() == 6);
    assert("3 John"@.len() == 6);
    assert("Jude"@.len() == 4);
    assert("Revelation"@.len() == 10);
    assert("1 Chronicles"@[0] == '1');
    assert("1 Corinthians"@[0] == '1');
    assert("1 John"@[0] == '1');
    assert("1 Kings"@[0] == '1');
    assert("1 Kings"@[2] == 'K');
    assert("1 Peter"@[0] == '1');
    assert("1 Peter"@[2] == 'P');
    assert("1 Samuel"@[0] == '1');
    assert("1 Thessalonians"@[0] == '1');
    assert("1 Timothy"@[0] == '1');
    assert("2 Chronicles"@[0] == '2');
    assert("2 Corinthians"@[0] == '2');
    assert("2 John"@[0] == '2');
    assert("2 Kings"@[0] == '2');
    assert("2 Kings"@[2] == 'K');
    assert("2 Peter"@[0] == '2');
    assert("2 Peter"@[2] == 'P');
    assert("2 Samuel"@[0] == '2');
    assert("2 Thessalonians"@[0] == '2');
    assert("2 Timothy"@[0] == '2');
    assert("3 John"@[0] == '3');
    assert("Acts"@[0] == 'A');
    assert("Acts"@[1] == 'c');
    assert("Amos"@[0] == 'A');
    assert("Amos"@[1] == 'm');
    assert("Colossians"@[0] == 'C');
    assert("Daniel"@[0] == 'D');
    assert("Deuteronomy"@[0] == 'D');
    assert("Ecclesiastes"@[0] == 'E');
    assert("Ephesians"@[0] == 'E');
    assert("Esther"@[0] == 'E');
    assert("Esther"@[1] == 's');
    assert("Exodus"@[0] == 'E');
    assert("Exodus"@[1] == 'x');
    assert("Ezekiel"@[0] == 'E');
    assert("Ezra"@[0] == 'E');
    assert("Galatians"@[0] == 'G');
    assert("Genesis"@[0] == 'G');
    assert("Habakkuk"@[0] == 'H');
    assert("Haggai"@[0] == 'H');
    assert("Hebrews"@[0] == 'H');
    assert("Hosea"@[0] == 'H');
    assert("Isaiah"@[0] == 'I');
    assert("James"@[0] == 'J');
    assert("James"@[1] == 'a');
    assert("Jeremiah"@[0] == 'J');
    assert("Joel"@[0] == 'J');
    assert("Joel"@[1] == 'o');
    assert("Joel"@[2] == 'e');
    assert("John"@[0] == 'J');
    assert("John"@[1] == 'o');
    assert("John"@[2] == 'h');
    assert("Jonah"@[0] == 'J');
    assert("Jonah"@[1] == 'o');
    assert("Joshua"@[0] == 'J');
    assert("Joshua"@[1] == 'o');
    assert("Jude"@[0] == 'J');
    assert("Jude"@[1] == 'u');
    assert("Judges"@[0] == 'J');
    assert("Judges"@[1] == 'u');
    assert("Lamentations"@[0] == 'L');
    assert("Leviticus"@[0] == 'L');
    assert("Luke"@[0] == 'L');
    assert("Malachi"@[0] == 'M');
    assert("Malachi"@[2] == 'l');
    assert("Mark"@[0] == 'M');
    assert("Matthew"@[0] == 'M');
    assert("Matthew"@[2] == 't');
    assert("Micah"@[0] == 'M');
    assert("Nahum"@[0] == 'N');
    assert("Nehemiah"@[0] == 'N');
    assert("Numbers"@[0] == 'N');
    assert("Obadiah"@[0] == 'O');
    assert("Philemon"@[0] == 'P');
    assert("Philemon"@[1] == 'h');
    assert("Philippians"@[0] == 'P');
    assert("Proverbs"@[0] == 'P');
    assert("Proverbs"@[1] == 'r');
    assert("Psalms"@[0] == 'P');
    assert("Revelation"@[0] == 'R');
    assert("Romans"@[0] == 'R');
    assert("Ruth"@[0] == 'R');
    assert("Song of Solomon"@[0] == 'S');
    assert("Titus"@[0] == 'T');
    assert("Zechariah"@[0] == 'Z');
    assert("Zechariah"@[2] == 'c');
    assert("Zephaniah"@[0] == 'Z');
    assert("Zephaniah"@[2] == 'p');
}

/// No display name is empty, and none contains the storage delimiter.
#[verifier::rlimit(100)]
pub proof fn lemma_name_wellformed(b: Book)
    ensures
        spec_display_name(b).len() >= 1,
        forall|i: int| 0 <= i < spec_display_name(b).len() ==> spec_display_name(b)[i] != '|',
{
    reveal_strlit("Genesis");
    reveal_strlit("Exodus");
    reveal_strlit("Leviticus");
    reveal_strlit("Numbers");
    reveal_strlit("Deuteronomy");
    reveal_strlit("Joshua");
    reveal_strlit("Judges");
    reveal_strlit("Ruth");
    reveal_strlit("1 Samuel");
    reveal_strlit("2 Samuel");
    reveal_strlit("1 Kings");
    reveal_strlit("2 Kings");
    reveal_strlit("1 Chronicles");
    reveal_strlit("2 Chronicles");
    reveal_strlit("Ezra");
    reveal_strlit("Nehemiah");
    reveal_strlit("Esther");
    reveal_strlit("Job");
    reveal_strlit("Psalms");
    reveal_strlit("Proverbs");
    reveal_strlit("Ecclesiastes");
    reveal_strlit("Song of Solomon");
    reveal_strlit("Isaiah");
    reveal_strlit("Jeremiah");
    reveal_strlit("Lamentations");
    reveal_strlit("Ezekiel");
    reveal_strlit("Daniel");
    reveal_strlit("Hosea");
    reveal_strlit("Joel");
    reveal_strlit("Amos");
    reveal_strlit("Obadiah");
    reveal_strlit("Jonah");
    reveal_strlit("Micah");
    reveal_strlit("Nahum");
    reveal_strlit("Habakkuk");
    reveal_strlit("Zephaniah");
    reveal_strlit("Haggai");
    reveal_strlit("Zechariah");
    reveal_strlit("Malachi");
    reveal_strlit("Matthew");
    reveal_strlit("Mark");
    reveal_strlit("Luke");
    reveal_strlit("John");
    reveal_strlit("Acts");
    reveal_strlit("Romans");
    reveal_strlit("1 Corinthians");
    reveal_strlit("2 Corinthians");
    reveal_strlit("Galatians");
    reveal_strlit("Ephesians");
    reveal_strlit("Philippians");
    reveal_strlit("Colossians");
    reveal_strlit("1 Thessalonians");
    reveal_strlit("2 Thessalonians");
    reveal_strlit("1 Timothy");
    reveal_strlit("2 Timothy");
    reveal_strlit("Titus");
    reveal_strlit("Philemon");
    reveal_strlit("Hebrews");
    reveal_strlit("James");
    reveal_strlit("1 Peter");
    reveal_strlit("2 Peter");
    reveal_strlit("1 John");
    reveal_strlit("2 John");
    reveal_strlit("3 John");
    reveal_strlit("Jude");
    reveal_strlit("Revelation");
}


} // verus!
