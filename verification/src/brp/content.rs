use vstd::prelude::*;

use crate::brp::books::Book;
use crate::brp::books::spec_ordinal;

verus! {

/// A chapter document as the remote source reports it: a title, the
/// declared chapter number and total count (display only, never
/// cross-checked against the catalog), and the verses in source order.
#[derive(Debug, PartialEq, Eq)]
pub struct Bible {
    pub title: String,
    pub book: u32,
    pub bookname: String,
    pub chapter: u32,
    pub chapter_count: u32,
    pub verses: Verses,
}

/// The ordered verses of a chapter, exactly as the source returned them.
#[derive(Debug, PartialEq, Eq)]
pub struct Verses {
    pub verse: Vec<Verse>,
}

/// One verse: a 1-based number as declared by the source, an optional
/// section heading, and the body text.
#[derive(Debug, PartialEq, Eq)]
pub struct Verse {
    pub number: u32,
    pub title: Option<String>,
    pub text: String,
}

/// Ghost model of one verse.
pub ghost struct VerseView {
    pub number: u32,
    pub title: Option<Seq<char>>,
    pub text: Seq<char>,
}

/// Ghost model of a chapter document.
pub ghost struct ChapterView {
    pub title: Seq<char>,
    pub book: u32,
    pub bookname: Seq<char>,
    pub chapter: u32,
    pub chapter_count: u32,
    pub verses: Seq<VerseView>,
}

impl View for Verse {
    type V = VerseView;

    open spec fn view(&self) -> VerseView {
        VerseView {
            number: self.number,
            title: match self.title {
                Some(t) => Some(t@),
                None => None,
            },
            text: self.text@,
        }
    }
}

impl View for Bible {
    type V = ChapterView;

    open spec fn view(&self) -> ChapterView {
        ChapterView {
            title: self.title@,
            book: self.book,
            bookname: self.bookname@,
            chapter: self.chapter,
            chapter_count: self.chapter_count,
            verses: self.verses.verse@.map_values(|v: Verse| v@),
        }
    }
}

/// How a chapter fetch can fail, kept apart so an operator can tell a
/// corrupted cache from upstream format drift.
#[derive(Debug, Clone, Copy, PartialEq, Eq, Structural)]
pub enum ChapterError {
    /// The remote call failed or returned an error status.
    Transport,
    /// The remote body did not parse; it is never written to the cache.
    CorruptRemote,
    /// A cached entry did not parse; fatal for that key until the entry
    /// is cleared by hand, never papered over by a re-fetch.
    CorruptCache,
    /// The cache root could not be created or written.
    StorageUnavailable,
}

/// Whitespace accepted between elements of a chapter document.
pub open spec fn spec_is_ws(c: char) -> bool {
    c == ' ' || c == '\t' || c == '\r' || c == '\n'
}

/// First position at or after `i` holding a non-whitespace character.
pub open spec fn spec_skip_ws(s: Seq<char>, i: int) -> int
    decreases s.len() - i,
{
    if 0 <= i < s.len() && spec_is_ws(s[i]) {
        spec_skip_ws(s, i + 1)
    } else {
        i
    }
}

/// First position at or after `i` holding `<` or the end of input; the
/// text content of an element runs to there.
pub open spec fn spec_text_end(s: Seq<char>, i: int) -> int
    decreases s.len() - i,
{
    if 0 <= i < s.len() && s[i] != '<' {
        spec_text_end(s, i + 1)
    } else {
        i
    }
}

/// A decimal digit.
pub open spec fn spec_is_digit(c: char) -> bool {
    48 <= c as u32 <= 57
}

/// First position at or after `i` holding a non-digit character.
pub open spec fn spec_digits_end(s: Seq<char>, i: int) -> int
    decreases s.len() - i,
{
    if 0 <= i < s.len() && spec_is_digit(s[i]) {
        spec_digits_end(s, i + 1)
    } else {
        i
    }
}

/// Value of a run of decimal digits, most significant first.
pub open spec fn spec_digits_value(d: Seq<char>) -> int
    decreases d.len(),
{
    if d.len() == 0 {
        0
    } else {
        spec_digits_value(d.take(d.len() - 1)) * 10 + (d.last() as u32 - 48)
    }
}

/// Ten to the given power.
pub open spec fn spec_pow10(n: nat) -> int
    decreases n,
{
    if n == 0 {
        1
    } else {
        10 * spec_pow10((n - 1) as nat)
    }
}

/// The position after literal `lit` if it occurs at `i`, else `None`.
pub open spec fn spec_match_lit(s: Seq<char>, i: int, lit: Seq<char>) -> Option<int> {
    if 0 <= i && i + lit.len() <= s.len() && s.subrange(i, i + lit.len()) == lit {
        Some(i + lit.len())
    } else {
        None
    }
}

/// The digit scan stays within bounds.
pub proof fn lemma_digits_end_bounds(s: Seq<char>, i: int)
    requires
        0 <= i <= s.len(),
    ensures
        i <= spec_digits_end(s, i) <= s.len(),
    decreases s.len() - i,
{
    if i < s.len() && spec_is_digit(s[i]) {
        lemma_digits_end_bounds(s, i + 1);
    }
}

/// Whether a character is accepted as inter-element whitespace.
pub fn is_ws(c: char) -> (r: bool)
    ensures
        r == spec_is_ws(c),
{
    c == ' ' || c == '\t' || c == '\r' || c == '\n'
}

/// Finds the first non-whitespace position at or after `i`.
pub fn skip_ws(v: &Vec<char>, i: usize) -> (r: usize)
    requires
        i <= v@.len(),
    ensures
        r == spec_skip_ws(v@, i as int),
        i <= r <= v@.len(),
{
    let n = v.len();
    let mut j = i;
    while j < n && is_ws(v[j])
        invariant
            i <= j <= n,
            n == v@.len(),
            spec_skip_ws(v@, i as int) == spec_skip_ws(v@, j as int),
        decreases n - j,
    {
        j = j + 1;
    }
    j
}

/// Finds the end of a text run: the first `<` at or after `i`, or the end.
pub fn text_end(v: &Vec<char>, i: usize) -> (r: usize)
    requires
        i <= v@.len(),
    ensures
        r == spec_text_end(v@, i as int),
        i <= r <= v@.len(),
{
    let n = v.len();
    let mut j = i;
    while j < n && v[j] != '<'
        invariant
            i <= j <= n,
            n == v@.len(),
            spec_text_end(v@, i as int) == spec_text_end(v@, j as int),
        decreases n - j,
    {
        j = j + 1;
    }
    j
}

/// Whether a character is a decimal digit.
pub fn is_digit(c: char) -> (r: bool)
    ensures
        r == spec_is_digit(c),
{
    let u = c as u32;
    48 <= u && u <= 57
}

/// Finds the end of a digit run at or after `i`.
pub fn digits_end(v: &Vec<char>, i: usize) -> (r: usize)
    requires
        i <= v@.len(),
    ensures
        r == spec_digits_end(v@, i as int),
        i <= r <= v@.len(),
{
    let n = v.len();
    let mut j = i;
    while j < n && is_digit(v[j])
        invariant
            i <= j <= n,
            n == v@.len(),
            spec_digits_end(v@, i as int) == spec_digits_end(v@, j as int),
        decreases n - j,
    {
        j = j + 1;
    }
    j
}

/// Tests whether the literal occurs at position `i` of the input.
pub fn match_lit(v: &Vec<char>, i: usize, lit: &str) -> (r: Option<usize>)
    requires
        i <= v@.len(),
    ensures
        match r {
            Some(x) => spec_match_lit(v@, i as int, lit@) == Some(x as int) && i <= x <= v@.len(),
            None => spec_match_lit(v@, i as int, lit@) is None,
        },
{
    let m = lit.unicode_len();
    let n = v.len();
    if m > n - i {
        return None;
    }
    let mut j: usize = 0;
    while j < m
        invariant
            0 <= j <= m,
            m == lit@.len(),
            n == v@.len(),
            i + m <= n,
            forall|k: int| 0 <= k < j ==> v@[i + k] == lit@[k],
        decreases m - j,
    {
        if v[i + j] != lit.get_char(j) {
            proof {
                assert(v@.subrange(i as int, i as int + m as int)[j as int] == v@[i + j]);
            }
            return None;
        }
        j = j + 1;
    }
    proof {
        assert(v@.subrange(i as int, i as int + m as int) =~= lit@);
    }
    Some(i + m)
}


/// A text element: optional leading whitespace, the opening tag, the raw
/// text up to the next `<`, and the closing tag.
pub open spec fn spec_text_elem(s: Seq<char>, i: int, open: Seq<char>, close: Seq<char>) -> Option<
    (Seq<char>, int),
> {
    let i1 = spec_skip_ws(s, i);
    match spec_match_lit(s, i1, open) {
        None => None,
        Some(i2) => {
            let j = spec_text_end(s, i2);
            match spec_match_lit(s, j, close) {
                None => None,
                Some(i3) => Some((s.subrange(i2, j), i3)),
            }
        },
    }
}

/// A numeric element: a run of one to nine decimal digits between the
/// tags; longer runs are rejected, so every accepted value fits `u32`.
pub open spec fn spec_num_elem(s: Seq<char>, i: int, open: Seq<char>, close: Seq<char>) -> Option<
    (u32, int),
> {
    let i1 = spec_skip_ws(s, i);
    match spec_match_lit(s, i1, open) {
        None => None,
        Some(i2) => {
            let j = spec_digits_end(s, i2);
            if 1 <= j - i2 <= 9 {
                match spec_match_lit(s, j, close) {
                    None => None,
                    Some(i3) => Some((spec_digits_value(s.subrange(i2, j)) as u32, i3)),
                }
            } else {
                None
            }
        },
    }
}

/// One verse element: its number, an optional heading, and its text.
pub open spec fn spec_verse(s: Seq<char>, i: int) -> Option<(VerseView, int)> {
    let i1 = spec_skip_ws(s, i);
    match spec_match_lit(s, i1, "<verse>"@) {
        None => None,
        Some(i2) => match spec_num_elem(s, i2, "<number>"@, "</number>"@) {
            None => None,
            Some((num, i3)) => {
                let title = spec_text_elem(s, i3, "<title>"@, "</title>"@);
                let topt = match title {
                    Some((t, _)) => Some(t),
                    None => None,
                };
                let i4 = match title {
                    Some((_, j)) => j,
                    None => i3,
                };
                match spec_text_elem(s, i4, "<text>"@, "</text>"@) {
                    None => None,
                    Some((txt, i5)) => {
                        let i6 = spec_skip_ws(s, i5);
                        match spec_match_lit(s, i6, "</verse>"@) {
                            None => None,
                            Some(i7) => Some(
                                (VerseView { number: num, title: topt, text: txt }, i7),
                            ),
                        }
                    },
                }
            },
        },
    }
}

/// The verses of a chapter, parsed greedily until no further verse opens.
pub open spec fn spec_verse_list(s: Seq<char>, i: int) -> (Seq<VerseView>, int)
    decreases s.len() - i,
{
    match spec_verse(s, i) {
        Some((v, j)) => if i < j <= s.len() {
            let rest = spec_verse_list(s, j);
            (seq![v] + rest.0, rest.1)
        } else {
            (seq![v], j)
        },
        None => (Seq::empty(), i),
    }
}

/// A chapter document: the fields in fixed order inside the root element,
/// whitespace allowed between elements, nothing after the root.
pub open spec fn spec_parse_chars(s: Seq<char>) -> Option<ChapterView> {
    match spec_match_lit(s, spec_skip_ws(s, 0), "<bible>"@) {
        None => None,
        Some(i1) => match spec_text_elem(s, i1, "<title>"@, "</title>"@) {
            None => None,
            Some((title, i2)) => match spec_num_elem(s, i2, "<book>"@, "</book>"@) {
                None => None,
                Some((book, i3)) => match spec_text_elem(s, i3, "<bookname>"@, "</bookname>"@) {
                    None => None,
                    Some((bookname, i4)) => match spec_num_elem(
                        s,
                        i4,
                        "<chapter>"@,
                        "</chapter>"@,
                    ) {
                        None => None,
                        Some((chapter, i5)) => match spec_num_elem(
                            s,
                            i5,
                            "<chapter_count>"@,
                            "</chapter_count>"@,
                        ) {
                            None => None,
                            Some((count, i6)) => match spec_match_lit(
                                s,
                                spec_skip_ws(s, i6),
                                "<verses>"@,
                            ) {
                                None => None,
                                Some(i7) => {
                                    let vl = spec_verse_list(s, i7);
                                    match spec_match_lit(s, spec_skip_ws(s, vl.1), "</verses>"@) {
                                        None => None,
                                        Some(i9) => match spec_match_lit(
                                            s,
                                            spec_skip_ws(s, i9),
                                            "</bible>"@,
                                        ) {
                                            None => None,
                                            Some(i10) => if spec_skip_ws(s, i10) == s.len() {
                                                Some(
                                                    ChapterView {
                                                        title,
                                                        book,
                                                        bookname,
                                                        chapter,
                                                        chapter_count: count,
                                                        verses: vl.0,
                                                    },
                                                )
                                            } else {
                                                None
                                            },
                                        },
                                    }
                                },
                            },
                        },
                    },
                },
            },
        },
    }
}

/// A chapter document over raw bytes: the bytes must be UTF-8, and the
/// decoded characters must form a chapter document.
pub open spec fn spec_parse_chapter(bytes: Seq<u8>) -> Option<ChapterView> {
    if vstd::utf8::valid_utf8(bytes) {
        spec_parse_chars(vstd::utf8::decode_utf8(bytes))
    } else {
        None
    }
}

/// Copies the characters of `v` in `[lo, hi)` into a fresh vector.
fn copy_range(v: &Vec<char>, lo: usize, hi: usize) -> (r: Vec<char>)
    requires
        lo <= hi <= v@.len(),
    ensures
        r@ == v@.subrange(lo as int, hi as int),
{
    let mut out: Vec<char> = Vec::new();
    let mut k = lo;
    while k < hi
        invariant
            lo <= k <= hi <= v@.len(),
            out@ == v@.subrange(lo as int, k as int),
        decreases hi - k,
    {
        out.push(v[k]);
        proof {
            assert(v@.subrange(lo as int, k as int).push(v@[k as int]) =~= v@.subrange(
                lo as int,
                k as int + 1,
            ));
        }
        k = k + 1;
    }
    out
}

/// Relies on String's FromIterator over chars: collecting an iterator of
/// characters yields exactly those characters in order.
#[verifier::external_body]
fn string_from_chars(v: &Vec<char>) -> (r: String)
    ensures
        r@ == v@,
{
    v.iter().collect()
}

/// Parses a text element; yields its raw text and the position after.
fn parse_text_elem(v: &Vec<char>, i: usize, open: &str, close: &str) -> (r: Option<
    (String, usize),
>)
    requires
        i <= v@.len(),
    ensures
        match r {
            Some(p) => spec_text_elem(v@, i as int, open@, close@) == Some((p.0@, p.1 as int))
                && i <= p.1 <= v@.len(),
            None => spec_text_elem(v@, i as int, open@, close@) is None,
        },
{
    let i1 = skip_ws(v, i);
    let i2 = match match_lit(v, i1, open) {
        Some(x) => x,
        None => {
            return None;
        },
    };
    let j = text_end(v, i2);
    let i3 = match match_lit(v, j, close) {
        Some(x) => x,
        None => {
            return None;
        },
    };
    let t = string_from_chars(&copy_range(v, i2, j));
    Some((t, i3))
}

/// Parses a numeric element; yields its value and the position after.
fn parse_num_elem(v: &Vec<char>, i: usize, open: &str, close: &str) -> (r: Option<(u32, usize)>)
    requires
        i <= v@.len(),
    ensures
        match r {
            Some(p) => spec_num_elem(v@, i as int, open@, close@) == Some((p.0, p.1 as int)) && i
                <= p.1 <= v@.len(),
            None => spec_num_elem(v@, i as int, open@, close@) is None,
        },
{
    let i1 = skip_ws(v, i);
    let i2 = match match_lit(v, i1, open) {
        Some(x) => x,
        None => {
            return None;
        },
    };
    let j = digits_end(v, i2);
    if j - i2 < 1 || j - i2 > 9 {
        return None;
    }
    let i3 = match match_lit(v, j, close) {
        Some(x) => x,
        None => {
            return None;
        },
    };
    proof {
        lemma_digits_end_chars(v@, i2 as int);
        assert(spec_pow10(0) == 1);
        assert(spec_pow10(1) == 10);
        assert(spec_pow10(2) == 100);
        assert(spec_pow10(3) == 1000);
        assert(spec_pow10(4) == 10000);
        assert(spec_pow10(5) == 100000);
        assert(spec_pow10(6) == 1000000);
        assert(spec_pow10(7) == 10000000);
        assert(spec_pow10(8) == 100000000);
        assert(spec_pow10(9) == 1000000000);
        assert(v@.subrange(i2 as int, i2 as int) =~= Seq::<char>::empty());
    }
    let mut value: u32 = 0;
    let mut k = i2;
    while k < j
        invariant
            i2 <= k <= j <= v@.len(),
            j - i2 <= 9,
            j == spec_digits_end(v@, i2 as int),
            forall|m: int| i2 <= m < j ==> spec_is_digit(v@[m]),
            value == spec_digits_value(v@.subrange(i2 as int, k as int)),
            value < spec_pow10((k - i2) as nat),
            spec_pow10(9) == 1000000000,
            forall|m: nat| m < 9 ==> #[trigger] spec_pow10(m + 1) == 10 * spec_pow10(m),
            forall|m: nat| m <= 8 ==> #[trigger] spec_pow10(m) <= 100000000,
        decreases j - k,
    {
        let d = v[k] as u32 - 48;
        proof {
            assert(spec_pow10((k - i2) as nat) <= 100000000);
            assert(value * 10 + d < 1000000000) by {
                assert(value <= 99999999);
            }
            let sub = v@.subrange(i2 as int, k as int + 1);
            assert(sub.take(sub.len() - 1) =~= v@.subrange(i2 as int, k as int));
            assert(sub.last() == v@[k as int]);
        }
        value = value * 10 + d;
        k = k + 1;
    }
    proof {
        assert(value == spec_digits_value(v@.subrange(i2 as int, j as int)) as u32);
    }
    Some((value, i3))
}

/// All characters strictly before the digit scan's end are digits.
pub proof fn lemma_digits_end_chars(s: Seq<char>, i: int)
    requires
        0 <= i <= s.len(),
    ensures
        forall|m: int| i <= m < spec_digits_end(s, i) ==> spec_is_digit(s[m]),
    decreases s.len() - i,
{
    if i < s.len() && spec_is_digit(s[i]) {
        lemma_digits_end_chars(s, i + 1);
        lemma_digits_end_bounds(s, i + 1);
    }
}

/// Parses one verse element.
fn parse_verse(v: &Vec<char>, i: usize) -> (r: Option<(Verse, usize)>)
    requires
        i <= v@.len(),
    ensures
        match r {
            Some(p) => spec_verse(v@, i as int) == Some((p.0@, p.1 as int)) && i < p.1 <= v@.len(),
            None => spec_verse(v@, i as int) is None,
        },
{
    let i1 = skip_ws(v, i);
    let i2 = match match_lit(v, i1, "<verse>") {
        Some(x) => x,
        None => {
            return None;
        },
    };
    proof {
        reveal_strlit("<verse>");
        assert("<verse>"@.len() == 7);
    }
    let num = match parse_num_elem(v, i2, "<number>", "</number>") {
        Some(p) => p,
        None => {
            return None;
        },
    };
    let title = parse_text_elem(v, num.1, "<title>", "</title>");
    let topt: Option<String>;
    let i4: usize;
    match title {
        Some(p) => {
            topt = Some(p.0);
            i4 = p.1;
        },
        None => {
            topt = None;
            i4 = num.1;
        },
    }
    let txt = match parse_text_elem(v, i4, "<text>", "</text>") {
        Some(p) => p,
        None => {
            return None;
        },
    };
    let i6 = skip_ws(v, txt.1);
    let i7 = match match_lit(v, i6, "</verse>") {
        Some(x) => x,
        None => {
            return None;
        },
    };
    Some((Verse { number: num.0, title: topt, text: txt.0 }, i7))
}

/// Parses verses until no further verse opens.
fn parse_verse_list(v: &Vec<char>, i: usize) -> (r: (Vec<Verse>, usize))
    requires
        i <= v@.len(),
    ensures
        spec_verse_list(v@, i as int) == (r.0@.map_values(|x: Verse| x@), r.1 as int),
        i <= r.1 <= v@.len(),
{
    let mut out: Vec<Verse> = Vec::new();
    let mut pos = i;
    let mut done = false;
    proof {
        assert(out@.map_values(|x: Verse| x@) =~= Seq::<VerseView>::empty());
    }
    while !done
        invariant
            i <= pos <= v@.len(),
            done ==> spec_verse(v@, pos as int) is None,
            spec_verse_list(v@, i as int).0 == out@.map_values(|x: Verse| x@) + spec_verse_list(
                v@,
                pos as int,
            ).0,
            spec_verse_list(v@, i as int).1 == spec_verse_list(v@, pos as int).1,
        decreases v@.len() - pos + (if done {
            0int
        } else {
            1int
        }),
    {
        match parse_verse(v, pos) {
            Some(p) => {
                proof {
                    let rest = spec_verse_list(v@, p.1 as int);
                    assert(spec_verse_list(v@, pos as int).0 =~= seq![p.0@] + rest.0);
                    assert((out@.map_values(|x: Verse| x@) + (seq![p.0@] + rest.0)) =~= (out@.push(
                        p.0,
                    ).map_values(|x: Verse| x@) + rest.0));
                }
                out.push(p.0);
                pos = p.1;
            },
            None => {
                proof {
                    assert(spec_verse_list(v@, pos as int).0 =~= Seq::<VerseView>::empty());
                    assert(out@.map_values(|x: Verse| x@) + Seq::<VerseView>::empty() =~= out@
                        .map_values(|x: Verse| x@));
                }
                done = true;
            },
        }
    }
    proof {
        assert(out@.map_values(|x: Verse| x@) + Seq::<VerseView>::empty() =~= out@.map_values(
            |x: Verse| x@,
        ));
        assert(spec_verse_list(v@, i as int) == (
            out@.map_values(|x: Verse| x@),
            spec_verse_list(v@, i as int).1,
        ));
    }
    (out, pos)
}


/// Builds the character sequence of a string.
fn chars_of(s: &str) -> (v: Vec<char>)
    ensures
        v@ == s@,
{
    let n = s.unicode_len();
    let mut v: Vec<char> = Vec::new();
    let mut i: usize = 0;
    proof {
        assert(s@.take(0) =~= Seq::<char>::empty());
    }
    while i < n
        invariant
            0 <= i <= n,
            n == s@.len(),
            i == v@.len(),
            v@ == s@.take(i as int),
        decreases n - i,
    {
        let c = s.get_char(i);
        v.push(c);
        proof {
            assert(s@.take(i as int).push(s@[i as int]) =~= s@.take(i as int + 1));
        }
        i = i + 1;
    }
    proof {
        assert(s@.take(n as int) =~= s@);
    }
    v
}

/// Relies on str::from_utf8: it accepts exactly valid UTF-8 and yields
/// the characters that the UTF-8 model of vstd decodes those bytes to.
#[verifier::external_body]
fn utf8_to_string(bytes: &Vec<u8>) -> (r: Option<String>)
    ensures
        match r {
            Some(s) => vstd::utf8::valid_utf8(bytes@) && s@ == vstd::utf8::decode_utf8(bytes@),
            None => !vstd::utf8::valid_utf8(bytes@),
        },
{
    match core::str::from_utf8(bytes.as_slice()) {
        Ok(s) => Some(s.to_owned()),
        Err(_) => None,
    }
}

/// Parses a chapter document from its characters.
pub fn parse_chapter_chars(v: &Vec<char>) -> (r: Option<Bible>)
    ensures
        match r {
            Some(b) => spec_parse_chars(v@) == Some(b@),
            None => spec_parse_chars(v@) is None,
        },
{
    let i0 = skip_ws(v, 0);
    let i1 = match match_lit(v, i0, "<bible>") {
        Some(x) => x,
        None => {
            return None;
        },
    };
    let title = match parse_text_elem(v, i1, "<title>", "</title>") {
        Some(p) => p,
        None => {
            return None;
        },
    };
    let book = match parse_num_elem(v, title.1, "<book>", "</book>") {
        Some(p) => p,
        None => {
            return None;
        },
    };
    let bookname = match parse_text_elem(v, book.1, "<bookname>", "</bookname>") {
        Some(p) => p,
        None => {
            return None;
        },
    };
    let chapter = match parse_num_elem(v, bookname.1, "<chapter>", "</chapter>") {
        Some(p) => p,
        None => {
            return None;
        },
    };
    let count = match parse_num_elem(v, chapter.1, "<chapter_count>", "</chapter_count>") {
        Some(p) => p,
        None => {
            return None;
        },
    };
    let i6 = skip_ws(v, count.1);
    let i7 = match match_lit(v, i6, "<verses>") {
        Some(x) => x,
        None => {
            return None;
        },
    };
    let verses = parse_verse_list(v, i7);
    let i8 = skip_ws(v, verses.1);
    let i9 = match match_lit(v, i8, "</verses>") {
        Some(x) => x,
        None => {
            return None;
        },
    };
    let i10 = skip_ws(v, i9);
    let i11 = match match_lit(v, i10, "</bible>") {
        Some(x) => x,
        None => {
            return None;
        },
    };
    let i12 = skip_ws(v, i11);
    if i12 != v.len() {
        return None;
    }
    Some(
        Bible {
            title: title.0,
            book: book.0,
            bookname: bookname.0,
            chapter: chapter.0,
            chapter_count: count.0,
            verses: Verses { verse: verses.0 },
        },
    )
}

/// Parses a chapter document from raw bytes: the bytes must be valid
/// UTF-8 and decode to a well-formed chapter document.
pub fn parse_chapter(bytes: &Vec<u8>) -> (r: Option<Bible>)
    ensures
        match r {
            Some(b) => spec_parse_chapter(bytes@) == Some(b@),
            None => spec_parse_chapter(bytes@) is None,
        },
{
    let s = match utf8_to_string(bytes) {
        Some(s) => s,
        None => {
            return None;
        },
    };
    let v = chars_of(s.as_str());
    parse_chapter_chars(&v)
}


/// The character of one decimal digit.
pub open spec fn spec_digit_char(d: nat) -> char {
    if d == 0 {
        '0'
    } else if d == 1 {
        '1'
    } else if d == 2 {
        '2'
    } else if d == 3 {
        '3'
    } else if d == 4 {
        '4'
    } else if d == 5 {
        '5'
    } else if d == 6 {
        '6'
    } else if d == 7 {
        '7'
    } else if d == 8 {
        '8'
    } else {
        '9'
    }
}

/// The decimal digits of a number, most significant first.
pub open spec fn spec_decimal(n: nat) -> Seq<char>
    decreases n,
{
    if n < 10 {
        seq![spec_digit_char(n)]
    } else {
        spec_decimal(n / 10) + seq![spec_digit_char(n % 10)]
    }
}

/// One decimal digit as a string slice.
fn digit_str(d: u64) -> (r: &'static str)
    requires
        d < 10,
    ensures
        r@ == seq![spec_digit_char(d as nat)],
{
    proof {
        reveal_strlit("0");
        reveal_strlit("1");
        reveal_strlit("2");
        reveal_strlit("3");
        reveal_strlit("4");
        reveal_strlit("5");
        reveal_strlit("6");
        reveal_strlit("7");
        reveal_strlit("8");
        reveal_strlit("9");
        assert("0"@ =~= seq!['0']);
        assert("1"@ =~= seq!['1']);
        assert("2"@ =~= seq!['2']);
        assert("3"@ =~= seq!['3']);
        assert("4"@ =~= seq!['4']);
        assert("5"@ =~= seq!['5']);
        assert("6"@ =~= seq!['6']);
        assert("7"@ =~= seq!['7']);
        assert("8"@ =~= seq!['8']);
        assert("9"@ =~= seq!['9']);
    }
    if d == 0 {
        "0"
    } else if d == 1 {
        "1"
    } else if d == 2 {
        "2"
    } else if d == 3 {
        "3"
    } else if d == 4 {
        "4"
    } else if d == 5 {
        "5"
    } else if d == 6 {
        "6"
    } else if d == 7 {
        "7"
    } else if d == 8 {
        "8"
    } else {
        "9"
    }
}

/// Appends the decimal digits of `n` to the string.
fn push_decimal(n: u64, out: &mut String)
    ensures
        final(out)@ == old(out)@ + spec_decimal(n as nat),
    decreases n,
{
    if n < 10 {
        out.append(digit_str(n));
    } else {
        push_decimal(n / 10, out);
        out.append(digit_str(n % 10));
        proof {
            assert((old(out)@ + spec_decimal((n / 10) as nat)) + seq![spec_digit_char(
                (n % 10) as nat,
            )] =~= old(out)@ + (spec_decimal((n / 10) as nat) + seq![spec_digit_char(
                (n % 10) as nat,
            )]));
        }
    }
}

/// The cache key of a chapter: the translation prefix, then the book's
/// catalog ordinal and the chapter number.
pub open spec fn spec_cache_key(ordinal: nat, chapter: nat) -> Seq<char> {
    "id_"@ + spec_decimal(ordinal) + "_"@ + spec_decimal(chapter)
}

/// Derives the deterministic cache key for a chapter.
pub fn cache_key(ordinal: usize, chapter: usize) -> (r: String)
    ensures
        r@ == spec_cache_key(ordinal as nat, chapter as nat),
{
    let mut out = String::new();
    out.append("id_");
    push_decimal(ordinal as u64, &mut out);
    out.append("_");
    push_decimal(chapter as u64, &mut out);
    proof {
        assert(out@ =~= spec_cache_key(ordinal as nat, chapter as nat));
    }
    out
}

/// What a fetch runner must do next for the fetch to make progress.
pub enum FetchAction {
    /// Create the durable cache root if it is absent.
    EnsureStorage,
    /// Look the key up in the durable store.
    ReadCache(String),
    /// Request the chapter from the remote source, addressed by catalog
    /// ordinal and chapter number.
    FetchRemote(usize, usize),
    /// Persist the raw body under the key.
    WriteCache(String, Vec<u8>),
    /// The fetch is finished; take the result from the machine.
    Halt,
}

/// What a fetch runner observed when carrying out the last action.
pub enum FetchEvent {
    /// The cache root exists or was created.
    StorageReady,
    /// The cache root could not be created.
    StorageFailed,
    /// The key was present in the store, with these raw bytes.
    CacheHit(Vec<u8>),
    /// The key was absent from the store.
    CacheMiss,
    /// The remote source answered with this raw body.
    RemoteOk(Vec<u8>),
    /// The remote call failed, timed out or returned an error status.
    RemoteFailed,
    /// The raw body was persisted under the key.
    Persisted,
    /// The raw body could not be persisted.
    PersistFailed,
}

/// Where a fetch stands between two runner actions.
pub enum FetchPhase {
    /// Waiting for the storage root to be ensured.
    Storage,
    /// Waiting for the cache lookup.
    Cache,
    /// Waiting for the remote response.
    Remote,
    /// Waiting for the already-parsed chapter's raw body to be persisted.
    Persist(Bible),
    /// The fetch is done.
    Finished(Result<Bible, ChapterError>),
}

/// A chapter fetch in progress: the decision core of the content cache.
/// A runner carries out each returned action, reports what happened as a
/// `FetchEvent`, and steps the machine again until it returns `Halt`.
pub struct ChapterFetch {
    pub book: Book,
    pub chapter: usize,
    pub key: String,
    pub phase: FetchPhase,
}

impl ChapterFetch {
    /// Which events can answer the machine's current phase.
    pub open spec fn accepts(self, e: FetchEvent) -> bool {
        match self.phase {
            FetchPhase::Storage => e is StorageReady || e is StorageFailed,
            FetchPhase::Cache => e is CacheHit || e is CacheMiss,
            FetchPhase::Remote => e is RemoteOk || e is RemoteFailed,
            FetchPhase::Persist(_) => e is Persisted || e is PersistFailed,
            FetchPhase::Finished(_) => false,
        }
    }

    /// Starts a fetch for one chapter of a book. The first action ensures
    /// the durable store exists: its absence aborts the whole fetch, the
    /// design never falls back to memory only.
    pub fn new(book: Book, chapter: usize) -> (r: (Self, FetchAction))
        ensures
            r.0.book == book,
            r.0.chapter == chapter,
            r.0.key@ == spec_cache_key(spec_ordinal(book) as nat, chapter as nat),
            r.0.phase is Storage,
            r.1 is EnsureStorage,
    {
        let key = cache_key(book.index(), chapter);
        (ChapterFetch { book, chapter, key, phase: FetchPhase::Storage }, FetchAction::EnsureStorage)
    }

    /// Feeds the outcome of the last action into the machine and yields
    /// the next action. Cached bytes that do not parse fail the fetch for
    /// good; a remote body is parse-validated before it is persisted, so
    /// a known-bad body is never written to the cache.
    pub fn step(self, e: FetchEvent) -> (r: (Self, FetchAction))
        requires
            self.accepts(e),
        ensures
            r.0.book == self.book,
            r.0.chapter == self.chapter,
            r.0.key@ == self.key@,
            match (self.phase, e) {
                (FetchPhase::Storage, FetchEvent::StorageReady) => r.0.phase is Cache && (
                r.1 matches FetchAction::ReadCache(k) && k@ == self.key@),
                (FetchPhase::Storage, FetchEvent::StorageFailed) => (
                r.0.phase matches FetchPhase::Finished(
                    Err(ChapterError::StorageUnavailable),
                )) && r.1 is Halt,
                (FetchPhase::Cache, FetchEvent::CacheHit(bytes)) => match spec_parse_chapter(
                    bytes@,
                ) {
                    Some(cv) => (r.0.phase matches FetchPhase::Finished(Ok(b)) && b@ == cv)
                        && r.1 is Halt,
                    None => (r.0.phase matches FetchPhase::Finished(
                        Err(ChapterError::CorruptCache),
                    )) && r.1 is Halt,
                },
                (FetchPhase::Cache, FetchEvent::CacheMiss) => r.0.phase is Remote && (
                r.1 matches FetchAction::FetchRemote(o, c) && o == spec_ordinal(self.book) && c
                    == self.chapter),
                (FetchPhase::Remote, FetchEvent::RemoteOk(bytes)) => match spec_parse_chapter(
                    bytes@,
                ) {
                    Some(cv) => (r.0.phase matches FetchPhase::Persist(b) && b@ == cv) && (
                    r.1 matches FetchAction::WriteCache(k, w) && k@ == self.key@ && w@ == bytes@),
                    None => (r.0.phase matches FetchPhase::Finished(
                        Err(ChapterError::CorruptRemote),
                    )) && r.1 is Halt,
                },
                (FetchPhase::Remote, FetchEvent::RemoteFailed) => (
                r.0.phase matches FetchPhase::Finished(Err(ChapterError::Transport))) && r.1
                    is Halt,
                (FetchPhase::Persist(b), FetchEvent::Persisted) => (
                r.0.phase matches FetchPhase::Finished(Ok(b2)) && b2 == b) && r.1 is Halt,
                (FetchPhase::Persist(_), FetchEvent::PersistFailed) => (
                r.0.phase matches FetchPhase::Finished(
                    Err(ChapterError::StorageUnavailable),
                )) && r.1 is Halt,
                _ => true,
            },
    {
        let ChapterFetch { book, chapter, key, phase } = self;
        match (phase, e) {
            (FetchPhase::Storage, FetchEvent::StorageReady) => {
                let k = clone_string(&key);
                (
                    ChapterFetch { book, chapter, key, phase: FetchPhase::Cache },
                    FetchAction::ReadCache(k),
                )
            },
            (FetchPhase::Storage, FetchEvent::StorageFailed) => (
                ChapterFetch {
                    book,
                    chapter,
                    key,
                    phase: FetchPhase::Finished(Err(ChapterError::StorageUnavailable)),
                },
                FetchAction::Halt,
            ),
            (FetchPhase::Cache, FetchEvent::CacheHit(bytes)) => {
                match parse_chapter(&bytes) {
                    Some(b) => (
                        ChapterFetch { book, chapter, key, phase: FetchPhase::Finished(Ok(b)) },
                        FetchAction::Halt,
                    ),
                    None => (
                        ChapterFetch {
                            book,
                            chapter,
                            key,
                            phase: FetchPhase::Finished(Err(ChapterError::CorruptCache)),
                        },
                        FetchAction::Halt,
                    ),
                }
            },
            (FetchPhase::Cache, FetchEvent::CacheMiss) => {
                let o = book.index();
                (
                    ChapterFetch { book, chapter, key, phase: FetchPhase::Remote },
                    FetchAction::FetchRemote(o, chapter),
                )
            },
            (FetchPhase::Remote, FetchEvent::RemoteOk(bytes)) => {
                match parse_chapter(&bytes) {
                    Some(b) => {
                        let k = clone_string(&key);
                        (
                            ChapterFetch { book, chapter, key, phase: FetchPhase::Persist(b) },
                            FetchAction::WriteCache(k, bytes),
                        )
                    },
                    None => (
                        ChapterFetch {
                            book,
                            chapter,
                            key,
                            phase: FetchPhase::Finished(Err(ChapterError::CorruptRemote)),
                        },
                        FetchAction::Halt,
                    ),
                }
            },
            (FetchPhase::Remote, FetchEvent::RemoteFailed) => (
                ChapterFetch {
                    book,
                    chapter,
                    key,
                    phase: FetchPhase::Finished(Err(ChapterError::Transport)),
                },
                FetchAction::Halt,
            ),
            (FetchPhase::Persist(b), FetchEvent::Persisted) => (
                ChapterFetch { book, chapter, key, phase: FetchPhase::Finished(Ok(b)) },
                FetchAction::Halt,
            ),
            (FetchPhase::Persist(_), FetchEvent::PersistFailed) => (
                ChapterFetch {
                    book,
                    chapter,
                    key,
                    phase: FetchPhase::Finished(Err(ChapterError::StorageUnavailable)),
                },
                FetchAction::Halt,
            ),
            (phase, _) => {
                proof {
                    assert(false);
                }
                (ChapterFetch { book, chapter, key, phase }, FetchAction::Halt)
            },
        }
    }

    /// The finished fetch's result.
    pub fn into_result(self) -> (r: Result<Bible, ChapterError>)
        requires
            self.phase is Finished,
        ensures
            self.phase matches FetchPhase::Finished(x) && r == x,
    {
        match self.phase {
            FetchPhase::Finished(x) => x,
            _ => {
                proof {
                    assert(false);
                }
                Err(ChapterError::Transport)
            },
        }
    }
}

/// A clone of a string, by contents.
fn clone_string(s: &String) -> (r: String)
    ensures
        r@ == s@,
{
    s.clone()
}


/// The map an entry list denotes: later entries override earlier ones.
pub open spec fn spec_entries_map(es: Seq<(String, Vec<u8>)>) -> Map<Seq<char>, Seq<u8>>
    decreases es.len(),
{
    if es.len() == 0 {
        Map::empty()
    } else {
        spec_entries_map(es.drop_last()).insert(es.last().0@, es.last().1@)
    }
}

/// An in-memory chapter store with the durable cache's shape: one entry
/// per key, whole-document bodies, never expired.
pub struct ChapterCache {
    entries: Vec<(String, Vec<u8>)>,
}

impl View for ChapterCache {
    type V = Map<Seq<char>, Seq<u8>>;

    closed spec fn view(&self) -> Map<Seq<char>, Seq<u8>> {
        spec_entries_map(self.entries@)
    }
}

impl ChapterCache {
    /// An empty store.
    pub fn new() -> (r: Self)
        ensures
            r@ == Map::<Seq<char>, Seq<u8>>::empty(),
    {
        ChapterCache { entries: Vec::new() }
    }

    /// Looks a key up; the most recently written body for it answers.
    pub fn get(&self, key: &str) -> (r: Option<&Vec<u8>>)
        ensures
            match r {
                Some(b) => self@.contains_key(key@) && b@ == self@[key@],
                None => !self@.contains_key(key@),
            },
    {
        let n = self.entries.len();
        let mut i = n;
        proof {
            assert(self.entries@.take(n as int) =~= self.entries@);
        }
        while i > 0
            invariant
                0 <= i <= n,
                n == self.entries@.len(),
                self@ == spec_entries_map(self.entries@),
                self@.contains_key(key@) == spec_entries_map(self.entries@.take(i as int))
                    .contains_key(key@),
                spec_entries_map(self.entries@.take(i as int)).contains_key(key@) ==> self@[key@]
                    == spec_entries_map(self.entries@.take(i as int))[key@],
            decreases i,
        {
            proof {
                assert(self.entries@.take(i as int).drop_last() =~= self.entries@.take(
                    i as int - 1,
                ));
                assert(self.entries@.take(i as int).last() == self.entries@[i as int - 1]);
            }
            if crate::brp::books::str_eq(self.entries[i - 1].0.as_str(), key) {
                return Some(&self.entries[i - 1].1);
            }
            i = i - 1;
        }
        proof {
            assert(self.entries@.take(0) =~= Seq::<(String, Vec<u8>)>::empty());
        }
        None
    }

    /// Writes a body under a key, replacing whatever stood there.
    pub fn put(&mut self, key: String, body: Vec<u8>)
        ensures
            final(self)@ == old(self)@.insert(key@, body@),
    {
        let ghost k = key@;
        let ghost b = body@;
        self.entries.push((key, body));
        proof {
            assert(self.entries@.drop_last() =~= old(self).entries@);
            assert(self.entries@.last().0@ == k);
            assert(self.entries@.last().1@ == b);
        }
    }
}

/// The outcome the cache design prescribes for one fetch, given a store
/// snapshot and the remote source's answer for the key: cached bytes
/// answer if present, whether or not they parse; otherwise the remote
/// answer is decisive.
pub open spec fn spec_fetch_outcome(
    store: Map<Seq<char>, Seq<u8>>,
    key: Seq<char>,
    remote: Option<Seq<u8>>,
) -> Result<ChapterView, ChapterError> {
    if store.contains_key(key) {
        match spec_parse_chapter(store[key]) {
            Some(c) => Ok(c),
            None => Err(ChapterError::CorruptCache),
        }
    } else {
        match remote {
            None => Err(ChapterError::Transport),
            Some(bytes) => match spec_parse_chapter(bytes) {
                Some(c) => Ok(c),
                None => Err(ChapterError::CorruptRemote),
            },
        }
    }
}

/// The store after one fetch: only a believed-valid remote body is
/// added, and only on a miss; nothing is ever removed or replaced.
pub open spec fn spec_fetch_store_after(
    store: Map<Seq<char>, Seq<u8>>,
    key: Seq<char>,
    remote: Option<Seq<u8>>,
) -> Map<Seq<char>, Seq<u8>> {
    if !store.contains_key(key) && remote is Some && spec_parse_chapter(remote.unwrap()) is Some {
        store.insert(key, remote.unwrap())
    } else {
        store
    }
}

/// Resolves a chapter through an in-memory store with the cache's
/// fetch-through discipline: a present entry answers (a corrupt one
/// fails, it is never re-fetched behind the caller's back); on a miss
/// the remote answer is consulted, and a body that parses is persisted
/// before it is returned. `remote` stands for the remote source's reply
/// for this chapter, `None` being a transport failure; it is consulted
/// only on a miss.
pub fn fetch_chapter(
    book: Book,
    chapter: usize,
    store: &mut ChapterCache,
    remote: Option<Vec<u8>>,
) -> (r: Result<Bible, ChapterError>)
    ensures
        ({
            let key = spec_cache_key(spec_ordinal(book) as nat, chapter as nat);
            let rv = match remote {
                Some(b) => Some(b@),
                None => None,
            };
            &&& match r {
                Ok(b) => spec_fetch_outcome(old(store)@, key, rv) == Ok::<
                    ChapterView,
                    ChapterError,
                >(b@),
                Err(e) => spec_fetch_outcome(old(store)@, key, rv) == Err::<
                    ChapterView,
                    ChapterError,
                >(e),
            }
            &&& final(store)@ == spec_fetch_store_after(old(store)@, key, rv)
        }),
{
    let (m, _a) = ChapterFetch::new(book, chapter);
    let (m, a) = m.step(FetchEvent::StorageReady);
    let key = match a {
        FetchAction::ReadCache(k) => k,
        _ => {
            proof {
                assert(false);
            }
            String::new()
        },
    };
    let cached: Option<Vec<u8>> = match store.get(key.as_str()) {
        Some(b) => Some(clone_bytes(b)),
        None => None,
    };
    match cached {
        Some(bytes) => {
            let (m, _a) = m.step(FetchEvent::CacheHit(bytes));
            m.into_result()
        },
        None => {
            let (m, _a) = m.step(FetchEvent::CacheMiss);
            match remote {
                None => {
                    let (m, _a) = m.step(FetchEvent::RemoteFailed);
                    m.into_result()
                },
                Some(bytes) => {
                    let (m, a) = m.step(FetchEvent::RemoteOk(bytes));
                    match a {
                        FetchAction::WriteCache(k, w) => {
                            store.put(k, w);
                            let (m, _a) = m.step(FetchEvent::Persisted);
                            m.into_result()
                        },
                        _ => {
                            m.into_result()
                        },
                    }
                },
            }
        },
    }
}

/// A copy of a byte body.
fn clone_bytes(v: &Vec<u8>) -> (r: Vec<u8>)
    ensures
        r@ == v@,
{
    let mut out: Vec<u8> = Vec::new();
    let mut i: usize = 0;
    while i < v.len()
        invariant
            0 <= i <= v@.len(),
            out@ == v@.take(i as int),
        decreases v@.len() - i,
    {
        out.push(v[i]);
        proof {
            assert(v@.take(i as int).push(v@[i as int]) =~= v@.take(i as int + 1));
        }
        i = i + 1;
    }
    proof {
        assert(v@.take(v@.len() as int) =~= v@);
    }
    out
}

/// Two consecutive fetches of one key agree, and the second one answers
/// from the store alone: whatever the remote would say the second time,
/// the outcome and the store stand unchanged.
pub proof fn lemma_fetch_idempotent(
    store: Map<Seq<char>, Seq<u8>>,
    key: Seq<char>,
    remote: Option<Seq<u8>>,
    remote2: Option<Seq<u8>>,
)
    requires
        spec_fetch_outcome(store, key, remote) is Ok,
    ensures
        ({
            let after = spec_fetch_store_after(store, key, remote);
            &&& spec_fetch_outcome(after, key, remote2) == spec_fetch_outcome(store, key, remote)
            &&& spec_fetch_store_after(after, key, remote2) == after
        }),
{
}

/// A corrupted cache entry fails the fetch with the corrupt-cache error:
/// the remote is never consulted for it and the store stands unchanged.
pub proof fn lemma_fetch_corrupt_cache(
    store: Map<Seq<char>, Seq<u8>>,
    key: Seq<char>,
    remote: Option<Seq<u8>>,
)
    requires
        store.contains_key(key),
        spec_parse_chapter(store[key]) is None,
    ensures
        spec_fetch_outcome(store, key, remote) == Err::<ChapterView, ChapterError>(
            ChapterError::CorruptCache,
        ),
        spec_fetch_store_after(store, key, remote) == store,
{
}

} // verus!
