use vstd::prelude::*;

verus! {

/// The Unicode `White_Space` property, which `char::is_whitespace` and
/// `str::trim` go by.
pub open spec fn is_space(c: char) -> bool {
    ||| c == '\t' || c == '\n' || c == '\u{0B}' || c == '\u{0C}' || c == '\r' || c == ' '
    ||| c == '\u{85}' || c == '\u{A0}' || c == '\u{1680}'
    ||| ('\u{2000}' <= c && c <= '\u{200A}')
    ||| c == '\u{2028}' || c == '\u{2029}' || c == '\u{202F}' || c == '\u{205F}'
    ||| c == '\u{3000}'
}

/// Whether `c` is whitespace; the same answer as `char::is_whitespace`.
pub fn is_whitespace(c: char) -> (r: bool)
    ensures
        r == is_space(c),
{
    c == '\t' || c == '\n' || c == '\u{0B}' || c == '\u{0C}' || c == '\r' || c == ' '
        || c == '\u{85}' || c == '\u{A0}' || c == '\u{1680}'
        || ('\u{2000}' <= c && c <= '\u{200A}')
        || c == '\u{2028}' || c == '\u{2029}' || c == '\u{202F}' || c == '\u{205F}'
        || c == '\u{3000}'
}

/// Reads a city name left to right: runs of whitespace before the first
/// word are dropped, and a run between two words becomes one `+`.
/// The flag says that a separator is pending (whitespace was seen after
/// at least one word character).
pub open spec fn scan_city(s: Seq<char>) -> (Seq<char>, bool)
    decreases s.len(),
{
    if s.len() == 0 {
        (Seq::empty(), false)
    } else {
        let (out, pending) = scan_city(s.drop_last());
        let c = s.last();
        if is_space(c) {
            (out, out.len() > 0)
        } else if pending {
            (out.push('+').push(c), false)
        } else {
            (out.push(c), false)
        }
    }
}

/// The query form of a city name: its whitespace-separated words joined by `+`.
pub open spec fn city_query(s: Seq<char>) -> Seq<char> {
    scan_city(s).0
}

/// Joins the whitespace-separated words of `line` with `+`, so that a
/// multi-word city name can stand in a query string; a single word comes
/// back as it is, and a blank line gives an empty string.
pub fn join_city(line: &str) -> (r: String)
    ensures
        r@ == city_query(line@),
{
    let mut out = String::new();
    let mut pending = false;
    let mut started = false;
    for c in it: line.chars()
        invariant
            it.seq() == line@,
            started == (out@.len() > 0),
            scan_city(line@.take(it.index() as int)) == (out@, pending),
    {
        let ghost before = line@.take(it.index() as int);
        assert(line@.take(it.index() + 1).drop_last() == before);
        if is_whitespace(c) {
            pending = started;
        } else {
            if pending {
                push_char(&mut out, '+');
            }
            push_char(&mut out, c);
            pending = false;
            started = true;
        }
    }
    assert(line@.take(line@.len() as int) == line@);
    out
}

/// Relies on `String::push`: appends one character.
#[verifier::external_body]
pub(crate) fn push_char(s: &mut String, c: char)
    ensures
        final(s)@ == old(s)@.push(c),
{
    s.push(c);
}


/// `s` without its leading whitespace.
pub open spec fn trim_start(s: Seq<char>) -> Seq<char>
    decreases s.len(),
{
    if s.len() > 0 && is_space(s[0]) {
        trim_start(s.drop_first())
    } else {
        s
    }
}

/// `s` without its trailing whitespace.
pub open spec fn trim_end(s: Seq<char>) -> Seq<char>
    decreases s.len(),
{
    if s.len() > 0 && is_space(s.last()) {
        trim_end(s.drop_last())
    } else {
        s
    }
}

/// `s` without leading and trailing whitespace.
pub open spec fn trimmed(s: Seq<char>) -> Seq<char> {
    trim_end(trim_start(s))
}

/// Relies on `str::trim`: removes leading and trailing `White_Space` characters.
#[verifier::external_body]
pub(crate) fn trim(s: &str) -> (r: &str)
    ensures
        r@ == trimmed(s@),
{
    s.trim()
}

/// What `str::to_lowercase` makes of a text (the Unicode lowercase mapping).
pub uninterp spec fn lower_of(s: Seq<char>) -> Seq<char>;

/// Relies on `str::to_lowercase`: the result depends on the characters alone,
/// and an empty text stays empty.
#[verifier::external_body]
pub(crate) fn to_lower(s: &str) -> (r: String)
    ensures
        r@ == lower_of(s@),
        s@.len() == 0 ==> r@.len() == 0,
{
    s.to_lowercase()
}

/// Relies on `<str as PartialEq>::eq`: two texts are equal when they hold the
/// same characters.
#[verifier::external_body]
pub(crate) fn same_text(a: &str, b: &str) -> (r: bool)
    ensures
        r == (a@ == b@),
{
    a == b
}

/// The normal form of a typed answer or country code: trimmed, then lowercased.
pub fn normalize_word(line: &str) -> (r: String)
    ensures
        r@ == lower_of(trimmed(line@)),
{
    to_lower(trim(line))
}

/// Whether a normalized answer to the continuation prompt ends the session:
/// exactly the word `no`; anything else counts as yes.
pub fn is_stop_word(answer: &str) -> (r: bool)
    ensures
        r == (answer@ == "no"@),
{
    same_text(answer, "no")
}

/// Whether a raw answer line ends the session.
pub open spec fn answer_stops(line: Seq<char>) -> bool {
    lower_of(trimmed(line)) == "no"@
}

/// Whether the continuation answer `line`, as typed, ends the session.
pub fn wants_to_stop(line: &str) -> (r: bool)
    ensures
        r == answer_stops(line@),
{
    let answer = normalize_word(line);
    is_stop_word(answer.as_str())
}

pub open spec fn all_space(s: Seq<char>) -> bool {
    forall|i: int| 0 <= i < s.len() ==> is_space(#[trigger] s[i])
}

pub open spec fn no_space(s: Seq<char>) -> bool {
    forall|i: int| 0 <= i < s.len() ==> !is_space(#[trigger] s[i])
}

proof fn lemma_scan_spaces(s: Seq<char>, sp: Seq<char>)
    requires
        all_space(sp),
    ensures
        scan_city(s + sp).0 == scan_city(s).0,
        scan_city(s + sp).1 == (scan_city(s).1 || (sp.len() > 0 && scan_city(s).0.len() > 0)),
    decreases sp.len(),
{
    if sp.len() == 0 {
        assert(s + sp =~= s);
    } else {
        lemma_scan_spaces(s, sp.drop_last());
        assert((s + sp).drop_last() =~= s + sp.drop_last());
        assert((s + sp).last() == sp[sp.len() - 1]);
    }
}

proof fn lemma_scan_word(s: Seq<char>, w: Seq<char>)
    requires
        no_space(w),
        w.len() > 0,
    ensures
        scan_city(s + w) == (scan_city(s).0 + (if scan_city(s).1 {
            seq!['+']
        } else {
            Seq::<char>::empty()
        }) + w, false),
    decreases w.len(),
{
    let sep = if scan_city(s).1 {
        seq!['+']
    } else {
        Seq::<char>::empty()
    };
    assert((s + w).last() == w[w.len() - 1]);
    if w.len() == 1 {
        assert((s + w).drop_last() =~= s);
        if scan_city(s).1 {
            assert(scan_city(s).0.push('+').push(w[0]) =~= scan_city(s).0 + sep + w);
        } else {
            assert(scan_city(s).0.push(w[0]) =~= scan_city(s).0 + sep + w);
        }
    } else {
        lemma_scan_word(s, w.drop_last());
        assert((s + w).drop_last() =~= s + w.drop_last());
        assert((scan_city(s).0 + sep + w.drop_last()).push(w[w.len() - 1]) =~= scan_city(s).0
            + sep + w);
    }
}

proof fn lemma_trim_start(lead: Seq<char>, x: Seq<char>)
    requires
        all_space(lead),
        x.len() == 0 || !is_space(x[0]),
    ensures
        trim_start(lead + x) == x,
    decreases lead.len(),
{
    if lead.len() == 0 {
        assert(lead + x =~= x);
    } else {
        assert((lead + x)[0] == lead[0]);
        assert((lead + x).drop_first() =~= lead.drop_first() + x);
        lemma_trim_start(lead.drop_first(), x);
    }
}

proof fn lemma_trim_end(x: Seq<char>, trail: Seq<char>)
    requires
        all_space(trail),
        x.len() == 0 || !is_space(x.last()),
    ensures
        trim_end(x + trail) == x,
    decreases trail.len(),
{
    if trail.len() == 0 {
        assert(x + trail =~= x);
    } else {
        assert((x + trail).last() == trail.last());
        assert((x + trail).drop_last() =~= x + trail.drop_last());
        lemma_trim_end(x, trail.drop_last());
    }
}

/// A city name of one word, with any whitespace around it, goes into the
/// query as that word: the same text as the trimmed input.
pub proof fn lemma_single_word(lead: Seq<char>, word: Seq<char>, trail: Seq<char>)
    requires
        all_space(lead),
        all_space(trail),
        word.len() > 0,
        no_space(word),
    ensures
        city_query(lead + word + trail) == word,
        city_query(lead + word + trail) == trimmed(lead + word + trail),
{
    let e = Seq::<char>::empty();
    lemma_scan_spaces(e, lead);
    assert(e + lead =~= lead);
    lemma_scan_word(lead, word);
    assert(e + e + word =~= word);
    lemma_scan_spaces(lead + word, trail);
    assert(lead + word + trail =~= lead + (word + trail));
    assert((word + trail)[0] == word[0]);
    lemma_trim_start(lead, word + trail);
    lemma_trim_end(word, trail);
}

/// A city name of two words goes into the query as the two words joined by
/// a single `+`, whatever whitespace stands around and between them.
pub proof fn lemma_two_words(
    lead: Seq<char>,
    first: Seq<char>,
    gap: Seq<char>,
    second: Seq<char>,
    trail: Seq<char>,
)
    requires
        all_space(lead),
        all_space(gap),
        all_space(trail),
        gap.len() > 0,
        first.len() > 0,
        second.len() > 0,
        no_space(first),
        no_space(second),
    ensures
        city_query(lead + first + gap + second + trail) == first + seq!['+'] + second,
{
    let e = Seq::<char>::empty();
    lemma_scan_spaces(e, lead);
    assert(e + lead =~= lead);
    lemma_scan_word(lead, first);
    assert(e + e + first =~= first);
    lemma_scan_spaces(lead + first, gap);
    lemma_scan_word(lead + first + gap, second);
    lemma_scan_spaces(lead + first + gap + second, trail);
}

/// Whitespace after a city name changes nothing in its query form.
pub proof fn lemma_trailing_space(s: Seq<char>, trail: Seq<char>)
    requires
        all_space(trail),
    ensures
        city_query(s + trail) == city_query(s),
{
    lemma_scan_spaces(s, trail);
}

/// One more word after whitespace extends a non-empty query by a `+` and that
/// word; with the single-word law this gives the query of any number of words.
pub proof fn lemma_next_word(s: Seq<char>, gap: Seq<char>, word: Seq<char>)
    requires
        city_query(s).len() > 0,
        all_space(gap),
        gap.len() > 0,
        word.len() > 0,
        no_space(word),
    ensures
        city_query(s + gap + word) == city_query(s) + seq!['+'] + word,
{
    lemma_scan_spaces(s, gap);
    lemma_scan_word(s + gap, word);
}

} // verus!
