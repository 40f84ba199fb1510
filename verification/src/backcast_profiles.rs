//! Backcast load-profile conversion: naming, CSV escaping, cell references, and the
//! event-driven readers that turn a spreadsheet's shared strings and sheets into CSV.

use vstd::prelude::*;
use crate::text::{push_str, string_push, str_chars};
use vstd::string::StringSliceAdditionalSpecFns;
use crate::sced_offer_chain::text_order;
use crate::canonical_core::sort::{text_order_of, lemma_text_order_antisym, lemma_text_order_trans, lemma_text_order_zero};
use quick_xml::Reader;
use quick_xml::events::{BytesStart, Event};
use quick_xml::escape::unescape;
use std::io::{Cursor, Read};
use zip::ZipArchive;

verus! {

/// An ASCII digit.
pub open spec fn is_digit(c: char) -> bool {
    '0' <= c <= '9'
}

/// An ASCII letter.
pub open spec fn is_letter(c: char) -> bool {
    ('a' <= c <= 'z') || ('A' <= c <= 'Z')
}

/// An ASCII digit byte.
pub open spec fn is_digit_byte(b: u8) -> bool {
    48 <= b <= 57
}

/// Four ASCII digit bytes start at byte `i` of `b`.
pub open spec fn year_at(b: Seq<u8>, i: int) -> bool {
    0 <= i && i + 4 <= b.len() && is_digit_byte(b[i]) && is_digit_byte(b[i + 1]) && is_digit_byte(b[i + 2])
        && is_digit_byte(b[i + 3])
}

/// The scan for a year looks at the four bytes from each index in turn until it
/// finds digits; every index it looks at, and the index four bytes on, must fall
/// between characters, or taking the four bytes as text fails.
pub open spec fn year_scan_safe(b: Seq<u8>) -> bool {
    forall|j: int|
        0 <= j && j + 4 <= b.len() && (forall|k: int| 0 <= k < j ==> !year_at(b, k))
            ==> #[trigger] window_on_boundaries(b, j)
}

/// Bytes `j` and `j + 4` of `b` both begin a character (or end the text).
pub open spec fn window_on_boundaries(b: Seq<u8>, j: int) -> bool {
    vstd::utf8::is_char_boundary(b, j) && vstd::utf8::is_char_boundary(b, j + 4)
}

/// The text of four ASCII bytes from index `i`.
pub open spec fn ascii_text(b: Seq<u8>, i: int) -> Seq<char> {
    Seq::new(4, |k: int| b[i + k] as char)
}

/// Whether looking for a year in `name` stays on character boundaries.
pub fn year_scan_is_safe(name: &str) -> (res: bool)
    ensures
        res == year_scan_safe(name.spec_bytes()),
{
    let b = name.as_bytes();
    let n = b.len();
    let mut i: usize = 0;
    while i < n && n - i >= 4
        invariant
            b@ == name.spec_bytes(),
            n == b@.len(),
            forall|j: int| 0 <= j < i ==> !year_at(b@, j),
            forall|j: int| 0 <= j < i ==> #[trigger] window_on_boundaries(b@, j),
        decreases n - i,
    {
        let lo = name.is_char_boundary(i);
        let hi = name.is_char_boundary(i + 4);
        assert(lo == vstd::utf8::is_char_boundary(b@, i as int));
        assert(hi == vstd::utf8::is_char_boundary(b@, i + 4));
        if !lo || !hi {
            proof {
                assert(!window_on_boundaries(b@, i as int));
                assert(!year_scan_safe(b@)) by {
                    if year_scan_safe(b@) {
                        assert(window_on_boundaries(b@, i as int));
                    }
                }
            }
            return false;
        }
        if is_digit_u8(b[i]) && is_digit_u8(b[i + 1]) && is_digit_u8(b[i + 2]) && is_digit_u8(b[i + 3]) {
            proof {
                assert(year_at(b@, i as int));
                assert(window_on_boundaries(b@, i as int));
                assert forall|j: int|
                    0 <= j && j + 4 <= b@.len() && (forall|k: int| 0 <= k < j ==> !year_at(b@, k))
                    implies #[trigger] window_on_boundaries(b@, j) by {
                    if j > i {
                        assert(!year_at(b@, i as int));
                    }
                }
            }
            return true;
        }
        assert(window_on_boundaries(b@, i as int));
        i += 1;
    }
    proof {
        assert forall|j: int|
            0 <= j && j + 4 <= b@.len() && (forall|k: int| 0 <= k < j ==> !year_at(b@, k))
            implies #[trigger] window_on_boundaries(b@, j) by {
            assert(j < i);
        }
    }
    true
}

fn is_digit_u8(b: u8) -> (res: bool)
    ensures
        res == is_digit_byte(b),
{
    48 <= b && b <= 57
}

/// The year in an archive name: the first four consecutive ASCII digits.
pub fn detect_year(name: &str) -> (res: Option<String>)
    requires
        year_scan_safe(name.spec_bytes()),
    ensures
        match res {
            Some(y) => exists|i: int|
                #![trigger year_at(name.spec_bytes(), i)]
                year_at(name.spec_bytes(), i) && (forall|j: int| 0 <= j < i ==> !year_at(name.spec_bytes(), j))
                    && y@ == ascii_text(name.spec_bytes(), i),
            None => forall|i: int| !year_at(name.spec_bytes(), i),
        },
{
    let b = name.as_bytes();
    let n = b.len();
    let mut i: usize = 0;
    while i < n && n - i >= 4
        invariant
            b@ == name.spec_bytes(),
            n == b@.len(),
            forall|j: int| 0 <= j < i ==> !year_at(b@, j),
        decreases n - i,
    {
        if is_digit_u8(b[i]) && is_digit_u8(b[i + 1]) && is_digit_u8(b[i + 2]) && is_digit_u8(b[i + 3]) {
            let mut y = String::new();
            string_push(&mut y, b[i] as char);
            string_push(&mut y, b[i + 1] as char);
            string_push(&mut y, b[i + 2] as char);
            string_push(&mut y, b[i + 3] as char);
            proof {
                assert(year_at(b@, i as int));
                assert(y@ =~= ascii_text(b@, i as int));
            }
            return Some(y);
        }
        i += 1;
    }
    proof {
        assert forall|j: int| !year_at(b@, j) by {
            if 0 <= j && j + 4 <= b@.len() {
                assert(j < i as int);
            }
        }
    }
    None
}

/// A CSV field needs quoting when it holds a comma, quote or line break.
pub open spec fn needs_quote(s: Seq<char>) -> bool {
    s.contains(',') || s.contains('"') || s.contains('\n') || s.contains('\r')
}

/// `s` with each `"` doubled.
pub open spec fn double_quotes(s: Seq<char>) -> Seq<char>
    decreases s.len(),
{
    if s.len() == 0 {
        Seq::empty()
    } else {
        double_quotes(s.drop_last()) + if s.last() == '"' {
            seq!['"', '"']
        } else {
            seq![s.last()]
        }
    }
}

/// A CSV field: as is, or quoted with inner quotes doubled when it needs quoting.
pub open spec fn csv_field(s: Seq<char>) -> Seq<char> {
    if needs_quote(s) {
        seq!['"'] + double_quotes(s) + seq!['"']
    } else {
        s
    }
}

/// The CSV rendering of one field.
pub fn escape_csv(value: &str) -> (res: String)
    ensures
        res@ == csv_field(value@),
{
    let chars = str_chars(value);
    let mut quote = false;
    let mut i: usize = 0;
    while i < chars.len()
        invariant
            chars@ == value@,
            i <= chars@.len(),
            quote == (exists|j: int| 0 <= j < i && (chars@[j] == ',' || chars@[j] == '"' || chars@[j] == '\n' || chars@[j] == '\r')),
        decreases chars@.len() - i,
    {
        let c = chars[i];
        if c == ',' || c == '"' || c == '\n' || c == '\r' {
            quote = true;
        }
        i += 1;
    }
    proof {
        if quote {
            let j = choose|j: int| 0 <= j < i && (chars@[j] == ',' || chars@[j] == '"' || chars@[j] == '\n' || chars@[j] == '\r');
            assert(value@[j] == chars@[j]);
        }
        if needs_quote(value@) {
            if value@.contains(',') {
                let j = choose|j: int| 0 <= j < value@.len() && value@[j] == ',';
                assert(chars@[j] == ',');
            } else if value@.contains('"') {
                let j = choose|j: int| 0 <= j < value@.len() && value@[j] == '"';
                assert(chars@[j] == '"');
            } else if value@.contains('\n') {
                let j = choose|j: int| 0 <= j < value@.len() && value@[j] == '\n';
                assert(chars@[j] == '\n');
            } else {
                let j = choose|j: int| 0 <= j < value@.len() && value@[j] == '\r';
                assert(chars@[j] == '\r');
            }
        }
        assert(quote == needs_quote(value@));
    }
    if !quote {
        return String::from_str(value);
    }
    let mut out = String::new();
    string_push(&mut out, '"');
    let mut k: usize = 0;
    while k < chars.len()
        invariant
            chars@ == value@,
            k <= chars@.len(),
            out@ == seq!['"'] + double_quotes(value@.take(k as int)),
        decreases chars@.len() - k,
    {
        let c = chars[k];
        if c == '"' {
            string_push(&mut out, '"');
            string_push(&mut out, '"');
        } else {
            string_push(&mut out, c);
        }
        proof {
            assert(value@.take(k + 1).drop_last() =~= value@.take(k as int));
            assert(value@.take(k + 1).last() == c);
        }
        k += 1;
    }
    string_push(&mut out, '"');
    proof {
        assert(value@.take(k as int) =~= value@);
    }
    out
}

/// The number of leading ASCII letters of `s`.
pub open spec fn letter_prefix_len(s: Seq<char>) -> nat
    decreases s.len(),
{
    if s.len() > 0 && is_letter(s[0]) {
        1 + letter_prefix_len(s.drop_first())
    } else {
        0
    }
}

/// The position (1 to 26) of a letter in the alphabet, ignoring case.
pub open spec fn letter_value(c: char) -> nat {
    if 'a' <= c <= 'z' {
        (c as u32 - 'a' as u32 + 1) as nat
    } else {
        (c as u32 - 'A' as u32 + 1) as nat
    }
}

/// The base-26 column number spelled by the letters `s` (`A` = 1, `Z` = 26, `AA` = 27).
pub open spec fn column_value(s: Seq<char>) -> nat
    decreases s.len(),
{
    if s.len() == 0 {
        0
    } else {
        column_value(s.drop_last()) * 26 + letter_value(s.last())
    }
}

/// The column a cell reference names (`B7` is column 2); 1 when it starts with no letter.
pub open spec fn column_of_ref(s: Seq<char>) -> nat {
    let letters = s.take(letter_prefix_len(s) as int);
    if letters.len() == 0 || column_value(letters) == 0 {
        1
    } else {
        column_value(letters)
    }
}

proof fn lemma_prefix_exact(s: Seq<char>, k: int)
    requires
        0 <= k <= s.len(),
        forall|j: int| 0 <= j < k ==> is_letter(#[trigger] s[j]),
        k == s.len() || !is_letter(s[k]),
    ensures
        letter_prefix_len(s) == k,
    decreases k,
{
    if k > 0 {
        let t = s.drop_first();
        assert forall|j: int| 0 <= j < k - 1 implies is_letter(#[trigger] t[j]) by {
            assert(t[j] == s[j + 1]);
        }
        if k < s.len() {
            assert(t[k - 1] == s[k]);
        }
        lemma_prefix_exact(t, k - 1);
        assert(is_letter(s[0]));
    }
}

proof fn lemma_letter_prefix(s: Seq<char>, i: int)
    requires
        0 <= i <= letter_prefix_len(s),
    ensures
        letter_prefix_len(s) <= s.len(),
        i < letter_prefix_len(s) ==> is_letter(s[i]),
        i == letter_prefix_len(s) && i < s.len() ==> !is_letter(s[i]),
    decreases s.len(),
{
    if s.len() > 0 && is_letter(s[0]) {
        if i > 0 {
            lemma_letter_prefix(s.drop_first(), i - 1);
        } else {
            lemma_letter_prefix(s.drop_first(), 0);
        }
    }
}

proof fn lemma_column_value_positive(s: Seq<char>)
    requires
        s.len() > 0,
        forall|j: int| 0 <= j < s.len() ==> is_letter(#[trigger] s[j]),
    ensures
        column_value(s) >= 1,
{
    assert(is_letter(s.last()));
}

/// The column number of a cell reference such as `AB12`.
pub fn col_index_from_ref(cell_ref: &str) -> (res: usize)
    requires
        column_value(cell_ref@.take(letter_prefix_len(cell_ref@) as int)) <= usize::MAX,
    ensures
        res == column_of_ref(cell_ref@),
{
    let chars = str_chars(cell_ref);
    let ghost s = cell_ref@;
    let ghost m = letter_prefix_len(s);
    let mut k: usize = 0;
    while k < chars.len() && (('a' <= chars[k] && chars[k] <= 'z') || ('A' <= chars[k] && chars[k] <= 'Z'))
        invariant
            chars@ == s,
            k <= chars@.len(),
            forall|j: int| 0 <= j < k ==> is_letter(#[trigger] s[j]),
        decreases chars@.len() - k,
    {
        k += 1;
    }
    proof {
        lemma_prefix_exact(s, k as int);
    }
    if k == 0 {
        return 1;
    }
    let ghost letters = s.take(m as int);
    let mut n: usize = 0;
    let mut i: usize = 0;
    while i < k
        invariant
            chars@ == s,
            k == m,
            m <= s.len(),
            letters == s.take(m as int),
            i <= k,
            n == column_value(letters.take(i as int)),
            column_value(letters) <= usize::MAX,
            forall|j: int| 0 <= j < m ==> is_letter(#[trigger] s[j]),
        decreases k - i,
    {
        proof {
            lemma_column_prefix_le(letters, (i + 1) as int);
            assert(letters.take(i + 1).drop_last() =~= letters.take(i as int));
            assert(letters.take(i + 1).last() == s[i as int]);
        }
        let c = chars[i];
        let v: usize = if 'a' <= c && c <= 'z' {
            ((c as u32) - ('a' as u32) + 1) as usize
        } else {
            ((c as u32) - ('A' as u32) + 1) as usize
        };
        n = n * 26 + v;
        i += 1;
    }
    proof {
        assert(letters.take(k as int) =~= letters);
        assert forall|j: int| 0 <= j < letters.len() implies is_letter(#[trigger] letters[j]) by {
            assert(letters[j] == s[j]);
        }
        lemma_column_value_positive(letters);
    }
    n
}

proof fn lemma_column_prefix_le(s: Seq<char>, i: int)
    requires
        0 <= i <= s.len(),
    ensures
        column_value(s.take(i)) <= column_value(s),
    decreases s.len() - i,
{
    if i < s.len() {
        lemma_column_prefix_le(s, i + 1);
        assert(s.take(i + 1).drop_last() =~= s.take(i));
    } else {
        assert(s.take(i) =~= s);
    }
}

/// A character kept in a file name: ASCII letter or digit, `.`, `_` or `-`.
pub open spec fn name_char_kept(c: char) -> bool {
    is_letter(c) || is_digit(c) || c == '.' || c == '_' || c == '-'
}

/// `s` with every other character replaced by `_`.
pub open spec fn sanitized(s: Seq<char>) -> Seq<char> {
    s.map_values(|c: char| if name_char_kept(c) { c } else { '_' })
}

/// A file-name-safe form of a sheet name (`sheet` when the name is empty).
pub fn sanitize_name(name: &str) -> (res: String)
    ensures
        res@ == if name@.len() == 0 {
            "sheet"@
        } else {
            sanitized(name@)
        },
{
    let chars = str_chars(name);
    let mut out = String::new();
    let mut i: usize = 0;
    while i < chars.len()
        invariant
            chars@ == name@,
            i <= chars@.len(),
            out@ == sanitized(name@).take(i as int),
        decreases chars@.len() - i,
    {
        let c = chars[i];
        let keep = ('a' <= c && c <= 'z') || ('A' <= c && c <= 'Z') || ('0' <= c && c <= '9') || c == '.'
            || c == '_' || c == '-';
        if keep {
            string_push(&mut out, c);
        } else {
            string_push(&mut out, '_');
        }
        i += 1;
        proof {
            assert(sanitized(name@).take(i as int) =~= sanitized(name@).take(i - 1).push(
                if name_char_kept(c) { c } else { '_' },
            ));
        }
    }
    proof {
        assert(sanitized(name@).take(i as int) =~= sanitized(name@));
    }
    if chars.len() == 0 {
        return String::from_str("sheet");
    }
    out
}


/// The digits of `s` read as a decimal number.
pub open spec fn digits_value(s: Seq<char>) -> nat
    decreases s.len(),
{
    if s.len() == 0 {
        0
    } else {
        digits_value(s.drop_last()) * 10 + (s.last() as u32 - '0' as u32) as nat
    }
}

/// `s` without one leading `+`.
pub open spec fn unsigned_digits(s: Seq<char>) -> Seq<char> {
    if s.len() > 0 && s[0] == '+' {
        s.drop_first()
    } else {
        s
    }
}

/// Every character of `d` is an ASCII digit.
pub open spec fn all_digits(d: Seq<char>) -> bool {
    forall|i: int| 0 <= i < d.len() ==> is_digit(#[trigger] d[i])
}

/// What `usize::from_str` gives for `s`: an optional `+`, then one or more digits
/// whose value fits a `usize`.
pub open spec fn parsed_usize(s: Seq<char>) -> Option<usize> {
    let d = unsigned_digits(s);
    if d.len() > 0 && all_digits(d) && digits_value(d) <= usize::MAX {
        Some(digits_value(d) as usize)
    } else {
        None
    }
}

proof fn lemma_digits_prefix_le(s: Seq<char>, i: int)
    requires
        0 <= i <= s.len(),
        forall|j: int| 0 <= j < s.len() ==> is_digit(#[trigger] s[j]),
    ensures
        digits_value(s.take(i)) <= digits_value(s),
    decreases s.len() - i,
{
    if i < s.len() {
        lemma_digits_prefix_le(s, i + 1);
        assert(s.take(i + 1).drop_last() =~= s.take(i));
        assert(s.take(i + 1).last() == s[i]);
    } else {
        assert(s.take(i) =~= s);
    }
}

/// Parses a decimal `usize` as `str::parse` does.
pub fn parse_usize(text: &str) -> (res: Option<usize>)
    ensures
        res == parsed_usize(text@),
{
    let chars = str_chars(text);
    let ghost s = text@;
    let start: usize = if chars.len() > 0 && chars[0] == '+' { 1 } else { 0 };
    let ghost d = unsigned_digits(s);
    proof {
        assert(d =~= s.skip(start as int));
    }
    if start >= chars.len() {
        return None;
    }
    let mut n: usize = 0;
    let mut i: usize = start;
    while i < chars.len()
        invariant
            chars@ == s,
            s == text@,
            start <= i <= chars@.len(),
            d == s.skip(start as int),
            d == unsigned_digits(s),
            forall|j: int| 0 <= j < i - start ==> is_digit(#[trigger] d[j]),
            n == digits_value(d.take(i - start)),
        decreases chars@.len() - i,
    {
        let c = chars[i];
        if !('0' <= c && c <= '9') {
            proof {
                assert(!is_digit(d[i - start]));
            }
            return None;
        }
        let v = ((c as u32) - ('0' as u32)) as usize;
        proof {
            assert(d.take(i - start + 1).drop_last() =~= d.take(i - start));
            assert(d.take(i - start + 1).last() == c);
        }
        match n.checked_mul(10) {
            None => {
                proof {
                    if all_digits(d) {
                        lemma_digits_prefix_le(d, i - start + 1);
                    }
                }
                return None;
            },
            Some(m) => match m.checked_add(v) {
                None => {
                    proof {
                        if all_digits(d) {
                            lemma_digits_prefix_le(d, i - start + 1);
                        }
                    }
                    return None;
                },
                Some(t) => {
                    n = t;
                },
            },
        }
        i += 1;
    }
    proof {
        assert(d.take(i - start) =~= d);
    }
    Some(n)
}

/// A spreadsheet XML event, as the reader reports it.
pub enum XmlEvent {
    /// An opening tag: its name and the text of its attributes.
    Start(String, String),
    /// A self-closing tag: its name and the text of its attributes.
    Empty(String, String),
    /// A closing tag, by its name.
    End(String),
    /// Text as written, still escaped.
    Text(String),
    /// An entity or character reference `&name;`, by its name.
    Reference(String),
    /// Anything else.
    Other,
}

/// An XML event as plain values.
pub enum XmlEventView {
    Start { name: Seq<char>, attribute_text: Seq<char> },
    Empty { name: Seq<char>, attribute_text: Seq<char> },
    End { name: Seq<char> },
    Text(Seq<char>),
    Reference(Seq<char>),
    Other,
}

/// The plain values of an event.
pub open spec fn event_view(e: XmlEvent) -> XmlEventView {
    match e {
        XmlEvent::Start(name, attribute_text) => XmlEventView::Start { name: name@, attribute_text: attribute_text@ },
        XmlEvent::Empty(name, attribute_text) => XmlEventView::Empty { name: name@, attribute_text: attribute_text@ },
        XmlEvent::End(name) => XmlEventView::End { name: name@ },
        XmlEvent::Text(t) => XmlEventView::Text(t@),
        XmlEvent::Reference(r) => XmlEventView::Reference(r@),
        XmlEvent::Other => XmlEventView::Other,
    }
}

/// The plain values of a sequence of events.
pub open spec fn event_views(s: Seq<XmlEvent>) -> Seq<XmlEventView> {
    s.map_values(|e: XmlEvent| event_view(e))
}

/// The escaped text an event carries: the text itself, or `&name;` for a reference.
pub open spec fn escaped_text(ev: XmlEventView) -> Option<Seq<char>> {
    match ev {
        XmlEventView::Text(t) => Some(t),
        XmlEventView::Reference(r) => Some("&"@ + r + ";"@),
        _ => None,
    }
}

/// The XML events of `xml` in document order, up to the end of the document,
/// as quick-xml's reader reports them (default configuration: text not trimmed);
/// or the reader's error message.
pub uninterp spec fn xml_event_seq(xml: Seq<char>) -> Result<Seq<XmlEventView>, Seq<char>>;

/// quick-xml's `Reader::from_str`, read with `read_event` until `Eof`: claimed to
/// return `xml_event_seq(xml)`. Start, empty and end tags keep their names, start
/// and empty tags the text of their attributes (`attributes_raw`); text stays
/// escaped; references keep their names; all other events become `Other`. A
/// reader error ends the reading with its message.
#[verifier::external_body]
pub(crate) fn xml_events(xml: &str) -> (res: Result<Vec<XmlEvent>, String>)
    ensures
        match res {
            Ok(v) => xml_event_seq(xml@) == Ok::<Seq<XmlEventView>, Seq<char>>(event_views(v@)),
            Err(m) => xml_event_seq(xml@) == Err::<Seq<XmlEventView>, Seq<char>>(m@),
        },
{
    let mut reader = Reader::from_str(xml);
    let mut out = Vec::new();
    loop {
        out.push(match reader.read_event().map_err(|e| e.to_string())? {
            Event::Start(e) => XmlEvent::Start(e.name().0.to_string(), e.attributes_raw().to_string()),
            Event::Empty(e) => XmlEvent::Empty(e.name().0.to_string(), e.attributes_raw().to_string()),
            Event::End(e) => XmlEvent::End(e.name().0.to_string()),
            Event::Text(t) => XmlEvent::Text(t.to_string()),
            Event::GeneralRef(r) => XmlEvent::Reference(r.to_string()),
            Event::Eof => return Ok(out),
            _ => XmlEvent::Other,
        });
    }
}

/// The attributes quick-xml reads from the text that follows a tag's name: keys
/// and raw values in order, malformed attributes skipped.
pub uninterp spec fn tag_attrs(attribute_text: Seq<char>) -> Seq<(Seq<char>, Seq<char>)>;

/// `BytesStart::from_content(attribute_text, 0).attributes()`, malformed entries
/// skipped: claimed to return `tag_attrs(attribute_text)`.
#[verifier::external_body]
pub(crate) fn tag_attributes(attribute_text: &str) -> (res: Vec<(String, String)>)
    ensures
        attr_views(res@) == tag_attrs(attribute_text@),
{
    BytesStart::from_content(attribute_text, 0).attributes().flatten().map(|a| (a.key.0.to_string(), a.value.to_string())).collect()
}

/// The text `raw` with its entity and character references replaced
/// (quick-xml's `escape::unescape`), or the error's message.
pub uninterp spec fn xml_unescaped(raw: Seq<char>) -> Result<Seq<char>, Seq<char>>;

/// `quick_xml::escape::unescape`: claimed to return `xml_unescaped(raw)`, and,
/// as its source shows, the text unchanged when it holds no `&`.
#[verifier::external_body]
pub(crate) fn xml_unescape(raw: &str) -> (res: Result<String, String>)
    ensures
        match res {
            Ok(t) => xml_unescaped(raw@) == Ok::<Seq<char>, Seq<char>>(t@),
            Err(m) => xml_unescaped(raw@) == Err::<Seq<char>, Seq<char>>(m@),
        },
        !raw@.contains('&') ==> res is Ok && res->Ok_0@ == raw@,
{
    unescape(raw).map(|t| t.into_owned()).map_err(|e| e.to_string())
}

/// The unescaped text of a text or reference event.
fn unescaped_text(event: &XmlEvent) -> (res: Result<String, String>)
    requires
        escaped_text(event_view(*event)) is Some,
    ensures
        match res {
            Ok(t) => xml_unescaped(escaped_text(event_view(*event))->0) == Ok::<Seq<char>, Seq<char>>(t@),
            Err(m) => xml_unescaped(escaped_text(event_view(*event))->0) == Err::<Seq<char>, Seq<char>>(m@),
        },
{
    match event {
        XmlEvent::Text(t) => xml_unescape(t.as_str()),
        XmlEvent::Reference(r) => {
            let mut raw = String::from_str("&");
            push_str(&mut raw, r.as_str());
            push_str(&mut raw, ";");
            xml_unescape(raw.as_str())
        },
        _ => Err(String::new()),
    }
}

/// The column and type attributes of a cell: `r` gives the column (1 when
/// absent), `t` the type (empty when absent); a later attribute wins.
pub open spec fn cell_attrs_of(attrs: Seq<(Seq<char>, Seq<char>)>) -> (nat, Seq<char>)
    decreases attrs.len(),
{
    if attrs.len() == 0 {
        (1, Seq::empty())
    } else {
        let prev = cell_attrs_of(attrs.drop_last());
        let a = attrs.last();
        if a.0 == "r"@ {
            (column_of_ref(a.1), prev.1)
        } else if a.0 == "t"@ {
            (prev.0, a.1)
        } else {
            prev
        }
    }
}

/// Every `r` attribute names a column that fits a `usize`.
pub open spec fn refs_fit(attrs: Seq<(Seq<char>, Seq<char>)>) -> bool {
    forall|i: int| 0 <= i < attrs.len() && attrs[i].0 == "r"@ ==> #[trigger] ref_fits(attrs[i].1)
}

/// The column a cell reference names fits a `usize`.
pub open spec fn ref_fits(r: Seq<char>) -> bool {
    column_value(r.take(letter_prefix_len(r) as int)) <= usize::MAX
}

/// The attributes as (name, value) texts.
pub open spec fn attr_views(attrs: Seq<(String, String)>) -> Seq<(Seq<char>, Seq<char>)> {
    attrs.map_values(|a: (String, String)| (a.0@, a.1@))
}

/// The attributes of each element as texts.
pub open spec fn element_views(elems: Seq<Vec<(String, String)>>) -> Seq<Seq<(Seq<char>, Seq<char>)>> {
    elems.map_values(|e: Vec<(String, String)>| attr_views(e@))
}

proof fn lemma_attr_views_take(attrs: Seq<(String, String)>, i: int)
    requires
        0 <= i < attrs.len(),
    ensures
        attr_views(attrs.take(i + 1)).drop_last() == attr_views(attrs.take(i)),
        attr_views(attrs.take(i + 1)).last() == (attrs[i].0@, attrs[i].1@),
        attr_views(attrs.take(i + 1)).len() == i + 1,
{
    assert(attr_views(attrs.take(i + 1)).drop_last() =~= attr_views(attrs.take(i)));
}

fn text_is(t: &String, lit: &str) -> (res: bool)
    ensures
        res == (t@ == lit@),
{
    *t == String::from_str(lit)
}

/// The column and type of a cell from its attributes.
pub fn parse_cell_attrs(attrs: &Vec<(String, String)>) -> (res: (usize, String))
    requires
        refs_fit(attr_views(attrs@)),
    ensures
        res.0 == cell_attrs_of(attr_views(attrs@)).0,
        res.1@ == cell_attrs_of(attr_views(attrs@)).1,
{
    let mut col: usize = 1;
    let mut ctype = String::new();
    let mut i: usize = 0;
    while i < attrs.len()
        invariant
            i <= attrs@.len(),
            refs_fit(attr_views(attrs@)),
            col == cell_attrs_of(attr_views(attrs@.take(i as int))).0,
            ctype@ == cell_attrs_of(attr_views(attrs@.take(i as int))).1,
        decreases attrs@.len() - i,
    {
        proof {
            lemma_attr_views_take(attrs@, i as int);
            assert(attr_views(attrs@)[i as int] == (attrs@[i as int].0@, attrs@[i as int].1@));
            if attrs@[i as int].0@ == "r"@ {
                assert(ref_fits(attr_views(attrs@)[i as int].1));
            }
        }
        let (key, val) = (&attrs[i].0, &attrs[i].1);
        if text_is(key, "r") {
            col = col_index_from_ref(val.as_str());
        } else if text_is(key, "t") {
            ctype = val.clone();
        }
        i += 1;
    }
    proof {
        assert(attrs@.take(i as int) =~= attrs@);
    }
    (col, ctype)
}


/// The texts of a sequence of strings.
pub open spec fn string_texts(v: Seq<String>) -> Seq<Seq<char>> {
    v.map_values(|t: String| t@)
}

/// The row's cells as (column, text) pairs.
pub open spec fn cell_texts(v: Seq<(usize, String)>) -> Seq<(usize, Seq<char>)> {
    v.map_values(|c: (usize, String)| (c.0, c.1@))
}

/// The text of column `col` in a row: the last value stored for it, empty if none.
pub open spec fn cell_lookup(cells: Seq<(usize, Seq<char>)>, col: nat) -> Seq<char>
    decreases cells.len(),
{
    if cells.len() == 0 {
        Seq::empty()
    } else if cells.last().0 == col {
        cells.last().1
    } else {
        cell_lookup(cells.drop_last(), col)
    }
}

/// The CSV fields of columns 1 to `k`, comma-separated.
pub open spec fn row_fields(cells: Seq<(usize, Seq<char>)>, k: nat) -> Seq<char>
    decreases k,
{
    if k == 0 {
        Seq::empty()
    } else {
        row_fields(cells, (k - 1) as nat) + (if k > 1 {
            seq![',']
        } else {
            Seq::empty()
        }) + csv_field(cell_lookup(cells, k))
    }
}

/// The CSV line of a row whose widest column is `max_col`.
pub open spec fn row_line(cells: Seq<(usize, Seq<char>)>, max_col: nat) -> Seq<char> {
    row_fields(cells, max_col) + seq!['\n']
}

/// The value of a finished cell: a shared string when its type is `s` (empty when
/// the index is not a number or out of range), otherwise its raw text.
pub open spec fn cell_value(cell_type: Seq<char>, raw: Seq<char>, shared: Seq<Seq<char>>) -> Seq<char> {
    if cell_type == "s"@ {
        match parsed_usize(raw) {
            Some(i) => if i < shared.len() {
                shared[i as int]
            } else {
                Seq::empty()
            },
            None => Seq::empty(),
        }
    } else {
        raw
    }
}

/// Turns the events of one worksheet into CSV lines.
pub struct SheetCsvWriter {
    cells: Vec<(usize, String)>,
    row_max: usize,
    rows: usize,
    max_cols: usize,
    in_cell: bool,
    cell_col: usize,
    cell_type: String,
    capturing: bool,
    cell_raw: String,
}

/// The writer's state as plain values.
pub struct SheetView {
    pub cells: Seq<(usize, Seq<char>)>,
    pub row_max: usize,
    pub rows: usize,
    pub max_cols: usize,
    pub in_cell: bool,
    pub cell_col: usize,
    pub cell_type: Seq<char>,
    pub capturing: bool,
    pub cell_raw: Seq<char>,
}

impl View for SheetCsvWriter {
    type V = SheetView;

    closed spec fn view(&self) -> SheetView {
        SheetView {
            cells: cell_texts(self.cells@),
            row_max: self.row_max,
            rows: self.rows,
            max_cols: self.max_cols,
            in_cell: self.in_cell,
            cell_col: self.cell_col,
            cell_type: self.cell_type@,
            capturing: self.capturing,
            cell_raw: self.cell_raw@,
        }
    }
}

/// The larger of two numbers.
pub open spec fn max_usize(a: usize, b: usize) -> usize {
    if a > b {
        a
    } else {
        b
    }
}

/// Whether `n` names one of the value elements `v` or `t`.
pub open spec fn is_value_tag(n: Seq<char>) -> bool {
    n == "v"@ || n == "t"@
}

/// The writer's next state and the line it emits, for one event; or the message
/// of a captured text that does not unescape.
pub open spec fn sheet_step(v: SheetView, ev: XmlEventView, shared: Seq<Seq<char>>) -> Result<(SheetView, Option<Seq<char>>), Seq<char>> {
    match ev {
        XmlEventView::Start { name, attribute_text } => Ok(if name == "row"@ {
            (SheetView { cells: Seq::empty(), row_max: 0, ..v }, None)
        } else if name == "c"@ {
            let a = cell_attrs_of(tag_attrs(attribute_text));
            let col = a.0 as usize;
            (
                SheetView {
                    in_cell: true,
                    cell_col: col,
                    cell_type: a.1,
                    cell_raw: Seq::empty(),
                    row_max: max_usize(v.row_max, col),
                    ..v
                },
                None,
            )
        } else if v.in_cell && is_value_tag(name) {
            (SheetView { capturing: true, ..v }, None)
        } else {
            (v, None)
        }),
        XmlEventView::End { name } => Ok(if name == "row"@ {
            (
                SheetView { max_cols: max_usize(v.max_cols, v.row_max), rows: (v.rows + 1) as usize, ..v },
                Some(row_line(v.cells, v.row_max as nat)),
            )
        } else if name == "c"@ && v.in_cell {
            (
                SheetView {
                    cells: v.cells.push((v.cell_col, cell_value(v.cell_type, v.cell_raw, shared))),
                    in_cell: false,
                    capturing: false,
                    ..v
                },
                None,
            )
        } else if is_value_tag(name) {
            (SheetView { capturing: false, ..v }, None)
        } else {
            (v, None)
        }),
        XmlEventView::Text(_) | XmlEventView::Reference(_) => if v.in_cell && v.capturing {
            match xml_unescaped(escaped_text(ev)->0) {
                Ok(t) => Ok((SheetView { cell_raw: v.cell_raw + t, ..v }, None)),
                Err(m) => Err(m),
            }
        } else {
            Ok((v, None))
        },
        _ => Ok((v, None)),
    }
}

/// The machine limits of one event: the row counter can count once more and every
/// cell reference fits a `usize`.
pub open spec fn sheet_event_in_range(v: SheetView, ev: XmlEventView) -> bool {
    &&& v.rows < usize::MAX
    &&& event_refs_fit(ev)
}

/// Every cell reference of an opening tag fits a `usize`.
pub open spec fn event_refs_fit(ev: XmlEventView) -> bool {
    ev matches XmlEventView::Start { attribute_text, .. } ==> refs_fit(tag_attrs(attribute_text))
}

/// Appends the CSV field of a cell value.
fn push_field(out: &mut String, value: &str)
    ensures
        final(out)@ == old(out)@ + csv_field(value@),
{
    let f = escape_csv(value);
    push_str(out, f.as_str());
}

impl SheetCsvWriter {
    /// A writer before the first row.
    pub fn new() -> (res: Self)
        ensures
            res@ == (SheetView {
                cells: Seq::empty(),
                row_max: 0,
                rows: 0,
                max_cols: 0,
                in_cell: false,
                cell_col: 1,
                cell_type: Seq::empty(),
                capturing: false,
                cell_raw: Seq::empty(),
            }),
    {
        let w = SheetCsvWriter {
            cells: Vec::new(),
            row_max: 0,
            rows: 0,
            max_cols: 0,
            in_cell: false,
            cell_col: 1,
            cell_type: String::new(),
            capturing: false,
            cell_raw: String::new(),
        };
        proof {
            assert(cell_texts(w.cells@) =~= Seq::<(usize, Seq<char>)>::empty());
        }
        w
    }

    /// The rows written and the widest row seen.
    pub fn stats(&self) -> (res: (usize, usize))
        ensures
            res == (self@.rows, self@.max_cols),
    {
        (self.rows, self.max_cols)
    }

    /// The text stored last for column `col` of the current row.
    fn lookup(&self, col: usize) -> (res: &str)
        ensures
            res@ == cell_lookup(self@.cells, col as nat),
    {
        let mut i = self.cells.len();
        proof {
            assert(cell_texts(self.cells@).take(i as int) =~= self@.cells);
        }
        while i > 0
            invariant
                i <= self.cells@.len(),
                cell_lookup(self@.cells, col as nat) == cell_lookup(cell_texts(self.cells@).take(i as int), col as nat),
            decreases i,
        {
            proof {
                assert(cell_texts(self.cells@).take(i as int).drop_last() =~= cell_texts(self.cells@).take(i - 1));
                assert(cell_texts(self.cells@).take(i as int).last() == (self.cells@[i - 1].0, self.cells@[i - 1].1@));
            }
            if self.cells[i - 1].0 == col {
                return self.cells[i - 1].1.as_str();
            }
            i -= 1;
        }
        proof {
            reveal_strlit("");
            assert(cell_texts(self.cells@).take(0) =~= Seq::<(usize, Seq<char>)>::empty());
        }
        ""
    }

    /// The CSV line of the current row.
    fn row_csv_line(&self) -> (res: String)
        ensures
            res@ == row_line(self@.cells, self@.row_max as nat),
    {
        let mut out = String::new();
        let mut k: usize = 0;
        while k < self.row_max
            invariant
                k <= self.row_max,
                out@ == row_fields(self@.cells, k as nat),
            decreases self.row_max - k,
        {
            let col = k + 1;
            if col > 1 {
                string_push(&mut out, ',');
            }
            let v = self.lookup(col);
            push_field(&mut out, v);
            proof {
                assert(out@ =~= row_fields(self@.cells, k as nat) + (if col > 1 { seq![','] } else { Seq::empty() })
                    + csv_field(cell_lookup(self@.cells, col as nat)));
            }
            k = col;
        }
        string_push(&mut out, '\n');
        out
    }

    /// Applies one worksheet event; a finished row yields its CSV line.
    pub fn on_event(&mut self, event: &XmlEvent, shared: &Vec<String>) -> (res: Result<Option<String>, String>)
        requires
            sheet_event_in_range(old(self)@, event_view(*event)),
        ensures
            match sheet_step(old(self)@, event_view(*event), string_texts(shared@)) {
                Ok((next, line)) => final(self)@ == next && match res {
                    Ok(Some(l)) => line == Some(l@),
                    Ok(None) => line is None,
                    Err(_) => false,
                },
                Err(m) => res is Err && res->Err_0@ == m && final(self)@ == old(self)@,
            },
    {
        let ghost before = self@;
        match event {
            XmlEvent::Start(name, attribute_text) => {
                if text_is(name, "row") {
                    self.cells = Vec::new();
                    self.row_max = 0;
                    proof {
                        assert(cell_texts(self.cells@) =~= Seq::<(usize, Seq<char>)>::empty());
                    }
                } else if text_is(name, "c") {
                    let attributes = tag_attributes(attribute_text.as_str());
                    let (col, ctype) = parse_cell_attrs(&attributes);
                    self.in_cell = true;
                    self.cell_col = col;
                    self.cell_type = ctype;
                    self.cell_raw = String::new();
                    if col > self.row_max {
                        self.row_max = col;
                    }
                } else if self.in_cell && (text_is(name, "v") || text_is(name, "t")) {
                    self.capturing = true;
                }
                Ok(None)
            },
            XmlEvent::End(name) => {
                if text_is(name, "row") {
                    let line = self.row_csv_line();
                    if self.row_max > self.max_cols {
                        self.max_cols = self.row_max;
                    }
                    self.rows = self.rows + 1;
                    Ok(Some(line))
                } else if text_is(name, "c") && self.in_cell {
                    let value = self.finished_cell_value(shared);
                    let ghost cells_before = self.cells@;
                    self.cells.push((self.cell_col, value));
                    self.in_cell = false;
                    self.capturing = false;
                    proof {
                        assert(cell_texts(self.cells@) =~= cell_texts(cells_before).push(
                            (before.cell_col, cell_value(before.cell_type, before.cell_raw, string_texts(shared@))),
                        ));
                    }
                    Ok(None)
                } else {
                    if text_is(name, "v") || text_is(name, "t") {
                        self.capturing = false;
                    }
                    Ok(None)
                }
            },
            XmlEvent::Text(_) | XmlEvent::Reference(_) => {
                if self.in_cell && self.capturing {
                    let t = unescaped_text(event)?;
                    push_str(&mut self.cell_raw, t.as_str());
                }
                Ok(None)
            },
            _ => Ok(None),
        }
    }

    /// The value of the cell being closed.
    fn finished_cell_value(&self, shared: &Vec<String>) -> (res: String)
        ensures
            res@ == cell_value(self@.cell_type, self@.cell_raw, string_texts(shared@)),
    {
        if text_is(&self.cell_type, "s") {
            match parse_usize(self.cell_raw.as_str()) {
                Some(idx) => {
                    if idx < shared.len() {
                        shared[idx].clone()
                    } else {
                        String::new()
                    }
                },
                None => String::new(),
            }
        } else {
            self.cell_raw.clone()
        }
    }
}


/// Collects a workbook's shared strings from the events of `sharedStrings.xml`.
pub struct SharedStringsReader {
    strings: Vec<String>,
    in_si: bool,
    in_t: bool,
    current: String,
}

/// The reader's state as plain values.
pub struct SharedView {
    pub strings: Seq<Seq<char>>,
    pub in_si: bool,
    pub in_t: bool,
    pub current: Seq<char>,
}

impl View for SharedStringsReader {
    type V = SharedView;

    closed spec fn view(&self) -> SharedView {
        SharedView {
            strings: string_texts(self.strings@),
            in_si: self.in_si,
            in_t: self.in_t,
            current: self.current@,
        }
    }
}

/// The reader's next state for one event: an `si` element collects the text of
/// its `t` elements into one shared string; or the message of a collected text
/// that does not unescape.
pub open spec fn shared_step(v: SharedView, ev: XmlEventView) -> Result<SharedView, Seq<char>> {
    match ev {
        XmlEventView::Start { name, .. } => Ok(if name == "si"@ {
            SharedView { in_si: true, current: Seq::empty(), ..v }
        } else if v.in_si && name == "t"@ {
            SharedView { in_t: true, ..v }
        } else {
            v
        }),
        XmlEventView::End { name } => Ok(if name == "si"@ {
            SharedView { in_si: false, strings: v.strings.push(v.current), ..v }
        } else if name == "t"@ {
            SharedView { in_t: false, ..v }
        } else {
            v
        }),
        XmlEventView::Text(_) | XmlEventView::Reference(_) => if v.in_si && v.in_t {
            match xml_unescaped(escaped_text(ev)->0) {
                Ok(t) => Ok(SharedView { current: v.current + t, ..v }),
                Err(m) => Err(m),
            }
        } else {
            Ok(v)
        },
        _ => Ok(v),
    }
}

impl SharedStringsReader {
    /// A reader with no strings.
    pub fn new() -> (res: Self)
        ensures
            res@ == (SharedView { strings: Seq::empty(), in_si: false, in_t: false, current: Seq::empty() }),
    {
        let r = SharedStringsReader { strings: Vec::new(), in_si: false, in_t: false, current: String::new() };
        proof {
            assert(string_texts(r.strings@) =~= Seq::<Seq<char>>::empty());
        }
        r
    }

    /// Applies one event.
    pub fn on_event(&mut self, event: &XmlEvent) -> (res: Result<(), String>)
        ensures
            match shared_step(old(self)@, event_view(*event)) {
                Ok(next) => res is Ok && final(self)@ == next,
                Err(m) => res is Err && res->Err_0@ == m && final(self)@ == old(self)@,
            },
    {
        let ghost before = self@;
        match event {
            XmlEvent::Start(name, _) => {
                if text_is(name, "si") {
                    self.in_si = true;
                    self.current = String::new();
                } else if self.in_si && text_is(name, "t") {
                    self.in_t = true;
                }
            },
            XmlEvent::End(name) => {
                if text_is(name, "si") {
                    self.in_si = false;
                    let ghost old_strings = self.strings@;
                    self.strings.push(self.current.clone());
                    proof {
                        assert(string_texts(self.strings@) =~= string_texts(old_strings).push(before.current));
                    }
                } else if text_is(name, "t") {
                    self.in_t = false;
                }
            },
            XmlEvent::Text(_) | XmlEvent::Reference(_) => {
                if self.in_si && self.in_t {
                    let t = unescaped_text(event)?;
                    push_str(&mut self.current, t.as_str());
                }
            },
            _ => {},
        }
        Ok(())
    }

    /// The shared strings collected.
    pub fn into_strings(self) -> (res: Vec<String>)
        ensures
            string_texts(res@) == self@.strings,
    {
        self.strings
    }
}

/// A worksheet of a workbook: its name and its part path.
#[derive(Clone, Debug)]
pub struct SheetSpec {
    pub name: String,
    pub path: String,
}

/// The (name, path) texts of worksheets.
pub open spec fn sheet_spec_views(specs: Seq<SheetSpec>) -> Seq<(Seq<char>, Seq<char>)> {
    specs.map_values(|s: SheetSpec| (s.name@, s.path@))
}

/// The value of the last attribute named `key`, empty if none.
pub open spec fn last_attr(attrs: Seq<(Seq<char>, Seq<char>)>, key: Seq<char>) -> Seq<char>
    decreases attrs.len(),
{
    if attrs.len() == 0 {
        Seq::empty()
    } else if attrs.last().0 == key {
        attrs.last().1
    } else {
        last_attr(attrs.drop_last(), key)
    }
}

/// An attribute key that names a relationship id (`r:id` or any `…:id`).
pub open spec fn is_rel_id_key(k: Seq<char>) -> bool {
    k == "r:id"@ || (k.len() >= 3 && k.subrange(k.len() - 3, k.len() as int) == ":id"@)
}

/// The value of the last relationship-id attribute, empty if none.
pub open spec fn last_rel_id(attrs: Seq<(Seq<char>, Seq<char>)>) -> Seq<char>
    decreases attrs.len(),
{
    if attrs.len() == 0 {
        Seq::empty()
    } else if is_rel_id_key(attrs.last().0) {
        attrs.last().1
    } else {
        last_rel_id(attrs.drop_last())
    }
}

/// `s` with every backslash turned into a slash.
pub open spec fn forward_slashes(s: Seq<char>) -> Seq<char> {
    s.map_values(|c: char| if c == '\\' { '/' } else { c })
}

/// The (id, target) a `Relationship` element declares, when both are present.
pub open spec fn relationship_of(attrs: Seq<(Seq<char>, Seq<char>)>) -> Option<(Seq<char>, Seq<char>)> {
    let rid = last_attr(attrs, "Id"@);
    let target = forward_slashes(last_attr(attrs, "Target"@));
    if rid.len() > 0 && target.len() > 0 {
        Some((rid, target))
    } else {
        None
    }
}

/// The target of relationship `rid` among `rels` (elements in document order; a
/// later declaration of an id replaces an earlier one).
pub open spec fn target_of(rels: Seq<Seq<(Seq<char>, Seq<char>)>>, rid: Seq<char>) -> Option<Seq<char>>
    decreases rels.len(),
{
    if rels.len() == 0 {
        None
    } else {
        match relationship_of(rels.last()) {
            Some(r) => if r.0 == rid {
                Some(r.1)
            } else {
                target_of(rels.drop_last(), rid)
            },
            None => target_of(rels.drop_last(), rid),
        }
    }
}

/// The worksheet a `sheet` element names, when its relationship targets a worksheet part.
pub open spec fn sheet_of(rels: Seq<Seq<(Seq<char>, Seq<char>)>>, attrs: Seq<(Seq<char>, Seq<char>)>) -> Option<(Seq<char>, Seq<char>)> {
    match target_of(rels, last_rel_id(attrs)) {
        Some(t) => if t.len() >= 11 && t.subrange(0, 11) == "worksheets/"@ {
            Some((last_attr(attrs, "name"@), "xl/"@ + t))
        } else {
            None
        },
        None => None,
    }
}

/// The worksheets of the `sheet` elements, in order.
pub open spec fn sheets_of(rels: Seq<Seq<(Seq<char>, Seq<char>)>>, sheets: Seq<Seq<(Seq<char>, Seq<char>)>>) -> Seq<(Seq<char>, Seq<char>)>
    decreases sheets.len(),
{
    if sheets.len() == 0 {
        Seq::empty()
    } else {
        let prev = sheets_of(rels, sheets.drop_last());
        match sheet_of(rels, sheets.last()) {
            Some(s) => prev.push(s),
            None => prev,
        }
    }
}

fn last_attr_value(attrs: &Vec<(String, String)>, key: &str) -> (res: String)
    ensures
        res@ == last_attr(attr_views(attrs@), key@),
{
    let mut i = attrs.len();
    proof {
        assert(attrs@.take(i as int) =~= attrs@);
    }
    while i > 0
        invariant
            i <= attrs@.len(),
            last_attr(attr_views(attrs@), key@) == last_attr(attr_views(attrs@.take(i as int)), key@),
        decreases i,
    {
        proof {
            lemma_attr_views_take(attrs@, i - 1);
        }
        if text_is(&attrs[i - 1].0, key) {
            return attrs[i - 1].1.clone();
        }
        i -= 1;
    }
    proof {
        assert(attrs@.take(0) =~= Seq::<(String, String)>::empty());
    }
    String::new()
}

fn ends_with_id(k: &String) -> (res: bool)
    ensures
        res == (k@.len() >= 3 && k@.subrange(k@.len() - 3, k@.len() as int) == ":id"@),
{
    let chars = str_chars(k.as_str());
    let n = chars.len();
    proof {
        reveal_strlit(":id");
    }
    if n < 3 {
        return false;
    }
    let r = chars[n - 3] == ':' && chars[n - 2] == 'i' && chars[n - 1] == 'd';
    proof {
        if r {
            assert(k@.subrange(n - 3, n as int) =~= ":id"@);
        } else {
            if k@.subrange(n - 3, n as int) == ":id"@ {
                assert(k@.subrange(n - 3, n as int)[0] == ':');
                assert(k@.subrange(n - 3, n as int)[1] == 'i');
                assert(k@.subrange(n - 3, n as int)[2] == 'd');
            }
        }
    }
    r
}

fn last_rel_id_value(attrs: &Vec<(String, String)>) -> (res: String)
    ensures
        res@ == last_rel_id(attr_views(attrs@)),
{
    let mut i = attrs.len();
    proof {
        assert(attrs@.take(i as int) =~= attrs@);
    }
    while i > 0
        invariant
            i <= attrs@.len(),
            last_rel_id(attr_views(attrs@)) == last_rel_id(attr_views(attrs@.take(i as int))),
        decreases i,
    {
        proof {
            lemma_attr_views_take(attrs@, i - 1);
        }
        if text_is(&attrs[i - 1].0, "r:id") || ends_with_id(&attrs[i - 1].0) {
            return attrs[i - 1].1.clone();
        }
        i -= 1;
    }
    proof {
        assert(attrs@.take(0) =~= Seq::<(String, String)>::empty());
    }
    String::new()
}

fn with_forward_slashes(s: &String) -> (res: String)
    ensures
        res@ == forward_slashes(s@),
{
    let chars = str_chars(s.as_str());
    let mut out = String::new();
    let mut i: usize = 0;
    while i < chars.len()
        invariant
            chars@ == s@,
            i <= chars@.len(),
            out@ == forward_slashes(s@).take(i as int),
        decreases chars@.len() - i,
    {
        let c = chars[i];
        string_push(&mut out, if c == '\\' { '/' } else { c });
        i += 1;
        proof {
            assert(forward_slashes(s@).take(i as int) =~= forward_slashes(s@).take(i - 1).push(
                if c == '\\' { '/' } else { c },
            ));
        }
    }
    proof {
        assert(forward_slashes(s@).take(i as int) =~= forward_slashes(s@));
    }
    out
}

fn relationship_target(rels: &Vec<Vec<(String, String)>>, rid: &String) -> (res: Option<String>)
    ensures
        match res {
            Some(t) => target_of(element_views(rels@), rid@) == Some(t@),
            None => target_of(element_views(rels@), rid@) is None,
        },
{
    let mut i = rels.len();
    proof {
        assert(rels@.take(i as int) =~= rels@);
    }
    while i > 0
        invariant
            i <= rels@.len(),
            target_of(element_views(rels@), rid@) == target_of(element_views(rels@.take(i as int)), rid@),
        decreases i,
    {
        proof {
            assert(element_views(rels@.take(i as int)).drop_last() =~= element_views(rels@.take(i - 1)));
            assert(element_views(rels@.take(i as int)).last() == attr_views(rels@[i - 1]@));
        }
        let attrs = &rels[i - 1];
        let id = last_attr_value(attrs, "Id");
        let target = with_forward_slashes(&last_attr_value(attrs, "Target"));
        if id.as_str().unicode_len() > 0 && target.as_str().unicode_len() > 0 && id == *rid {
            return Some(target);
        }
        i -= 1;
    }
    proof {
        assert(rels@.take(0) =~= Seq::<Vec<(String, String)>>::empty());
    }
    None
}

fn starts_with_worksheets(t: &String) -> (res: bool)
    ensures
        res == (t@.len() >= 11 && t@.subrange(0, 11) == "worksheets/"@),
{
    let chars = str_chars(t.as_str());
    let prefix = str_chars("worksheets/");
    proof {
        reveal_strlit("worksheets/");
    }
    if chars.len() < 11 {
        return false;
    }
    let mut i: usize = 0;
    while i < 11
        invariant
            chars@ == t@,
            prefix@ == "worksheets/"@,
            prefix@.len() == 11,
            chars@.len() >= 11,
            i <= 11,
            forall|j: int| 0 <= j < i ==> chars@[j] == prefix@[j],
        decreases 11 - i,
    {
        if chars[i] != prefix[i] {
            proof {
                assert(t@.subrange(0, 11)[i as int] != prefix@[i as int]);
            }
            return false;
        }
        i += 1;
    }
    proof {
        assert(t@.subrange(0, 11) =~= prefix@);
    }
    true
}

/// The worksheets of a workbook: for each `sheet` element in order, its name and
/// `xl/` followed by the target of its relationship, when that target is a
/// `worksheets/` part. `relationships` and `sheets` hold each element's attributes.
pub fn resolve_sheet_specs(relationships: &Vec<Vec<(String, String)>>, sheets: &Vec<Vec<(String, String)>>) -> (res: Vec<SheetSpec>)
    ensures
        sheet_spec_views(res@) == sheets_of(element_views(relationships@), element_views(sheets@)),
{
    let mut out: Vec<SheetSpec> = Vec::new();
    let mut i: usize = 0;
    while i < sheets.len()
        invariant
            i <= sheets@.len(),
            sheet_spec_views(out@) == sheets_of(element_views(relationships@), element_views(sheets@.take(i as int))),
        decreases sheets@.len() - i,
    {
        proof {
            assert(element_views(sheets@.take(i + 1)).drop_last() =~= element_views(sheets@.take(i as int)));
            assert(element_views(sheets@.take(i + 1)).last() == attr_views(sheets@[i as int]@));
        }
        let ghost before = out@;
        let attrs = &sheets[i];
        let rid = last_rel_id_value(attrs);
        match relationship_target(relationships, &rid) {
            Some(target) => {
                if starts_with_worksheets(&target) {
                    let name = last_attr_value(attrs, "name");
                    let mut path = String::from_str("xl/");
                    push_str(&mut path, target.as_str());
                    out.push(SheetSpec { name, path });
                    proof {
                        assert(sheet_spec_views(out@) =~= sheet_spec_views(before).push((out@.last().name@, out@.last().path@)));
                    }
                }
            },
            None => {},
        }
        i += 1;
    }
    proof {
        assert(sheets@.take(i as int) =~= sheets@);
    }
    out
}

/// Whether the column a cell reference names fits a `usize`.
fn ref_fits_check(cell_ref: &str) -> (res: bool)
    ensures
        res == ref_fits(cell_ref@),
{
    let chars = str_chars(cell_ref);
    let ghost s = cell_ref@;
    let mut k: usize = 0;
    while k < chars.len() && (('a' <= chars[k] && chars[k] <= 'z') || ('A' <= chars[k] && chars[k] <= 'Z'))
        invariant
            chars@ == s,
            k <= chars@.len(),
            forall|j: int| 0 <= j < k ==> is_letter(#[trigger] s[j]),
        decreases chars@.len() - k,
    {
        k += 1;
    }
    proof {
        lemma_prefix_exact(s, k as int);
    }
    let ghost letters = s.take(k as int);
    let mut n: usize = 0;
    let mut i: usize = 0;
    while i < k
        invariant
            chars@ == s,
            s == cell_ref@,
            k <= s.len(),
            letters == s.take(k as int),
            letter_prefix_len(s) == k,
            i <= k,
            n == column_value(letters.take(i as int)),
            forall|j: int| 0 <= j < k ==> is_letter(#[trigger] s[j]),
        decreases k - i,
    {
        proof {
            lemma_column_prefix_le(letters, (i + 1) as int);
            assert(letters.take(i + 1).drop_last() =~= letters.take(i as int));
            assert(letters.take(i + 1).last() == s[i as int]);
        }
        let c = chars[i];
        let v: usize = if 'a' <= c && c <= 'z' {
            ((c as u32) - ('a' as u32) + 1) as usize
        } else {
            ((c as u32) - ('A' as u32) + 1) as usize
        };
        proof {
            assert(is_letter(s[i as int]));
            assert(v == letter_value(c));
            assert(column_value(letters.take(i + 1)) == n * 26 + v);
            assert(letters.take(k as int) =~= letters);
        }
        match n.checked_mul(26) {
            Some(x) => match x.checked_add(v) {
                Some(y) => {
                    n = y;
                },
                None => {
                    proof {
                        lemma_column_prefix_le(letters, (i + 1) as int);
                        assert(!ref_fits(s));
                    }
                    return false;
                },
            },
            None => {
                proof {
                    lemma_column_prefix_le(letters, (i + 1) as int);
                    assert(n * 26 > usize::MAX);
                    assert(!ref_fits(s));
                }
                return false;
            },
        }
        i += 1;
    }
    proof {
        assert(letters.take(k as int) =~= letters);
    }
    true
}

/// Whether every cell reference of an event fits a `usize`.
fn event_refs_fit_check(event: &XmlEvent) -> (res: bool)
    ensures
        res == event_refs_fit(event_view(*event)),
{
    match event {
        XmlEvent::Start(_, attribute_text) => {
            let attributes = tag_attributes(attribute_text.as_str());
            let ghost av = attr_views(attributes@);
            assert(event_view(*event) is Start && tag_attrs(event_view(*event)->Start_attribute_text) == av);
            let mut i: usize = 0;
            while i < attributes.len()
                invariant
                    event_view(*event) is Start && tag_attrs(event_view(*event)->Start_attribute_text) == av,
                    i <= attributes@.len(),
                    av == attr_views(attributes@),
                    forall|j: int| 0 <= j < i && av[j].0 == "r"@ ==> #[trigger] ref_fits(av[j].1),
                decreases attributes@.len() - i,
            {
                proof {
                    assert(av[i as int] == (attributes@[i as int].0@, attributes@[i as int].1@));
                }
                if text_is(&attributes[i].0, "r") && !ref_fits_check(attributes[i].1.as_str()) {
                    proof {
                        assert(!ref_fits(av[i as int].1));
                    }
                    return false;
                }
                i += 1;
            }
            true
        },
        _ => true,
    }
}

/// The writer before the first event.
pub open spec fn initial_sheet() -> SheetView {
    SheetView {
        cells: Seq::empty(),
        row_max: 0,
        rows: 0,
        max_cols: 0,
        in_cell: false,
        cell_col: 1,
        cell_type: Seq::empty(),
        capturing: false,
        cell_raw: Seq::empty(),
    }
}

/// Feeding `evs` in turn to a fresh writer: its state and the lines it emitted;
/// the message of the first captured text that does not unescape; or nothing when
/// an event names a column beyond a `usize`.
pub open spec fn sheet_run(evs: Seq<XmlEventView>, shared: Seq<Seq<char>>) -> Option<Result<(SheetView, Seq<Seq<char>>), Seq<char>>>
    decreases evs.len(),
{
    if evs.len() == 0 {
        Some(Ok((initial_sheet(), Seq::empty())))
    } else {
        match sheet_run(evs.drop_last(), shared) {
            Some(Ok((v, lines))) => if !event_refs_fit(evs.last()) {
                None
            } else {
                match sheet_step(v, evs.last(), shared) {
                    Ok((next, line)) => Some(Ok((next, match line {
                        Some(l) => lines.push(l),
                        None => lines,
                    }))),
                    Err(m) => Some(Err(m)),
                }
            },
            other => other,
        }
    }
}

/// `res` reports the outcome `run`: the lines, rows and widest row; the failure
/// message; or nothing.
pub open spec fn sheet_outcome(res: Option<Result<(Vec<String>, usize, usize), String>>, run: Option<Result<(SheetView, Seq<Seq<char>>), Seq<char>>>) -> bool {
    match run {
        None => res is None,
        Some(Err(m)) => res is Some && res->0 is Err && res->0->Err_0@ == m,
        Some(Ok((v, lines))) => res is Some && res->0 is Ok && string_texts(res->0->Ok_0.0@) == lines
            && res->0->Ok_0.1 == v.rows && res->0->Ok_0.2 == v.max_cols,
    }
}

proof fn lemma_sheet_run_rows(evs: Seq<XmlEventView>, shared: Seq<Seq<char>>)
    ensures
        sheet_run(evs, shared) matches Some(Ok((v, _))) ==> v.rows <= evs.len(),
    decreases evs.len(),
{
    if evs.len() > 0 {
        lemma_sheet_run_rows(evs.drop_last(), shared);
    }
}

/// `res` is what `sheet_csv_lines` gives for the worksheet part `xml`.
pub open spec fn sheet_csv_outcome(res: Option<Result<(Vec<String>, usize, usize), String>>, xml: Seq<char>, shared: Seq<Seq<char>>) -> bool {
    match xml_event_seq(xml) {
        Err(m) => res is Some && res->0 is Err && res->0->Err_0@ == m,
        Ok(evs) => sheet_outcome(res, sheet_run(evs, shared)),
    }
}

/// The CSV lines of a worksheet part: its XML read as events and fed in turn to a `SheetCsvWriter`, with the rows written and the widest row.
/// Fails with the reader's message, or with that of a cell text that does not
/// unescape; `None` when a cell reference names a column beyond a `usize`.
pub fn sheet_csv_lines(xml: &str, shared: &Vec<String>) -> (res: Option<Result<(Vec<String>, usize, usize), String>>)
    ensures
        sheet_csv_outcome(res, xml@, string_texts(shared@)),
{
    let events = match xml_events(xml) {
        Ok(v) => v,
        Err(m) => return Some(Err(m)),
    };
    let ghost evs = event_views(events@);
    let ghost sh = string_texts(shared@);
    let mut writer = SheetCsvWriter::new();
    let mut lines: Vec<String> = Vec::new();
    let mut i: usize = 0;
    proof {
        assert(evs.take(0) =~= Seq::<XmlEventView>::empty());
        assert(string_texts(lines@) =~= Seq::<Seq<char>>::empty());
    }
    while i < events.len()
        invariant
            xml_event_seq(xml@) == Ok::<Seq<XmlEventView>, Seq<char>>(evs),
            i <= events@.len(),
            evs == event_views(events@),
            sh == string_texts(shared@),
            sheet_run(evs.take(i as int), sh) == Some(Ok::<_, Seq<char>>((writer@, string_texts(lines@)))),
        decreases events@.len() - i,
    {
        proof {
            assert(evs.take(i + 1).drop_last() =~= evs.take(i as int));
            assert(evs.take(i + 1).last() == event_view(events@[i as int]));
            lemma_sheet_run_rows(evs.take(i as int), sh);
        }
        if !event_refs_fit_check(&events[i]) {
            proof {
                assert(sheet_run(evs.take(i + 1), sh) is None);
                lemma_run_stops(evs, sh, i + 1);
            }
            return None;
        }
        let ghost before = lines@;
        match writer.on_event(&events[i], shared) {
            Ok(Some(l)) => {
                lines.push(l);
                proof {
                    assert(string_texts(lines@) =~= string_texts(before).push(lines@.last()@));
                }
            },
            Ok(None) => {},
            Err(m) => {
                proof {
                    assert(sheet_run(evs.take(i + 1), sh) == Some(Err::<(SheetView, Seq<Seq<char>>), Seq<char>>(m@)));
                    lemma_run_stops(evs, sh, i + 1);
                }
                return Some(Err(m));
            },
        }
        i += 1;
    }
    proof {
        assert(evs.take(i as int) =~= evs);
    }
    let (rows, cols) = writer.stats();
    Some(Ok((lines, rows, cols)))
}

proof fn lemma_run_stops(evs: Seq<XmlEventView>, sh: Seq<Seq<char>>, k: int)
    requires
        0 <= k <= evs.len(),
        !(sheet_run(evs.take(k), sh) matches Some(Ok(_))),
    ensures
        sheet_run(evs, sh) == sheet_run(evs.take(k), sh),
    decreases evs.len() - k,
{
    if k < evs.len() {
        assert(evs.take(k + 1).drop_last() =~= evs.take(k));
        lemma_run_stops(evs, sh, k + 1);
    } else {
        assert(evs.take(k) =~= evs);
    }
}

/// Feeding `evs` in turn to a fresh shared-strings reader: its final state, or the
/// message of the first collected text that does not unescape.
pub open spec fn shared_run(evs: Seq<XmlEventView>) -> Result<SharedView, Seq<char>>
    decreases evs.len(),
{
    if evs.len() == 0 {
        Ok(SharedView { strings: Seq::empty(), in_si: false, in_t: false, current: Seq::empty() })
    } else {
        match shared_run(evs.drop_last()) {
            Ok(v) => shared_step(v, evs.last()),
            Err(m) => Err(m),
        }
    }
}

proof fn lemma_shared_run_stops(evs: Seq<XmlEventView>, k: int)
    requires
        0 <= k <= evs.len(),
        shared_run(evs.take(k)) is Err,
    ensures
        shared_run(evs) == shared_run(evs.take(k)),
    decreases evs.len() - k,
{
    if k < evs.len() {
        assert(evs.take(k + 1).drop_last() =~= evs.take(k));
        lemma_shared_run_stops(evs, k + 1);
    } else {
        assert(evs.take(k) =~= evs);
    }
}

/// `res` is what `shared_strings_from_xml` gives for `xml`.
pub open spec fn shared_strings_outcome(res: Result<Vec<String>, String>, xml: Seq<char>) -> bool {
    match xml_event_seq(xml) {
        Err(m) => res is Err && res->Err_0@ == m,
        Ok(evs) => match shared_run(evs) {
            Ok(v) => res is Ok && string_texts(res->Ok_0@) == v.strings,
            Err(m) => res is Err && res->Err_0@ == m,
        },
    }
}

/// A workbook's shared strings: `sharedStrings.xml` read as events and fed in turn to a `SharedStringsReader`. Fails with the reader's
/// message, or with that of a collected text that does not unescape.
pub fn shared_strings_from_xml(xml: &str) -> (res: Result<Vec<String>, String>)
    ensures
        shared_strings_outcome(res, xml@),
{
    let events = match xml_events(xml) {
        Ok(v) => v,
        Err(m) => return Err(m),
    };
    let ghost evs = event_views(events@);
    let mut reader = SharedStringsReader::new();
    let mut i: usize = 0;
    proof {
        assert(evs.take(0) =~= Seq::<XmlEventView>::empty());
    }
    while i < events.len()
        invariant
            xml_event_seq(xml@) == Ok::<Seq<XmlEventView>, Seq<char>>(evs),
            i <= events@.len(),
            evs == event_views(events@),
            shared_run(evs.take(i as int)) == Ok::<SharedView, Seq<char>>(reader@),
        decreases events@.len() - i,
    {
        proof {
            assert(evs.take(i + 1).drop_last() =~= evs.take(i as int));
            assert(evs.take(i + 1).last() == event_view(events@[i as int]));
        }
        match reader.on_event(&events[i]) {
            Ok(()) => {},
            Err(m) => {
                proof {
                    lemma_shared_run_stops(evs, i + 1);
                }
                return Err(m);
            },
        }
        i += 1;
    }
    proof {
        assert(evs.take(i as int) =~= evs);
    }
    Ok(reader.into_strings())
}

/// The attributes of every element named `name` (opening or self-closing tags),
/// in document order.
pub open spec fn elements_named(evs: Seq<XmlEventView>, name: Seq<char>) -> Seq<Seq<(Seq<char>, Seq<char>)>>
    decreases evs.len(),
{
    if evs.len() == 0 {
        Seq::empty()
    } else {
        let prev = elements_named(evs.drop_last(), name);
        match evs.last() {
            XmlEventView::Start { name: n, attribute_text } => if n == name {
                prev.push(tag_attrs(attribute_text))
            } else {
                prev
            },
            XmlEventView::Empty { name: n, attribute_text } => if n == name {
                prev.push(tag_attrs(attribute_text))
            } else {
                prev
            },
            _ => prev,
        }
    }
}

/// The attributes of every element of `events` named `name`.
fn collect_elements(events: &Vec<XmlEvent>, name: &str) -> (res: Vec<Vec<(String, String)>>)
    ensures
        element_views(res@) == elements_named(event_views(events@), name@),
{
    let ghost evs = event_views(events@);
    let mut out: Vec<Vec<(String, String)>> = Vec::new();
    let mut i: usize = 0;
    proof {
        assert(evs.take(0) =~= Seq::<XmlEventView>::empty());
        assert(element_views(out@) =~= Seq::<Seq<(Seq<char>, Seq<char>)>>::empty());
    }
    while i < events.len()
        invariant
            i <= events@.len(),
            evs == event_views(events@),
            element_views(out@) == elements_named(evs.take(i as int), name@),
        decreases events@.len() - i,
    {
        proof {
            assert(evs.take(i + 1).drop_last() =~= evs.take(i as int));
            assert(evs.take(i + 1).last() == event_view(events@[i as int]));
        }
        let ghost before = out@;
        match &events[i] {
            XmlEvent::Start(n, attribute_text) => {
                if text_is(n, name) {
                    out.push(tag_attributes(attribute_text.as_str()));
                    proof {
                        assert(element_views(out@) =~= element_views(before).push(tag_attrs(attribute_text@)));
                    }
                }
            },
            XmlEvent::Empty(n, attribute_text) => {
                if text_is(n, name) {
                    out.push(tag_attributes(attribute_text.as_str()));
                    proof {
                        assert(element_views(out@) =~= element_views(before).push(tag_attrs(attribute_text@)));
                    }
                }
            },
            _ => {},
        }
        i += 1;
    }
    proof {
        assert(evs.take(i as int) =~= evs);
    }
    out
}

/// `res` is what `sheet_specs_from_xml` gives for the two parts.
pub open spec fn sheet_specs_outcome(res: Result<Vec<SheetSpec>, String>, workbook_xml: Seq<char>, rels_xml: Seq<char>) -> bool {
    match xml_event_seq(rels_xml) {
        Err(m) => res is Err && res->Err_0@ == m,
        Ok(r) => match xml_event_seq(workbook_xml) {
            Err(m) => res is Err && res->Err_0@ == m,
            Ok(w) => res is Ok && sheet_spec_views(res->Ok_0@) == sheets_of(
                elements_named(r, "Relationship"@),
                elements_named(w, "sheet"@),
            ),
        },
    }
}

/// The worksheets of a workbook from its `workbook.xml` and the relationships part
/// `workbook.xml.rels`, both read as events (the relationships first; only their
/// tags matter, so text trimming makes no difference): `resolve_sheet_specs` of their `Relationship` and `sheet` elements.
/// Fails with the reader's message.
pub fn sheet_specs_from_xml(workbook_xml: &str, rels_xml: &str) -> (res: Result<Vec<SheetSpec>, String>)
    ensures
        sheet_specs_outcome(res, workbook_xml@, rels_xml@),
{
    let rels_events = match xml_events(rels_xml) {
        Ok(v) => v,
        Err(m) => return Err(m),
    };
    let workbook_events = match xml_events(workbook_xml) {
        Ok(v) => v,
        Err(m) => return Err(m),
    };
    let relationships = collect_elements(&rels_events, "Relationship");
    let sheets = collect_elements(&workbook_events, "sheet");
    Ok(resolve_sheet_specs(&relationships, &sheets))
}

/// The text of entry `name` of the zip archive held in `archive`, or the error's
/// message.
pub uninterp spec fn zip_entry_text(archive: Seq<u8>, name: Seq<char>) -> Result<Seq<char>, Seq<char>>;

/// `zip::ZipArchive::new` over the bytes, `by_name(name)` and `read_to_string`:
/// claimed to return `zip_entry_text(archive, name)`.
#[verifier::external_body]
pub(crate) fn zip_entry(archive: &[u8], name: &str) -> (res: Result<String, String>)
    ensures
        match res {
            Ok(t) => zip_entry_text(archive@, name@) == Ok::<Seq<char>, Seq<char>>(t@),
            Err(m) => zip_entry_text(archive@, name@) == Err::<Seq<char>, Seq<char>>(m@),
        },
{
    let mut zip = ZipArchive::new(Cursor::new(archive)).map_err(|e| e.to_string())?;
    let mut entry = zip.by_name(name).map_err(|e| e.to_string())?;
    let mut text = String::new();
    entry.read_to_string(&mut text).map_err(|e| e.to_string())?;
    Ok(text)
}

/// The shared strings of the workbook whose XLSX bytes are `xlsx`: none when it has
/// no readable `xl/sharedStrings.xml`.
pub fn workbook_shared_strings(xlsx: &[u8]) -> (res: Result<Vec<String>, String>)
    ensures
        match zip_entry_text(xlsx@, "xl/sharedStrings.xml"@) {
            Err(_) => res is Ok && res->Ok_0@.len() == 0,
            Ok(xml) => shared_strings_outcome(res, xml),
        },
{
    match zip_entry(xlsx, "xl/sharedStrings.xml") {
        Ok(xml) => shared_strings_from_xml(xml.as_str()),
        Err(_) => Ok(Vec::new()),
    }
}

/// The worksheets of the workbook whose XLSX bytes are `xlsx`, from
/// `xl/workbook.xml` and `xl/_rels/workbook.xml.rels` (read in that order).
pub fn workbook_sheet_specs(xlsx: &[u8]) -> (res: Result<Vec<SheetSpec>, String>)
    ensures
        match zip_entry_text(xlsx@, "xl/workbook.xml"@) {
            Err(m) => res is Err && res->Err_0@ == m,
            Ok(w) => match zip_entry_text(xlsx@, "xl/_rels/workbook.xml.rels"@) {
                Err(m) => res is Err && res->Err_0@ == m,
                Ok(r) => sheet_specs_outcome(res, w, r),
            },
        },
{
    let workbook_xml = match zip_entry(xlsx, "xl/workbook.xml") {
        Ok(t) => t,
        Err(m) => return Err(m),
    };
    let rels_xml = match zip_entry(xlsx, "xl/_rels/workbook.xml.rels") {
        Ok(t) => t,
        Err(m) => return Err(m),
    };
    sheet_specs_from_xml(workbook_xml.as_str(), rels_xml.as_str())
}

/// The CSV lines, rows and widest row of the worksheet at `sheet_path` in the
/// workbook whose XLSX bytes are `xlsx`.
pub fn workbook_sheet_csv(xlsx: &[u8], sheet_path: &str, shared: &Vec<String>) -> (res: Option<Result<(Vec<String>, usize, usize), String>>)
    ensures
        match zip_entry_text(xlsx@, sheet_path@) {
            Err(m) => res is Some && res->0 is Err && res->0->Err_0@ == m,
            Ok(xml) => sheet_csv_outcome(res, xml, string_texts(shared@)),
        },
{
    match zip_entry(xlsx, sheet_path) {
        Ok(xml) => sheet_csv_lines(xml.as_str(), shared),
        Err(m) => Some(Err(m)),
    }
}

/// A workbook entry name: it ends with `.xlsx`, ignoring ASCII case.
pub open spec fn is_workbook_name(n: Seq<char>) -> bool {
    let l = crate::text::ascii_lower(n);
    l.len() >= 5 && l.subrange(l.len() - 5, l.len() as int) == ".xlsx"@
}

fn ends_with_xlsx(name: &String) -> (res: bool)
    ensures
        res == is_workbook_name(name@),
{
    let lower = crate::text::to_ascii_lower(name.as_str());
    let chars = str_chars(lower.as_str());
    let suffix = str_chars(".xlsx");
    let n = chars.len();
    if n < 5 {
        return false;
    }
    let mut i: usize = 0;
    while i < 5
        invariant
            chars@ == crate::text::ascii_lower(name@),
            suffix@ == ".xlsx"@,
            n == chars@.len(),
            n >= 5,
            i <= 5,
            forall|j: int| 0 <= j < i ==> chars@[n - 5 + j] == suffix@[j],
        decreases 5 - i,
    {
        proof {
            reveal_strlit(".xlsx");
        }
        if chars[n - 5 + i] != suffix[i] {
            proof {
                reveal_strlit(".xlsx");
                assert(chars@.subrange(n - 5, n as int)[i as int] != ".xlsx"@[i as int]);
            }
            return false;
        }
        i += 1;
    }
    proof {
        reveal_strlit(".xlsx");
        assert(chars@.subrange(n - 5, n as int) =~= ".xlsx"@);
    }
    true
}

/// The first, in the order of `String`, of the workbook names among `names`
/// (the earliest of equal ones); none when there is none.
pub open spec fn workbook_pick(names: Seq<Seq<char>>) -> Option<Seq<char>>
    decreases names.len(),
{
    if names.len() == 0 {
        None
    } else {
        let prev = workbook_pick(names.drop_last());
        let x = names.last();
        if !is_workbook_name(x) {
            prev
        } else {
            match prev {
                None => Some(x),
                Some(p) => if text_order(x, p) < 0 {
                    Some(x)
                } else {
                    Some(p)
                },
            }
        }
    }
}

/// The workbook entry of an archive: the first, in the order of `String`, of the
/// entry names that end with `.xlsx` (ignoring ASCII case); none when there is none.
pub fn pick_workbook_entry(names: &Vec<String>) -> (res: Option<String>)
    ensures
        match res {
            None => workbook_pick(string_texts(names@)) is None,
            Some(p) => workbook_pick(string_texts(names@)) == Some(p@),
        },
        match res {
            None => forall|i: int| 0 <= i < names@.len() ==> !is_workbook_name(#[trigger] names@[i]@),
            Some(p) => is_workbook_name(p@) && (exists|i: int| 0 <= i < names@.len() && names@[i]@ == p@)
                && forall|j: int|
                0 <= j < names@.len() && is_workbook_name(#[trigger] names@[j]@) ==> text_order(p@, names@[j]@) <= 0,
        },
{
    let mut best: Option<usize> = None;
    let mut i: usize = 0;
    while i < names.len()
        invariant
            i <= names@.len(),
            match best {
                None => forall|j: int| 0 <= j < i ==> !is_workbook_name(#[trigger] names@[j]@),
                Some(b) => b < i && is_workbook_name(names@[b as int]@) && forall|j: int|
                    0 <= j < i && is_workbook_name(#[trigger] names@[j]@) ==> text_order(names@[b as int]@, names@[j]@) <= 0,
            },
            match best {
                None => workbook_pick(string_texts(names@).take(i as int)) is None,
                Some(b) => workbook_pick(string_texts(names@).take(i as int)) == Some(names@[b as int]@),
            },
        decreases names@.len() - i,
    {
        proof {
            assert(string_texts(names@).take(i + 1).drop_last() =~= string_texts(names@).take(i as int));
            assert(string_texts(names@).take(i + 1).last() == names@[i as int]@);
        }
        if ends_with_xlsx(&names[i]) {
            match best {
                None => {
                    proof {
                        lemma_text_order_zero(names@[i as int]@, names@[i as int]@);
                    }
                    best = Some(i);
                },
                Some(b) => {
                    let c = text_order_of(&str_chars(names[i].as_str()), &str_chars(names[b].as_str()));
                    proof {
                        lemma_text_order_antisym(names@[i as int]@, names@[b as int]@);
                    }
                    if c < 0 {
                        proof {
                            assert forall|j: int| 0 <= j < i + 1 && is_workbook_name(#[trigger] names@[j]@) implies
                                text_order(names@[i as int]@, names@[j]@) <= 0 by {
                                if j < i {
                                    lemma_text_order_trans(names@[i as int]@, names@[b as int]@, names@[j]@);
                                } else {
                                    lemma_text_order_zero(names@[i as int]@, names@[i as int]@);
                                }
                            }
                        }
                        best = Some(i);
                    }
                },
            }
        }
        i += 1;
    }
    proof {
        assert(string_texts(names@).take(i as int) =~= string_texts(names@));
    }
    match best {
        None => None,
        Some(b) => Some(names[b].clone()),
    }
}

/// The names of the entries of the zip archive held in `archive`, in archive
/// order, or the error's message.
pub uninterp spec fn zip_entry_names_of(archive: Seq<u8>) -> Result<Seq<Seq<char>>, Seq<char>>;

/// `zip::ZipArchive::new` over the bytes, then the name of each entry by index
/// (entries whose record or name cannot be read are skipped): claimed to return
/// `zip_entry_names_of(archive)`.
#[verifier::external_body]
pub(crate) fn zip_entry_names(archive: &[u8]) -> (res: Result<Vec<String>, String>)
    ensures
        match res {
            Ok(v) => zip_entry_names_of(archive@) == Ok::<Seq<Seq<char>>, Seq<char>>(string_texts(v@)),
            Err(m) => zip_entry_names_of(archive@) == Err::<Seq<Seq<char>>, Seq<char>>(m@),
        },
{
    let mut zip = ZipArchive::new(Cursor::new(archive)).map_err(|e| e.to_string())?;
    let mut names = Vec::new();
    for i in 0..zip.len() {
        if let Ok(Ok(name)) = zip.by_index(i).map(|f| f.name().map(|n| n.to_string())) {
            names.push(name);
        }
    }
    Ok(names)
}

/// The bytes of entry `name` of the zip archive held in `archive`, or the error's
/// message.
pub uninterp spec fn zip_entry_data(archive: Seq<u8>, name: Seq<char>) -> Result<Seq<u8>, Seq<char>>;

/// `zip::ZipArchive::new` over the bytes, `by_name(name)` and `read_to_end`:
/// claimed to return `zip_entry_data(archive, name)`.
#[verifier::external_body]
pub(crate) fn zip_entry_bytes(archive: &[u8], name: &str) -> (res: Result<Vec<u8>, String>)
    ensures
        match res {
            Ok(d) => zip_entry_data(archive@, name@) == Ok::<Seq<u8>, Seq<char>>(d@),
            Err(m) => zip_entry_data(archive@, name@) == Err::<Seq<u8>, Seq<char>>(m@),
        },
{
    let mut zip = ZipArchive::new(Cursor::new(archive)).map_err(|e| e.to_string())?;
    let mut entry = zip.by_name(name).map_err(|e| e.to_string())?;
    let mut data = Vec::new();
    entry.read_to_end(&mut data).map_err(|e| e.to_string())?;
    Ok(data)
}

/// The message when an archive holds no workbook.
pub open spec fn no_workbook_message() -> Seq<char> {
    "No .xlsx entry found in backcast archive"@
}

/// The workbook of a backcast archive held in `archive`: the name of the entry
/// that `pick_workbook_entry` picks among the archive's entry names, and its bytes.
/// Fails with the archive's error, with `no_workbook_message` when no entry is a
/// workbook, or with the error of reading the picked entry.
pub fn archive_workbook(archive: &[u8]) -> (res: Result<(String, Vec<u8>), String>)
    ensures
        match zip_entry_names_of(archive@) {
            Err(m) => res is Err && res->Err_0@ == m,
            Ok(names) => match workbook_pick(names) {
                None => res is Err && res->Err_0@ == no_workbook_message(),
                Some(p) => match zip_entry_data(archive@, p) {
                    Ok(d) => res is Ok && res->Ok_0.0@ == p && res->Ok_0.1@ == d,
                    Err(m) => res is Err && res->Err_0@ == m,
                },
            },
        },
{
    let names = match zip_entry_names(archive) {
        Ok(v) => v,
        Err(m) => return Err(m),
    };
    let pick = match pick_workbook_entry(&names) {
        Some(p) => p,
        None => return Err(String::from_str("No .xlsx entry found in backcast archive")),
    };
    match zip_entry_bytes(archive, pick.as_str()) {
        Ok(data) => Ok((pick, data)),
        Err(m) => Err(m),
    }
}

/// A number written with at least two digits (`07`, `12`, `123`).
pub open spec fn two_digit_text(n: nat) -> Seq<char> {
    if n < 10 {
        "0"@ + crate::text::decimal(n)
    } else {
        crate::text::decimal(n)
    }
}

/// The CSV file name of the worksheet at 1-based `position` named `sheet_name`:
/// the position in at least two digits, an underscore, the sanitized name, `.csv`.
pub fn sheet_csv_file_name(position: usize, sheet_name: &str) -> (res: String)
    ensures
        res@ == two_digit_text(position as nat) + "_"@ + (if sheet_name@.len() == 0 {
            "sheet"@
        } else {
            sanitized(sheet_name@)
        }) + ".csv"@,
{
    let mut out = String::new();
    if position < 10 {
        push_str(&mut out, "0");
    }
    crate::text::push_decimal(&mut out, position as u128);
    push_str(&mut out, "_");
    let name = sanitize_name(sheet_name);
    push_str(&mut out, name.as_str());
    push_str(&mut out, ".csv");
    proof {
        assert(out@ =~= two_digit_text(position as nat) + "_"@ + (if sheet_name@.len() == 0 {
            "sheet"@
        } else {
            sanitized(sheet_name@)
        }) + ".csv"@);
    }
    out
}

} // verus!
