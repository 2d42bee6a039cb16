//! Event lines: decoding, trimming, splitting into `>>`-separated fields, and
//! recognising the two monitor events.
use vstd::prelude::*;
use vstd::string::StrSliceExecFns;
use vstd::string::StringExecFns;

verus! {

/// Characters with Unicode's White_Space property.
pub open spec fn is_white_space(c: char) -> bool {
    ||| '\u{9}' <= c <= '\u{d}'
    ||| c == ' '
    ||| c == '\u{85}'
    ||| c == '\u{a0}'
    ||| c == '\u{1680}'
    ||| '\u{2000}' <= c <= '\u{200a}'
    ||| c == '\u{2028}'
    ||| c == '\u{2029}'
    ||| c == '\u{202f}'
    ||| c == '\u{205f}'
    ||| c == '\u{3000}'
}

/// `s` without its leading white space.
pub open spec fn trim_start(s: Seq<char>) -> Seq<char>
    decreases s.len(),
{
    if s.len() > 0 && is_white_space(s[0]) {
        trim_start(s.drop_first())
    } else {
        s
    }
}

/// `s` without its trailing white space.
pub open spec fn trim_end(s: Seq<char>) -> Seq<char>
    decreases s.len(),
{
    if s.len() > 0 && is_white_space(s.last()) {
        trim_end(s.drop_last())
    } else {
        s
    }
}

/// `s` without white space at either end.
pub open spec fn trimmed(s: Seq<char>) -> Seq<char> {
    trim_end(trim_start(s))
}

/// The text that bytes decode to as UTF-8, each invalid sequence replaced by U+FFFD.
pub uninterp spec fn lossy_utf8(b: Seq<u8>) -> Seq<char>;

/// Relies on `String::from_utf8_lossy`: decodes UTF-8, replacing what is invalid,
/// as a function of the bytes alone.
#[verifier::external_body]
fn decode_lossy(b: &[u8]) -> (r: String)
    ensures
        r@ == lossy_utf8(b@),
{
    String::from_utf8_lossy(b).into_owned()
}

/// Relies on `str::trim`: removes leading and trailing characters that have the
/// White_Space property, and nothing else.
#[verifier::external_body]
fn trim_white_space(s: &str) -> (r: &str)
    ensures
        r@ == trimmed(s@),
{
    s.trim()
}


/// Whether the two-character separator `>>` starts at position `i` of `s`.
pub open spec fn separator_at(s: Seq<char>, i: int) -> bool {
    0 <= i && i + 1 < s.len() && s[i] == '>' && s[i + 1] == '>'
}

/// The fields of `s` between the separators `>>`, found from the left: a
/// separator ends the field that it follows, and `s` has one field more than
/// separators.
pub open spec fn fields(s: Seq<char>) -> Seq<Seq<char>>
    decreases s.len(),
{
    if s.len() == 0 {
        seq![Seq::empty()]
    } else if separator_at(s, 0) {
        seq![Seq::empty()] + fields(s.subrange(2, s.len() as int))
    } else {
        let rest = fields(s.drop_first());
        rest.update(0, seq![s[0]] + rest[0])
    }
}

/// Every text has at least one field.
pub proof fn lemma_fields_not_empty(s: Seq<char>)
    ensures
        fields(s).len() >= 1,
    decreases s.len(),
{
    if s.len() > 0 && !separator_at(s, 0) {
        lemma_fields_not_empty(s.drop_first());
    }
}

/// The fields of a text, read from position `i` on, when the field in progress
/// began at `start`.
spec fn fields_from(s: Seq<char>, start: int, i: int) -> Seq<Seq<char>> {
    let rest = fields(s.subrange(i, s.len() as int));
    rest.update(0, s.subrange(start, i) + rest[0])
}

proof fn lemma_fields_advance(s: Seq<char>, start: int, i: int)
    requires
        0 <= start <= i < s.len(),
    ensures
        separator_at(s, i) ==> fields_from(s, start, i) == seq![s.subrange(start, i)]
            + fields(s.subrange(i + 2, s.len() as int)),
        !separator_at(s, i) ==> fields_from(s, start, i) == fields_from(s, start, i + 1),
{
    let t = s.subrange(i, s.len() as int);
    lemma_fields_not_empty(t);
    if separator_at(s, i) {
        assert(separator_at(t, 0));
        assert(t.subrange(2, t.len() as int) =~= s.subrange(i + 2, s.len() as int));
        lemma_fields_not_empty(s.subrange(i + 2, s.len() as int));
        assert(s.subrange(start, i) + Seq::<char>::empty() =~= s.subrange(start, i));
        assert(fields_from(s, start, i) =~= seq![s.subrange(start, i)] + fields(
            s.subrange(i + 2, s.len() as int),
        ));
    } else {
        assert(!separator_at(t, 0));
        assert(t.drop_first() =~= s.subrange(i + 1, s.len() as int));
        lemma_fields_not_empty(t.drop_first());
        assert(s.subrange(start, i) + (seq![s[i]] + fields(t.drop_first())[0]) =~= s.subrange(
            start,
            i + 1,
        ) + fields(t.drop_first())[0]);
        assert(fields_from(s, start, i) =~= fields_from(s, start, i + 1));
    }
}

/// The characters of `s`, one per element.
fn chars_of(s: &str) -> (r: Vec<char>)
    ensures
        r@ == s@,
{
    let mut r: Vec<char> = Vec::new();
    for c in it: s.chars()
        invariant
            it.seq() == s@,
            r@ == it.seq().take(it.index() as int),
    {
        r.push(c);
    }
    assert(r@ =~= s@);
    r
}

/// Splits `line` at each `>>`, from the left.
pub fn split_fields(line: &str) -> (r: Vec<String>)
    ensures
        r@.map_values(|f: String| f@) == fields(line@),
{
    let chars = chars_of(line);
    let n = chars.len();
    let mut parts: Vec<String> = Vec::new();
    let mut start: usize = 0;
    let mut i: usize = 0;
    proof {
        lemma_fields_not_empty(line@);
        assert(line@.subrange(0, line@.len() as int) =~= line@);
        assert(Seq::<char>::empty() + fields(line@)[0] =~= fields(line@)[0]);
        assert(fields_from(line@, 0, 0) =~= fields(line@));
        assert(parts@.map_values(|f: String| f@) + fields(line@) =~= fields(line@));
    }
    while i < n
        invariant
            chars@ == line@,
            n == line@.len(),
            start <= i <= n,
            parts@.map_values(|f: String| f@) + fields_from(line@, start as int, i as int) == fields(
                line@,
            ),
        decreases n - i,
    {
        proof {
            lemma_fields_advance(line@, start as int, i as int);
        }
        if i + 1 < n && chars[i] == '>' && chars[i + 1] == '>' {
            let part = String::from_str(line.substring_char(start, i));
            let ghost before = parts@.map_values(|f: String| f@);
            parts.push(part);
            proof {
                let t = line@.subrange(i + 2, line@.len() as int);
                lemma_fields_not_empty(t);
                assert(line@.subrange(i + 2, i + 2) + fields(t)[0] =~= fields(t)[0]);
                assert(fields_from(line@, i + 2, i + 2) =~= fields(t));
                assert(parts@.map_values(|f: String| f@) =~= before.push(part@));
                assert(before.push(part@) + fields(t) =~= before + (seq![part@] + fields(t)));
            }
            start = i + 2;
            i = i + 2;
        } else {
            i = i + 1;
        }
    }
    let last = String::from_str(line.substring_char(start, n));
    let ghost before = parts@.map_values(|f: String| f@);
    parts.push(last);
    proof {
        let t = line@.subrange(n as int, n as int);
        assert(t =~= Seq::<char>::empty());
        assert(fields(t) == seq![Seq::<char>::empty()]);
        assert(line@.subrange(start as int, n as int) + Seq::<char>::empty() =~= last@);
        assert(fields_from(line@, start as int, n as int) =~= seq![last@]);
        assert(parts@.map_values(|f: String| f@) =~= before.push(last@));
    }
    parts
}


/// What an event line asks for, as text.
pub enum EventView {
    Attached(Seq<char>),
    Detached(Seq<char>),
    Ignored,
}

/// A decoded event line: a monitor that was attached or detached, named as the
/// compositor names it, or a line that calls for nothing.
#[derive(Debug, Clone, PartialEq, Eq)]
pub enum Event {
    Attached(String),
    Detached(String),
    Ignored,
}

impl View for Event {
    type V = EventView;

    open spec fn view(&self) -> EventView {
        match self {
            Event::Attached(m) => EventView::Attached(m@),
            Event::Detached(m) => EventView::Detached(m@),
            Event::Ignored => EventView::Ignored,
        }
    }
}

/// The tag of an attach event.
pub open spec fn attached_tag() -> Seq<char> {
    "monitoradded"@
}

/// The tag of a detach event.
pub open spec fn detached_tag() -> Seq<char> {
    "monitorremoved"@
}

/// The event that the text of a line stands for: white space at both ends is
/// dropped, the first field is the tag and the second the monitor's name. A line
/// with another tag, or with no second field, calls for nothing.
pub open spec fn event_of(text: Seq<char>) -> EventView {
    let f = fields(trimmed(text));
    if f.len() >= 2 && f[0] == attached_tag() {
        EventView::Attached(f[1])
    } else if f.len() >= 2 && f[0] == detached_tag() {
        EventView::Detached(f[1])
    } else {
        EventView::Ignored
    }
}

/// Reads the event in the text of one line.
pub fn parse_event(text: &str) -> (e: Event)
    ensures
        e@ == event_of(text@),
{
    let line = trim_white_space(text);
    let parts = split_fields(line);
    proof {
        assert(parts@.map_values(|f: String| f@).len() == parts@.len());
    }
    if parts.len() < 2 {
        return Event::Ignored;
    }
    proof {
        assert(parts@.map_values(|f: String| f@)[0] == parts@[0]@);
        assert(parts@.map_values(|f: String| f@)[1] == parts@[1]@);
    }
    if parts[0] == String::from_str("monitoradded") {
        Event::Attached(parts[1].clone())
    } else if parts[0] == String::from_str("monitorremoved") {
        Event::Detached(parts[1].clone())
    } else {
        Event::Ignored
    }
}

/// Reads the event in the bytes of one line, as received from the socket.
pub fn decode_event(bytes: &[u8]) -> (e: Event)
    ensures
        e@ == event_of(lossy_utf8(bytes@)),
{
    let text = decode_lossy(bytes);
    parse_event(text.as_str())
}

} // verus!
