//! The two framings of a response body: a JSON document as it stands, or an
//! event-stream message whose `data:` line carries the document.
use crate::json::{parse_json, parsed, Json};
use crate::text::{has_prefix, starts_with};
use vstd::prelude::*;
use vstd::string::*;

verus! {

/// White space as Unicode's White_Space property lists it.
pub open spec fn is_space(c: char) -> bool {
    let u = c as u32;
    (0x9 <= u <= 0xd) || u == 0x20 || u == 0x85 || u == 0xa0 || u == 0x1680 || (0x2000 <= u
        <= 0x200a) || u == 0x2028 || u == 0x2029 || u == 0x202f || u == 0x205f || u == 0x3000
}

pub open spec fn trim_start(s: Seq<char>) -> Seq<char>
    decreases s.len(),
{
    if s.len() > 0 && is_space(s[0]) {
        trim_start(s.drop_first())
    } else {
        s
    }
}

pub open spec fn trim_end(s: Seq<char>) -> Seq<char>
    decreases s.len(),
{
    if s.len() > 0 && is_space(s.last()) {
        trim_end(s.drop_last())
    } else {
        s
    }
}

/// `s` without its leading and trailing white space.
pub open spec fn trim(s: Seq<char>) -> Seq<char> {
    trim_end(trim_start(s))
}

/// Start of the first line, at or after position `i`, that begins with
/// `data:`; `at_start` tells whether `i` begins a line.
pub open spec fn data_start(s: Seq<char>, i: int, at_start: bool) -> Option<int>
    decreases s.len() - i,
{
    if i < 0 || i >= s.len() {
        None
    } else if at_start && has_prefix(s.subrange(i, s.len() as int), "data:"@) {
        Some(i)
    } else {
        data_start(s, i + 1, s[i] == '\n')
    }
}

/// The end of the line that holds position `i`.
pub open spec fn line_end(s: Seq<char>, i: int) -> int
    decreases s.len() - i,
{
    if i < 0 || i >= s.len() {
        s.len() as int
    } else if s[i] == '\n' {
        i
    } else {
        line_end(s, i + 1)
    }
}

/// The JSON text that a response body carries: behind the first `data:` line
/// where the body opens with `event:`, else the body itself.
pub open spec fn payload(body: Seq<char>) -> Option<Seq<char>> {
    if has_prefix(body, "event:"@) {
        match data_start(body, 0, true) {
            Some(a) => Some(trim(body.subrange(a + 5, line_end(body, a + 5)))),
            None => None,
        }
    } else {
        Some(body)
    }
}

proof fn lemma_skip_line(s: Seq<char>, i: int, j: int)
    requires
        0 <= i <= j <= s.len(),
        forall|k: int| i <= k < j ==> s[k] != '\n',
    ensures
        data_start(s, i, false) == data_start(s, j, false),
    decreases j - i,
{
    if i < j {
        lemma_skip_line(s, i + 1, j);
    }
}

proof fn lemma_line_runs_to(s: Seq<char>, i: int, j: int)
    requires
        0 <= i <= j <= s.len(),
        forall|k: int| i <= k < j ==> s[k] != '\n',
        j == s.len() || s[j] == '\n',
    ensures
        line_end(s, i) == j,
    decreases j - i,
{
    if i < j {
        lemma_line_runs_to(s, i + 1, j);
    }
}

/// An event-stream body (`event:` line, then `data: ` and a JSON text `t`,
/// then nothing or further lines such as the closing blank line) carries
/// exactly `t`, as `t` sent plain does: both framings read as the same
/// document.
pub proof fn lemma_framings_agree(event: Seq<char>, t: Seq<char>, tail: Seq<char>)
    requires
        forall|k: int| 0 <= k < event.len() ==> event[k] != '\n',
        forall|k: int| 0 <= k < t.len() ==> t[k] != '\n',
        tail.len() == 0 || tail[0] == '\n',
        trim(t) == t,
        !has_prefix(t, "event:"@),
    ensures
        payload("event:"@ + event + "\n"@ + "data: "@ + t + tail) == Some(t),
        payload(t) == Some(t),
        document("event:"@ + event + "\n"@ + "data: "@ + t + tail) == document(t),
{
    reveal_strlit("event:");
    reveal_strlit("\n");
    reveal_strlit("data: ");
    reveal_strlit("data:");
    let body = "event:"@ + event + "\n"@ + "data: "@ + t + tail;
    let p: int = 6 + event.len() as int;
    assert(body.subrange(0, 6) =~= "event:"@);
    assert(body[0] == 'e');
    assert(!has_prefix(body.subrange(0, body.len() as int), "data:"@)) by {
        assert(body.subrange(0, body.len() as int).subrange(0, 5)[0] == 'e');
    }
    assert(data_start(body, 0, true) == data_start(body, 1, false));
    assert forall|k: int| 1 <= k < p implies body[k] != '\n' by {
        if k < 6 {
            assert(body[k] == "event:"@[k]);
        } else {
            assert(body[k] == event[k - 6]);
        }
    }
    lemma_skip_line(body, 1, p);
    assert(body[p] == '\n');
    assert(data_start(body, p, false) == data_start(body, p + 1, true));
    assert(body.subrange(p + 1, body.len() as int).subrange(0, 5) =~= "data:"@);
    assert(data_start(body, 0, true) == Some(p + 1));
    let end: int = p + 7 + t.len() as int;
    assert forall|k: int| p + 6 <= k < end implies body[k] != '\n' by {
        if k == p + 6 {
            assert(body[k] == ' ');
        } else {
            assert(body[k] == t[k - p - 7]);
        }
    }
    if end < body.len() {
        assert(body[end] == tail[0]);
    }
    lemma_line_runs_to(body, p + 6, end);
    let line = body.subrange(p + 6, end);
    assert(line =~= seq![' '] + t);
    assert(line.drop_first() =~= t);
    assert(is_space(line[0]));
    assert(trim_start(line) == trim_start(t));
}

/// The document that a response body carries, in either framing.
pub open spec fn document(body: Seq<char>) -> Option<Json> {
    match payload(body) {
        Some(t) => parsed(t),
        None => None,
    }
}

/// How a response body was framed, with the JSON text it carries.
pub enum Framing {
    PlainJson(String),
    SseFramed(String),
}

impl Framing {
    pub open spec fn text(self) -> Seq<char> {
        match self {
            Framing::PlainJson(s) => s@,
            Framing::SseFramed(s) => s@,
        }
    }
}

/// Removes leading and trailing white space.
pub fn trim_text(s: &str) -> (r: String)
    ensures
        r@ == trim(s@),
{
    let n = s.unicode_len();
    let mut a: usize = 0;
    assert(s@.subrange(0, n as int) =~= s@);
    while a < n && is_space_char(s.get_char(a))
        invariant
            n == s@.len(),
            a <= n,
            trim_start(s@) == trim_start(s@.subrange(a as int, n as int)),
        decreases n - a,
    {
        assert(s@.subrange(a as int, n as int).drop_first() =~= s@.subrange(a + 1, n as int));
        a = a + 1;
    }
    proof {
        if a < n {
            assert(s@.subrange(a as int, n as int)[0] == s@[a as int]);
        }
    }
    let mut b: usize = n;
    assert(s@.subrange(a as int, n as int) =~= trim_start(s@));
    while b > a && is_space_char(s.get_char(b - 1))
        invariant
            n == s@.len(),
            a <= b <= n,
            trim_start(s@) == s@.subrange(a as int, n as int),
            trim(s@) == trim_end(s@.subrange(a as int, b as int)),
        decreases b - a,
    {
        assert(s@.subrange(a as int, b as int).drop_last() =~= s@.subrange(a as int, b - 1));
        b = b - 1;
    }
    proof {
        if b > a {
            assert(s@.subrange(a as int, b as int).last() == s@[b - 1]);
        }
    }
    String::from_str(s.substring_char(a, b))
}

/// Start of the first line of `s` that begins with `data:`.
fn find_data_line(s: &str) -> (r: Option<usize>)
    ensures
        match r {
            Some(a) => data_start(s@, 0, true) == Some(a as int) && a + 5 <= s@.len() <= usize::MAX,
            None => data_start(s@, 0, true) is None,
        },
{
    let n = s.unicode_len();
    let mut i: usize = 0;
    let mut at_start = true;
    while i < n
        invariant
            n == s@.len(),
            i <= n,
            data_start(s@, 0, true) == data_start(s@, i as int, at_start),
        decreases n - i,
    {
        if at_start && starts_with(s.substring_char(i, n), "data:") {
            proof {
                reveal_strlit("data:");
            }
            return Some(i);
        }
        at_start = s.get_char(i) == '\n';
        i = i + 1;
    }
    None
}

/// End of the line of `s` that holds position `i`.
fn find_line_end(s: &str, i: usize) -> (r: usize)
    requires
        i <= s@.len(),
    ensures
        r as int == line_end(s@, i as int),
        i <= r <= s@.len(),
{
    let n = s.unicode_len();
    let mut j: usize = i;
    while j < n && s.get_char(j) != '\n'
        invariant
            n == s@.len(),
            i <= j <= n,
            line_end(s@, i as int) == line_end(s@, j as int),
        decreases n - j,
    {
        j = j + 1;
    }
    j
}

/// Tells the framing of a response body apart and takes out its JSON text;
/// `None` for an event-stream body without a `data:` line.
pub fn frame_of(body: &str) -> (r: Option<Framing>)
    ensures
        match r {
            Some(f) => payload(body@) == Some(f.text()) && (f is SseFramed <==> has_prefix(
                body@,
                "event:"@,
            )),
            None => payload(body@) is None,
        },
{
    if starts_with(body, "event:") {
        match find_data_line(body) {
            Some(a) => {
                let e = find_line_end(body, a + 5);
                Some(Framing::SseFramed(trim_text(body.substring_char(a + 5, e))))
            },
            None => None,
        }
    } else {
        Some(Framing::PlainJson(String::from_str(body)))
    }
}

/// Reads the JSON document that a response body carries, in either framing.
pub fn parse_sse_response(body: &str) -> (r: Option<Json>)
    ensures
        r == document(body@),
{
    match frame_of(body) {
        Some(Framing::PlainJson(t)) => parse_json(t.as_str()),
        Some(Framing::SseFramed(t)) => parse_json(t.as_str()),
        None => None,
    }
}

/// Whether `c` is white space.
pub fn is_space_char(c: char) -> (r: bool)
    ensures
        r == is_space(c),
{
    let u = c as u32;
    (0x9 <= u && u <= 0xd) || u == 0x20 || u == 0x85 || u == 0xa0 || u == 0x1680 || (0x2000 <= u
        && u <= 0x200a) || u == 0x2028 || u == 0x2029 || u == 0x202f || u == 0x205f || u == 0x3000
}

} // verus!
