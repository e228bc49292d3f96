//! Framing of click records as single-line JSON text.
//!
//! Each record goes to the append-only log as one line of the fixed
//! shape `{"event_type":"MouseClick","x":X,"y":Y,"timestamp":T}`, where
//! `X`, `Y` and `T` are the decimal texts of the coordinates and the
//! wall-clock instant. Producing those three texts from the encoded
//! values is the number formatter's business, outside this crate; here
//! the texts are checked against the JSON number alphabet and framed,
//! so that every rendered line is a single line and its three fields
//! can be recovered from it exactly.

use vstd::prelude::*;
use vstd::string::StrSliceExecFns;
use vstd::string::StringExecFns;

verus! {

/// A character that can appear in the decimal text of a JSON number:
/// a digit, a sign, the decimal point, or an exponent mark.
pub open spec fn is_number_char(c: char) -> bool {
    ||| ('0' <= c && c <= '9')
    ||| c == '-'
    ||| c == '+'
    ||| c == '.'
    ||| c == 'e'
    ||| c == 'E'
}

/// A non-empty text over the JSON number alphabet. The formatter that
/// produces the text owes it the full JSON number grammar; the frame
/// only needs the alphabet, which already excludes every delimiter of
/// the line (the quote, the comma, the braces, and the line break).
pub open spec fn is_number_text(s: Seq<char>) -> bool {
    s.len() > 0 && (forall|i: int| 0 <= i < s.len() ==> is_number_char(#[trigger] s[i]))
}

/// The one line a click record adds to the log, given the three
/// field texts.
pub open spec fn click_line(x: Seq<char>, y: Seq<char>, t: Seq<char>) -> Seq<char> {
    "{\"event_type\":\"MouseClick\",\"x\":"@ + x + ",\"y\":"@ + y + ",\"timestamp\":"@ + t + "}"@
}

/// Decide whether a text lies within the JSON number alphabet and is
/// non-empty.
pub fn check_number_text(s: &str) -> (b: bool)
    ensures
        b == is_number_text(s@),
{
    let n = s.unicode_len();
    if n == 0 {
        return false;
    }
    let mut i: usize = 0;
    while i < n
        invariant
            0 <= i <= n,
            n == s@.len(),
            forall|j: int| 0 <= j < i ==> is_number_char(#[trigger] s@[j]),
        decreases n - i,
    {
        let c = s.get_char(i);
        if !(('0' <= c && c <= '9') || c == '-' || c == '+' || c == '.' || c == 'e' || c == 'E') {
            assert(!is_number_char(s@[i as int]));
            return false;
        }
        i = i + 1;
    }
    true
}

/// Frame one click record, given the three field texts. The texts are
/// checked first: a text outside the JSON number alphabet (or an empty
/// one) yields `None`, and the record is for the caller to drop, as a
/// failed write would be.
pub fn render_click_line(x_text: &str, y_text: &str, t_text: &str) -> (r: Option<String>)
    ensures
        r is Some <==> (is_number_text(x_text@) && is_number_text(y_text@) && is_number_text(
            t_text@,
        )),
        r matches Some(line) ==> line@ == click_line(x_text@, y_text@, t_text@),
{
    if !check_number_text(x_text) {
        return None;
    }
    if !check_number_text(y_text) {
        return None;
    }
    if !check_number_text(t_text) {
        return None;
    }
    let mut line = String::new();
    line.append("{\"event_type\":\"MouseClick\",\"x\":");
    line.append(x_text);
    line.append(",\"y\":");
    line.append(y_text);
    line.append(",\"timestamp\":");
    line.append(t_text);
    line.append("}");
    proof {
        assert(line@ =~= click_line(x_text@, y_text@, t_text@));
    }
    Some(line)
}

/// A rendered line holds no line break, so appending it, terminated by
/// one, leaves every line already in the log intact and adds exactly
/// one line.
pub proof fn lemma_click_line_single_line(x: Seq<char>, y: Seq<char>, t: Seq<char>)
    requires
        is_number_text(x),
        is_number_text(y),
        is_number_text(t),
    ensures
        forall|i: int|
            0 <= i < click_line(x, y, t).len() ==> #[trigger] click_line(x, y, t)[i] != '\n',
{
    reveal_strlit("{\"event_type\":\"MouseClick\",\"x\":");
    reveal_strlit(",\"y\":");
    reveal_strlit(",\"timestamp\":");
    reveal_strlit("}");
    assert(forall|i: int|
        0 <= i < 31 ==> "{\"event_type\":\"MouseClick\",\"x\":"@[i] != '\n');
    assert(forall|i: int| 0 <= i < 5 ==> ",\"y\":"@[i] != '\n');
    assert(forall|i: int| 0 <= i < 13 ==> ",\"timestamp\":"@[i] != '\n');
    assert("}"@[0] != '\n');
}

/// Two concatenations with the same first part are equal in their
/// second parts.
proof fn lemma_strip_prefix(p: Seq<char>, u: Seq<char>, v: Seq<char>)
    requires
        p + u == p + v,
    ensures
        u == v,
{
    assert((p + u).len() == p.len() + u.len());
    assert((p + v).len() == p.len() + v.len());
    assert(u.len() == v.len());
    assert(u =~= v) by {
        assert(forall|i: int|
            0 <= i < u.len() ==> u[i] == (p + u)[p.len() + i] && v[i] == (p + v)[p.len() + i]);
    }
}

/// Where a number text is followed by a delimiter that the number
/// alphabet excludes, the delimiter marks the end of the text
/// unambiguously: equal concatenations split equally.
proof fn lemma_split_at_delimiter(a: Seq<char>, u: Seq<char>, b: Seq<char>, v: Seq<char>)
    requires
        a + u == b + v,
        is_number_text(a),
        is_number_text(b),
        u.len() > 0,
        v.len() > 0,
        !is_number_char(u[0]),
        !is_number_char(v[0]),
    ensures
        a == b,
        u == v,
{
    if a.len() < b.len() {
        assert((a + u)[a.len() as int] == u[0]);
        assert((b + v)[a.len() as int] == b[a.len() as int]);
        assert(is_number_char(b[a.len() as int]));
        assert(false);
    }
    if b.len() < a.len() {
        assert((b + v)[b.len() as int] == v[0]);
        assert((a + u)[b.len() as int] == a[b.len() as int]);
        assert(is_number_char(a[b.len() as int]));
        assert(false);
    }
    assert(a =~= b) by {
        assert(forall|i: int|
            0 <= i < a.len() ==> a[i] == (a + u)[i] && b[i] == (b + v)[i]);
    }
    lemma_strip_prefix(a, u, v);
}

/// The three field texts can be recovered from a rendered line exactly:
/// no two distinct records render to the same line, so reading the log
/// back gives the fields that were written.
pub proof fn lemma_click_line_fields_recoverable(
    x1: Seq<char>,
    y1: Seq<char>,
    t1: Seq<char>,
    x2: Seq<char>,
    y2: Seq<char>,
    t2: Seq<char>,
)
    requires
        is_number_text(x1),
        is_number_text(y1),
        is_number_text(t1),
        is_number_text(x2),
        is_number_text(y2),
        is_number_text(t2),
        click_line(x1, y1, t1) == click_line(x2, y2, t2),
    ensures
        x1 == x2,
        y1 == y2,
        t1 == t2,
{
    reveal_strlit(",\"y\":");
    reveal_strlit(",\"timestamp\":");
    let prefix = "{\"event_type\":\"MouseClick\",\"x\":"@;
    let ysep = ",\"y\":"@;
    let tsep = ",\"timestamp\":"@;
    let close = "}"@;
    let tail1 = ysep + y1 + (tsep + (t1 + close));
    let tail2 = ysep + y2 + (tsep + (t2 + close));
    assert(click_line(x1, y1, t1) =~= prefix + (x1 + tail1));
    assert(click_line(x2, y2, t2) =~= prefix + (x2 + tail2));
    lemma_strip_prefix(prefix, x1 + tail1, x2 + tail2);
    assert(tail1[0] == ysep[0]);
    assert(tail2[0] == ysep[0]);
    assert(!is_number_char(ysep[0]));
    lemma_split_at_delimiter(x1, tail1, x2, tail2);
    assert(tail1 =~= ysep + (y1 + (tsep + (t1 + close))));
    assert(tail2 =~= ysep + (y2 + (tsep + (t2 + close))));
    lemma_strip_prefix(ysep, y1 + (tsep + (t1 + close)), y2 + (tsep + (t2 + close)));
    assert((tsep + (t1 + close))[0] == tsep[0]);
    assert((tsep + (t2 + close))[0] == tsep[0]);
    assert(!is_number_char(tsep[0]));
    lemma_split_at_delimiter(y1, tsep + (t1 + close), y2, tsep + (t2 + close));
    lemma_strip_prefix(tsep, t1 + close, t2 + close);
    assert(t1.len() == t2.len());
    assert(t1 =~= t2) by {
        assert(forall|i: int|
            0 <= i < t1.len() ==> t1[i] == (t1 + close)[i] && t2[i] == (t2 + close)[i]);
    }
}

} // verus!
