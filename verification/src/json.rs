//! A JSON document as the event-detail popup reads it: the ids it links to,
//! and its lines with syntax colouring.
use vstd::prelude::*;
use crate::text::{push_str, spaces, string_of, views, LineTone};

verus! {

/// A JSON value. Numbers keep their printed form; object members keep the
/// order the document lists them in.
#[derive(Debug)]
pub enum JsonValue {
    Null,
    Bool(bool),
    Number(String),
    Str(String),
    Array(Vec<JsonValue>),
    Object(Vec<(String, JsonValue)>),
}

/// Whether a member name ends in `_id`.
pub open spec fn id_key(k: Seq<char>) -> bool {
    k.len() >= 3 && k.subrange(k.len() - 3, k.len() as int) == "_id"@
}

/// The strings the value links to, in document order: the string value of
/// every member whose name ends in `_id`, at any depth.
pub open spec fn ids_in(v: JsonValue) -> Seq<Seq<char>>
    decreases v,
{
    match v {
        JsonValue::Array(items) => ids_in_items(items@),
        JsonValue::Object(members) => ids_in_members(members@),
        _ => Seq::empty(),
    }
}

/// The linked strings of a list of values, in order.
pub open spec fn ids_in_items(s: Seq<JsonValue>) -> Seq<Seq<char>>
    decreases s,
{
    if s.len() == 0 {
        Seq::empty()
    } else {
        ids_in_items(s.subrange(0, s.len() - 1)) + ids_in(s[s.len() - 1])
    }
}

/// The linked string a member itself holds, if any.
pub open spec fn member_own_id(k: Seq<char>, v: JsonValue) -> Seq<Seq<char>> {
    match v {
        JsonValue::Str(s) => if id_key(k) {
            seq![s@]
        } else {
            Seq::empty()
        },
        _ => Seq::empty(),
    }
}

/// The linked strings of a list of members, in order: each member's own,
/// then those inside its value.
pub open spec fn ids_in_members(s: Seq<(String, JsonValue)>) -> Seq<Seq<char>>
    decreases s,
{
    if s.len() == 0 {
        Seq::empty()
    } else {
        ids_in_members(s.subrange(0, s.len() - 1)) + member_own_id(s[s.len() - 1].0@, s[s.len() - 1].1) + ids_in(
            s[s.len() - 1].1,
        )
    }
}

/// Whether `k` ends in `_id`.
fn is_id_key(k: &str) -> (r: bool)
    ensures
        r == id_key(k@),
{
    let n = k.unicode_len();
    if n < 3 {
        return false;
    }
    let a = k.get_char(n - 3);
    let b = k.get_char(n - 2);
    let c = k.get_char(n - 1);
    proof {
        reveal_strlit("_id");
        let tail = k@.subrange(n - 3, n as int);
        if a == '_' && b == 'i' && c == 'd' {
            assert(tail =~= "_id"@);
        }
        if tail == "_id"@ {
            assert(tail[0] == a && tail[1] == b && tail[2] == c);
        }
    }
    a == '_' && b == 'i' && c == 'd'
}

/// Appends to `out` the strings `v` links to: see [`ids_in`].
fn collect_ids(v: &JsonValue, out: &mut Vec<String>)
    ensures
        views(final(out)@) == views(old(out)@) + ids_in(*v),
    decreases v,
{
    let ghost start = views(out@);
    match v {
        JsonValue::Array(items) => {
            let mut i: usize = 0;
            while i < items.len()
                invariant
                    i <= items@.len(),
                    views(out@) == start + ids_in_items(items@.subrange(0, i as int)),
                    *v == JsonValue::Array(*items),
                decreases items@.len() - i,
            {
                proof {
                    assert(decreases_to!(*v => (*v)->Array_0));
                    vstd::std_specs::vec::axiom_vec_index_decreases(*items, i as int);
                }
                collect_ids(&items[i], out);
                proof {
                    assert(items@.subrange(0, i + 1).subrange(0, i as int) =~= items@.subrange(0, i as int));
                }
                i = i + 1;
            }
            proof {
                assert(items@.subrange(0, items@.len() as int) =~= items@);
            }
        },
        JsonValue::Object(members) => {
            let mut i: usize = 0;
            while i < members.len()
                invariant
                    i <= members@.len(),
                    views(out@) == start + ids_in_members(members@.subrange(0, i as int)),
                    *v == JsonValue::Object(*members),
                decreases members@.len() - i,
            {
                let ghost before = views(out@);
                let (key, value) = (&members[i].0, &members[i].1);
                match value {
                    JsonValue::Str(s) => {
                        if is_id_key(key.as_str()) {
                            out.push(s.clone());
                            proof {
                                assert(views(out@) =~= before.push(s@));
                            }
                        }
                    },
                    _ => {},
                }
                proof {
                    assert(views(out@) == before + member_own_id(key@, *value));
                }
                proof {
                    assert(decreases_to!(*v => (*v)->Object_0));
                    vstd::std_specs::vec::axiom_vec_index_decreases(*members, i as int);
                    assert(decreases_to!(members@[i as int] => members@[i as int].1));
                }
                collect_ids(value, out);
                proof {
                    assert(members@.subrange(0, i + 1).subrange(0, i as int) =~= members@.subrange(0, i as int));
                }
                i = i + 1;
            }
            proof {
                assert(members@.subrange(0, members@.len() as int) =~= members@);
            }
        },
        _ => {},
    }
}

/// Each run of equal neighbours reduced to its first element.
pub open spec fn dedup_spec(s: Seq<Seq<char>>) -> Seq<Seq<char>>
    decreases s.len(),
{
    if s.len() <= 1 {
        s
    } else {
        let d = dedup_spec(s.drop_last());
        if s.last() == s[s.len() - 2] {
            d
        } else {
            d.push(s.last())
        }
    }
}

/// The last element survives the reduction.
proof fn lemma_dedup_last(s: Seq<Seq<char>>)
    requires
        s.len() > 0,
    ensures
        dedup_spec(s).len() > 0,
        dedup_spec(s).last() == s.last(),
    decreases s.len(),
{
    if s.len() > 1 {
        lemma_dedup_last(s.drop_last());
    }
}

/// The related ids of a document never list the same id twice in a row, and
/// each of them is an id the document links to.
pub proof fn lemma_related_ids_distinct_neighbours(v: JsonValue)
    ensures
        forall|i: int| 0 <= i < dedup_spec(ids_in(v)).len() - 1 ==> #[trigger] dedup_spec(ids_in(v))[i] != dedup_spec(
            ids_in(v),
        )[i + 1],
        forall|x: Seq<char>| #[trigger] dedup_spec(ids_in(v)).contains(x) ==> ids_in(v).contains(x),
{
    lemma_dedup_props(ids_in(v));
}

/// Reduction leaves no equal neighbours and keeps only elements of the input.
proof fn lemma_dedup_props(s: Seq<Seq<char>>)
    ensures
        forall|i: int| 0 <= i < dedup_spec(s).len() - 1 ==> #[trigger] dedup_spec(s)[i] != dedup_spec(s)[i + 1],
        forall|x: Seq<char>| #[trigger] dedup_spec(s).contains(x) ==> s.contains(x),
    decreases s.len(),
{
    if s.len() > 1 {
        let t = s.drop_last();
        lemma_dedup_props(t);
        lemma_dedup_last(t);
        let d = dedup_spec(t);
        assert forall|x: Seq<char>| #[trigger] dedup_spec(s).contains(x) implies s.contains(x) by {
            if d.contains(x) {
                let j = choose|j: int| 0 <= j < t.len() && t[j] == x;
                assert(s[j] == x);
            } else {
                assert(x == s.last());
                assert(s[s.len() - 1] == x);
            }
        }
    }
}

/// The strings `v` links to, equal neighbours once: see [`ids_in`] and [`dedup_spec`].
pub fn related_ids(v: &JsonValue) -> (r: Vec<String>)
    ensures
        views(r@) == dedup_spec(ids_in(*v)),
{
    let mut all: Vec<String> = Vec::new();
    collect_ids(v, &mut all);
    let ghost ids = views(all@);
    proof {
        assert(ids =~= ids_in(*v));
    }
    let mut r: Vec<String> = Vec::new();
    let mut i: usize = 0;
    while i < all.len()
        invariant
            i <= all@.len(),
            ids == views(all@),
            views(r@) == dedup_spec(ids.take(i as int)),
        decreases all@.len() - i,
    {
        let ghost before = views(r@);
        proof {
            assert(ids.take(i + 1).drop_last() =~= ids.take(i as int));
        }
        if i == 0 || all[i] != all[i - 1] {
            r.push(all[i].clone());
            proof {
                assert(views(r@) =~= before.push(ids[i as int]));
            }
        }
        i = i + 1;
    }
    proof {
        assert(ids.take(all@.len() as int) =~= ids);
    }
    r
}

/// A piece of a JSON line and its colour.
#[derive(Debug, Clone, PartialEq, Eq)]
pub struct JsonSpan {
    pub text: String,
    pub tone: LineTone,
}

/// The text and tone of each piece of a line.
pub open spec fn line_view(l: Seq<JsonSpan>) -> Seq<(Seq<char>, LineTone)> {
    l.map_values(|s: JsonSpan| (s.text@, s.tone))
}

/// The pieces of each line.
pub open spec fn lines_view(v: Seq<Vec<JsonSpan>>) -> Seq<Seq<(Seq<char>, LineTone)>> {
    v.map_values(|l: Vec<JsonSpan>| line_view(l@))
}

/// A line made of one piece.
pub open spec fn one_piece(text: Seq<char>, tone: LineTone) -> Seq<Seq<(Seq<char>, LineTone)>> {
    seq![seq![(text, tone)]]
}

/// `lines` with a separator piece put at the end of its last line: empty
/// after the last element of a list, a comma otherwise.
pub open spec fn with_sep(lines: Seq<Seq<(Seq<char>, LineTone)>>, last: bool) -> Seq<Seq<(Seq<char>, LineTone)>> {
    if lines.len() == 0 {
        lines
    } else {
        lines.update(
            lines.len() - 1,
            lines[lines.len() - 1].push((if last { Seq::empty() } else { ","@ }, LineTone::Plain)),
        )
    }
}

/// The lines of `v` printed at nesting `indent`: null muted, booleans as
/// warnings, numbers as information, strings (quoted) as good; lists and
/// objects open on a line of their own, one element or member after another,
/// and close on a line indented by `indent` (`}]` for a list, `}` for an
/// object).
pub open spec fn json_lines_spec(v: JsonValue, indent: nat) -> Seq<Seq<(Seq<char>, LineTone)>>
    decreases v,
{
    match v {
        JsonValue::Null => one_piece("null"@, LineTone::Muted),
        JsonValue::Bool(b) => one_piece(if b { "true"@ } else { "false"@ }, LineTone::Warning),
        JsonValue::Number(n) => one_piece(n@, LineTone::Info),
        JsonValue::Str(s) => one_piece("\""@ + s@ + "\""@, LineTone::Good),
        JsonValue::Array(items) => if items@.len() == 0 {
            one_piece("[]"@, LineTone::Plain)
        } else {
            one_piece("["@, LineTone::Plain) + array_body(items@, items@.len(), indent) + one_piece(
                spaces(indent) + "}]"@,
                LineTone::Plain,
            )
        },
        JsonValue::Object(members) => if members@.len() == 0 {
            one_piece("{}"@, LineTone::Plain)
        } else {
            one_piece("{"@, LineTone::Plain) + object_body(members@, members@.len(), indent) + one_piece(
                spaces(indent) + "}"@,
                LineTone::Plain,
            )
        },
    }
}

/// The lines of the first elements `s` of a list of `total`.
pub open spec fn array_body(s: Seq<JsonValue>, total: nat, indent: nat) -> Seq<Seq<(Seq<char>, LineTone)>>
    decreases s,
{
    if s.len() == 0 {
        Seq::empty()
    } else {
        array_body(s.subrange(0, s.len() - 1), total, indent) + with_sep(
            json_lines_spec(s[s.len() - 1], indent + 2),
            s.len() == total,
        )
    }
}

/// The lines of a member: its quoted name, indented, in front of a one-line
/// value, or on a line of its own above a longer one.
pub open spec fn member_lines(
    key: Seq<char>,
    value_lines: Seq<Seq<(Seq<char>, LineTone)>>,
    indent: nat,
    last: bool,
) -> Seq<Seq<(Seq<char>, LineTone)>> {
    let prefix = spaces(indent + 2) + "\""@ + key + "\": "@;
    if value_lines.len() == 1 {
        seq![
            seq![(prefix, LineTone::Plain)] + value_lines[0] + seq![
                (if last { Seq::empty() } else { ","@ }, LineTone::Plain),
            ],
        ]
    } else {
        one_piece(prefix, LineTone::Plain) + with_sep(value_lines, last)
    }
}

/// The lines of the first members `s` of an object of `total`.
pub open spec fn object_body(s: Seq<(String, JsonValue)>, total: nat, indent: nat) -> Seq<
    Seq<(Seq<char>, LineTone)>,
>
    decreases s,
{
    if s.len() == 0 {
        Seq::empty()
    } else {
        object_body(s.subrange(0, s.len() - 1), total, indent) + member_lines(
            s[s.len() - 1].0@,
            json_lines_spec(s[s.len() - 1].1, indent + 2),
            indent,
            s.len() == total,
        )
    }
}

/// A line of one piece.
pub(crate) fn piece(text: String, tone: LineTone) -> (r: Vec<Vec<JsonSpan>>)
    ensures
        lines_view(r@) == one_piece(text@, tone),
{
    let ghost t = text@;
    let mut line: Vec<JsonSpan> = Vec::new();
    line.push(JsonSpan { text, tone });
    let mut r: Vec<Vec<JsonSpan>> = Vec::new();
    r.push(line);
    proof {
        assert(line_view(r@[0]@) =~= seq![(t, tone)]);
        assert(lines_view(r@) =~= one_piece(t, tone));
    }
    r
}

/// Puts the separator piece at the end of the last line: see [`with_sep`].
fn push_sep(lines: &mut Vec<Vec<JsonSpan>>, last: bool)
    ensures
        lines_view(final(lines)@) == with_sep(lines_view(old(lines)@), last),
{
    let ghost before = lines@;
    match lines.pop() {
        None => {},
        Some(l) => {
            let mut l = l;
            let ghost lv = line_view(l@);
            let text = if last { String::new() } else { string_of(",") };
            let ghost sep = text@;
            l.push(JsonSpan { text, tone: LineTone::Plain });
            proof {
                assert(line_view(l@) =~= lv.push((sep, LineTone::Plain)));
            }
            lines.push(l);
            proof {
                assert(lines_view(lines@) =~= with_sep(lines_view(before), last));
            }
        },
    }
}

/// Appends the lines of `more`.
pub(crate) fn append_lines(lines: &mut Vec<Vec<JsonSpan>>, more: Vec<Vec<JsonSpan>>)
    ensures
        lines_view(final(lines)@) == lines_view(old(lines)@) + lines_view(more@),
{
    let ghost a = lines@;
    let ghost b = more@;
    let mut more = more;
    lines.append(&mut more);
    proof {
        assert(lines_view(lines@) =~= lines_view(a) + lines_view(b));
    }
}

/// Two more spaces of indentation.
fn deeper(pad: &String) -> (r: String)
    requires
        pad@ == spaces(pad@.len()),
    ensures
        r@ == spaces(pad@.len() + 2),
        r@.len() == pad@.len() + 2,
{
    let mut r = string_of(pad.as_str());
    push_str(&mut r, "  ");
    proof {
        reveal_strlit("  ");
        assert(r@ =~= spaces(pad@.len() + 2));
    }
    r
}

/// The lines of `v` printed at the nesting of `pad`, a run of spaces: see
/// [`json_lines_spec`].
pub fn json_lines(v: &JsonValue, pad: &String) -> (r: Vec<Vec<JsonSpan>>)
    requires
        pad@ == spaces(pad@.len()),
    ensures
        lines_view(r@) == json_lines_spec(*v, pad@.len()),
    decreases v,
{
    let ghost indent = pad@.len();
    match v {
        JsonValue::Null => piece(string_of("null"), LineTone::Muted),
        JsonValue::Bool(b) => piece(if *b { string_of("true") } else { string_of("false") }, LineTone::Warning),
        JsonValue::Number(n) => piece(string_of(n.as_str()), LineTone::Info),
        JsonValue::Str(s) => {
            let mut t = string_of("\"");
            push_str(&mut t, s.as_str());
            push_str(&mut t, "\"");
            piece(t, LineTone::Good)
        },
        JsonValue::Array(items) => {
            if items.len() == 0 {
                return piece(string_of("[]"), LineTone::Plain);
            }
            let pad2 = deeper(pad);
            let n = items.len();
            let mut lines = piece(string_of("["), LineTone::Plain);
            let mut i: usize = 0;
            while i < n
                invariant
                    *v == JsonValue::Array(*items),
                    n == items@.len(),
                    indent == pad@.len(),
                    pad2@ == spaces(indent + 2),
                    pad2@.len() == indent + 2,
                    i <= n,
                    lines_view(lines@) == one_piece("["@, LineTone::Plain) + array_body(
                        items@.subrange(0, i as int),
                        n as nat,
                        indent,
                    ),
                decreases n - i,
            {
                proof {
                    assert(decreases_to!(*v => (*v)->Array_0));
                    vstd::std_specs::vec::axiom_vec_index_decreases(*items, i as int);
                }
                let mut item = json_lines(&items[i], &pad2);
                push_sep(&mut item, i + 1 == n);
                append_lines(&mut lines, item);
                proof {
                    assert(items@.subrange(0, i + 1).subrange(0, i as int) =~= items@.subrange(0, i as int));
                }
                i = i + 1;
            }
            let mut close = string_of(pad.as_str());
            push_str(&mut close, "}]");
            append_lines(&mut lines, piece(close, LineTone::Plain));
            proof {
                assert(items@.subrange(0, n as int) =~= items@);
            }
            lines
        },
        JsonValue::Object(members) => {
            if members.len() == 0 {
                return piece(string_of("{}"), LineTone::Plain);
            }
            let pad2 = deeper(pad);
            let n = members.len();
            let mut lines = piece(string_of("{"), LineTone::Plain);
            let mut i: usize = 0;
            while i < n
                invariant
                    *v == JsonValue::Object(*members),
                    n == members@.len(),
                    indent == pad@.len(),
                    pad2@ == spaces(indent + 2),
                    pad2@.len() == indent + 2,
                    i <= n,
                    lines_view(lines@) == one_piece("{"@, LineTone::Plain) + object_body(
                        members@.subrange(0, i as int),
                        n as nat,
                        indent,
                    ),
                decreases n - i,
            {
                proof {
                    assert(decreases_to!(*v => (*v)->Object_0));
                    vstd::std_specs::vec::axiom_vec_index_decreases(*members, i as int);
                    assert(decreases_to!(members@[i as int] => members@[i as int].1));
                }
                let key = &members[i].0;
                let value = &members[i].1;
                let last = i + 1 == n;
                let vl = json_lines(value, &pad2);
                let ghost vlv = lines_view(vl@);
                let mut prefix = string_of(pad2.as_str());
                push_str(&mut prefix, "\"");
                push_str(&mut prefix, key.as_str());
                push_str(&mut prefix, "\": ");
                let ghost pv = prefix@;
                let ghost before = lines_view(lines@);
                if vl.len() == 1 {
                    let mut vl = vl;
                    let mut line: Vec<JsonSpan> = Vec::new();
                    line.push(JsonSpan { text: prefix, tone: LineTone::Plain });
                    match vl.pop() {
                        Some(only) => {
                            let mut only = only;
                            line.append(&mut only);
                        },
                        None => {},
                    }
                    let sep = if last { String::new() } else { string_of(",") };
                    let ghost sv = sep@;
                    line.push(JsonSpan { text: sep, tone: LineTone::Plain });
                    proof {
                        assert(line_view(line@) =~= seq![(pv, LineTone::Plain)] + vlv[0] + seq![(sv, LineTone::Plain)]);
                    }
                    let ghost lv = line_view(line@);
                    lines.push(line);
                    proof {
                        assert(lines_view(lines@) =~= before.push(lv));
                        assert(member_lines(key@, vlv, indent, last) =~= seq![lv]);
                    }
                } else {
                    append_lines(&mut lines, piece(prefix, LineTone::Plain));
                    let mut vl = vl;
                    push_sep(&mut vl, last);
                    append_lines(&mut lines, vl);
                }
                proof {
                    assert(lines_view(lines@) =~= before + member_lines(key@, vlv, indent, last));
                    assert(members@.subrange(0, i + 1).subrange(0, i as int) =~= members@.subrange(0, i as int));
                }
                i = i + 1;
            }
            let mut close = string_of(pad.as_str());
            push_str(&mut close, "}");
            append_lines(&mut lines, piece(close, LineTone::Plain));
            proof {
                assert(members@.subrange(0, n as int) =~= members@);
            }
            lines
        },
    }
}

/// The coloured lines of a JSON text: those of its value when it parses
/// (`parsed`), else the text itself on one plain line.
pub open spec fn highlight_spec(parsed: Option<JsonValue>, json: Seq<char>) -> Seq<Seq<(Seq<char>, LineTone)>> {
    match parsed {
        Some(v) => json_lines_spec(v, 0),
        None => one_piece(json, LineTone::Plain),
    }
}

/// The coloured lines of the JSON text `json`, given what parsing it gave:
/// see [`highlight_spec`].
pub fn highlight_json(parsed: Option<&JsonValue>, json: &str) -> (r: Vec<Vec<JsonSpan>>)
    ensures
        lines_view(r@) == highlight_spec(
            match parsed {
                Some(v) => Some(*v),
                None => None,
            },
            json@,
        ),
{
    match parsed {
        Some(v) => {
            let pad = String::new();
            proof {
                assert(pad@ =~= spaces(0));
            }
            json_lines(v, &pad)
        },
        None => piece(string_of(json), LineTone::Plain),
    }
}

/// The body of an event-detail popup: the event type, the coloured payload,
/// and the related ids (or `(none)`).
pub open spec fn event_detail_body(
    event_type: Seq<char>,
    payload: Seq<Seq<(Seq<char>, LineTone)>>,
    related: Seq<Seq<char>>,
) -> Seq<Seq<(Seq<char>, LineTone)>> {
    seq![seq![("Type: "@, LineTone::Plain), (event_type, LineTone::Info)]] + one_piece(Seq::empty(), LineTone::Plain)
        + payload + one_piece(Seq::empty(), LineTone::Plain) + one_piece("Related IDs:"@, LineTone::Emphasis)
        + if related.len() == 0 {
        one_piece("  (none)"@, LineTone::Plain)
    } else {
        Seq::new(related.len(), |i: int| seq![("  • "@ + related[i], LineTone::Plain)])
    }
}

/// The body of an event-detail popup for the decoded payload text
/// `payload_decoded`, given what parsing it gave: see [`event_detail_body`].
pub fn event_detail_lines(
    event_type: &str,
    parsed_payload: Option<&JsonValue>,
    payload_decoded: &str,
    related: &Vec<String>,
) -> (r: Vec<Vec<JsonSpan>>)
    ensures
        lines_view(r@) == event_detail_body(
            event_type@,
            highlight_spec(
                match parsed_payload {
                    Some(v) => Some(*v),
                    None => None,
                },
                payload_decoded@,
            ),
            views(related@),
        ),
{
    let mut head: Vec<JsonSpan> = Vec::new();
    head.push(JsonSpan { text: string_of("Type: "), tone: LineTone::Plain });
    head.push(JsonSpan { text: string_of(event_type), tone: LineTone::Info });
    let ghost hv = line_view(head@);
    proof {
        assert(hv =~= seq![("Type: "@, LineTone::Plain), (event_type@, LineTone::Info)]);
    }
    let mut lines: Vec<Vec<JsonSpan>> = Vec::new();
    lines.push(head);
    proof {
        assert(lines_view(lines@) =~= seq![hv]);
    }
    append_lines(&mut lines, piece(String::new(), LineTone::Plain));
    append_lines(&mut lines, highlight_json(parsed_payload, payload_decoded));
    append_lines(&mut lines, piece(String::new(), LineTone::Plain));
    append_lines(&mut lines, piece(string_of("Related IDs:"), LineTone::Emphasis));
    let ghost top = lines_view(lines@);
    if related.len() == 0 {
        append_lines(&mut lines, piece(string_of("  (none)"), LineTone::Plain));
    } else {
        let ghost rv = views(related@);
        let mut i: usize = 0;
        while i < related.len()
            invariant
                i <= related@.len(),
                rv == views(related@),
                lines_view(lines@) == top + Seq::new(i as nat, |k: int| seq![("  • "@ + rv[k], LineTone::Plain)]),
            decreases related@.len() - i,
        {
            let mut t = string_of("  • ");
            push_str(&mut t, related[i].as_str());
            append_lines(&mut lines, piece(t, LineTone::Plain));
            proof {
                assert(Seq::new((i + 1) as nat, |k: int| seq![("  • "@ + rv[k], LineTone::Plain)]) =~= Seq::new(
                    i as nat,
                    |k: int| seq![("  • "@ + rv[k], LineTone::Plain)],
                ) + one_piece("  • "@ + rv[i as int], LineTone::Plain));
            }
            i = i + 1;
        }
    }
    proof {
        assert(lines_view(lines@) =~= event_detail_body(
            event_type@,
            highlight_spec(
                match parsed_payload {
                    Some(v) => Some(*v),
                    None => None,
                },
                payload_decoded@,
            ),
            views(related@),
        ));
    }
    lines
}

} // verus!
