//! Popup stack: notifications, detail views, confirmations and the help overlay,
//! shown last-opened-first.
use vstd::prelude::*;
use crate::json::{
    append_lines, dedup_spec, event_detail_body, event_detail_lines, highlight_spec, ids_in, line_view, lines_view,
    one_piece, piece, related_ids, JsonSpan, JsonValue,
};
use crate::panels::chat::{lemma_split_lines_nonempty, split_lines, split_newlines};
use crate::text::{digit_char, join, pad_right, push_left, push_str, string_of, views, LineTone};

verus! {

/// Severity of a notification; decides its colour.
#[derive(Debug, Clone, Copy, PartialEq, Eq, Hash)]
pub enum Severity {
    Info,
    Warning,
    Error,
}

impl Severity {
    /// Tone of a notification of this severity: information, a warning, or an
    /// alert for an error.
    pub fn tone(&self) -> (r: LineTone)
        ensures
            r == match *self {
                Severity::Info => LineTone::Info,
                Severity::Warning => LineTone::Warning,
                Severity::Error => LineTone::Alert,
            },
    {
        match self {
            Severity::Info => LineTone::Info,
            Severity::Warning => LineTone::Warning,
            Severity::Error => LineTone::Alert,
        }
    }
}

/// A popup.
#[derive(Debug, Clone, PartialEq)]
pub enum PopupKind {
    /// Short message coloured by severity.
    Notification { message: String, severity: Severity },
    /// Title plus multi-line content, scrollable.
    Detail { title: String, content: String, scroll: u16 },
    /// Yes/No question with the command to run on Yes.
    Confirm { prompt: String, on_confirm: String, confirmed: bool },
    /// Shortcut table (key description, meaning), scrollable.
    HelpOverlay { entries: Vec<(String, String)>, scroll: u16 },
    /// Structured view of one event: decoded payload, raw bytes and related ids.
    EventDetail {
        title: String,
        event_type: String,
        payload_decoded: String,
        payload_raw: Vec<u8>,
        related_event_ids: Vec<String>,
        scroll: u16,
    },
}

/// `value` clamped into the range of `u16`.
pub open spec fn clamp_u16(value: int) -> u16 {
    if value < 0 {
        0
    } else if value > u16::MAX {
        u16::MAX
    } else {
        value as u16
    }
}

/// The popup after scrolling it by `delta` lines; popups that do not scroll are unchanged.
pub open spec fn scrolled(p: PopupKind, delta: int) -> PopupKind {
    match p {
        PopupKind::Detail { title, content, scroll } => PopupKind::Detail {
            title,
            content,
            scroll: clamp_u16(scroll + delta),
        },
        PopupKind::HelpOverlay { entries, scroll } => PopupKind::HelpOverlay {
            entries,
            scroll: clamp_u16(scroll + delta),
        },
        PopupKind::EventDetail {
            title,
            event_type,
            payload_decoded,
            payload_raw,
            related_event_ids,
            scroll,
        } => PopupKind::EventDetail {
            title,
            event_type,
            payload_decoded,
            payload_raw,
            related_event_ids,
            scroll: clamp_u16(scroll + delta),
        },
        _ => p,
    }
}

/// The popup with its Yes/No choice flipped; other popups are unchanged.
pub open spec fn toggled(p: PopupKind) -> PopupKind {
    match p {
        PopupKind::Confirm { prompt, on_confirm, confirmed } => PopupKind::Confirm {
            prompt,
            on_confirm,
            confirmed: !confirmed,
        },
        _ => p,
    }
}

/// The global shortcut table that opens every help overlay.
pub open spec fn global_help_entries() -> Seq<(Seq<char>, Seq<char>)> {
    seq![
        ("q / Esc"@, "退出应用"@),
        ("Tab / Shift+Tab"@, "切换下/上一个面板"@),
        ("1-9"@, "跳转到对应序号的面板"@),
        (":"@, "打开命令面板"@),
        ("/"@, "打开搜索过滤器"@),
        ("?"@, "显示本帮助浮层"@),
        ("j / k"@, "向下/向上滚动列表或弹窗"@),
        ("Enter"@, "查看选中项详情或确认操作"@),
        ("Ctrl+↑ / Ctrl+↓"@, "调整主面板显示比例"@),
    ]
}

/// Heading of the panel-specific section of the help overlay.
pub open spec fn panel_section_heading() -> Seq<char> {
    "── 面板快捷键 ──"@
}

/// The views of an entry table.
pub open spec fn entry_views(entries: Seq<(String, String)>) -> Seq<(Seq<char>, Seq<char>)> {
    entries.map_values(|e: (String, String)| (e.0@, e.1@))
}

/// The views of a shortcut list.
pub open spec fn shortcut_views(s: Seq<(&'static str, &'static str)>) -> Seq<(Seq<char>, Seq<char>)> {
    s.map_values(|e: (&'static str, &'static str)| (e.0@, e.1@))
}

/// The entries of a help overlay for a panel with the given shortcuts.
pub open spec fn help_entries_spec(panel: Seq<(Seq<char>, Seq<char>)>) -> Seq<(Seq<char>, Seq<char>)> {
    if panel.len() == 0 {
        global_help_entries()
    } else {
        global_help_entries().push((panel_section_heading(), Seq::empty())) + panel
    }
}

fn entry(key: &str, desc: &str) -> (r: (String, String))
    ensures
        r.0@ == key@,
        r.1@ == desc@,
{
    (string_of(key), string_of(desc))
}

impl PopupKind {
    /// A confirmation for a control command: prompt `"{action} {target}?"`, Yes preselected.
    pub fn control_confirm(action: &str, target: &str, on_confirm: String) -> (r: Self)
        ensures
            r matches PopupKind::Confirm { prompt, on_confirm: cmd, confirmed } && prompt@ == action@
                + " "@ + target@ + "?"@ && cmd@ == on_confirm@ && confirmed,
    {
        let mut prompt = string_of(action);
        push_str(&mut prompt, " ");
        push_str(&mut prompt, target);
        push_str(&mut prompt, "?");
        PopupKind::Confirm { prompt, on_confirm, confirmed: true }
    }

    /// The help overlay with the global shortcut table only.
    pub fn help_overlay() -> (r: Self)
        ensures
            r matches PopupKind::HelpOverlay { entries, scroll } && entry_views(entries@)
                == global_help_entries() && scroll == 0,
    {
        let r = Self::help_overlay_with_context(&[]);
        proof {
            let ghost e: Seq<(&'static str, &'static str)> = Seq::empty();
            assert(shortcut_views(e) =~= Seq::empty());
        }
        r
    }

    /// The help overlay: the global table, then, when the focused panel has
    /// shortcuts, a section heading followed by those shortcuts.
    pub fn help_overlay_with_context(panel_shortcuts: &[(&'static str, &'static str)]) -> (r: Self)
        ensures
            r matches PopupKind::HelpOverlay { entries, scroll } && entry_views(entries@)
                == help_entries_spec(shortcut_views(panel_shortcuts@)) && scroll == 0,
    {
        let mut entries: Vec<(String, String)> = Vec::new();
        entries.push(entry("q / Esc", "退出应用"));
        entries.push(entry("Tab / Shift+Tab", "切换下/上一个面板"));
        entries.push(entry("1-9", "跳转到对应序号的面板"));
        entries.push(entry(":", "打开命令面板"));
        entries.push(entry("/", "打开搜索过滤器"));
        entries.push(entry("?", "显示本帮助浮层"));
        entries.push(entry("j / k", "向下/向上滚动列表或弹窗"));
        entries.push(entry("Enter", "查看选中项详情或确认操作"));
        entries.push(entry("Ctrl+↑ / Ctrl+↓", "调整主面板显示比例"));
        proof {
            assert(entry_views(entries@) =~= global_help_entries());
        }
        if panel_shortcuts.len() > 0 {
            entries.push((string_of("── 面板快捷键 ──"), String::new()));
            let ghost base = entry_views(entries@);
            let mut i: usize = 0;
            while i < panel_shortcuts.len()
                invariant
                    i <= panel_shortcuts@.len(),
                    entries@.len() == base.len() + i,
                    base.len() == 10,
                    entry_views(entries@) == base + shortcut_views(panel_shortcuts@).take(i as int),
                decreases panel_shortcuts@.len() - i,
            {
                let (k, d) = panel_shortcuts[i];
                let ghost before = entries@;
                entries.push(entry(k, d));
                proof {
                    assert(entry_views(entries@) =~= entry_views(before).push((k@, d@)));
                    assert(shortcut_views(panel_shortcuts@).take(i + 1) =~= shortcut_views(
                        panel_shortcuts@,
                    ).take(i as int).push((k@, d@)));
                }
                i = i + 1;
            }
            proof {
                assert(shortcut_views(panel_shortcuts@).take(panel_shortcuts@.len() as int)
                    =~= shortcut_views(panel_shortcuts@));
                assert(base =~= global_help_entries().push((panel_section_heading(), Seq::empty())));
            }
        }
        PopupKind::HelpOverlay { entries, scroll: 0 }
    }

    /// The scroll offset of a detail or event-detail popup.
    pub fn detail_scroll(&self) -> (r: Option<u16>)
        ensures
            r == (match *self {
                PopupKind::Detail { scroll, .. } => Some(scroll),
                PopupKind::EventDetail { scroll, .. } => Some(scroll),
                _ => None,
            }),
    {
        match self {
            PopupKind::Detail { scroll, .. } => Some(*scroll),
            PopupKind::EventDetail { scroll, .. } => Some(*scroll),
            _ => None,
        }
    }

    /// Whether this is the help overlay.
    pub fn is_help_overlay(&self) -> (r: bool)
        ensures
            r == (*self is HelpOverlay),
    {
        match self {
            PopupKind::HelpOverlay { .. } => true,
            _ => false,
        }
    }

    /// Whether this is a confirmation with Yes selected.
    pub fn is_confirmed(&self) -> (r: bool)
        ensures
            r == (match *self {
                PopupKind::Confirm { confirmed, .. } => confirmed,
                _ => false,
            }),
    {
        match self {
            PopupKind::Confirm { confirmed, .. } => *confirmed,
            _ => false,
        }
    }

    /// The event-detail popup of an event of type `event_type`, given what
    /// encoding it gave: a decoded payload is shown as pretty JSON (as hex when
    /// printing failed) with the ids it links to; an undecodable one as hex; a
    /// failed encoding says so. The raw bytes are kept; the popup opens at the top.
    pub fn event_detail(event_type: &str, encoding: EventEncoding) -> (r: PopupKind)
        ensures
            r is EventDetail,
            r->EventDetail_event_type@ == event_type@,
            r->EventDetail_scroll == 0,
            r->EventDetail_title@ == event_detail_title(event_type@, encoding is Decoded),
            match encoding {
                EventEncoding::Failed => {
                    &&& r->EventDetail_payload_decoded@ == "(encoding failed)"@
                    &&& r->EventDetail_payload_raw@.len() == 0
                    &&& r->EventDetail_related_event_ids@.len() == 0
                },
                EventEncoding::Decoded { raw, value, pretty } => {
                    &&& r->EventDetail_payload_decoded@ == match pretty {
                        Some(p) => p@,
                        None => hex_string_spec(raw@),
                    }
                    &&& r->EventDetail_payload_raw@ == raw@
                    &&& views(r->EventDetail_related_event_ids@) == dedup_spec(ids_in(value))
                },
                EventEncoding::Undecodable { raw } => {
                    &&& r->EventDetail_payload_decoded@ == hex_string_spec(raw@)
                    &&& r->EventDetail_payload_raw@ == raw@
                    &&& r->EventDetail_related_event_ids@.len() == 0
                },
            },
    {
        let mut title = string_of(event_type);
        match encoding {
            EventEncoding::Failed => {
                push_str(&mut title, " Detail (raw hex)");
                PopupKind::EventDetail {
                    title,
                    event_type: string_of(event_type),
                    payload_decoded: string_of("(encoding failed)"),
                    payload_raw: Vec::new(),
                    related_event_ids: Vec::new(),
                    scroll: 0,
                }
            },
            EventEncoding::Decoded { raw, value, pretty } => {
                push_str(&mut title, " Detail");
                let related_event_ids = related_ids(&value);
                let payload_decoded = match pretty {
                    Some(p) => p,
                    None => hex_string(raw.as_slice()),
                };
                PopupKind::EventDetail {
                    title,
                    event_type: string_of(event_type),
                    payload_decoded,
                    payload_raw: raw,
                    related_event_ids,
                    scroll: 0,
                }
            },
            EventEncoding::Undecodable { raw } => {
                push_str(&mut title, " Detail (raw hex)");
                let payload_decoded = hex_string(raw.as_slice());
                PopupKind::EventDetail {
                    title,
                    event_type: string_of(event_type),
                    payload_decoded,
                    payload_raw: raw,
                    related_event_ids: Vec::new(),
                    scroll: 0,
                }
            },
        }
    }
}

/// Lower-case hexadecimal digit of `d` (`d < 16`).
pub open spec fn hex_digit(d: nat) -> char {
    if d < 10 {
        digit_char(d)
    } else {
        (87 + d) as char
    }
}

/// The two hexadecimal digits of a byte.
pub open spec fn hex_byte(b: u8) -> Seq<char> {
    seq![hex_digit((b / 16) as nat), hex_digit((b % 16) as nat)]
}

/// Bytes as two-digit lower-case hex, separated by single spaces.
pub open spec fn hex_string_spec(bytes: Seq<u8>) -> Seq<char> {
    join(bytes.map_values(|b: u8| hex_byte(b)), " "@)
}

fn hex_digit_str(d: u8) -> (s: &'static str)
    requires
        d < 16,
    ensures
        s@ == seq![hex_digit(d as nat)],
{
    proof {
        reveal_strlit("0");
        reveal_strlit("1");
        reveal_strlit("2");
        reveal_strlit("3");
        reveal_strlit("4");
        reveal_strlit("5");
        reveal_strlit("6");
        reveal_strlit("7");
        reveal_strlit("8");
        reveal_strlit("9");
        reveal_strlit("a");
        reveal_strlit("b");
        reveal_strlit("c");
        reveal_strlit("d");
        reveal_strlit("e");
        reveal_strlit("f");
    }
    match d {
        0 => "0",
        1 => "1",
        2 => "2",
        3 => "3",
        4 => "4",
        5 => "5",
        6 => "6",
        7 => "7",
        8 => "8",
        9 => "9",
        10 => "a",
        11 => "b",
        12 => "c",
        13 => "d",
        14 => "e",
        _ => "f",
    }
}

/// Formats bytes as two-digit lower-case hex separated by spaces.
pub fn hex_string(bytes: &[u8]) -> (r: String)
    ensures
        r@ == hex_string_spec(bytes@),
{
    let ghost parts = bytes@.map_values(|b: u8| hex_byte(b));
    let mut r = String::new();
    let mut i: usize = 0;
    while i < bytes.len()
        invariant
            i <= bytes@.len(),
            parts == bytes@.map_values(|b: u8| hex_byte(b)),
            r@ == join(parts.take(i as int), " "@),
        decreases bytes@.len() - i,
    {
        proof {
            assert(parts.take(i + 1).drop_last() =~= parts.take(i as int));
        }
        if i > 0 {
            push_str(&mut r, " ");
        }
        let b = bytes[i];
        push_str(&mut r, hex_digit_str(b / 16));
        push_str(&mut r, hex_digit_str(b % 16));
        proof {
            assert(parts.take(i + 1).last() == hex_byte(b));
            assert(seq![hex_digit((b / 16) as nat)] + seq![hex_digit((b % 16) as nat)] =~= hex_byte(b));
        }
        i = i + 1;
    }
    proof {
        assert(parts.take(bytes@.len() as int) =~= parts);
    }
    r
}

/// What turning an event into MessagePack, by way of its JSON value, gave.
#[derive(Debug)]
pub enum EventEncoding {
    /// The event could not be encoded.
    Failed,
    /// The bytes `raw` decode back to `value`; `pretty` is the pretty-printed
    /// JSON text of `value`, `None` when printing failed.
    Decoded { raw: Vec<u8>, value: JsonValue, pretty: Option<String> },
    /// The bytes `raw` do not decode.
    Undecodable { raw: Vec<u8> },
}

/// The title of an event-detail popup: `<type> Detail`, marked ` (raw hex)`
/// when the payload could not be decoded.
pub open spec fn event_detail_title(event_type: Seq<char>, decoded: bool) -> Seq<char> {
    if decoded {
        event_type + " Detail"@
    } else {
        event_type + " Detail (raw hex)"@
    }
}

/// `p` without a trailing carriage return.
pub open spec fn strip_cr(p: Seq<char>) -> Seq<char> {
    if p.len() > 0 && p.last() == '\r' {
        p.drop_last()
    } else {
        p
    }
}

/// The lines of `s` as `str::lines` gives them: the pieces between newlines,
/// without the empty piece after a final newline (none for an empty text),
/// each without a trailing carriage return.
pub open spec fn str_lines(s: Seq<char>) -> Seq<Seq<char>> {
    if s.len() == 0 {
        Seq::empty()
    } else {
        let pieces = split_lines(s);
        let kept = if s.last() == '\n' { pieces.drop_last() } else { pieces };
        kept.map_values(|p: Seq<char>| strip_cr(p))
    }
}

/// The lines of a paragraph of `s`: its [`str_lines`], or one empty line for an empty text.
pub open spec fn paragraph_lines(s: Seq<char>) -> Seq<Seq<char>> {
    if s.len() == 0 {
        seq![Seq::empty()]
    } else {
        str_lines(s)
    }
}

/// Each line as one plain piece.
pub open spec fn plain_lines(v: Seq<Seq<char>>) -> Seq<Seq<(Seq<char>, LineTone)>> {
    v.map_values(|t: Seq<char>| seq![(t, LineTone::Plain)])
}

/// The border title of a popup.
pub open spec fn popup_title_spec(p: PopupKind) -> Seq<char> {
    match p {
        PopupKind::Notification { .. } => " Notification "@,
        PopupKind::Detail { title, .. } => " "@ + title@ + " "@,
        PopupKind::Confirm { .. } => " Confirm "@,
        PopupKind::HelpOverlay { .. } => " Help (?/Esc) "@,
        PopupKind::EventDetail { title, .. } => " "@ + title@ + " "@,
    }
}

/// The tone of a popup's border: a notification's severity, plain otherwise.
pub open spec fn popup_border_spec(p: PopupKind) -> LineTone {
    match p {
        PopupKind::Notification { severity, .. } => match severity {
            Severity::Info => LineTone::Info,
            Severity::Warning => LineTone::Warning,
            Severity::Error => LineTone::Alert,
        },
        _ => LineTone::Plain,
    }
}

/// The text inside a popup: a notification's message and a detail's content
/// as paragraphs; a confirmation's prompt, its `[Yes]`/`[No]` choice with the
/// chosen one highlighted, and the hint; one line per help entry, the key in
/// a field of twenty; an event detail's body, its payload coloured when it
/// parses (`parsed`).
pub open spec fn popup_body(p: PopupKind, parsed: Option<JsonValue>) -> Seq<Seq<(Seq<char>, LineTone)>> {
    match p {
        PopupKind::Notification { message, .. } => plain_lines(paragraph_lines(message@)),
        PopupKind::Detail { content, .. } => plain_lines(paragraph_lines(content@)),
        PopupKind::Confirm { prompt, confirmed, .. } => seq![
            str_lines(prompt@).map_values(|t: Seq<char>| (t, LineTone::Plain)),
        ] + one_piece(Seq::empty(), LineTone::Plain) + seq![
            seq![
                ("[Yes]"@, if confirmed { LineTone::Highlight } else { LineTone::Good }),
                ("   "@, LineTone::Plain),
                ("[No]"@, if confirmed { LineTone::Alert } else { LineTone::Highlight }),
            ],
        ] + one_piece(Seq::empty(), LineTone::Plain) + one_piece(
            "Left/Right to select, Enter to confirm, Esc to cancel."@,
            LineTone::Plain,
        ),
        PopupKind::HelpOverlay { entries, .. } => Seq::new(
            entries@.len(),
            |i: int| seq![(pad_right(entries@[i].0@, 20), LineTone::Info), (entries@[i].1@, LineTone::Plain)],
        ),
        PopupKind::EventDetail { event_type, payload_decoded, related_event_ids, .. } => event_detail_body(
            event_type@,
            highlight_spec(parsed, payload_decoded@),
            views(related_event_ids@),
        ),
    }
}

/// The lines of `s` as `str::lines` gives them: see [`str_lines`].
pub fn text_lines(s: &String) -> (r: Vec<String>)
    ensures
        views(r@) == str_lines(s@),
{
    let n = s.unicode_len();
    if n == 0 {
        let r: Vec<String> = Vec::new();
        proof {
            assert(views(r@) =~= str_lines(s@));
        }
        return r;
    }
    let pieces = split_newlines(s);
    proof {
        lemma_split_lines_nonempty(s@);
    }
    let ghost all = views(pieces@);
    let keep = if s.as_str().get_char(n - 1) == '\n' { pieces.len() - 1 } else { pieces.len() };
    let ghost kept = if s@.last() == '\n' { all.drop_last() } else { all };
    proof {
        assert(kept.len() == keep);
        assert(forall|k: int| 0 <= k < keep ==> #[trigger] kept[k] == all[k]);
    }
    let mut r: Vec<String> = Vec::new();
    let mut i: usize = 0;
    while i < keep
        invariant
            keep <= pieces@.len(),
            all == views(pieces@),
            kept.len() == keep,
            forall|k: int| 0 <= k < keep ==> #[trigger] kept[k] == all[k],
            i <= keep,
            views(r@) == kept.take(i as int).map_values(|p: Seq<char>| strip_cr(p)),
        decreases keep - i,
    {
        let mut p = pieces[i].clone();
        let len = p.unicode_len();
        if len > 0 && p.as_str().get_char(len - 1) == '\r' {
            crate::text::string_pop(&mut p);
        }
        proof {
            assert(p@ == strip_cr(kept[i as int]));
        }
        let ghost before = views(r@);
        r.push(p);
        proof {
            assert(views(r@) =~= before.push(p@));
            assert(kept.take(i + 1) =~= kept.take(i as int).push(kept[i as int]));
            assert(views(r@) =~= kept.take(i + 1).map_values(|p: Seq<char>| strip_cr(p)));
        }
        i = i + 1;
    }
    proof {
        assert(kept.take(keep as int) =~= kept);
    }
    r
}

/// Each line of `v` as one plain piece.
fn plain_spans(v: Vec<String>) -> (r: Vec<Vec<JsonSpan>>)
    ensures
        lines_view(r@) == plain_lines(views(v@)),
{
    let mut r: Vec<Vec<JsonSpan>> = Vec::new();
    let mut i: usize = 0;
    while i < v.len()
        invariant
            i <= v@.len(),
            lines_view(r@) == plain_lines(views(v@).take(i as int)),
        decreases v@.len() - i,
    {
        append_lines(&mut r, piece(v[i].clone(), LineTone::Plain));
        proof {
            assert(views(v@).take(i + 1) =~= views(v@).take(i as int).push(v@[i as int]@));
            assert(lines_view(r@) =~= plain_lines(views(v@).take(i + 1)));
        }
        i = i + 1;
    }
    proof {
        assert(views(v@).take(v@.len() as int) =~= views(v@));
    }
    r
}

/// The lines of a paragraph of `s`: see [`paragraph_lines`].
fn paragraph_spans(s: &String) -> (r: Vec<Vec<JsonSpan>>)
    ensures
        lines_view(r@) == plain_lines(paragraph_lines(s@)),
{
    if s.unicode_len() == 0 {
        let r = piece(String::new(), LineTone::Plain);
        proof {
            assert(plain_lines(paragraph_lines(s@)) =~= one_piece(Seq::empty(), LineTone::Plain));
        }
        return r;
    }
    plain_spans(text_lines(s))
}

/// Appends a piece to a line.
fn push_piece(line: &mut Vec<JsonSpan>, text: String, tone: LineTone)
    ensures
        line_view(final(line)@) == line_view(old(line)@).push((text@, tone)),
{
    let ghost before = line@;
    let ghost t = text@;
    line.push(JsonSpan { text, tone });
    proof {
        assert(line_view(line@) =~= line_view(before).push((t, tone)));
    }
}

impl PopupKind {
    /// The border title of this popup: see [`popup_title_spec`].
    pub fn title_text(&self) -> (r: String)
        ensures
            r@ == popup_title_spec(*self),
    {
        match self {
            PopupKind::Notification { .. } => string_of(" Notification "),
            PopupKind::Detail { title, .. } => {
                let mut t = string_of(" ");
                push_str(&mut t, title.as_str());
                push_str(&mut t, " ");
                t
            },
            PopupKind::Confirm { .. } => string_of(" Confirm "),
            PopupKind::HelpOverlay { .. } => string_of(" Help (?/Esc) "),
            PopupKind::EventDetail { title, .. } => {
                let mut t = string_of(" ");
                push_str(&mut t, title.as_str());
                push_str(&mut t, " ");
                t
            },
        }
    }

    /// The tone of this popup's border: see [`popup_border_spec`].
    pub fn border_tone(&self) -> (r: LineTone)
        ensures
            r == popup_border_spec(*self),
    {
        match self {
            PopupKind::Notification { severity, .. } => severity.tone(),
            _ => LineTone::Plain,
        }
    }

    /// The text inside this popup, given what parsing an event detail's
    /// payload gave: see [`popup_body`].
    pub fn body_lines(&self, parsed_payload: Option<&JsonValue>) -> (r: Vec<Vec<JsonSpan>>)
        ensures
            lines_view(r@) == popup_body(
                *self,
                match parsed_payload {
                    Some(v) => Some(*v),
                    None => None,
                },
            ),
    {
        match self {
            PopupKind::Notification { message, .. } => paragraph_spans(message),
            PopupKind::Detail { content, .. } => paragraph_spans(content),
            PopupKind::Confirm { prompt, confirmed, .. } => {
                let parts = text_lines(prompt);
                let mut first: Vec<JsonSpan> = Vec::new();
                let mut i: usize = 0;
                while i < parts.len()
                    invariant
                        i <= parts@.len(),
                        views(parts@) == str_lines(prompt@),
                        line_view(first@) == str_lines(prompt@).take(i as int).map_values(
                            |t: Seq<char>| (t, LineTone::Plain),
                        ),
                    decreases parts@.len() - i,
                {
                    push_piece(&mut first, parts[i].clone(), LineTone::Plain);
                    proof {
                        assert(str_lines(prompt@).take(i + 1) =~= str_lines(prompt@).take(i as int).push(
                            parts@[i as int]@,
                        ));
                        assert(line_view(first@) =~= str_lines(prompt@).take(i + 1).map_values(
                            |t: Seq<char>| (t, LineTone::Plain),
                        ));
                    }
                    i = i + 1;
                }
                proof {
                    assert(str_lines(prompt@).take(parts@.len() as int) =~= str_lines(prompt@));
                }
                let ghost fv = line_view(first@);
                let mut lines: Vec<Vec<JsonSpan>> = Vec::new();
                lines.push(first);
                proof {
                    assert(lines_view(lines@) =~= seq![fv]);
                }
                append_lines(&mut lines, piece(String::new(), LineTone::Plain));
                let mut choice: Vec<JsonSpan> = Vec::new();
                push_piece(&mut choice, string_of("[Yes]"), if *confirmed { LineTone::Highlight } else { LineTone::Good });
                push_piece(&mut choice, string_of("   "), LineTone::Plain);
                push_piece(&mut choice, string_of("[No]"), if *confirmed { LineTone::Alert } else { LineTone::Highlight });
                let ghost cv = line_view(choice@);
                proof {
                    assert(cv =~= seq![
                        ("[Yes]"@, if *confirmed { LineTone::Highlight } else { LineTone::Good }),
                        ("   "@, LineTone::Plain),
                        ("[No]"@, if *confirmed { LineTone::Alert } else { LineTone::Highlight }),
                    ]);
                    assert(fv =~= str_lines(prompt@).map_values(|t: Seq<char>| (t, LineTone::Plain)));
                }
                let ghost before = lines_view(lines@);
                lines.push(choice);
                proof {
                    assert(lines_view(lines@) =~= before.push(cv));
                }
                append_lines(&mut lines, piece(String::new(), LineTone::Plain));
                append_lines(
                    &mut lines,
                    piece(string_of("Left/Right to select, Enter to confirm, Esc to cancel."), LineTone::Plain),
                );
                proof {
                    assert(lines_view(lines@) =~= popup_body(*self, None));
                }
                lines
            },
            PopupKind::HelpOverlay { entries, .. } => {
                let ghost want = Seq::new(
                    entries@.len(),
                    |i: int| seq![(pad_right(entries@[i].0@, 20), LineTone::Info), (entries@[i].1@, LineTone::Plain)],
                );
                let mut lines: Vec<Vec<JsonSpan>> = Vec::new();
                let mut i: usize = 0;
                while i < entries.len()
                    invariant
                        i <= entries@.len(),
                        want == Seq::new(
                            entries@.len(),
                            |i: int| seq![(pad_right(entries@[i].0@, 20), LineTone::Info), (entries@[i].1@, LineTone::Plain)],
                        ),
                        lines_view(lines@) == want.take(i as int),
                    decreases entries@.len() - i,
                {
                    let mut key = String::new();
                    push_left(&mut key, entries[i].0.as_str(), 20);
                    let mut line: Vec<JsonSpan> = Vec::new();
                    push_piece(&mut line, key, LineTone::Info);
                    push_piece(&mut line, entries[i].1.clone(), LineTone::Plain);
                    let ghost lv = line_view(line@);
                    let ghost before = lines_view(lines@);
                    lines.push(line);
                    proof {
                        assert(lv =~= want[i as int]);
                        assert(lines_view(lines@) =~= before.push(lv));
                        assert(want.take(i + 1) =~= want.take(i as int).push(want[i as int]));
                    }
                    i = i + 1;
                }
                proof {
                    assert(want.take(entries@.len() as int) =~= want);
                }
                lines
            },
            PopupKind::EventDetail { event_type, payload_decoded, related_event_ids, .. } => event_detail_lines(
                event_type.as_str(),
                parsed_payload,
                payload_decoded.as_str(),
                related_event_ids,
            ),
        }
    }
}

/// Stack of open popups; the last pushed is the one shown.
#[derive(Debug, Clone, PartialEq)]
pub struct PopupStack {
    stack: Vec<PopupKind>,
}

impl View for PopupStack {
    type V = Seq<PopupKind>;

    closed spec fn view(&self) -> Seq<PopupKind> {
        self.stack@
    }
}

fn clamp_scroll(scroll: u16, delta: i16) -> (r: u16)
    ensures
        r == clamp_u16(scroll + delta),
{
    let v: i32 = scroll as i32 + delta as i32;
    if v < 0 {
        0
    } else if v > 65535 {
        65535
    } else {
        v as u16
    }
}

impl Default for PopupStack {
    /// The same as [`PopupStack::new`].
    fn default() -> (r: Self)
        ensures
            r@ == Seq::<PopupKind>::empty(),
    {
        PopupStack::new()
    }
}

impl PopupStack {
    /// An empty stack.
    pub fn new() -> (r: Self)
        ensures
            r@ == Seq::<PopupKind>::empty(),
    {
        PopupStack { stack: Vec::new() }
    }

    /// Opens `popup` on top.
    pub fn push(&mut self, popup: PopupKind)
        ensures
            final(self)@ == old(self)@.push(popup),
    {
        self.stack.push(popup);
    }

    /// Closes the top popup and returns it.
    pub fn pop(&mut self) -> (r: Option<PopupKind>)
        ensures
            old(self)@.len() == 0 ==> r.is_none() && final(self)@ == old(self)@,
            old(self)@.len() > 0 ==> r == Some(old(self)@.last()) && final(self)@
                == old(self)@.drop_last(),
    {
        self.stack.pop()
    }

    /// The popup on top.
    pub fn current(&self) -> (r: Option<&PopupKind>)
        ensures
            self@.len() == 0 <==> r.is_none(),
            r matches Some(p) ==> *p == self@.last(),
    {
        let n = self.stack.len();
        if n == 0 {
            None
        } else {
            Some(&self.stack[n - 1])
        }
    }

    /// The popup on top, for changing it in place.
    pub fn current_mut(&mut self) -> (r: Option<&mut PopupKind>)
        ensures
            old(self)@.len() == 0 ==> r is None && final(self)@ == old(self)@,
            old(self)@.len() > 0 ==> (r matches Some(p) && *p == old(self)@.last() && final(self)@ == old(
                self,
            )@.update(old(self)@.len() - 1, *final(p))),
    {
        let n = self.stack.len();
        if n == 0 {
            None
        } else {
            Some(&mut self.stack[n - 1])
        }
    }

    /// Whether no popup is open.
    pub fn is_empty(&self) -> (r: bool)
        ensures
            r == (self@.len() == 0),
    {
        self.stack.len() == 0
    }

    /// Closes every popup.
    pub fn clear(&mut self)
        ensures
            final(self)@ == Seq::<PopupKind>::empty(),
    {
        self.stack.clear();
    }

    /// Scrolls the top popup by `delta` lines (positive is down), clamped to
    /// `0..=u16::MAX`; popups that do not scroll are left alone.
    pub fn scroll_current(&mut self, delta: i16)
        ensures
            old(self)@.len() == 0 ==> final(self)@ == old(self)@,
            old(self)@.len() > 0 ==> final(self)@ == old(self)@.update(
                old(self)@.len() - 1,
                scrolled(old(self)@.last(), delta as int),
            ),
    {
        if self.stack.len() == 0 {
            return;
        }
        let top = self.stack.pop().unwrap();
        let next = match top {
            PopupKind::Detail { title, content, scroll } => PopupKind::Detail {
                title,
                content,
                scroll: clamp_scroll(scroll, delta),
            },
            PopupKind::HelpOverlay { entries, scroll } => PopupKind::HelpOverlay {
                entries,
                scroll: clamp_scroll(scroll, delta),
            },
            PopupKind::EventDetail {
                title,
                event_type,
                payload_decoded,
                payload_raw,
                related_event_ids,
                scroll,
            } => PopupKind::EventDetail {
                title,
                event_type,
                payload_decoded,
                payload_raw,
                related_event_ids,
                scroll: clamp_scroll(scroll, delta),
            },
            other => other,
        };
        self.stack.push(next);
        proof {
            assert(final(self)@ =~= old(self)@.update(
                old(self)@.len() - 1,
                scrolled(old(self)@.last(), delta as int),
            ));
        }
    }

    /// Flips Yes/No of the top popup when it is a confirmation.
    pub fn toggle_confirm(&mut self)
        ensures
            old(self)@.len() == 0 ==> final(self)@ == old(self)@,
            old(self)@.len() > 0 ==> final(self)@ == old(self)@.update(
                old(self)@.len() - 1,
                toggled(old(self)@.last()),
            ),
    {
        if self.stack.len() == 0 {
            return;
        }
        let top = self.stack.pop().unwrap();
        let next = match top {
            PopupKind::Confirm { prompt, on_confirm, confirmed } => PopupKind::Confirm {
                prompt,
                on_confirm,
                confirmed: !confirmed,
            },
            other => other,
        };
        self.stack.push(next);
        proof {
            assert(final(self)@ =~= old(self)@.update(old(self)@.len() - 1, toggled(old(self)@.last())));
        }
    }
}

/// Opening a popup and then closing the top one gives back that popup and
/// leaves the stack as it was before: `before` is the stack, `pushed` what
/// [`PopupStack::push`] makes of it, `after` and `r` what [`PopupStack::pop`]
/// makes of that and returns.
pub proof fn lemma_push_then_pop(
    before: Seq<PopupKind>,
    p: PopupKind,
    pushed: Seq<PopupKind>,
    after: Seq<PopupKind>,
    r: Option<PopupKind>,
)
    requires
        pushed == before.push(p),
        pushed.len() == 0 ==> r.is_none() && after == pushed,
        pushed.len() > 0 ==> r == Some(pushed.last()) && after == pushed.drop_last(),
    ensures
        r == Some(p),
        after == before,
{
    assert(before.push(p).drop_last() =~= before);
}

/// Flipping the confirmation of the top popup twice (each step what
/// [`PopupStack::toggle_confirm`] does) gives back the stack.
pub proof fn lemma_toggle_twice(s0: Seq<PopupKind>, s1: Seq<PopupKind>, s2: Seq<PopupKind>)
    requires
        s0.len() == 0 ==> s1 == s0,
        s0.len() > 0 ==> s1 == s0.update(s0.len() - 1, toggled(s0.last())),
        s1.len() == 0 ==> s2 == s1,
        s1.len() > 0 ==> s2 == s1.update(s1.len() - 1, toggled(s1.last())),
    ensures
        s2 == s0,
{
    if s0.len() > 0 {
        assert(toggled(toggled(s0.last())) == s0.last());
        assert(s2 =~= s0);
    }
}

/// Scrolling leaves a popup that cannot scroll as it was, and keeps the kind
/// of one that can.
pub proof fn lemma_scroll_keeps_kind(p: PopupKind, delta: int)
    ensures
        !(p is Detail || p is HelpOverlay || p is EventDetail) ==> scrolled(p, delta) == p,
        p is Detail ==> scrolled(p, delta) is Detail,
        p is HelpOverlay ==> scrolled(p, delta) is HelpOverlay,
        p is EventDetail ==> scrolled(p, delta) is EventDetail,
{
}

/// The scroll offset `scroll + delta` held within `0..=u16::MAX`.
pub open spec fn bounded_scroll(scroll: u16, delta: int) -> int {
    if scroll + delta < 0 {
        0
    } else if scroll + delta > 65535 {
        65535
    } else {
        scroll + delta
    }
}

/// Scrolling a scrollable popup moves its offset by `delta`, held within
/// `0..=u16::MAX`, and keeps everything else it shows.
pub proof fn lemma_scroll_moves_offset(p: PopupKind, delta: int)
    ensures
        p matches PopupKind::HelpOverlay { entries, scroll } ==> scrolled(p, delta) matches PopupKind::HelpOverlay {
            entries: e2,
            scroll: s2,
        } && e2 == entries && s2 as int == bounded_scroll(scroll, delta),
        p matches PopupKind::Detail { title, content, scroll } ==> scrolled(p, delta) matches PopupKind::Detail {
            title: t2,
            content: c2,
            scroll: s2,
        } && t2 == title && c2 == content && s2 as int == bounded_scroll(scroll, delta),
        p matches PopupKind::EventDetail {
            title,
            event_type,
            payload_decoded,
            payload_raw,
            related_event_ids,
            scroll,
        } ==> scrolled(p, delta) matches PopupKind::EventDetail {
            title: t2,
            event_type: y2,
            payload_decoded: d2,
            payload_raw: w2,
            related_event_ids: i2,
            scroll: s2,
        } && t2 == title && y2 == event_type && d2 == payload_decoded && w2 == payload_raw && i2
            == related_event_ids && s2 as int == bounded_scroll(scroll, delta),
{
}

/// Scrolling a stack whose top popup is the help overlay (the step being what
/// [`PopupStack::scroll_current`] does) leaves the help overlay on top with
/// the same entries and its offset moved by `delta` within `0..=u16::MAX`;
/// the popups below are untouched.
pub proof fn lemma_scroll_help_overlay(
    s0: Seq<PopupKind>,
    s1: Seq<PopupKind>,
    entries: Vec<(String, String)>,
    scroll: u16,
    delta: i16,
)
    requires
        s0.len() > 0,
        s0.last() == (PopupKind::HelpOverlay { entries, scroll }),
        s1 == s0.update(s0.len() - 1, scrolled(s0.last(), delta as int)),
    ensures
        s1.len() == s0.len(),
        s1.drop_last() == s0.drop_last(),
        s1.last() matches PopupKind::HelpOverlay { entries: e2, scroll: s2 } && e2 == entries && s2 as int
            == bounded_scroll(scroll, delta as int),
{
    lemma_scroll_moves_offset(s0.last(), delta as int);
    assert(s1.drop_last() =~= s0.drop_last());
}

} // verus!
