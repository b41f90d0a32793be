//! Chat panel: the conversation with the assistant, following the newest
//! message until the user scrolls.
use vstd::prelude::*;
use crate::input::{KeyCode, KeyEvent};
use crate::text::{chars_of, join, push_str, string_of, string_push};
use crate::types::{PanelId, TuiCommand};

verus! {

/// Who wrote a chat message.
#[derive(Debug, Clone, Copy, PartialEq, Eq, Structural)]
pub enum ChatRole {
    User,
    Assistant,
}

/// One chat message.
#[derive(Debug, Clone, PartialEq, Eq)]
pub struct ChatMessage {
    pub role: ChatRole,
    pub content: String,
}

/// The pieces of `s` between newlines (one piece more than there are newlines).
pub open spec fn split_lines(s: Seq<char>) -> Seq<Seq<char>>
    decreases s.len(),
{
    if s.len() == 0 {
        seq![Seq::empty()]
    } else {
        let r = split_lines(s.drop_last());
        if s.last() == '\n' {
            r.push(Seq::empty())
        } else {
            r.update(r.len() - 1, r.last().push(s.last()))
        }
    }
}

pub(crate) proof fn lemma_split_lines_nonempty(s: Seq<char>)
    ensures
        split_lines(s).len() >= 1,
    decreases s.len(),
{
    if s.len() > 0 {
        lemma_split_lines_nonempty(s.drop_last());
    }
}

proof fn lemma_join_extend_last(parts: Seq<Seq<char>>, c: char)
    requires
        parts.len() >= 1,
    ensures
        join(parts.update(parts.len() - 1, parts.last().push(c)), "\n"@) == join(parts, "\n"@).push(c),
{
    let u = parts.update(parts.len() - 1, parts.last().push(c));
    if parts.len() >= 2 {
        assert(u.drop_last() =~= parts.drop_last());
        assert(join(parts.drop_last(), "\n"@) + "\n"@ + parts.last().push(c) =~= (join(
            parts.drop_last(),
            "\n"@,
        ) + "\n"@ + parts.last()).push(c));
    }
}

/// Splitting at newlines and joining with newlines gives back the text.
pub proof fn lemma_split_join(s: Seq<char>)
    ensures
        join(split_lines(s), "\n"@) == s,
    decreases s.len(),
{
    reveal_strlit("\n");
    if s.len() == 0 {
        assert(join(seq![Seq::<char>::empty()], "\n"@) =~= Seq::<char>::empty());
    } else {
        let d = s.drop_last();
        lemma_split_join(d);
        lemma_split_lines_nonempty(d);
        let r = split_lines(d);
        if s.last() == '\n' {
            let r2 = r.push(Seq::<char>::empty());
            assert(r2.drop_last() =~= r);
            assert(join(r2, "\n"@) =~= d + "\n"@ + Seq::<char>::empty());
            assert(d + "\n"@ + Seq::<char>::empty() =~= s);
        } else {
            lemma_join_extend_last(r, s.last());
            assert(d.push(s.last()) =~= s);
        }
    }
}

/// Role marker that starts the first line of a message.
pub open spec fn role_prefix(role: ChatRole) -> Seq<char> {
    match role {
        ChatRole::User => "▸ You  "@,
        ChatRole::Assistant => "◂ AI   "@,
    }
}

/// Lines of one message: the role marker before its first piece, an indent
/// before each further piece.
pub open spec fn message_lines(m: ChatMessage) -> Seq<Seq<char>> {
    let parts = split_lines(m.content@);
    Seq::new(
        parts.len(),
        |i: int|
            if i == 0 {
                role_prefix(m.role) + parts[0]
            } else {
                "       "@ + parts[i]
            },
    )
}

/// Lines of all messages, in order.
pub open spec fn chat_lines(ms: Seq<ChatMessage>) -> Seq<Seq<char>>
    decreases ms.len(),
{
    if ms.len() == 0 {
        Seq::empty()
    } else {
        chat_lines(ms.drop_last()) + message_lines(ms.last())
    }
}

/// The pieces of `s` between newlines.
pub(crate) fn split_newlines(s: &String) -> (r: Vec<String>)
    ensures
        crate::text::views(r@) == split_lines(s@),
{
    let cs = chars_of(s.as_str());
    let mut r: Vec<String> = Vec::new();
    let mut cur = String::new();
    let mut i: usize = 0;
    while i < cs.len()
        invariant
            i <= cs@.len(),
            cs@ == s@,
            crate::text::views(r@).push(cur@) == split_lines(s@.take(i as int)),
        decreases cs@.len() - i,
    {
        proof {
            assert(s@.take(i + 1).drop_last() =~= s@.take(i as int));
            lemma_split_lines_nonempty(s@.take(i as int));
        }
        let c = cs[i];
        if c == '\n' {
            let done = cur;
            cur = String::new();
            let ghost before = r@;
            r.push(done);
            proof {
                assert(crate::text::views(r@) =~= crate::text::views(before).push(done@));
            }
        } else {
            let ghost old_cur = cur@;
            string_push(&mut cur, c);
            proof {
                let pre = crate::text::views(r@);
                let prev = pre.push(old_cur);
                assert(s@.take(i + 1).last() == c);
                assert(prev.last() == old_cur);
                assert(pre.push(cur@) =~= prev.update(prev.len() - 1, prev.last().push(c)));
            }
        }
        i = i + 1;
    }
    proof {
        assert(s@.take(cs@.len() as int) =~= s@);
    }
    let ghost before = r@;
    r.push(cur);
    proof {
        assert(crate::text::views(r@) =~= crate::text::views(before).push(r@.last()@));
    }
    r
}

/// State of the conversation, shown in the panel's border.
#[derive(Debug, Clone, Copy, PartialEq, Eq, Structural)]
pub enum ChatStatus {
    Thinking,
    ToolExecuting,
    Idle,
}

/// Translated names of the conversation states.
#[derive(Debug, Clone, PartialEq, Eq)]
pub struct ChatStatusLabels {
    pub thinking: String,
    pub tool: String,
    pub idle: String,
}

/// The name of a conversation state.
pub open spec fn status_label_spec(status: ChatStatus, labels: ChatStatusLabels) -> Seq<char> {
    match status {
        ChatStatus::Thinking => labels.thinking@,
        ChatStatus::ToolExecuting => labels.tool@,
        ChatStatus::Idle => labels.idle@,
    }
}

/// Chat panel: scroll offset and whether it follows the newest line.
#[derive(Debug, Clone, PartialEq, Eq)]
pub struct ChatPanel {
    scroll_offset: usize,
    follow: bool,
}

impl Default for ChatPanel {
    /// A panel at the top, following the newest line.
    fn default() -> (r: Self)
        ensures
            r.offset() == 0,
            r.follows(),
    {
        ChatPanel::new()
    }
}

impl ChatPanel {
    /// The scroll offset.
    pub closed spec fn offset(&self) -> usize {
        self.scroll_offset
    }

    /// Whether the panel follows the newest line.
    pub closed spec fn follows(&self) -> bool {
        self.follow
    }

    /// A panel at the top, following the newest line.
    pub fn new() -> (r: Self)
        ensures
            r.offset() == 0,
            r.follows(),
    {
        ChatPanel { scroll_offset: 0, follow: true }
    }

    /// This panel's identity.
    pub fn id(&self) -> (r: PanelId)
        ensures
            r == PanelId::Chat,
    {
        PanelId::Chat
    }

    /// The name of a conversation state.
    pub fn status_label(status: ChatStatus, labels: &ChatStatusLabels) -> (r: &String)
        ensures
            r@ == status_label_spec(status, *labels),
    {
        match status {
            ChatStatus::Thinking => &labels.thinking,
            ChatStatus::ToolExecuting => &labels.tool,
            ChatStatus::Idle => &labels.idle,
        }
    }

    /// The border title: the panel's name, then the conversation state in brackets.
    pub fn border_title(name: &str, status: ChatStatus, labels: &ChatStatusLabels) -> (r: String)
        ensures
            r@ == name@ + " ["@ + status_label_spec(status, *labels) + "]"@,
    {
        let mut r = string_of(name);
        push_str(&mut r, " [");
        push_str(&mut r, Self::status_label(status, labels).as_str());
        push_str(&mut r, "]");
        r
    }

    /// The scroll offset.
    pub fn scroll_offset(&self) -> (r: usize)
        ensures
            r == self.offset(),
    {
        self.scroll_offset
    }

    /// Up/`k` and Down/`j` scroll by one line (saturating) and stop following;
    /// other keys are ignored.
    pub fn handle_key(&mut self, key: KeyEvent) -> (r: Option<TuiCommand>)
        ensures
            r is None,
            (key.code == KeyCode::Up || key.code == KeyCode::Char('k')) ==> !final(self).follows()
                && final(self).offset() == (if old(self).offset() > 0 {
                old(self).offset() - 1
            } else {
                0
            }),
            (key.code == KeyCode::Down || key.code == KeyCode::Char('j')) ==> !final(self).follows()
                && final(self).offset() == (if old(self).offset() < usize::MAX {
                old(self).offset() + 1
            } else {
                usize::MAX as int
            }),
            !(key.code == KeyCode::Up || key.code == KeyCode::Char('k') || key.code == KeyCode::Down
                || key.code == KeyCode::Char('j')) ==> *final(self) == *old(self),
    {
        match key.code {
            KeyCode::Up | KeyCode::Char('k') => {
                self.follow = false;
                self.scroll_offset = self.scroll_offset.saturating_sub(1);
            },
            KeyCode::Down | KeyCode::Char('j') => {
                self.follow = false;
                self.scroll_offset = self.scroll_offset.saturating_add(1);
            },
            _ => {},
        }
        None
    }

    /// Jumps to the top and stops following.
    pub fn scroll_to_top(&mut self)
        ensures
            final(self).offset() == 0,
            !final(self).follows(),
    {
        self.follow = false;
        self.scroll_offset = 0;
    }

    /// Follows the newest line again.
    pub fn scroll_to_bottom(&mut self)
        ensures
            final(self).follows(),
            final(self).offset() == old(self).offset(),
    {
        self.follow = true;
    }

    /// Fits the offset to `total` lines shown `visible` at a time: the last page
    /// when following, otherwise the offset capped at the last page.
    pub fn fit_scroll(&mut self, total: usize, visible: usize)
        ensures
            final(self).follows() == old(self).follows(),
            final(self).offset() == (if old(self).follows() {
                if total > visible { total - visible } else { 0 }
            } else {
                let max = if total > visible { total - visible } else { 0 };
                if old(self).offset() < max { old(self).offset() as int } else { max }
            }),
    {
        let max_offset = total.saturating_sub(visible);
        if self.follow {
            self.scroll_offset = max_offset;
        } else if self.scroll_offset > max_offset {
            self.scroll_offset = max_offset;
        }
    }

    /// The text lines of the conversation.
    pub fn content_lines(messages: &Vec<ChatMessage>) -> (r: Vec<String>)
        ensures
            crate::text::views(r@) == chat_lines(messages@),
    {
        let mut lines: Vec<String> = Vec::new();
        let mut m: usize = 0;
        while m < messages.len()
            invariant
                m <= messages@.len(),
                crate::text::views(lines@) == chat_lines(messages@.take(m as int)),
            decreases messages@.len() - m,
        {
            proof {
                assert(messages@.take(m + 1).drop_last() =~= messages@.take(m as int));
            }
            let msg = &messages[m];
            let parts = split_newlines(&msg.content);
            proof {
                lemma_split_lines_nonempty(msg.content@);
            }
            let ghost start = crate::text::views(lines@);
            let mut k: usize = 0;
            while k < parts.len()
                invariant
                    k <= parts@.len(),
                    crate::text::views(parts@) == split_lines(msg.content@),
                    crate::text::views(lines@) == start + message_lines(*msg).take(k as int),
                decreases parts@.len() - k,
            {
                let mut line = if k == 0 {
                    match msg.role {
                        ChatRole::User => string_of("▸ You  "),
                        ChatRole::Assistant => string_of("◂ AI   "),
                    }
                } else {
                    string_of("       ")
                };
                push_str(&mut line, parts[k].as_str());
                let ghost before = lines@;
                lines.push(line);
                proof {
                    assert(crate::text::views(parts@)[k as int] == parts@[k as int]@);
                    assert(message_lines(*msg)[k as int] == line@);
                    assert(message_lines(*msg).take(k + 1) =~= message_lines(*msg).take(k as int).push(line@));
                    assert(crate::text::views(lines@) =~= crate::text::views(before).push(line@));
                }
                k = k + 1;
            }
            proof {
                assert(message_lines(*msg).take(parts@.len() as int) =~= message_lines(*msg));
            }
            m = m + 1;
        }
        proof {
            assert(messages@.take(messages@.len() as int) =~= messages@);
        }
        lines
    }
}

} // verus!
