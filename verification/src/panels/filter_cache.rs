//! Filters over the event list: the panel title that lists the active filters,
//! and a cache of filtered indices keyed on the event set and the filters.
use vstd::prelude::*;
use crate::text::{join, push_str, string_of, views};

verus! {

/// The `label:value` pieces of the active filters, in keyword, topic, level order.
pub open spec fn filter_parts(
    labels: (Seq<char>, Seq<char>, Seq<char>),
    keyword: Option<Seq<char>>,
    topic: Option<Seq<char>>,
    level: Option<Seq<char>>,
) -> Seq<Seq<char>> {
    (match keyword {
        Some(k) => seq![labels.0 + ":"@ + k],
        None => Seq::empty(),
    }) + (match topic {
        Some(t) => seq![labels.1 + ":"@ + t],
        None => Seq::empty(),
    }) + (match level {
        Some(l) => seq![labels.2 + ":"@ + l],
        None => Seq::empty(),
    })
}

/// ` base ` alone, or ` base [p1 p2 ...] ` with the active filter pieces.
pub open spec fn filter_title_spec(base: Seq<char>, parts: Seq<Seq<char>>) -> Seq<char> {
    if parts.len() == 0 {
        " "@ + base + " "@
    } else {
        " "@ + base + " ["@ + join(parts, " "@) + "] "@
    }
}

/// The view of an optional string.
pub open spec fn opt_view(o: Option<&str>) -> Option<Seq<char>> {
    match o {
        Some(s) => Some(s@),
        None => None,
    }
}

/// The title ` base ` with the active filters appended as `label:value` pieces.
pub fn filter_title(
    base: &str,
    labels: (&str, &str, &str),
    keyword: Option<&str>,
    topic: Option<&str>,
    level: Option<&str>,
) -> (r: String)
    ensures
        r@ == filter_title_spec(
            base@,
            filter_parts(
                (labels.0@, labels.1@, labels.2@),
                opt_view(keyword),
                opt_view(topic),
                opt_view(level),
            ),
        ),
{
    let mut parts: Vec<String> = Vec::new();
    match keyword {
        Some(k) => {
            let mut p = string_of(labels.0);
            push_str(&mut p, ":");
            push_str(&mut p, k);
            parts.push(p);
        },
        None => {},
    }
    match topic {
        Some(t) => {
            let mut p = string_of(labels.1);
            push_str(&mut p, ":");
            push_str(&mut p, t);
            parts.push(p);
        },
        None => {},
    }
    match level {
        Some(l) => {
            let mut p = string_of(labels.2);
            push_str(&mut p, ":");
            push_str(&mut p, l);
            parts.push(p);
        },
        None => {},
    }
    proof {
        assert(views(parts@) =~= filter_parts(
            (labels.0@, labels.1@, labels.2@),
            opt_view(keyword),
            opt_view(topic),
            opt_view(level),
        ));
    }
    let mut title = string_of(" ");
    push_str(&mut title, base);
    if parts.len() == 0 {
        push_str(&mut title, " ");
    } else {
        push_str(&mut title, " [");
        let joined = crate::text::join_strings(&parts, " ");
        push_str(&mut title, joined.as_str());
        push_str(&mut title, "] ");
    }
    title
}

/// Whether two optional strings are equal.
fn same_opt(a: &Option<String>, b: &Option<String>) -> (r: bool)
    ensures
        r == (string_opt_view(*a) == string_opt_view(*b)),
{
    match (a, b) {
        (Some(x), Some(y)) => *x == *y,
        (None, None) => true,
        _ => false,
    }
}

/// The view of an optional owned string.
pub open spec fn string_opt_view(o: Option<String>) -> Option<Seq<char>> {
    match o {
        Some(s) => Some(s@),
        None => None,
    }
}

/// Filtered event indices, remembered together with the identity of the event
/// set and the filters they were computed for.
#[derive(Debug, Clone)]
pub struct FilterCache {
    events_id: usize,
    keyword: Option<String>,
    topic: Option<String>,
    level: Option<String>,
    indices: Vec<usize>,
}

impl Default for FilterCache {
    /// The same as [`FilterCache::new`].
    fn default() -> (r: Self)
        ensures
            r.key() == (0usize, None::<Seq<char>>, None::<Seq<char>>, None::<Seq<char>>),
            r.cached().len() == 0,
    {
        FilterCache::new()
    }
}

impl FilterCache {
    /// The key the cached indices belong to.
    pub closed spec fn key(&self) -> (usize, Option<Seq<char>>, Option<Seq<char>>, Option<Seq<char>>) {
        (
            self.events_id,
            string_opt_view(self.keyword),
            string_opt_view(self.topic),
            string_opt_view(self.level),
        )
    }

    /// The cached indices.
    pub closed spec fn cached(&self) -> Seq<usize> {
        self.indices@
    }

    /// An empty cache for no event set.
    pub fn new() -> (r: Self)
        ensures
            r.key() == (0usize, None::<Seq<char>>, None::<Seq<char>>, None::<Seq<char>>),
            r.cached().len() == 0,
    {
        FilterCache { events_id: 0, keyword: None, topic: None, level: None, indices: Vec::new() }
    }

    /// Caching is on once the application has taken a snapshot (revision not 0).
    pub fn enabled(last_snapshot_revision: u64) -> (r: bool)
        ensures
            r == (last_snapshot_revision != 0),
    {
        last_snapshot_revision != 0
    }

    /// The identity of an event set: the address its owner reports for it.
    pub fn events_id(events_address: usize) -> (r: usize)
        ensures
            r == events_address,
    {
        events_address
    }

    /// Whether the cached indices belong to this event set and these filters.
    pub fn matches(
        &self,
        events_id: usize,
        keyword: &Option<String>,
        topic: &Option<String>,
        level: &Option<String>,
    ) -> (r: bool)
        ensures
            r == (self.key() == (
                events_id,
                string_opt_view(*keyword),
                string_opt_view(*topic),
                string_opt_view(*level),
            )),
    {
        self.events_id == events_id && same_opt(&self.keyword, keyword) && same_opt(&self.topic, topic)
            && same_opt(&self.level, level)
    }

    /// The cached indices.
    pub fn indices(&self) -> (r: &Vec<usize>)
        ensures
            r@ == self.cached(),
    {
        &self.indices
    }

    /// Remembers `indices` for this event set and these filters.
    pub fn update(
        &mut self,
        events_id: usize,
        keyword: &Option<String>,
        topic: &Option<String>,
        level: &Option<String>,
        indices: Vec<usize>,
    )
        ensures
            final(self).key() == (
                events_id,
                string_opt_view(*keyword),
                string_opt_view(*topic),
                string_opt_view(*level),
            ),
            final(self).cached() == indices@,
    {
        self.events_id = events_id;
        self.keyword = clone_opt(keyword);
        self.topic = clone_opt(topic);
        self.level = clone_opt(level);
        self.indices = indices;
    }
}

fn clone_opt(o: &Option<String>) -> (r: Option<String>)
    ensures
        string_opt_view(r) == string_opt_view(*o),
{
    match o {
        Some(s) => Some(s.clone()),
        None => None,
    }
}

} // verus!
