//! Memory panel: memory subsystem metrics.
use vstd::prelude::*;
use crate::input::KeyEvent;
use crate::render::FOOTER_TEXT;
use crate::text::{dec, push_line, push_str, push_u64, string_of, tone_views, LineTone, ToneLine};
use crate::types::{PanelId, TuiCommand};

verus! {

/// The metrics text of the panel; the hit rate and the compression ratio
/// come drawn, as percentages.
pub open spec fn memory_info_spec(
    hit_rate: Seq<char>,
    evictions: u64,
    context_window_size: u64,
    compressed_ratio: Seq<char>,
    cache_hits: u64,
    cache_misses: u64,
    tier: Seq<char>,
) -> Seq<Seq<char>> {
    seq![
        "Cache Hit Rate: "@ + hit_rate + "%"@,
        "Evictions: "@ + dec(evictions as nat),
        "Context Window: "@ + dec(context_window_size as nat) + " bytes"@,
        "Compressed Ratio: "@ + compressed_ratio + "%"@,
        "Cache Hits: "@ + dec(cache_hits as nat),
        "Cache Misses: "@ + dec(cache_misses as nat),
        "Tier: "@ + tier,
        Seq::empty(),
        FOOTER_TEXT@,
    ]
}

/// MemoryPanel has no state of its own: it shows what the application hands it.
#[derive(Debug, Default, Clone, Copy, PartialEq, Eq)]
pub struct MemoryPanel;

impl MemoryPanel {
    /// A new panel.
    pub fn new() -> (r: Self)
        ensures
            r == MemoryPanel,
    {
        MemoryPanel
    }

    /// This panel's identity.
    pub fn id(&self) -> (r: PanelId)
        ensures
            r == PanelId::Memory,
    {
        PanelId::Memory
    }

    /// The metrics text of the panel, every line plain: see [`memory_info_spec`].
    pub fn info_lines(
        hit_rate: &str,
        evictions: u64,
        context_window_size: u64,
        compressed_ratio: &str,
        cache_hits: u64,
        cache_misses: u64,
        tier: &str,
    ) -> (r: Vec<ToneLine>)
        ensures
            tone_views(r@) == memory_info_spec(
                hit_rate@,
                evictions,
                context_window_size,
                compressed_ratio@,
                cache_hits,
                cache_misses,
                tier@,
            ).map_values(|t: Seq<char>| (t, LineTone::Plain)),
    {
        let mut lines: Vec<ToneLine> = Vec::new();
        let mut s = string_of("Cache Hit Rate: ");
        push_str(&mut s, hit_rate);
        push_str(&mut s, "%");
        push_line(&mut lines, s, LineTone::Plain);
        let mut s = string_of("Evictions: ");
        push_u64(&mut s, evictions);
        push_line(&mut lines, s, LineTone::Plain);
        let mut s = string_of("Context Window: ");
        push_u64(&mut s, context_window_size);
        push_str(&mut s, " bytes");
        push_line(&mut lines, s, LineTone::Plain);
        let mut s = string_of("Compressed Ratio: ");
        push_str(&mut s, compressed_ratio);
        push_str(&mut s, "%");
        push_line(&mut lines, s, LineTone::Plain);
        let mut s = string_of("Cache Hits: ");
        push_u64(&mut s, cache_hits);
        push_line(&mut lines, s, LineTone::Plain);
        let mut s = string_of("Cache Misses: ");
        push_u64(&mut s, cache_misses);
        push_line(&mut lines, s, LineTone::Plain);
        let mut s = string_of("Tier: ");
        push_str(&mut s, tier);
        push_line(&mut lines, s, LineTone::Plain);
        push_line(&mut lines, String::new(), LineTone::Plain);
        push_line(&mut lines, string_of(FOOTER_TEXT), LineTone::Plain);
        proof {
            assert(tone_views(lines@) =~= memory_info_spec(
                hit_rate@,
                evictions,
                context_window_size,
                compressed_ratio@,
                cache_hits,
                cache_misses,
                tier@,
            ).map_values(|t: Seq<char>| (t, LineTone::Plain)));
        }
        lines
    }

    /// Display-only: every key is ignored.
    pub fn handle_key(&mut self, key: KeyEvent) -> (r: Option<TuiCommand>)
        ensures
            r is None,
    {
        None
    }
}

} // verus!
