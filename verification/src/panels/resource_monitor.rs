//! Resource monitor panel: CPU, memory, disk and network sections, each of
//! which can be collapsed to its title line.
use vstd::prelude::*;
use crate::input::{KeyCode, KeyEvent};
use crate::types::{PanelId, TuiCommand};

verus! {

/// Index of the last section (CPU 0, memory 1, disk 2, network 3).
pub const LAST_SECTION: usize = 3;

/// Samples kept by each trend window.
pub const DEFAULT_TREND_WINDOW: usize = 300;

/// Samples averaged by the trend smoothing filter.
pub const FILTER_WINDOW: usize = 5;

/// Section selection, collapsed sections and whether trend charts are drawn.
#[derive(Debug, PartialEq, Eq)]
pub struct ResourceMonitorPanel {
    selected: usize,
    cpu_collapsed: bool,
    mem_collapsed: bool,
    disk_collapsed: bool,
    net_collapsed: bool,
    enable_trend_charts: bool,
}

impl ResourceMonitorPanel {
    /// The selection is one of the four sections.
    #[verifier::type_invariant]
    spec fn section_ok(self) -> bool {
        self.selected <= LAST_SECTION
    }

    /// The selected section.
    pub closed spec fn sel(&self) -> usize {
        self.selected
    }

    /// Whether section `i` is collapsed.
    pub closed spec fn collapsed_spec(&self, i: int) -> bool {
        if i == 0 {
            self.cpu_collapsed
        } else if i == 1 {
            self.mem_collapsed
        } else if i == 2 {
            self.disk_collapsed
        } else if i == 3 {
            self.net_collapsed
        } else {
            false
        }
    }

    /// Whether trend charts are drawn.
    pub closed spec fn trends(&self) -> bool {
        self.enable_trend_charts
    }

    /// A panel on the CPU section, nothing collapsed, trends off.
    pub fn new() -> (r: Self)
        ensures
            r.sel() == 0,
            forall|i: int| !r.collapsed_spec(i),
            !r.trends(),
    {
        Self::with_trends(false)
    }

    /// A panel on the CPU section, nothing collapsed, trends as given.
    pub fn with_trends(enabled: bool) -> (r: Self)
        ensures
            r.sel() == 0,
            forall|i: int| !r.collapsed_spec(i),
            r.trends() == enabled,
    {
        ResourceMonitorPanel {
            selected: 0,
            cpu_collapsed: false,
            mem_collapsed: false,
            disk_collapsed: false,
            net_collapsed: false,
            enable_trend_charts: enabled,
        }
    }

    /// Whether trend charts are drawn.
    pub fn trends_enabled(&self) -> (r: bool)
        ensures
            r == self.trends(),
    {
        self.enable_trend_charts
    }

    /// This panel's identity.
    pub fn id(&self) -> (r: PanelId)
        ensures
            r == PanelId::ResourceMonitor,
    {
        PanelId::ResourceMonitor
    }

    /// The selected section.
    pub fn selected(&self) -> (r: usize)
        ensures
            r == self.sel(),
            r <= LAST_SECTION,
    {
        proof {
            use_type_invariant(self);
        }
        self.selected
    }

    /// Whether section `section` is collapsed.
    pub fn is_collapsed(&self, section: usize) -> (r: bool)
        ensures
            r == self.collapsed_spec(section as int),
    {
        match section {
            0 => self.cpu_collapsed,
            1 => self.mem_collapsed,
            2 => self.disk_collapsed,
            3 => self.net_collapsed,
            _ => false,
        }
    }

    /// Focus changes nothing.
    pub fn focus(&mut self, focused: bool)
        ensures
            *final(self) == *old(self),
    {
    }

    /// Up/`k` and Down/`j` move between the four sections (not past either end),
    /// Enter collapses or expands the selected section; other keys are ignored.
    pub fn handle_key(&mut self, key: KeyEvent) -> (r: Option<TuiCommand>)
        ensures
            r is None,
            final(self).trends() == old(self).trends(),
            final(self).sel() == (if key.code == KeyCode::Up || key.code == KeyCode::Char('k') {
                if old(self).sel() > 0 { old(self).sel() - 1 } else { 0 }
            } else if key.code == KeyCode::Down || key.code == KeyCode::Char('j') {
                if old(self).sel() < LAST_SECTION { old(self).sel() + 1 } else { old(self).sel() as int }
            } else {
                old(self).sel() as int
            }),
            forall|i: int|
                final(self).collapsed_spec(i) == (if key.code == KeyCode::Enter && i == old(self).sel() {
                    !old(self).collapsed_spec(i)
                } else {
                    old(self).collapsed_spec(i)
                }),
    {
        proof {
            use_type_invariant(&*self);
        }
        match key.code {
            KeyCode::Up | KeyCode::Char('k') => {
                self.selected = self.selected.saturating_sub(1);
            },
            KeyCode::Down | KeyCode::Char('j') => {
                if self.selected < LAST_SECTION {
                    self.selected = self.selected + 1;
                }
            },
            KeyCode::Enter => {
                match self.selected {
                    0 => {
                        self.cpu_collapsed = !self.cpu_collapsed;
                    },
                    1 => {
                        self.mem_collapsed = !self.mem_collapsed;
                    },
                    2 => {
                        self.disk_collapsed = !self.disk_collapsed;
                    },
                    _ => {
                        self.net_collapsed = !self.net_collapsed;
                    },
                }
            },
            _ => {},
        }
        None
    }
}

} // verus!
