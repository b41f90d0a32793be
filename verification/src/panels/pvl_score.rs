//! PVL score panel: the nine process-verification dimensions and their scores.
use vstd::prelude::*;
use crate::input::{KeyCode, KeyEvent};
use crate::types::{PanelId, TuiCommand};

verus! {

/// Index of the last of the nine dimensions.
pub const LAST_DIMENSION: usize = 8;

/// PVL panel state: the selected dimension.
#[derive(Debug, Clone, Copy, PartialEq, Eq)]
pub struct PvlScorePanel {
    selected: usize,
}

impl Default for PvlScorePanel {
    /// The same as [`PvlScorePanel::new`].
    fn default() -> (r: Self)
        ensures
            r.sel() == 0,
    {
        PvlScorePanel::new()
    }
}

impl PvlScorePanel {
    /// The selection is one of the nine dimensions, whatever keys came before.
    #[verifier::type_invariant]
    spec fn dimension_ok(self) -> bool {
        self.selected <= LAST_DIMENSION
    }

    /// The selected dimension.
    pub closed spec fn sel(&self) -> usize {
        self.selected
    }

    /// A panel on the first dimension.
    pub fn new() -> (r: Self)
        ensures
            r.sel() == 0,
    {
        PvlScorePanel { selected: 0 }
    }

    /// This panel's identity.
    pub fn id(&self) -> (r: PanelId)
        ensures
            r == PanelId::PvlScore,
    {
        PanelId::PvlScore
    }

    /// The selected dimension, always one of the nine.
    pub fn selected(&self) -> (r: usize)
        ensures
            r == self.sel(),
            r <= LAST_DIMENSION,
    {
        proof {
            use_type_invariant(self);
        }
        self.selected
    }

    /// Up/`k` moves to the previous dimension (not past the first), Down/`j` to
    /// the next one while the selection is before the last; other keys are ignored.
    pub fn handle_key(&mut self, key: KeyEvent) -> (r: Option<TuiCommand>)
        ensures
            r is None,
            final(self).sel() == (if key.code == KeyCode::Up || key.code == KeyCode::Char('k') {
                if old(self).sel() > 0 { old(self).sel() - 1 } else { 0 }
            } else if (key.code == KeyCode::Down || key.code == KeyCode::Char('j')) && old(self).sel()
                < LAST_DIMENSION {
                old(self).sel() + 1
            } else {
                old(self).sel() as int
            }),
    {
        proof {
            use_type_invariant(&*self);
        }
        match key.code {
            KeyCode::Up | KeyCode::Char('k') => {
                self.selected = self.selected.saturating_sub(1);
            },
            KeyCode::Down | KeyCode::Char('j') => {
                if self.selected < LAST_DIMENSION {
                    self.selected = self.selected + 1;
                }
            },
            _ => {},
        }
        None
    }

    /// Jumps to the first dimension.
    pub fn scroll_to_top(&mut self)
        ensures
            final(self).sel() == 0,
    {
        self.selected = 0;
    }

    /// Jumps to the last dimension.
    pub fn scroll_to_bottom(&mut self)
        ensures
            final(self).sel() == LAST_DIMENSION,
    {
        self.selected = LAST_DIMENSION;
    }

    /// Mouse events are ignored.
    pub fn handle_mouse(&mut self, kind: crate::input::MouseEventKind) -> (r: Option<TuiCommand>)
        ensures
            r is None,
            *final(self) == *old(self),
    {
        None
    }
}

/// Keys keep a selection that starts within the nine dimensions within them.
pub proof fn lemma_pvl_selection_in_range(before: usize, after: usize, key: KeyEvent)
    requires
        before <= LAST_DIMENSION,
        after == (if key.code == KeyCode::Up || key.code == KeyCode::Char('k') {
            if before > 0 { before - 1 } else { 0 }
        } else if (key.code == KeyCode::Down || key.code == KeyCode::Char('j')) && before < LAST_DIMENSION {
            before + 1
        } else {
            before as int
        }),
    ensures
        after <= LAST_DIMENSION,
{
}

} // verus!
