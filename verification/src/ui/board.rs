//! The block that shows the board.

use crate::display::DisplayStop;
use crate::handler::{can_scroll, is_scrollable, scroll_nav, scrolled, KeyEvent, KeyHandler};
use crate::ui::widget::{Cursor, WidgetData, WidgetState};
use vstd::prelude::*;

verus! {

/// The lines of the board. Its key is the identifier of the trip that was
/// chosen.
pub struct Board {
    pub data: WidgetData<DisplayStop, u32, Cursor>,
}

impl Default for Board {
    fn default() -> (r: Board)
        ensures
            r.data.items@.len() == 0,
            r.data.state.selection() is None,
            r.data.changed,
            r.data.key == 0,
    {
        Board { data: WidgetData::new(0) }
    }
}

impl KeyHandler for Board {
    open spec fn accepts(&self, event: KeyEvent) -> bool {
        can_scroll(self.data, event.code)
    }

    fn can_handle(&self, event: &KeyEvent) -> (r: bool) {
        is_scrollable(&self.data, &event.code)
    }

    /// Scrolls the board, or chooses the trip under the cursor.
    fn handle_key(&mut self, event: &KeyEvent)
        ensures
            scrolled(old(self).data, final(self).data, event.code),
    {
        scroll_nav(&mut self.data, &event.code);
    }
}

} // verus!
