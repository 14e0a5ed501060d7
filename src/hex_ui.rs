use vstd::prelude::*;

use crate::region::Region;
use crate::view::ViewportRect;

verus! {

/// Whether the hex interface moves the view or edits bytes.
#[derive(Clone, Copy, Debug, PartialEq, Eq, Structural)]
pub enum InteractMode {
    View,
    Edit,
}

/// State of the hex interface, apart from the overlaid widgets.
///
/// Layouts and views are named by the keys of the collections that hold
/// them, as plain numbers.
#[derive(Clone, Copy, Debug, PartialEq, Eq, Structural)]
pub struct HexUi {
    /// "a" point of selection. Could be smaller or larger than "b".
    pub select_a: Option<usize>,
    /// "b" point of selection. Could be smaller or larger than "a".
    pub select_b: Option<usize>,
    pub interact_mode: InteractMode,
    /// The layout shown, if any
    pub current_layout: Option<u64>,
    pub focused_view: Option<u64>,
    /// The rectangle area that's available for the hex interface
    pub hex_iface_rect: ViewportRect,
    /// Whether to scissor views when drawing them. Useful to disable when debugging rendering.
    pub scissor_views: bool,
    /// When alt is being held, it shows things like names of views as overlays
    pub show_alt_overlay: bool,
}

/// What a context menu opened on.
#[derive(Clone, Copy, Debug, PartialEq, Eq, Structural)]
pub enum ContextMenuData {
    /// A byte of a view: the view's key and the byte's offset.
    ViewByte { view: u64, byte_off: usize },
}

impl Default for HexUi {
    fn default() -> (r: HexUi)
        ensures
            r == (HexUi {
                select_a: None,
                select_b: None,
                interact_mode: InteractMode::View,
                current_layout: None,
                focused_view: None,
                hex_iface_rect: ViewportRect { x: 0, y: 0, w: 0, h: 0 },
                scissor_views: true,
                show_alt_overlay: false,
            }),
    {
        HexUi {
            scissor_views: true,
            interact_mode: InteractMode::View,
            focused_view: None,
            select_a: None,
            select_b: None,
            hex_iface_rect: ViewportRect { x: 0, y: 0, w: 0, h: 0 },
            show_alt_overlay: false,
            current_layout: None,
        }
    }
}

impl HexUi {
    /// The selected bytes, from the lower of the two selection points to
    /// the higher, both included; nothing unless both points are set.
    pub fn selection(&self) -> (r: Option<Region>)
        ensures
            match (self.select_a, self.select_b) {
                (Some(a), Some(b)) => r == Some(
                    if a <= b {
                        Region { begin: a, end: b }
                    } else {
                        Region { begin: b, end: a }
                    },
                ),
                _ => r is None,
            },
            r matches Some(s) ==> s.wf(),
    {
        match (self.select_a, self.select_b) {
            (Some(a), Some(b)) => {
                if a <= b {
                    Some(Region { begin: a, end: b })
                } else {
                    Some(Region { begin: b, end: a })
                }
            },
            _ => None,
        }
    }
}

} // verus!
