//! The panel table: which panels exist, how they slide in and where they
//! stand when open.
//!
//! Pixel geometry is computed by the application from these decisions; the
//! library fixes the discrete part of the layout (kind, direction, open
//! slot and the identifier of every panel).
use vstd::prelude::*;

verus! {

/// Direction in which a side panel slides onto the screen.
#[derive(Clone, Copy, PartialEq, Eq, Structural, Debug)]
pub enum PanelDirection {
    /// Anchored to the left screen edge, slides to the right.
    LeftToRight,
    /// Anchored to the right screen edge, slides to the left.
    RightToLeft,
}

/// The two kinds of panels: a single-width side panel, or a double-width
/// panel that is always anchored on the left.
#[derive(Clone, Copy, PartialEq, Eq, Structural, Debug)]
pub enum PanelKind {
    Side,
    Double,
}

/// One of the two resting places of a panel window (or of the panel's
/// animated rectangle inside its window).
#[derive(Clone, Copy, PartialEq, Eq, Structural, Debug)]
pub enum Place {
    Open,
    Closed,
}

/// The discrete description of one panel of the layout.
///
/// `open_slot` counts panel widths from the panel's anchor edge: a left
/// panel in slot `k` opens `k` widths from the left edge, a right panel in
/// slot `k` opens so that its left border is `k` widths from the right edge,
/// and a double panel in slot `k` opens `k` single widths from the left edge.
#[derive(Clone, Copy, PartialEq, Eq, Structural, Debug)]
pub struct PanelSlot {
    pub id: i32,
    pub kind: PanelKind,
    pub direction: PanelDirection,
    pub open_slot: u32,
}

/// Number of panels in the layout.
pub const PANEL_COUNT: usize = 12;

/// Index in the layout of the configuration that the web panel shares.
pub const WEB_PANEL_LAYOUT_INDEX: usize = 10;

/// Identifier of the web panel.
pub const WEB_PANEL_ID: i32 = 23;

pub open spec fn slot(id: i32, kind: PanelKind, direction: PanelDirection, open_slot: u32) -> PanelSlot {
    PanelSlot { id, kind, direction, open_slot }
}

/// The layout: five left side panels (ids 1 to 5), three right side panels
/// (ids 8, 7 and 6, from the right edge inwards), and four double panels
/// (ids 11 to 14).
pub open spec fn spec_panel_layout() -> Seq<PanelSlot> {
    seq![
        slot(1, PanelKind::Side, PanelDirection::LeftToRight, 0),
        slot(2, PanelKind::Side, PanelDirection::LeftToRight, 1),
        slot(3, PanelKind::Side, PanelDirection::LeftToRight, 2),
        slot(4, PanelKind::Side, PanelDirection::LeftToRight, 3),
        slot(5, PanelKind::Side, PanelDirection::LeftToRight, 4),
        slot(8, PanelKind::Side, PanelDirection::RightToLeft, 1),
        slot(7, PanelKind::Side, PanelDirection::RightToLeft, 2),
        slot(6, PanelKind::Side, PanelDirection::RightToLeft, 3),
        slot(11, PanelKind::Double, PanelDirection::LeftToRight, 0),
        slot(12, PanelKind::Double, PanelDirection::LeftToRight, 1),
        slot(13, PanelKind::Double, PanelDirection::LeftToRight, 2),
        slot(14, PanelKind::Double, PanelDirection::LeftToRight, 3),
    ]
}

/// Returns the panel table, in the order in which the application builds
/// the panel configurations.
pub fn panel_layout() -> (layout: Vec<PanelSlot>)
    ensures
        layout@ == spec_panel_layout(),
{
    let mut layout: Vec<PanelSlot> = Vec::new();
    layout.push(PanelSlot { id: 1, kind: PanelKind::Side, direction: PanelDirection::LeftToRight, open_slot: 0 });
    layout.push(PanelSlot { id: 2, kind: PanelKind::Side, direction: PanelDirection::LeftToRight, open_slot: 1 });
    layout.push(PanelSlot { id: 3, kind: PanelKind::Side, direction: PanelDirection::LeftToRight, open_slot: 2 });
    layout.push(PanelSlot { id: 4, kind: PanelKind::Side, direction: PanelDirection::LeftToRight, open_slot: 3 });
    layout.push(PanelSlot { id: 5, kind: PanelKind::Side, direction: PanelDirection::LeftToRight, open_slot: 4 });
    layout.push(PanelSlot { id: 8, kind: PanelKind::Side, direction: PanelDirection::RightToLeft, open_slot: 1 });
    layout.push(PanelSlot { id: 7, kind: PanelKind::Side, direction: PanelDirection::RightToLeft, open_slot: 2 });
    layout.push(PanelSlot { id: 6, kind: PanelKind::Side, direction: PanelDirection::RightToLeft, open_slot: 3 });
    layout.push(PanelSlot { id: 11, kind: PanelKind::Double, direction: PanelDirection::LeftToRight, open_slot: 0 });
    layout.push(PanelSlot { id: 12, kind: PanelKind::Double, direction: PanelDirection::LeftToRight, open_slot: 1 });
    layout.push(PanelSlot { id: 13, kind: PanelKind::Double, direction: PanelDirection::LeftToRight, open_slot: 2 });
    layout.push(PanelSlot { id: 14, kind: PanelKind::Double, direction: PanelDirection::LeftToRight, open_slot: 3 });
    assert(layout@ =~= spec_panel_layout());
    layout
}

/// How a side panel casts its shadow: the sign of the shadow's horizontal
/// offset (`1` to the right, `-1` to the left) and whether the panel is a
/// right-hand panel.
pub open spec fn spec_side_panel_shadow(direction: PanelDirection) -> (i8, bool) {
    match direction {
        PanelDirection::LeftToRight => (1i8, false),
        PanelDirection::RightToLeft => (-1i8, true),
    }
}

/// The shadow placement of a side panel that slides in `direction`.
pub fn side_panel_shadow(direction: PanelDirection) -> (placement: (i8, bool))
    ensures
        placement == spec_side_panel_shadow(direction),
        placement.1 <==> direction == PanelDirection::RightToLeft,
{
    match direction {
        PanelDirection::LeftToRight => (1, false),
        PanelDirection::RightToLeft => (-1, true),
    }
}

/// Every panel of the layout has its own identifier.
pub proof fn lemma_layout_ids_distinct()
    ensures
        forall|i: int, j: int|
            0 <= i < j < spec_panel_layout().len() ==> (#[trigger] spec_panel_layout()[i]).id
                != (#[trigger] spec_panel_layout()[j]).id,
{
}

/// Two side panels anchored on the same edge never open into the same slot,
/// so open side panels never cover each other.
pub proof fn lemma_side_slots_distinct()
    ensures
        forall|i: int, j: int|
            0 <= i < j < spec_panel_layout().len() && (#[trigger] spec_panel_layout()[i]).kind
                == PanelKind::Side && (#[trigger] spec_panel_layout()[j]).kind == PanelKind::Side
                && spec_panel_layout()[i].direction == spec_panel_layout()[j].direction
                ==> spec_panel_layout()[i].open_slot != spec_panel_layout()[j].open_slot,
{
}

/// Double panels always slide in from the left, and right-hand side panels
/// never open flush with the right edge (their slot is at least one width).
pub proof fn lemma_layout_anchors()
    ensures
        forall|i: int|
            0 <= i < spec_panel_layout().len() ==> {
                let s = #[trigger] spec_panel_layout()[i];
                &&& s.kind == PanelKind::Double ==> s.direction == PanelDirection::LeftToRight
                &&& s.direction == PanelDirection::RightToLeft ==> s.open_slot >= 1
            },
{
}

} // verus!
