//! Crosshair state machine: mode, visibility and sync group.
//!
//! The controller knows nothing about the data series; positions in world
//! coordinates, and snapping to the nearest data point, are kept by the host.

use vstd::prelude::*;

verus! {

/// Crosshair interaction mode.
#[derive(Debug, Clone, Copy, PartialEq, Eq, Structural)]
pub enum CrosshairMode {
    /// Standard crosshair that follows the cursor.
    Normal,
    /// Snaps to the nearest data point within threshold.
    Magnetic,
    /// Crosshair not visible.
    Hidden,
    /// Crosshair position syncs across multiple chart panes.
    Sync,
    /// Crosshair visible across all panes at once.
    Global,
    /// User provides a custom position override.
    Custom,
}

/// Visibility after switching to `mode` from visibility `visible`: Hidden
/// hides, Custom keeps the current visibility, every other mode shows.
pub open spec fn visibility_after(mode: CrosshairMode, visible: bool) -> bool {
    if mode == CrosshairMode::Hidden {
        false
    } else if mode == CrosshairMode::Custom {
        visible
    } else {
        true
    }
}

/// Two sync groups sync when both are set and equal.
pub open spec fn groups_sync(a: Option<u32>, b: Option<u32>) -> bool {
    match (a, b) {
        (Some(x), Some(y)) => x == y,
        _ => false,
    }
}

/// Mode, visibility and sync group of a single chart's crosshair.
pub struct CrosshairState {
    mode: CrosshairMode,
    visible: bool,
    sync_group: Option<u32>,
}

impl CrosshairState {
    pub closed spec fn spec_mode(&self) -> CrosshairMode {
        self.mode
    }

    pub closed spec fn spec_visible(&self) -> bool {
        self.visible
    }

    pub closed spec fn spec_sync_group(&self) -> Option<u32> {
        self.sync_group
    }

    /// Normal mode, visible, in no sync group.
    pub fn new() -> (r: Self)
        ensures
            r.spec_mode() == CrosshairMode::Normal,
            r.spec_visible(),
            r.spec_sync_group() is None,
    {
        CrosshairState { mode: CrosshairMode::Normal, visible: true, sync_group: None }
    }

    /// Current mode.
    pub fn mode(&self) -> (r: CrosshairMode)
        ensures
            r == self.spec_mode(),
    {
        self.mode
    }

    /// Switch mode; Hidden hides the crosshair, Custom leaves the visibility
    /// as it is, and any other mode shows it.
    pub fn set_mode(&mut self, mode: CrosshairMode)
        ensures
            final(self).spec_mode() == mode,
            final(self).spec_visible() == visibility_after(mode, old(self).spec_visible()),
            final(self).spec_sync_group() == old(self).spec_sync_group(),
    {
        self.mode = mode;
        if mode == CrosshairMode::Hidden {
            self.visible = false;
        } else if mode != CrosshairMode::Custom {
            self.visible = true;
        }
    }

    /// Whether the position shown is the custom override (Custom mode) rather
    /// than the tracked one.
    pub fn uses_custom_position(&self) -> (r: bool)
        ensures
            r == (self.spec_mode() == CrosshairMode::Custom),
    {
        self.mode == CrosshairMode::Custom
    }

    /// Whether position updates may snap to the nearest data point (Magnetic mode).
    pub fn snaps_to_data(&self) -> (r: bool)
        ensures
            r == (self.spec_mode() == CrosshairMode::Magnetic),
    {
        self.mode == CrosshairMode::Magnetic
    }

    /// Is the crosshair visible?
    pub fn is_visible(&self) -> (r: bool)
        ensures
            r == self.spec_visible(),
    {
        self.visible
    }

    /// Set visibility.
    pub fn set_visible(&mut self, visible: bool)
        ensures
            final(self).spec_visible() == visible,
            final(self).spec_mode() == old(self).spec_mode(),
            final(self).spec_sync_group() == old(self).spec_sync_group(),
    {
        self.visible = visible;
    }

    /// Sync group id.
    pub fn sync_group(&self) -> (r: Option<u32>)
        ensures
            r == self.spec_sync_group(),
    {
        self.sync_group
    }

    /// Set the sync group.
    pub fn set_sync_group(&mut self, group: Option<u32>)
        ensures
            final(self).spec_sync_group() == group,
            final(self).spec_mode() == old(self).spec_mode(),
            final(self).spec_visible() == old(self).spec_visible(),
    {
        self.sync_group = group;
    }

    /// Whether this crosshair syncs with `other`: both are in a sync group,
    /// and it is the same one.
    pub fn should_sync_with(&self, other: &CrosshairState) -> (r: bool)
        ensures
            r == groups_sync(self.spec_sync_group(), other.spec_sync_group()),
    {
        match (self.sync_group, other.sync_group) {
            (Some(a), Some(b)) => a == b,
            _ => false,
        }
    }
}

/// Syncing is symmetric, and a crosshair in a group syncs with itself.
pub proof fn law_sync_symmetric(a: Option<u32>, b: Option<u32>)
    ensures
        groups_sync(a, b) == groups_sync(b, a),
        a is Some ==> groups_sync(a, a),
{
}

/// Syncing is transitive: crosshairs that sync with a common one sync with each other.
pub proof fn law_sync_transitive(a: Option<u32>, b: Option<u32>, c: Option<u32>)
    requires
        groups_sync(a, b),
        groups_sync(b, c),
    ensures
        groups_sync(a, c),
{
}

/// Hiding, then switching to any mode other than Custom, shows the crosshair
/// again; Custom after Hidden keeps it hidden.
pub proof fn law_hidden_then_mode(mode: CrosshairMode, visible: bool)
    ensures
        visibility_after(mode, visibility_after(CrosshairMode::Hidden, visible)) == (mode != CrosshairMode::Hidden
            && mode != CrosshairMode::Custom),
{
}

/// Switching mode sets visibility whatever it was before: Hidden hides,
/// Custom keeps it, and every other mode (Normal, Magnetic, Sync, Global)
/// shows the crosshair.
pub proof fn law_mode_visibility(mode: CrosshairMode, visible: bool)
    ensures
        mode != CrosshairMode::Hidden && mode != CrosshairMode::Custom ==> visibility_after(mode, visible),
        visibility_after(CrosshairMode::Normal, visible),
        visibility_after(CrosshairMode::Magnetic, visible),
        visibility_after(CrosshairMode::Sync, visible),
        visibility_after(CrosshairMode::Global, visible),
        !visibility_after(CrosshairMode::Hidden, visible),
        visibility_after(CrosshairMode::Custom, visible) == visible,
{
}

} // verus!
