use vstd::prelude::*;

verus! {

/// The editing canvas: whether it is shown, and how many more frames its
/// shapes have to be re-synced for. The render texture itself is held by the
/// renderer.
pub struct Canvas {
    pub is_visible: bool,
    pub next_visible: bool,
    pub resync_shapes: u8,
    pub last_focused: bool,
}

/// How the canvas's focus changed since it was last looked at.
#[derive(Clone, Copy, PartialEq, Eq, Structural, Debug)]
pub enum FocusChange {
    Unchanged,
    Gained,
    Lost,
}

impl Default for Canvas {
    fn default() -> (c: Self)
        ensures
            c == (Canvas { is_visible: false, next_visible: false, resync_shapes: 0, last_focused: false }),
    {
        Canvas { is_visible: false, next_visible: false, resync_shapes: 0, last_focused: false }
    }
}

impl Canvas {
    /// Applies the requested visibility; returns whether it changed.
    pub fn update_visibility(&mut self) -> (changed: bool)
        ensures
            changed == (old(self).is_visible != old(self).next_visible),
            *final(self) == (Canvas { is_visible: old(self).next_visible, ..*old(self) }),
    {
        if self.is_visible == self.next_visible {
            return false;
        }
        self.is_visible = self.next_visible;
        true
    }

    /// Records the tab's focus; says whether it was gained or lost.
    pub fn update_sync_focus(&mut self, has_focus: bool) -> (change: FocusChange)
        ensures
            change == (if old(self).last_focused == has_focus {
                FocusChange::Unchanged
            } else if has_focus {
                FocusChange::Gained
            } else {
                FocusChange::Lost
            }),
            *final(self) == (Canvas { last_focused: has_focus, ..*old(self) }),
    {
        if self.last_focused == has_focus {
            return FocusChange::Unchanged;
        }
        self.last_focused = has_focus;
        if has_focus {
            FocusChange::Gained
        } else {
            FocusChange::Lost
        }
    }

    pub fn is_visible(&self) -> (r: bool)
        ensures
            r == self.is_visible,
    {
        self.is_visible
    }

    /// Requests a visibility, applied on the next `update_visibility`.
    pub fn set_visibility(&mut self, visible: bool)
        ensures
            *final(self) == (Canvas { next_visible: visible, ..*old(self) }),
    {
        self.next_visible = visible;
    }

    /// Shapes are re-synced on the next two frames.
    pub fn queue_resync_shapes(&mut self)
        ensures
            *final(self) == (Canvas { resync_shapes: 2, ..*old(self) }),
    {
        self.resync_shapes = 2;
    }

    /// Shapes are re-synced on the next frame.
    pub fn queue_resync_shapes_light(&mut self)
        ensures
            *final(self) == (Canvas { resync_shapes: 1, ..*old(self) }),
    {
        self.resync_shapes = 1;
    }

    /// Whether the shapes are to be re-synced in this frame; uses up one
    /// frame of the queued re-sync.
    pub fn should_sync_shapes(&mut self) -> (r: bool)
        ensures
            r == (old(self).resync_shapes > 0),
            *final(self) == (Canvas {
                resync_shapes: if old(self).resync_shapes > 0 { (old(self).resync_shapes - 1) as u8 } else { 0 },
                ..*old(self)
            }),
    {
        if self.resync_shapes == 0 {
            return false;
        }
        self.resync_shapes = self.resync_shapes - 1;
        true
    }
}

/// After a full re-sync is queued, exactly the next two frames re-sync the
/// shapes, and after a light one exactly the next frame does.
pub proof fn lemma_resync_counts(c: Canvas)
    ensures
        ({
            let full = Canvas { resync_shapes: 2, ..c };
            let once = Canvas { resync_shapes: 1, ..c };
            &&& full.resync_shapes > 0 && once.resync_shapes > 0
            &&& (full.resync_shapes - 1) as u8 > 0
            &&& (full.resync_shapes - 1) as u8 - 1 == 0
            &&& (once.resync_shapes - 1) as u8 == 0
        }),
{
}

/// Applying the requested visibility twice reports a change at most once.
pub proof fn lemma_visibility_settles(c: Canvas)
    ensures
        ({
            let once = Canvas { is_visible: c.next_visible, ..c };
            once.is_visible == once.next_visible
        }),
{
}

/// The state of a canvas that also drives the 2d and 3d cameras.
pub struct CanvasState {
    pub is_visible: bool,
    pub next_visible: bool,
    pub is_2d: bool,
    pub camera_2d: Option<u64>,
    pub camera_3d: Option<u64>,
}

impl Default for CanvasState {
    fn default() -> (c: Self)
        ensures
            c == (CanvasState { is_visible: false, next_visible: false, is_2d: true, camera_2d: None, camera_3d: None }),
    {
        CanvasState { is_visible: false, next_visible: false, is_2d: true, camera_2d: None, camera_3d: None }
    }
}

impl CanvasState {
    /// Applies the requested visibility. When it changed, returns whether all
    /// cameras are now to be active.
    pub fn update(&mut self) -> (cameras_active: Option<bool>)
        ensures
            cameras_active == (if old(self).is_visible == old(self).next_visible {
                None
            } else {
                Some(old(self).next_visible)
            }),
            *final(self) == (CanvasState { is_visible: old(self).next_visible, ..*old(self) }),
    {
        if self.is_visible == self.next_visible {
            return None;
        }
        self.is_visible = self.next_visible;
        Some(self.is_visible)
    }

    pub fn is_visible(&self) -> (r: bool)
        ensures
            r == self.is_visible,
    {
        self.is_visible
    }

    pub fn set_visibility(&mut self, visible: bool)
        ensures
            *final(self) == (CanvasState { next_visible: visible, ..*old(self) }),
    {
        self.next_visible = visible;
    }

    /// Switches to the wireframe (2d) view. When the mode changed, returns
    /// which cameras to make active: (2d camera, 3d camera).
    pub fn set_2d_mode(&mut self) -> (enable: Option<(bool, bool)>)
        ensures
            enable == (if old(self).is_2d { None } else { Some((true, false)) }),
            *final(self) == (CanvasState { is_2d: true, ..*old(self) }),
    {
        if self.is_2d {
            return None;
        }
        self.is_2d = true;
        Some((true, false))
    }

    /// Switches to the solid (3d) view. When the mode changed, returns which
    /// cameras to make active: (2d camera, 3d camera).
    pub fn set_3d_mode(&mut self) -> (enable: Option<(bool, bool)>)
        ensures
            enable == (if !old(self).is_2d { None } else { Some((false, true)) }),
            *final(self) == (CanvasState { is_2d: false, ..*old(self) }),
    {
        if !self.is_2d {
            return None;
        }
        self.is_2d = false;
        Some((false, true))
    }
}

} // verus!
