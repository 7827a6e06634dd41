use vstd::prelude::*;
use crate::input::{bound_map, default_key_bindings, lemma_default_key_meanings, AppInputAction, CameraAngle, ClickType, Key};
use crate::action_stack::{ActionStack, ActionStackView};
use crate::shape_action::ShapeAction;
use crate::shape_data::CanvasShape;

verus! {

/// What the keys pressed this frame ask of the canvas (the first that is
/// pressed, in this order of precedence).
#[derive(Clone, Copy, PartialEq, Eq, Structural, Debug)]
pub enum CanvasKeyAction {
    Solid3dView,
    Wireframe2dView,
    CameraAngle(CameraAngle),
    Delete,
}

/// What the mouse buttons did this frame.
#[derive(Clone, Copy, PartialEq, Eq, Structural, Debug)]
pub enum CanvasMouseEvent {
    Idle,
    /// the button went down
    Click(ClickType),
    /// the button is held and the mouse moved
    Drag(ClickType),
    /// the button is held and the mouse did not move
    Hold,
    /// the button went up
    Release,
}

/// What the canvas does in one frame of input.
#[derive(Clone, Copy, PartialEq, Eq, Structural, Debug)]
pub struct CanvasFrame {
    /// whether the hover is recomputed (not while a button is held)
    pub update_hover: bool,
    pub key_action: Option<CanvasKeyAction>,
    /// rotate the camera's yaw, clockwise or not
    pub yaw_rotate: Option<bool>,
    pub mouse: CanvasMouseEvent,
}

/// The key action of a frame in which the keys `pressed` are held.
pub open spec fn canvas_key_action(pressed: Seq<Key>) -> Option<CanvasKeyAction> {
    if pressed.contains(Key::S) {
        Some(CanvasKeyAction::Solid3dView)
    } else if pressed.contains(Key::W) {
        Some(CanvasKeyAction::Wireframe2dView)
    } else if pressed.contains(Key::Num1) {
        Some(CanvasKeyAction::CameraAngle(CameraAngle::Ingame(1)))
    } else if pressed.contains(Key::Num2) {
        Some(CanvasKeyAction::CameraAngle(CameraAngle::Ingame(2)))
    } else if pressed.contains(Key::Num3) {
        Some(CanvasKeyAction::CameraAngle(CameraAngle::Ingame(3)))
    } else if pressed.contains(Key::Num4) {
        Some(CanvasKeyAction::CameraAngle(CameraAngle::Ingame(4)))
    } else if pressed.contains(Key::Num5) {
        Some(CanvasKeyAction::CameraAngle(CameraAngle::Ingame(5)))
    } else if pressed.contains(Key::D) {
        Some(CanvasKeyAction::CameraAngle(CameraAngle::Side))
    } else if pressed.contains(Key::F) {
        Some(CanvasKeyAction::CameraAngle(CameraAngle::Front))
    } else if pressed.contains(Key::T) {
        Some(CanvasKeyAction::CameraAngle(CameraAngle::Top))
    } else if pressed.contains(Key::Delete) {
        Some(CanvasKeyAction::Delete)
    } else {
        None
    }
}

/// The yaw rotation a frame asks for: a page key pressed while no rotation
/// is held rotates once.
pub open spec fn yaw_rotation(rotating: bool, pressed: Seq<Key>) -> Option<bool> {
    if !rotating && pressed.contains(Key::PageUp) {
        Some(true)
    } else if !rotating && pressed.contains(Key::PageDown) {
        Some(false)
    } else {
        None
    }
}

/// PageUp and PageDown turn the camera's yaw in opposite directions: PageUp
/// one way (`true`), PageDown the other (`false`), each only when no turn is
/// held, and PageUp wins when both are down. Without a page key there is no
/// turn.
pub proof fn lemma_page_keys_turn_opposite_ways(rotating: bool, pressed: Seq<Key>)
    ensures
        !rotating && pressed.contains(Key::PageUp) ==> yaw_rotation(rotating, pressed) == Some(true),
        !rotating && pressed.contains(Key::PageDown) && !pressed.contains(Key::PageUp)
            ==> yaw_rotation(rotating, pressed) == Some(false),
        yaw_rotation(false, seq![Key::PageUp]) != yaw_rotation(false, seq![Key::PageDown]),
        yaw_rotation(false, seq![Key::PageUp]) is Some && yaw_rotation(false, seq![Key::PageDown]) is Some,
        rotating ==> yaw_rotation(rotating, pressed) is None,
        !pressed.contains(Key::PageUp) && !pressed.contains(Key::PageDown) ==> yaw_rotation(rotating, pressed) is None,
{
    assert(seq![Key::PageUp][0] == Key::PageUp);
    assert(seq![Key::PageDown][0] == Key::PageDown);
    assert(!seq![Key::PageDown].contains(Key::PageUp)) by {
        if seq![Key::PageDown].contains(Key::PageUp) {
            let j = choose|j: int| 0 <= j < seq![Key::PageDown].len() && seq![Key::PageDown][j] == Key::PageUp;
            assert(seq![Key::PageDown][j] == Key::PageDown);
        }
    }
}

/// The key `k`, held alone, does on the canvas what `m` binds it to: a fixed
/// camera angle, or a turn of the yaw in the bound direction.
pub open spec fn canvas_follows_binding(m: Map<Key, AppInputAction>, k: Key) -> bool {
    m.contains_key(k) && match m[k] {
        AppInputAction::SetCameraAngleFixed(a) => canvas_key_action(seq![k]) == Some(CanvasKeyAction::CameraAngle(a)),
        AppInputAction::CameraAngleYawRotate(d) => yaw_rotation(false, seq![k]) == Some(d),
        _ => false,
    }
}

/// The canvas reads the camera keys as the editors' default bindings bind
/// them: D, T and F fix the side, top and front angle, the number keys the
/// in-game angles, and PageUp and PageDown turn the yaw in their bound
/// directions.
pub proof fn lemma_canvas_keys_agree_with_bindings()
    ensures
        canvas_follows_binding(bound_map(default_key_bindings()), Key::D),
        canvas_follows_binding(bound_map(default_key_bindings()), Key::T),
        canvas_follows_binding(bound_map(default_key_bindings()), Key::F),
        canvas_follows_binding(bound_map(default_key_bindings()), Key::Num1),
        canvas_follows_binding(bound_map(default_key_bindings()), Key::Num5),
        canvas_follows_binding(bound_map(default_key_bindings()), Key::PageUp),
        canvas_follows_binding(bound_map(default_key_bindings()), Key::PageDown),
{
    lemma_default_key_meanings();
    assert forall|k: Key| #[trigger] seq![k].contains(k) by {
        assert(seq![k][0] == k);
    }
    assert forall|k: Key, j: Key| j != k implies !(#[trigger] seq![k].contains(j)) by {
        if seq![k].contains(j) {
            let i = choose|i: int| 0 <= i < seq![k].len() && seq![k][i] == j;
            assert(seq![k][i] == k);
        }
    }
}

/// S held alone shows the solid 3d view, W the wireframe 2d view, and Delete
/// deletes; with no key held the canvas does nothing. S takes precedence
/// over every other key.
pub proof fn lemma_canvas_view_keys(pressed: Seq<Key>)
    ensures
        canvas_key_action(seq![Key::S]) == Some(CanvasKeyAction::Solid3dView),
        canvas_key_action(seq![Key::W]) == Some(CanvasKeyAction::Wireframe2dView),
        canvas_key_action(seq![Key::Delete]) == Some(CanvasKeyAction::Delete),
        canvas_key_action(Seq::<Key>::empty()) is None,
        pressed.contains(Key::S) ==> canvas_key_action(pressed) == Some(CanvasKeyAction::Solid3dView),
{
    assert forall|k: Key| #[trigger] seq![k].contains(k) by {
        assert(seq![k][0] == k);
    }
    assert forall|k: Key, j: Key| j != k implies !(#[trigger] seq![k].contains(j)) by {
        if seq![k].contains(j) {
            let i = choose|i: int| 0 <= i < seq![k].len() && seq![k][i] == j;
            assert(seq![k][i] == k);
        }
    }
}

/// Whether a yaw rotation is held after a frame: while a page key is down.
pub open spec fn rotation_held(pressed: Seq<Key>) -> bool {
    pressed.contains(Key::PageUp) || pressed.contains(Key::PageDown)
}

/// Holding a page key down rotates the camera once: in every later frame
/// while a page key stays down, no further rotation happens.
pub proof fn lemma_yaw_rotates_once_per_press(first: Seq<Key>, later: Seq<Seq<Key>>)
    requires
        rotation_held(first),
        forall|i: int| 0 <= i < later.len() ==> rotation_held(#[trigger] later[i]),
    ensures
        forall|i: int| 0 <= i < later.len() ==> yaw_rotation(rotation_held(if i == 0 { first } else { later[i - 1] }), #[trigger] later[i]) is None,
{
    assert forall|i: int| 0 <= i < later.len() implies yaw_rotation(rotation_held(if i == 0 { first } else { later[i - 1] }), #[trigger] later[i]) is None by {
        if i > 0 {
            assert(rotation_held(later[i - 1]));
        }
    }
}

/// The canvas's pointer state: whether a button is held (and which), whether
/// a yaw rotation is held until its key goes up, what is hovered and
/// selected, and the vertex being dragged (its 2d entity, the position it
/// started from and the last position it was dragged to; `P` is a position).
#[derive(Clone, Copy, Debug)]
pub struct CanvasManager<P> {
    pub click_down: bool,
    pub click_type: ClickType,
    pub rotating_hack: bool,
    pub hovered_entity: Option<(u64, CanvasShape)>,
    pub selected_vertex: Option<(u64, CanvasShape)>,
    pub last_vertex_dragged: Option<(u64, P, P)>,
}

/// What a click on the canvas does.
#[derive(Clone, Copy, PartialEq, Eq, Debug)]
pub enum CanvasClick {
    Nothing,
    /// create a vertex attached to the selected 2d vertex, at the mouse
    CreateVertex(u64),
    /// select this vertex (or nothing)
    SelectVertex(Option<(u64, CanvasShape)>),
}

/// What dragging on the canvas does.
#[derive(Clone, Copy, PartialEq, Eq, Structural, Debug)]
pub enum CanvasDrag {
    /// move the selected 2d vertex
    MoveVertex(u64),
    CameraPan,
    CameraOrbit,
    Nothing,
}

fn has_key(pressed: &Vec<Key>, key: Key) -> (r: bool)
    ensures
        r == pressed@.contains(key),
{
    let mut i: usize = 0;
    while i < pressed.len()
        invariant
            i <= pressed@.len(),
            forall|j: int| 0 <= j < i ==> pressed@[j] != key,
        decreases pressed@.len() - i,
    {
        if pressed[i] == key {
            assert(pressed@[i as int] == key);
            return true;
        }
        i = i + 1;
    }
    false
}

impl<P> CanvasManager<P> {
    pub fn new() -> (m: Self)
        ensures
            m == (CanvasManager::<P> {
                click_down: false,
                click_type: ClickType::Left,
                rotating_hack: false,
                hovered_entity: None,
                selected_vertex: None,
                last_vertex_dragged: None,
            }),
    {
        CanvasManager {
            click_down: false,
            click_type: ClickType::Left,
            rotating_hack: false,
            hovered_entity: None,
            selected_vertex: None,
            last_vertex_dragged: None,
        }
    }

    /// Takes one frame of input: the keys held, whether the left and right
    /// buttons are held, and whether the mouse moved since the last frame.
    /// When the buttons are released after a vertex was dragged, the move of
    /// that vertex (from where it started to where it was last dragged) is
    /// buffered on `action_stack` and the drag is forgotten.
    pub fn update_input<V, R>(
        &mut self,
        action_stack: &mut ActionStack<ShapeAction<V, P, R>>,
        pressed: &Vec<Key>,
        left_pressed: bool,
        right_pressed: bool,
        mouse_moved: bool,
    ) -> (f: CanvasFrame)
        ensures
            final(self).last_vertex_dragged == if f.mouse == CanvasMouseEvent::Release {
                None
            } else {
                old(self).last_vertex_dragged
            },
            final(action_stack)@ == match old(self).last_vertex_dragged {
                Some((v, from, to)) => if f.mouse == CanvasMouseEvent::Release {
                    ActionStackView { buffered: old(action_stack)@.buffered.push(ShapeAction::MoveVertex(v, from, to)), ..old(action_stack)@ }
                } else {
                    old(action_stack)@
                },
                None => old(action_stack)@,
            },
            f.update_hover == !old(self).click_down,
            f.key_action == canvas_key_action(pressed@),
            f.yaw_rotate == yaw_rotation(old(self).rotating_hack, pressed@),
            !old(self).rotating_hack && pressed@.contains(Key::PageUp) ==> f.yaw_rotate == Some(true),
            !old(self).rotating_hack && pressed@.contains(Key::PageDown) && !pressed@.contains(Key::PageUp)
                ==> f.yaw_rotate == Some(false),
            !pressed@.contains(Key::PageUp) && !pressed@.contains(Key::PageDown) ==> f.yaw_rotate is None,
            final(self).rotating_hack == rotation_held(pressed@),
            final(self).click_type == (if right_pressed {
                ClickType::Right
            } else if left_pressed {
                ClickType::Left
            } else {
                old(self).click_type
            }),
            final(self).click_down == (left_pressed || right_pressed),
            f.mouse == (if left_pressed || right_pressed {
                if old(self).click_down {
                    if mouse_moved { CanvasMouseEvent::Drag(final(self).click_type) } else { CanvasMouseEvent::Hold }
                } else {
                    CanvasMouseEvent::Click(final(self).click_type)
                }
            } else if old(self).click_down {
                CanvasMouseEvent::Release
            } else {
                CanvasMouseEvent::Idle
            }),
            final(self).hovered_entity == old(self).hovered_entity,
            final(self).selected_vertex == old(self).selected_vertex,
    {
        let update_hover = !self.click_down;
        let key_action = if has_key(pressed, Key::S) {
            Some(CanvasKeyAction::Solid3dView)
        } else if has_key(pressed, Key::W) {
            Some(CanvasKeyAction::Wireframe2dView)
        } else if has_key(pressed, Key::Num1) {
            Some(CanvasKeyAction::CameraAngle(CameraAngle::Ingame(1)))
        } else if has_key(pressed, Key::Num2) {
            Some(CanvasKeyAction::CameraAngle(CameraAngle::Ingame(2)))
        } else if has_key(pressed, Key::Num3) {
            Some(CanvasKeyAction::CameraAngle(CameraAngle::Ingame(3)))
        } else if has_key(pressed, Key::Num4) {
            Some(CanvasKeyAction::CameraAngle(CameraAngle::Ingame(4)))
        } else if has_key(pressed, Key::Num5) {
            Some(CanvasKeyAction::CameraAngle(CameraAngle::Ingame(5)))
        } else if has_key(pressed, Key::D) {
            Some(CanvasKeyAction::CameraAngle(CameraAngle::Side))
        } else if has_key(pressed, Key::F) {
            Some(CanvasKeyAction::CameraAngle(CameraAngle::Front))
        } else if has_key(pressed, Key::T) {
            Some(CanvasKeyAction::CameraAngle(CameraAngle::Top))
        } else if has_key(pressed, Key::Delete) {
            Some(CanvasKeyAction::Delete)
        } else {
            None
        };
        let page_up = has_key(pressed, Key::PageUp);
        let page_down = has_key(pressed, Key::PageDown);
        let mut yaw_rotate = None;
        if !self.rotating_hack {
            if page_up {
                yaw_rotate = Some(true);
                self.rotating_hack = true;
            } else if page_down {
                yaw_rotate = Some(false);
                self.rotating_hack = true;
            }
        } else {
            if !page_up && !page_down {
                self.rotating_hack = false;
            }
        }
        let mouse = if left_pressed || right_pressed {
            if left_pressed {
                self.click_type = ClickType::Left;
            }
            if right_pressed {
                self.click_type = ClickType::Right;
            }
            if self.click_down {
                if mouse_moved {
                    CanvasMouseEvent::Drag(self.click_type)
                } else {
                    CanvasMouseEvent::Hold
                }
            } else {
                self.click_down = true;
                CanvasMouseEvent::Click(self.click_type)
            }
        } else {
            if self.click_down {
                self.click_down = false;
                if let Some((v, from, to)) = self.last_vertex_dragged.take() {
                    action_stack.buffer_action(ShapeAction::MoveVertex(v, from, to));
                }
                CanvasMouseEvent::Release
            } else {
                CanvasMouseEvent::Idle
            }
        };
        CanvasFrame { update_hover, key_action, yaw_rotate, mouse }
    }

    /// The vertex the delete key removes: the selected one, unless it is the
    /// root; it is then deselected.
    pub fn take_vertex_to_delete(&mut self) -> (r: Option<u64>)
        ensures
            r == (match old(self).selected_vertex {
                Some((v, CanvasShape::RootVertex)) => None,
                Some((v, _)) => Some(v),
                None => None,
            }),
            *final(self) == if r is Some {
                CanvasManager { selected_vertex: None, ..*old(self) }
            } else {
                *old(self)
            },
    {
        match self.selected_vertex {
            Some((_, CanvasShape::RootVertex)) => None,
            Some((v, _)) => {
                self.selected_vertex = None;
                Some(v)
            },
            None => None,
        }
    }

    /// What a click does, from the selection and the hover.
    pub fn click_action(&self, click_type: ClickType) -> (r: CanvasClick)
        ensures
            r == (match self.selected_vertex {
                Some((v, _)) => match click_type {
                    ClickType::Left => if self.hovered_entity is Some {
                        CanvasClick::Nothing
                    } else {
                        CanvasClick::CreateVertex(v)
                    },
                    ClickType::Right => CanvasClick::SelectVertex(None),
                },
                None => match (self.hovered_entity, click_type) {
                    (Some((_, CanvasShape::Vertex)), ClickType::Left) | (Some((_, CanvasShape::RootVertex)), ClickType::Left) =>
                        CanvasClick::SelectVertex(self.hovered_entity),
                    _ => CanvasClick::Nothing,
                },
            }),
    {
        match self.selected_vertex {
            Some((v, _)) => match click_type {
                ClickType::Left => if self.hovered_entity.is_some() {
                    CanvasClick::Nothing
                } else {
                    CanvasClick::CreateVertex(v)
                },
                ClickType::Right => CanvasClick::SelectVertex(None),
            },
            None => match (self.hovered_entity, click_type) {
                (Some((_, CanvasShape::Vertex)), ClickType::Left) | (Some((_, CanvasShape::RootVertex)), ClickType::Left) =>
                    CanvasClick::SelectVertex(self.hovered_entity),
                _ => CanvasClick::Nothing,
            },
        }
    }

    /// What a drag does: a selected vertex other than the root is moved by
    /// the left button; with nothing (or the root) selected the camera pans
    /// (left) or orbits (right).
    pub fn drag_action(&self, click_type: ClickType) -> (r: CanvasDrag)
        ensures
            r == (match self.selected_vertex {
                Some((v, s)) if s != CanvasShape::RootVertex => match click_type {
                    ClickType::Left => CanvasDrag::MoveVertex(v),
                    ClickType::Right => CanvasDrag::Nothing,
                },
                _ => match click_type {
                    ClickType::Left => CanvasDrag::CameraPan,
                    ClickType::Right => CanvasDrag::CameraOrbit,
                },
            }),
    {
        let movable = match self.selected_vertex {
            Some((_, CanvasShape::RootVertex)) => false,
            Some(_) => true,
            None => false,
        };
        if movable {
            match click_type {
                ClickType::Left => CanvasDrag::MoveVertex(self.selected_vertex.unwrap().0),
                ClickType::Right => CanvasDrag::Nothing,
            }
        } else {
            match click_type {
                ClickType::Left => CanvasDrag::CameraPan,
                ClickType::Right => CanvasDrag::CameraOrbit,
            }
        }
    }
}

impl<P: Copy> CanvasManager<P> {
    /// Records that the 2d vertex `vertex_2d`, found at `current`, was
    /// dragged to `new`: a drag already under way keeps the position it
    /// started from.
    pub fn update_last_vertex_dragged(&mut self, vertex_2d: u64, current: P, new: P)
        ensures
            *final(self) == (CanvasManager {
                last_vertex_dragged: Some((
                    vertex_2d,
                    match old(self).last_vertex_dragged {
                        Some((_, from, _)) => from,
                        None => current,
                    },
                    new,
                )),
                ..*old(self)
            }),
    {
        let from = match self.last_vertex_dragged {
            Some((_, from, _)) => from,
            None => current,
        };
        self.last_vertex_dragged = Some((vertex_2d, from, new));
    }
}

impl<P> Default for CanvasManager<P> {
    fn default() -> (m: Self)
        ensures
            m.click_down == false,
            m.click_type == ClickType::Left,
            m.rotating_hack == false,
            m.hovered_entity is None,
            m.selected_vertex is None,
            m.last_vertex_dragged is None,
    {
        CanvasManager::new()
    }
}

} // verus!
