use vstd::prelude::*;
use crate::input::{AppInputAction, ClickType, InputManager, InputManagerView, Key, MouseButton};
use crate::shape_action::ShapeAction;

verus! {

/// One input event of the editor's window (positions are left to the caller,
/// which says whether a click fell inside the canvas).
#[derive(Clone, Copy, PartialEq, Eq, Structural, Debug)]
pub enum InputEvent {
    MouseClick(ClickType),
    MouseDragged(ClickType),
    MiddleMouseScroll,
    MouseMoved,
    MouseRelease(MouseButton),
    KeyRelease(Key),
    KeyPress(Key),
}

/// What the editor does with one input event.
#[derive(Clone, Copy, PartialEq, Eq, Structural, Debug)]
pub enum InputEffect {
    /// nothing
    Ignore,
    /// handle a click inside the canvas
    Click(ClickType),
    /// handle a drag while the canvas has the focus
    Drag(ClickType),
    /// handle the scroll wheel
    Scroll,
    /// the animation editor, which is framing, re-syncs its hover
    FramingHover,
    /// the hover and the selection markers are re-synced
    HoverResync,
    /// the left button went up: the finished drags become actions (see
    /// `release_actions`)
    LeftRelease,
    /// the action bound to the pressed key
    KeyAction(AppInputAction),
}

/// What the editor does with `event`, given whether a click's position is
/// inside the canvas, whether the canvas has the focus, and whether the open
/// tab is an animation being framed.
pub open spec fn input_effect_of(
    keys: Map<Key, AppInputAction>,
    event: InputEvent,
    inside_canvas: bool,
    canvas_focused: bool,
    anim_framing: bool,
) -> InputEffect {
    match event {
        InputEvent::MouseClick(c) => if inside_canvas { InputEffect::Click(c) } else { InputEffect::Ignore },
        InputEvent::MouseDragged(c) => if canvas_focused { InputEffect::Drag(c) } else { InputEffect::Ignore },
        InputEvent::MiddleMouseScroll => InputEffect::Scroll,
        InputEvent::MouseMoved => if anim_framing { InputEffect::FramingHover } else { InputEffect::HoverResync },
        InputEvent::MouseRelease(b) => if b == MouseButton::Left { InputEffect::LeftRelease } else { InputEffect::Ignore },
        InputEvent::KeyRelease(_) => InputEffect::Ignore,
        InputEvent::KeyPress(k) => if keys.contains_key(k) { InputEffect::KeyAction(keys[k]) } else { InputEffect::Ignore },
    }
}

impl InputManager {
    /// Decides what the editor does with one input event (see
    /// `input_effect_of`); a mouse move outside animation framing asks for
    /// the hover and the selection markers to be re-synced.
    pub fn input_effect(&mut self, event: InputEvent, inside_canvas: bool, canvas_focused: bool, anim_framing: bool) -> (e: InputEffect)
        ensures
            e == input_effect_of(old(self)@.keys, event, inside_canvas, canvas_focused, anim_framing),
            final(self)@ == if e == InputEffect::HoverResync {
                InputManagerView { resync_hover: true, resync_selection: true, ..old(self)@ }
            } else {
                old(self)@
            },
    {
        match event {
            InputEvent::MouseClick(c) => if inside_canvas {
                InputEffect::Click(c)
            } else {
                InputEffect::Ignore
            },
            InputEvent::MouseDragged(c) => if canvas_focused {
                InputEffect::Drag(c)
            } else {
                InputEffect::Ignore
            },
            InputEvent::MiddleMouseScroll => InputEffect::Scroll,
            InputEvent::MouseMoved => if anim_framing {
                InputEffect::FramingHover
            } else {
                self.queue_resync_hover_ui();
                self.queue_resync_selection_ui();
                InputEffect::HoverResync
            },
            InputEvent::MouseRelease(b) => match b {
                MouseButton::Left => InputEffect::LeftRelease,
                _ => InputEffect::Ignore,
            },
            InputEvent::KeyRelease(_) => InputEffect::Ignore,
            InputEvent::KeyPress(k) => match self.key_to_action(k) {
                Some(a) => InputEffect::KeyAction(a),
                None => InputEffect::Ignore,
            },
        }
    }
}

/// The actions a release of the left button executes, from the finished
/// vertex drags (each entity, start and end position), the last edge drag
/// (entity, old and new angle) and the last rotation drag (2d vertex, old
/// and new rotation): one vertex move per drag, in order, then the edge
/// rotation; the vertex rotation, if any, is returned on its own for the
/// animation history, with its new rotation given.
pub fn release_actions<V, P, R, Q>(
    vertex_drags: Option<Vec<(u64, P, P)>>,
    edge_drag: Option<(u64, R, R)>,
    rotation_drag: Option<(u64, Option<Q>, Q)>,
) -> (r: (Vec<ShapeAction<V, P, R>>, Option<(u64, Option<Q>, Option<Q>)>))
    ensures
        ({
            let drags = match vertex_drags {
                Some(v) => v@,
                None => Seq::empty(),
            };
            let moves = drags.map_values(|d: (u64, P, P)| ShapeAction::<V, P, R>::MoveVertex(d.0, d.1, d.2));
            &&& r.0@ == match edge_drag {
                Some((e, a0, a1)) => moves.push(ShapeAction::RotateEdge(e, a0, a1)),
                None => moves,
            }
            &&& r.1 == match rotation_drag {
                Some((v, q0, q1)) => Some((v, q0, Some(q1))),
                None => None,
            }
        }),
{
    let drags = match vertex_drags {
        Some(v) => v,
        None => Vec::new(),
    };
    let ghost d0 = drags@;
    let n0 = drags.len();
    assert(d0.len() == n0);
    let mut actions: Vec<ShapeAction<V, P, R>> = Vec::new();
    let mut drags = drags;
    let mut i: usize = 0;
    while drags.len() > 0
        invariant
            i + drags@.len() == d0.len(),
            d0.len() <= usize::MAX,
            drags@ == d0.skip(i as int),
            actions@ == d0.take(i as int).map_values(|d: (u64, P, P)| ShapeAction::<V, P, R>::MoveVertex(d.0, d.1, d.2)),
        decreases drags@.len(),
    {
        let (e, p0, p1) = drags.remove(0);
        proof {
            assert(d0[i as int] == (e, p0, p1));
        }
        actions.push(ShapeAction::MoveVertex(e, p0, p1));
        proof {
            assert(d0.take(i + 1) == d0.take(i as int).push(d0[i as int]));
            assert(actions@ =~= d0.take(i + 1).map_values(|d: (u64, P, P)| ShapeAction::<V, P, R>::MoveVertex(d.0, d.1, d.2)));
            assert(drags@ =~= d0.skip(i + 1));
        }
        i = i + 1;
    }
    proof {
        assert(d0.take(i as int) == d0);
    }
    if let Some((e, a0, a1)) = edge_drag {
        actions.push(ShapeAction::RotateEdge(e, a0, a1));
    }
    let rotation = match rotation_drag {
        Some((v, q0, q1)) => Some((v, q0, Some(q1))),
        None => None,
    };
    (actions, rotation)
}

} // verus!
