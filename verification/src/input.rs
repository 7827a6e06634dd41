use vstd::prelude::*;
use crate::file_ext::FileExtension;
use crate::icon_manager::CardinalDirection;
use crate::canvas::Canvas;
use crate::shape_data::CanvasShape;
use crate::shape_graph::{EdgeManager, EdgeManagerView, VertexManager, VertexManagerView};

verus! {

/// The keys the editor reacts to.
#[derive(Clone, Copy, PartialEq, Eq, Structural, Debug)]
pub enum Key {
    S,
    W,
    D,
    T,
    F,
    N,
    E,
    X,
    Num1,
    Num2,
    Num3,
    Num4,
    Num5,
    PageUp,
    PageDown,
    Insert,
    Delete,
    Space,
    Enter,
    Escape,
    ArrowLeft,
    ArrowRight,
    ArrowUp,
    ArrowDown,
}

#[derive(Clone, Copy, PartialEq, Eq, Structural, Debug)]
pub enum MouseButton {
    Left,
    Right,
    Middle,
}

/// A fixed camera angle.
#[derive(Clone, Copy, PartialEq, Eq, Structural, Debug)]
pub enum CameraAngle {
    Side,
    Front,
    Top,
    Ingame(u8),
}

#[derive(Clone, Copy, PartialEq, Eq, Structural, Debug)]
pub enum ClickType {
    Left,
    Right,
}

/// What a key press asks of the editor.
#[derive(Clone, Copy, PartialEq, Eq, Structural, Debug)]
pub enum AppInputAction {
    SwitchTo3dMode,
    SwitchTo2dMode,
    SetCameraAngleFixed(CameraAngle),
    CameraAngleYawRotate(bool),
    DeleteKeyPress,
    InsertKeyPress,
    ToggleNamingBar,
    ToggleEdgeAngleVisibility,
    ToggleAnimationFraming,
}

/// The action bound to each key; binding a key again replaces its action.
pub struct KeyActionMap<A> {
    bindings: Vec<(Key, A)>,
}

/// The map that binding the keys in order makes.
pub open spec fn bound_map<A>(keys: Seq<(Key, A)>) -> Map<Key, A>
    decreases keys.len(),
{
    if keys.len() == 0 {
        Map::empty()
    } else {
        bound_map(keys.drop_last()).insert(keys.last().0, keys.last().1)
    }
}

impl<A: Copy> View for KeyActionMap<A> {
    type V = Map<Key, A>;

    closed spec fn view(&self) -> Map<Key, A> {
        bound_map(self.bindings@)
    }
}

impl<A: Copy> KeyActionMap<A> {
    pub fn init(keys: Vec<(Key, A)>) -> (m: Self)
        ensures
            m@ == bound_map(keys@),
    {
        KeyActionMap { bindings: keys }
    }

    /// The action bound to `key`: the last binding of it.
    pub fn key_to_action(&self, key: Key) -> (r: Option<A>)
        ensures
            r == (if self@.contains_key(key) { Some(self@[key]) } else { None }),
    {
        let mut i = self.bindings.len();
        while i > 0
            invariant
                i <= self.bindings@.len(),
                forall|j: int| i <= j < self.bindings@.len() ==> (#[trigger] self.bindings@[j]).0 != key,
            decreases i,
        {
            i = i - 1;
            let (k, a) = self.bindings[i];
            if k == key {
                proof {
                    lemma_last_binding_wins(self.bindings@, i as int, key);
                }
                return Some(a);
            }
        }
        proof {
            lemma_unbound(self.bindings@, key);
        }
        None
    }
}

proof fn lemma_last_binding_wins<A>(keys: Seq<(Key, A)>, i: int, key: Key)
    requires
        0 <= i < keys.len(),
        keys[i].0 == key,
        forall|j: int| i < j < keys.len() ==> (#[trigger] keys[j]).0 != key,
    ensures
        bound_map(keys).contains_key(key),
        bound_map(keys)[key] == keys[i].1,
    decreases keys.len(),
{
    if i < keys.len() - 1 {
        let prefix = keys.drop_last();
        assert forall|j: int| i < j < prefix.len() implies (#[trigger] prefix[j]).0 != key by {
            assert(prefix[j] == keys[j]);
        }
        lemma_last_binding_wins(prefix, i, key);
    }
}

proof fn lemma_unbound<A>(keys: Seq<(Key, A)>, key: Key)
    requires
        forall|j: int| 0 <= j < keys.len() ==> (#[trigger] keys[j]).0 != key,
    ensures
        !bound_map(keys).contains_key(key),
    decreases keys.len(),
{
    if keys.len() > 0 {
        let prefix = keys.drop_last();
        assert forall|j: int| 0 <= j < prefix.len() implies (#[trigger] prefix[j]).0 != key by {
            assert(prefix[j] == keys[j]);
        }
        lemma_unbound(prefix, key);
    }
}

/// The keys that move the camera in the shape editors.
pub open spec fn is_camera_key(key: Key) -> bool {
    match key {
        Key::S | Key::W | Key::D | Key::T | Key::F | Key::Num1 | Key::Num2 | Key::Num3 | Key::Num4 | Key::Num5
        | Key::PageUp | Key::PageDown => true,
        _ => false,
    }
}

fn camera_key(key: Key) -> (r: bool)
    ensures
        r == is_camera_key(key),
{
    match key {
        Key::S | Key::W | Key::D | Key::T | Key::F | Key::Num1 | Key::Num2 | Key::Num3 | Key::Num4 | Key::Num5
        | Key::PageUp | Key::PageDown => true,
        _ => false,
    }
}

/// What a key press does in one of the shape editors.
#[derive(Clone, Copy, PartialEq, Eq, Structural, Debug)]
pub enum KeyCommand {
    CameraControl(Key),
    Delete,
    Insert,
    ToggleNamingBar,
    ToggleEdgeAngles,
    Ignore,
}

/// What a key press does while animation frames are laid out.
#[derive(Clone, Copy, PartialEq, Eq, Structural, Debug)]
pub enum FramingKeyCommand {
    DeleteFrame,
    InsertFrame,
    PlayPause,
    StartPosing,
    Navigate(CardinalDirection),
    Ignore,
}

/// What a key press does while a pose is edited.
#[derive(Clone, Copy, PartialEq, Eq, Structural, Debug)]
pub enum PosingKeyCommand {
    CameraControl(Key),
    ToggleEdgeAngles,
    /// plays or pauses, where the preview frame is selected
    PlayPause,
    StopPosing,
    Ignore,
}

/// The keyboard of the mesh editor.
pub struct MeshInputManager;

/// The keyboard of the skeleton editor.
pub struct SkelInputManager;

/// The keyboard of the skin editor.
pub struct SkinInputManager;

/// The keyboard of the model editor.
pub struct ModelInputManager;

/// The keyboard of the animation editor.
pub struct AnimInputManager;

/// The keyboard of the icon editor.
pub struct IconInputManager;

impl MeshInputManager {
    pub fn key_command(key: Key) -> (c: KeyCommand)
        ensures
            c == (if is_camera_key(key) {
                KeyCommand::CameraControl(key)
            } else if key == Key::Delete {
                KeyCommand::Delete
            } else if key == Key::Insert {
                KeyCommand::Insert
            } else {
                KeyCommand::Ignore
            }),
    {
        if camera_key(key) {
            KeyCommand::CameraControl(key)
        } else {
            match key {
                Key::Delete => KeyCommand::Delete,
                Key::Insert => KeyCommand::Insert,
                _ => KeyCommand::Ignore,
            }
        }
    }
}

impl SkelInputManager {
    pub fn key_command(key: Key) -> (c: KeyCommand)
        ensures
            c == (if is_camera_key(key) {
                KeyCommand::CameraControl(key)
            } else if key == Key::Delete {
                KeyCommand::Delete
            } else if key == Key::N {
                KeyCommand::ToggleNamingBar
            } else if key == Key::E {
                KeyCommand::ToggleEdgeAngles
            } else {
                KeyCommand::Ignore
            }),
    {
        if camera_key(key) {
            KeyCommand::CameraControl(key)
        } else {
            match key {
                Key::Delete => KeyCommand::Delete,
                Key::N => KeyCommand::ToggleNamingBar,
                Key::E => KeyCommand::ToggleEdgeAngles,
                _ => KeyCommand::Ignore,
            }
        }
    }
}

impl SkinInputManager {
    pub fn key_command(key: Key) -> (c: KeyCommand)
        ensures
            c == (if is_camera_key(key) {
                KeyCommand::CameraControl(key)
            } else if key == Key::Delete {
                KeyCommand::Delete
            } else {
                KeyCommand::Ignore
            }),
    {
        if camera_key(key) {
            KeyCommand::CameraControl(key)
        } else {
            match key {
                Key::Delete => KeyCommand::Delete,
                _ => KeyCommand::Ignore,
            }
        }
    }
}

impl ModelInputManager {
    pub fn key_command(key: Key) -> (c: KeyCommand)
        ensures
            c == (if is_camera_key(key) {
                KeyCommand::CameraControl(key)
            } else if key == Key::Delete {
                KeyCommand::Delete
            } else {
                KeyCommand::Ignore
            }),
    {
        if camera_key(key) {
            KeyCommand::CameraControl(key)
        } else {
            match key {
                Key::Delete => KeyCommand::Delete,
                _ => KeyCommand::Ignore,
            }
        }
    }
}

impl IconInputManager {
    pub fn key_command(key: Key) -> (c: KeyCommand)
        ensures
            c == (if is_camera_key(key) {
                KeyCommand::CameraControl(key)
            } else if key == Key::Delete {
                KeyCommand::Delete
            } else if key == Key::Insert {
                KeyCommand::Insert
            } else {
                KeyCommand::Ignore
            }),
    {
        if camera_key(key) {
            KeyCommand::CameraControl(key)
        } else {
            match key {
                Key::Delete => KeyCommand::Delete,
                Key::Insert => KeyCommand::Insert,
                _ => KeyCommand::Ignore,
            }
        }
    }
}

impl AnimInputManager {
    pub fn framing_key_command(key: Key) -> (c: FramingKeyCommand)
        ensures
            c == match key {
                Key::Delete => FramingKeyCommand::DeleteFrame,
                Key::Insert => FramingKeyCommand::InsertFrame,
                Key::Space => FramingKeyCommand::PlayPause,
                Key::Enter => FramingKeyCommand::StartPosing,
                Key::ArrowLeft => FramingKeyCommand::Navigate(CardinalDirection::West),
                Key::ArrowRight => FramingKeyCommand::Navigate(CardinalDirection::East),
                Key::ArrowUp => FramingKeyCommand::Navigate(CardinalDirection::North),
                Key::ArrowDown => FramingKeyCommand::Navigate(CardinalDirection::South),
                _ => FramingKeyCommand::Ignore,
            },
    {
        match key {
            Key::Delete => FramingKeyCommand::DeleteFrame,
            Key::Insert => FramingKeyCommand::InsertFrame,
            Key::Space => FramingKeyCommand::PlayPause,
            Key::Enter => FramingKeyCommand::StartPosing,
            Key::ArrowLeft => FramingKeyCommand::Navigate(CardinalDirection::West),
            Key::ArrowRight => FramingKeyCommand::Navigate(CardinalDirection::East),
            Key::ArrowUp => FramingKeyCommand::Navigate(CardinalDirection::North),
            Key::ArrowDown => FramingKeyCommand::Navigate(CardinalDirection::South),
            _ => FramingKeyCommand::Ignore,
        }
    }

    pub fn posing_key_command(key: Key) -> (c: PosingKeyCommand)
        ensures
            c == (if is_camera_key(key) {
                PosingKeyCommand::CameraControl(key)
            } else if key == Key::E {
                PosingKeyCommand::ToggleEdgeAngles
            } else if key == Key::Space {
                PosingKeyCommand::PlayPause
            } else if key == Key::Escape {
                PosingKeyCommand::StopPosing
            } else {
                PosingKeyCommand::Ignore
            }),
    {
        if camera_key(key) {
            PosingKeyCommand::CameraControl(key)
        } else {
            match key {
                Key::E => PosingKeyCommand::ToggleEdgeAngles,
                Key::Space => PosingKeyCommand::PlayPause,
                Key::Escape => PosingKeyCommand::StopPosing,
                _ => PosingKeyCommand::Ignore,
            }
        }
    }
}

/// The 2d vertex entity of a selection or hover on a vertex.
pub open spec fn vertex_of(shape: Option<(u64, CanvasShape)>) -> Option<u64> {
    match shape {
        Some((e, CanvasShape::Vertex)) | Some((e, CanvasShape::RootVertex)) => Some(e),
        _ => None,
    }
}

/// What a click in the skeleton, mesh or animation editor does.
#[derive(Clone, Copy, PartialEq, Eq, Debug)]
pub enum ClickOutcome {
    Nothing,
    /// select this shape (or nothing) in a skeleton or mesh
    SelectShape(Option<(u64, CanvasShape)>),
    /// select this shape (or nothing) in an animation pose
    SelectAnimShape(Option<(u64, CanvasShape)>),
    /// join the selected vertex and the hovered one by a new edge
    CreateEdge(u64, u64),
    /// create a new vertex attached to this 2d vertex
    CreateVertex(u64, FileExtension),
}

/// The click table of the skeleton, mesh and animation editors, given
/// whether the selected and hovered vertices are joined by an edge.
pub open spec fn shape_click_outcome(
    click: MouseButton,
    selected: Option<(u64, CanvasShape)>,
    hovered: Option<(u64, CanvasShape)>,
    file_type: FileExtension,
    joined: bool,
) -> ClickOutcome {
    let is_vertex = |s: CanvasShape| s == CanvasShape::Vertex || s == CanvasShape::RootVertex;
    let is_edge_or_face = |s: CanvasShape| s == CanvasShape::Edge || s == CanvasShape::Face;
    let skel_or_mesh = file_type == FileExtension::Skel || file_type == FileExtension::Mesh;
    match click {
        MouseButton::Left => match (selected, hovered) {
            (Some((_, s)), _) if is_edge_or_face(s) && skel_or_mesh => ClickOutcome::SelectShape(hovered),
            (Some((_, s)), Some(_)) if is_vertex(s) && file_type == FileExtension::Skel => ClickOutcome::SelectShape(hovered),
            (Some(_), Some((_, h))) if file_type == FileExtension::Anim => if h == CanvasShape::Vertex || h == CanvasShape::Edge {
                ClickOutcome::SelectAnimShape(hovered)
            } else {
                ClickOutcome::SelectAnimShape(None)
            },
            (Some(_), Some((_, h))) if is_edge_or_face(h) && file_type == FileExtension::Mesh => ClickOutcome::SelectShape(hovered),
            (Some((a, s)), Some((b, h))) if is_vertex(s) && is_vertex(h) && file_type == FileExtension::Mesh => if a == b {
                ClickOutcome::Nothing
            } else if joined {
                ClickOutcome::SelectShape(Some((b, CanvasShape::Vertex)))
            } else {
                ClickOutcome::CreateEdge(a, b)
            },
            (Some((_, CanvasShape::Vertex)), None) if file_type == FileExtension::Anim => ClickOutcome::SelectAnimShape(None),
            (Some((a, s)), None) if is_vertex(s) && skel_or_mesh => ClickOutcome::CreateVertex(a, file_type),
            (None, Some((_, h))) if h != CanvasShape::Face && skel_or_mesh => ClickOutcome::SelectShape(hovered),
            (None, Some((_, h))) if (h == CanvasShape::Vertex || h == CanvasShape::Edge) && file_type == FileExtension::Anim => ClickOutcome::SelectAnimShape(hovered),
            (None, Some((_, CanvasShape::Face))) if file_type == FileExtension::Mesh => ClickOutcome::SelectShape(hovered),
            _ => ClickOutcome::Nothing,
        },
        MouseButton::Right => if skel_or_mesh {
            ClickOutcome::SelectShape(None)
        } else if file_type == FileExtension::Anim {
            ClickOutcome::SelectAnimShape(None)
        } else {
            ClickOutcome::Nothing
        },
        MouseButton::Middle => ClickOutcome::Nothing,
    }
}

/// The click table of the mesh editor, given whether the selected and
/// hovered vertices are joined by an edge.
pub open spec fn mesh_click_outcome(
    click: MouseButton,
    selected: Option<(u64, CanvasShape)>,
    hovered: Option<(u64, CanvasShape)>,
    joined: bool,
) -> ClickOutcome {
    let is_vertex = |s: CanvasShape| s == CanvasShape::Vertex || s == CanvasShape::RootVertex;
    let is_edge_or_face = |s: CanvasShape| s == CanvasShape::Edge || s == CanvasShape::Face;
    match click {
        MouseButton::Left => match (selected, hovered) {
            (Some((_, s)), _) if is_edge_or_face(s) => ClickOutcome::SelectShape(hovered),
            (Some(_), Some((_, h))) if is_edge_or_face(h) => ClickOutcome::SelectShape(hovered),
            (Some((a, s)), Some((b, h))) if is_vertex(s) && is_vertex(h) => if a == b {
                ClickOutcome::Nothing
            } else if joined {
                ClickOutcome::SelectShape(Some((b, CanvasShape::Vertex)))
            } else {
                ClickOutcome::CreateEdge(a, b)
            },
            (Some((a, s)), None) if is_vertex(s) => ClickOutcome::CreateVertex(a, FileExtension::Mesh),
            (None, Some(_)) => ClickOutcome::SelectShape(hovered),
            _ => ClickOutcome::Nothing,
        },
        MouseButton::Right => ClickOutcome::SelectShape(None),
        MouseButton::Middle => ClickOutcome::Nothing,
    }
}

/// The 2d vertices `a` and `b` stand for 3d vertices that share an edge that
/// the edge registry knows.
pub open spec fn joined_2d(vm: VertexManagerView, em: EdgeManagerView, a: u64, b: u64) -> bool {
    exists|e3: u64| {
        &&& vm.vertices_2d.contains_key(a)
        &&& vm.vertices_2d.contains_key(b)
        &&& #[trigger] vm.vertices[vm.vertices_2d[a]].edges.contains(e3)
        &&& vm.vertices[vm.vertices_2d[b]].edges.contains(e3)
        &&& em.edges.contains_key(e3)
    }
}

/// The 2d vertices `a` and `b` do not stand for 3d vertices that share an
/// edge, or they share one that the edge registry does not know.
pub open spec fn not_joined_2d(vm: VertexManagerView, em: EdgeManagerView, a: u64, b: u64) -> bool {
    ||| !vm.vertices_2d.contains_key(a)
    ||| !vm.vertices_2d.contains_key(b)
    ||| !vm.vertices.contains_key(vm.vertices_2d[a])
    ||| !vm.vertices.contains_key(vm.vertices_2d[b])
    ||| vm.vertices[vm.vertices_2d[a]].edges.disjoint(vm.vertices[vm.vertices_2d[b]].edges)
    ||| exists|e3: u64| {
        &&& #[trigger] vm.vertices[vm.vertices_2d[a]].edges.contains(e3)
        &&& vm.vertices[vm.vertices_2d[b]].edges.contains(e3)
        &&& !em.edges.contains_key(e3)
    }
}

/// The shape that deleting removes in the skeleton, mesh or animation
/// editor.
#[derive(Clone, Copy, PartialEq, Eq, Structural, Debug)]
pub enum DeleteTarget {
    Nothing,
    Vertex(u64),
    Edge(u64),
    Face(u64),
}

pub open spec fn delete_target_of(file_type: FileExtension, selected: Option<(u64, CanvasShape)>) -> DeleteTarget {
    if file_type == FileExtension::Anim {
        DeleteTarget::Nothing
    } else {
        match selected {
            Some((e, CanvasShape::Vertex)) => DeleteTarget::Vertex(e),
            Some((e, CanvasShape::Edge)) => if file_type == FileExtension::Skel {
                DeleteTarget::Nothing
            } else {
                DeleteTarget::Edge(e)
            },
            Some((e, CanvasShape::Face)) => DeleteTarget::Face(e),
            _ => DeleteTarget::Nothing,
        }
    }
}

/// The keys of the shape editors and their actions.
pub open spec fn default_key_bindings() -> Seq<(Key, AppInputAction)> {
    seq![
        (Key::S, AppInputAction::SwitchTo3dMode),
        (Key::W, AppInputAction::SwitchTo2dMode),
        (Key::D, AppInputAction::SetCameraAngleFixed(CameraAngle::Side)),
        (Key::T, AppInputAction::SetCameraAngleFixed(CameraAngle::Top)),
        (Key::F, AppInputAction::SetCameraAngleFixed(CameraAngle::Front)),
        (Key::N, AppInputAction::ToggleNamingBar),
        (Key::E, AppInputAction::ToggleEdgeAngleVisibility),
        (Key::X, AppInputAction::ToggleAnimationFraming),
        (Key::Num1, AppInputAction::SetCameraAngleFixed(CameraAngle::Ingame(1))),
        (Key::Num2, AppInputAction::SetCameraAngleFixed(CameraAngle::Ingame(2))),
        (Key::Num3, AppInputAction::SetCameraAngleFixed(CameraAngle::Ingame(3))),
        (Key::Num4, AppInputAction::SetCameraAngleFixed(CameraAngle::Ingame(4))),
        (Key::Num5, AppInputAction::SetCameraAngleFixed(CameraAngle::Ingame(5))),
        (Key::PageUp, AppInputAction::CameraAngleYawRotate(true)),
        (Key::PageDown, AppInputAction::CameraAngleYawRotate(false)),
        (Key::Insert, AppInputAction::InsertKeyPress),
        (Key::Delete, AppInputAction::DeleteKeyPress),
    ]
}

/// What the editors' keys do by default: S and W switch to the 3d and the 2d
/// view; D, T and F fix the camera to the side, the top and the front; the
/// number keys 1 to 5 to the in-game angles 1 to 5; PageUp and PageDown turn
/// the camera's yaw one way and the other; N toggles the naming bar, E the
/// edge angles, X the animation framing; Insert and Delete are passed on.
/// No other key is bound.
pub proof fn lemma_default_key_meanings()
    ensures
        ({
            let m = bound_map(default_key_bindings());
            &&& m.contains_key(Key::S) && m[Key::S] == AppInputAction::SwitchTo3dMode
            &&& m.contains_key(Key::W) && m[Key::W] == AppInputAction::SwitchTo2dMode
            &&& m.contains_key(Key::D) && m[Key::D] == AppInputAction::SetCameraAngleFixed(CameraAngle::Side)
            &&& m.contains_key(Key::T) && m[Key::T] == AppInputAction::SetCameraAngleFixed(CameraAngle::Top)
            &&& m.contains_key(Key::F) && m[Key::F] == AppInputAction::SetCameraAngleFixed(CameraAngle::Front)
            &&& m.contains_key(Key::Num1) && m[Key::Num1] == AppInputAction::SetCameraAngleFixed(CameraAngle::Ingame(1))
            &&& m.contains_key(Key::Num2) && m[Key::Num2] == AppInputAction::SetCameraAngleFixed(CameraAngle::Ingame(2))
            &&& m.contains_key(Key::Num3) && m[Key::Num3] == AppInputAction::SetCameraAngleFixed(CameraAngle::Ingame(3))
            &&& m.contains_key(Key::Num4) && m[Key::Num4] == AppInputAction::SetCameraAngleFixed(CameraAngle::Ingame(4))
            &&& m.contains_key(Key::Num5) && m[Key::Num5] == AppInputAction::SetCameraAngleFixed(CameraAngle::Ingame(5))
            &&& m.contains_key(Key::PageUp) && m[Key::PageUp] == AppInputAction::CameraAngleYawRotate(true)
            &&& m.contains_key(Key::PageDown) && m[Key::PageDown] == AppInputAction::CameraAngleYawRotate(false)
            &&& m.contains_key(Key::N) && m[Key::N] == AppInputAction::ToggleNamingBar
            &&& m.contains_key(Key::E) && m[Key::E] == AppInputAction::ToggleEdgeAngleVisibility
            &&& m.contains_key(Key::X) && m[Key::X] == AppInputAction::ToggleAnimationFraming
            &&& m.contains_key(Key::Insert) && m[Key::Insert] == AppInputAction::InsertKeyPress
            &&& m.contains_key(Key::Delete) && m[Key::Delete] == AppInputAction::DeleteKeyPress
            &&& !m.contains_key(Key::Space) && !m.contains_key(Key::Enter) && !m.contains_key(Key::Escape)
            &&& !m.contains_key(Key::ArrowLeft) && !m.contains_key(Key::ArrowRight)
            &&& !m.contains_key(Key::ArrowUp) && !m.contains_key(Key::ArrowDown)
        }),
{
    reveal_with_fuel(bound_map, 18);
}

/// The pointer state of the shape editors: what is hovered and selected, and
/// whether the hover and selection markers need a resync.
pub struct InputManager {
    key_action_map: KeyActionMap<AppInputAction>,
    resync_hover: bool,
    hovered_entity: Option<(u64, CanvasShape)>,
    resync_selection: bool,
    selected_shape: Option<(u64, CanvasShape)>,
    select_circle_entity: Option<u64>,
    select_triangle_entity: Option<u64>,
    select_line_entity: Option<u64>,
}

pub struct InputManagerView {
    pub keys: Map<Key, AppInputAction>,
    pub resync_hover: bool,
    pub hovered_entity: Option<(u64, CanvasShape)>,
    pub resync_selection: bool,
    pub selected_shape: Option<(u64, CanvasShape)>,
    /// the select circle, triangle and line markers
    pub markers: (Option<u64>, Option<u64>, Option<u64>),
}

impl View for InputManager {
    type V = InputManagerView;

    closed spec fn view(&self) -> InputManagerView {
        InputManagerView {
            keys: self.key_action_map@,
            resync_hover: self.resync_hover,
            hovered_entity: self.hovered_entity,
            resync_selection: self.resync_selection,
            selected_shape: self.selected_shape,
            markers: (self.select_circle_entity, self.select_triangle_entity, self.select_line_entity),
        }
    }
}

impl Default for InputManager {
    fn default() -> (m: Self)
        ensures
            m@ == (InputManagerView {
                keys: bound_map(default_key_bindings()),
                resync_hover: false,
                hovered_entity: None,
                resync_selection: false,
                selected_shape: None,
                markers: (None, None, None),
            }),
            m@.keys.contains_key(Key::D) && m@.keys[Key::D] == AppInputAction::SetCameraAngleFixed(CameraAngle::Side),
            m@.keys.contains_key(Key::T) && m@.keys[Key::T] == AppInputAction::SetCameraAngleFixed(CameraAngle::Top),
            m@.keys.contains_key(Key::F) && m@.keys[Key::F] == AppInputAction::SetCameraAngleFixed(CameraAngle::Front),
            m@.keys.contains_key(Key::PageUp) && m@.keys[Key::PageUp] == AppInputAction::CameraAngleYawRotate(true),
            m@.keys.contains_key(Key::PageDown) && m@.keys[Key::PageDown] == AppInputAction::CameraAngleYawRotate(false),
    {
        proof {
            lemma_default_key_meanings();
        }
        let keys = vec![
            (Key::S, AppInputAction::SwitchTo3dMode),
            (Key::W, AppInputAction::SwitchTo2dMode),
            (Key::D, AppInputAction::SetCameraAngleFixed(CameraAngle::Side)),
            (Key::T, AppInputAction::SetCameraAngleFixed(CameraAngle::Top)),
            (Key::F, AppInputAction::SetCameraAngleFixed(CameraAngle::Front)),
            (Key::N, AppInputAction::ToggleNamingBar),
            (Key::E, AppInputAction::ToggleEdgeAngleVisibility),
            (Key::X, AppInputAction::ToggleAnimationFraming),
            (Key::Num1, AppInputAction::SetCameraAngleFixed(CameraAngle::Ingame(1))),
            (Key::Num2, AppInputAction::SetCameraAngleFixed(CameraAngle::Ingame(2))),
            (Key::Num3, AppInputAction::SetCameraAngleFixed(CameraAngle::Ingame(3))),
            (Key::Num4, AppInputAction::SetCameraAngleFixed(CameraAngle::Ingame(4))),
            (Key::Num5, AppInputAction::SetCameraAngleFixed(CameraAngle::Ingame(5))),
            (Key::PageUp, AppInputAction::CameraAngleYawRotate(true)),
            (Key::PageDown, AppInputAction::CameraAngleYawRotate(false)),
            (Key::Insert, AppInputAction::InsertKeyPress),
            (Key::Delete, AppInputAction::DeleteKeyPress),
        ];
        assert(keys@ =~= default_key_bindings());
        InputManager {
            key_action_map: KeyActionMap::init(keys),
            resync_hover: false,
            hovered_entity: None,
            resync_selection: false,
            selected_shape: None,
            select_circle_entity: None,
            select_triangle_entity: None,
            select_line_entity: None,
        }
    }
}

impl InputManager {
    /// Records the entities of the select circle, triangle and line markers.
    pub fn set_select_shape_entities(&mut self, circle: u64, triangle: u64, line: u64)
        ensures
            final(self)@ == (InputManagerView { markers: (Some(circle), Some(triangle), Some(line)), ..old(self)@ }),
    {
        self.select_circle_entity = Some(circle);
        self.select_triangle_entity = Some(triangle);
        self.select_line_entity = Some(line);
    }

    /// The entities of the select circle, triangle and line markers.
    pub fn select_shape_entities(&self) -> (r: (Option<u64>, Option<u64>, Option<u64>))
        ensures
            r == self@.markers,
    {
        (self.select_circle_entity, self.select_triangle_entity, self.select_line_entity)
    }

    /// The action bound to `key`.
    pub fn key_to_action(&self, key: Key) -> (r: Option<AppInputAction>)
        ensures
            r == (if self@.keys.contains_key(key) { Some(self@.keys[key]) } else { None }),
    {
        self.key_action_map.key_to_action(key)
    }

    pub fn queue_resync_hover_ui(&mut self)
        ensures
            final(self)@ == (InputManagerView { resync_hover: true, ..old(self)@ }),
    {
        self.resync_hover = true;
    }

    pub fn queue_resync_selection_ui(&mut self)
        ensures
            final(self)@ == (InputManagerView { resync_selection: true, ..old(self)@ }),
    {
        self.resync_selection = true;
    }

    /// Whether the hover is to be re-synced; clears the request.
    pub fn take_resync_hover(&mut self) -> (r: bool)
        ensures
            r == old(self)@.resync_hover,
            final(self)@ == (InputManagerView { resync_hover: false, ..old(self)@ }),
    {
        let r = self.resync_hover;
        self.resync_hover = false;
        r
    }

    /// Whether the selection markers are to be re-synced; clears the request.
    pub fn take_resync_selection(&mut self) -> (r: bool)
        ensures
            r == old(self)@.resync_selection,
            final(self)@ == (InputManagerView { resync_selection: false, ..old(self)@ }),
    {
        let r = self.resync_selection;
        self.resync_selection = false;
        r
    }

    pub fn hovered_entity(&self) -> (r: Option<(u64, CanvasShape)>)
        ensures
            r == self@.hovered_entity,
    {
        self.hovered_entity
    }

    /// Clears the hover if it is on `entity` as `shape` (which is gone).
    pub fn clear_hover_on(&mut self, entity: u64, shape: CanvasShape)
        ensures
            final(self)@ == (InputManagerView {
                hovered_entity: if old(self)@.hovered_entity == Some((entity, shape)) {
                    None
                } else {
                    old(self)@.hovered_entity
                },
                ..old(self)@
            }),
    {
        if let Some((e, s)) = self.hovered_entity {
            if e == entity && s == shape {
                self.hovered_entity = None;
            }
        }
    }

    /// Moves the hover to `next`; where it changed, the canvas shapes get a
    /// light resync. Returns whether it changed.
    pub fn apply_hover(&mut self, canvas: &mut Canvas, next: Option<(u64, CanvasShape)>) -> (changed: bool)
        ensures
            changed == (old(self)@.hovered_entity != next),
            final(self)@ == (InputManagerView { hovered_entity: next, ..old(self)@ }),
            *final(canvas) == if changed {
                Canvas { resync_shapes: 1, ..*old(canvas) }
            } else {
                *old(canvas)
            },
    {
        let same = match (self.hovered_entity, next) {
            (None, None) => true,
            (Some((e1, s1)), Some((e2, s2))) => e1 == e2 && s1 == s2,
            _ => false,
        };
        if same {
            return false;
        }
        self.hovered_entity = next;
        canvas.queue_resync_shapes_light();
        true
    }

    /// Selects a shape; nothing may be selected before. The canvas shapes
    /// get a resync.
    pub fn select_shape(&mut self, canvas: &mut Canvas, entity: u64, shape: CanvasShape)
        requires
            old(self)@.selected_shape is None,
        ensures
            final(self)@ == (InputManagerView { selected_shape: Some((entity, shape)), ..old(self)@ }),
            *final(canvas) == (Canvas { resync_shapes: 2, ..*old(canvas) }),
    {
        self.selected_shape = Some((entity, shape));
        canvas.queue_resync_shapes();
    }

    pub fn deselect_shape(&mut self, canvas: &mut Canvas)
        ensures
            final(self)@ == (InputManagerView { selected_shape: None, ..old(self)@ }),
            *final(canvas) == (Canvas { resync_shapes: 2, ..*old(canvas) }),
    {
        self.selected_shape = None;
        canvas.queue_resync_shapes();
    }

    pub fn selected_shape_2d(&self) -> (r: Option<(u64, CanvasShape)>)
        ensures
            r == self@.selected_shape,
    {
        self.selected_shape
    }

    /// Whether the insert key creates a new vertex: in a mesh, with nothing
    /// selected.
    pub fn inserts_vertex(&self, file_type: FileExtension) -> (r: bool)
        ensures
            r == (self@.selected_shape is None && file_type == FileExtension::Mesh),
    {
        self.selected_shape.is_none() && file_type == FileExtension::Mesh
    }

    /// The shape that the delete key removes.
    pub fn delete_target(&self, file_type: FileExtension) -> (r: DeleteTarget)
        ensures
            r == delete_target_of(file_type, self@.selected_shape),
    {
        if file_type == FileExtension::Anim {
            return DeleteTarget::Nothing;
        }
        match self.selected_shape {
            Some((e, CanvasShape::Vertex)) => DeleteTarget::Vertex(e),
            Some((e, CanvasShape::Edge)) => if file_type == FileExtension::Skel {
                DeleteTarget::Nothing
            } else {
                DeleteTarget::Edge(e)
            },
            Some((e, CanvasShape::Face)) => DeleteTarget::Face(e),
            _ => DeleteTarget::Nothing,
        }
    }

    /// What a click does in the skeleton, mesh or animation editor, from the
    /// selection and the hover; whether two vertices are joined is looked up
    /// in the registries.
    pub fn click_outcome(
        &self,
        vertex_manager: &VertexManager,
        edge_manager: &EdgeManager,
        click: MouseButton,
        file_type: FileExtension,
    ) -> (r: ClickOutcome)
        ensures
            ({
                let sel = self@.selected_shape;
                let hov = self@.hovered_entity;
                let (a, b) = (vertex_of(sel)->0, vertex_of(hov)->0);
                ||| r == shape_click_outcome(click, sel, hov, file_type, true)
                    && (vertex_of(sel) is Some && vertex_of(hov) is Some ==> joined_2d(vertex_manager@, edge_manager@, a, b))
                ||| r == shape_click_outcome(click, sel, hov, file_type, false)
                    && (vertex_of(sel) is Some && vertex_of(hov) is Some ==> not_joined_2d(vertex_manager@, edge_manager@, a, b))
            }),
    {
        let joined = match (self.selected_shape, self.hovered_entity) {
            (Some((a, CanvasShape::Vertex)), Some((b, CanvasShape::Vertex)))
            | (Some((a, CanvasShape::Vertex)), Some((b, CanvasShape::RootVertex)))
            | (Some((a, CanvasShape::RootVertex)), Some((b, CanvasShape::Vertex)))
            | (Some((a, CanvasShape::RootVertex)), Some((b, CanvasShape::RootVertex))) =>
                if click == MouseButton::Left && file_type == FileExtension::Mesh && a != b {
                    edge_manager.edge_2d_entity_from_vertices(vertex_manager, a, b).is_some()
                } else {
                    false
                },
            _ => false,
        };
        shape_click(click, self.selected_shape, self.hovered_entity, file_type, joined)
    }

    /// What a click does in the mesh editor (see `click_outcome`).
    pub fn mesh_click_outcome(
        &self,
        vertex_manager: &VertexManager,
        edge_manager: &EdgeManager,
        click: MouseButton,
    ) -> (r: ClickOutcome)
        ensures
            ({
                let sel = self@.selected_shape;
                let hov = self@.hovered_entity;
                let (a, b) = (vertex_of(sel)->0, vertex_of(hov)->0);
                ||| r == mesh_click_outcome(click, sel, hov, true)
                    && (vertex_of(sel) is Some && vertex_of(hov) is Some ==> joined_2d(vertex_manager@, edge_manager@, a, b))
                ||| r == mesh_click_outcome(click, sel, hov, false)
                    && (vertex_of(sel) is Some && vertex_of(hov) is Some ==> not_joined_2d(vertex_manager@, edge_manager@, a, b))
            }),
    {
        let joined = match (self.selected_shape, self.hovered_entity) {
            (Some((a, CanvasShape::Vertex)), Some((b, CanvasShape::Vertex)))
            | (Some((a, CanvasShape::Vertex)), Some((b, CanvasShape::RootVertex)))
            | (Some((a, CanvasShape::RootVertex)), Some((b, CanvasShape::Vertex)))
            | (Some((a, CanvasShape::RootVertex)), Some((b, CanvasShape::RootVertex))) =>
                if click == MouseButton::Left && a != b {
                    edge_manager.edge_2d_entity_from_vertices(vertex_manager, a, b).is_some()
                } else {
                    false
                },
            _ => false,
        };
        mesh_click(click, self.selected_shape, self.hovered_entity, joined)
    }
}

/// The click table of the skeleton, mesh and animation editors.
pub fn shape_click(
    click: MouseButton,
    selected: Option<(u64, CanvasShape)>,
    hovered: Option<(u64, CanvasShape)>,
    file_type: FileExtension,
    joined: bool,
) -> (r: ClickOutcome)
    ensures
        r == shape_click_outcome(click, selected, hovered, file_type, joined),
{
    let skel_or_mesh = file_type == FileExtension::Skel || file_type == FileExtension::Mesh;
    let sel_edge_or_face = match selected {
        Some((_, CanvasShape::Edge)) | Some((_, CanvasShape::Face)) => true,
        _ => false,
    };
    let sel_vertex = match selected {
        Some((_, CanvasShape::Vertex)) | Some((_, CanvasShape::RootVertex)) => true,
        _ => false,
    };
    let hov_edge_or_face = match hovered {
        Some((_, CanvasShape::Edge)) | Some((_, CanvasShape::Face)) => true,
        _ => false,
    };
    let hov_vertex = match hovered {
        Some((_, CanvasShape::Vertex)) | Some((_, CanvasShape::RootVertex)) => true,
        _ => false,
    };
    let hov_vertex_or_edge = match hovered {
        Some((_, CanvasShape::Vertex)) | Some((_, CanvasShape::Edge)) => true,
        _ => false,
    };
    let hov_face = match hovered {
        Some((_, CanvasShape::Face)) => true,
        _ => false,
    };
    let sel_plain_vertex = match selected {
        Some((_, CanvasShape::Vertex)) => true,
        _ => false,
    };
    match click {
        MouseButton::Left => {
            if sel_edge_or_face && skel_or_mesh {
                ClickOutcome::SelectShape(hovered)
            } else if sel_vertex && hovered.is_some() && file_type == FileExtension::Skel {
                ClickOutcome::SelectShape(hovered)
            } else if selected.is_some() && hovered.is_some() && file_type == FileExtension::Anim {
                if hov_vertex_or_edge {
                    ClickOutcome::SelectAnimShape(hovered)
                } else {
                    ClickOutcome::SelectAnimShape(None)
                }
            } else if selected.is_some() && hov_edge_or_face && file_type == FileExtension::Mesh {
                ClickOutcome::SelectShape(hovered)
            } else if sel_vertex && hov_vertex && file_type == FileExtension::Mesh {
                let a = selected.unwrap().0;
                let b = hovered.unwrap().0;
                if a == b {
                    ClickOutcome::Nothing
                } else if joined {
                    ClickOutcome::SelectShape(Some((b, CanvasShape::Vertex)))
                } else {
                    ClickOutcome::CreateEdge(a, b)
                }
            } else if sel_plain_vertex && hovered.is_none() && file_type == FileExtension::Anim {
                ClickOutcome::SelectAnimShape(None)
            } else if sel_vertex && hovered.is_none() && skel_or_mesh {
                ClickOutcome::CreateVertex(selected.unwrap().0, file_type)
            } else if selected.is_none() && hovered.is_some() && !hov_face && skel_or_mesh {
                ClickOutcome::SelectShape(hovered)
            } else if selected.is_none() && hov_vertex_or_edge && file_type == FileExtension::Anim {
                ClickOutcome::SelectAnimShape(hovered)
            } else if selected.is_none() && hov_face && file_type == FileExtension::Mesh {
                ClickOutcome::SelectShape(hovered)
            } else {
                ClickOutcome::Nothing
            }
        },
        MouseButton::Right => if skel_or_mesh {
            ClickOutcome::SelectShape(None)
        } else if file_type == FileExtension::Anim {
            ClickOutcome::SelectAnimShape(None)
        } else {
            ClickOutcome::Nothing
        },
        MouseButton::Middle => ClickOutcome::Nothing,
    }
}

/// The click table of the mesh editor.
pub fn mesh_click(
    click: MouseButton,
    selected: Option<(u64, CanvasShape)>,
    hovered: Option<(u64, CanvasShape)>,
    joined: bool,
) -> (r: ClickOutcome)
    ensures
        r == mesh_click_outcome(click, selected, hovered, joined),
{
    match click {
        MouseButton::Left => match (selected, hovered) {
            (Some((_, CanvasShape::Edge)), _) | (Some((_, CanvasShape::Face)), _) => ClickOutcome::SelectShape(hovered),
            (Some(_), Some((_, CanvasShape::Edge))) | (Some(_), Some((_, CanvasShape::Face))) => ClickOutcome::SelectShape(hovered),
            (Some((a, _)), Some((b, _))) => if a == b {
                ClickOutcome::Nothing
            } else if joined {
                ClickOutcome::SelectShape(Some((b, CanvasShape::Vertex)))
            } else {
                ClickOutcome::CreateEdge(a, b)
            },
            (Some((a, _)), None) => ClickOutcome::CreateVertex(a, FileExtension::Mesh),
            (None, Some(_)) => ClickOutcome::SelectShape(hovered),
            _ => ClickOutcome::Nothing,
        },
        MouseButton::Right => ClickOutcome::SelectShape(None),
        MouseButton::Middle => ClickOutcome::Nothing,
    }
}

/// What a click does while a pose is edited.
#[derive(Clone, Copy, PartialEq, Eq, Debug)]
pub enum PosingClick {
    Nothing,
    SelectShape(Option<(u64, CanvasShape)>),
}

/// What a drag does while a pose is edited.
#[derive(Clone, Copy, PartialEq, Eq, Structural, Debug)]
pub enum PosingDrag {
    /// rotate the selected 2d vertex
    DragVertex(u64),
    /// rotate the selected 2d edge
    DragEdge(u64),
    /// move the camera
    EmptySpace,
    Nothing,
}

/// What a click on the frame list does.
#[derive(Clone, Copy, PartialEq, Eq, Debug)]
pub struct FramingClick {
    /// select this frame index, leaving the current one
    pub select_frame: Option<(usize, usize)>,
    /// start editing the pose
    pub start_posing: bool,
    /// the preview frame was selected
    pub select_preview: bool,
    /// the frame slot now remembered as last clicked
    pub last_frame_index_hover: usize,
}

/// A click counts as double when it lands on the slot clicked last, less
/// than half a second after that click.
pub open spec fn is_double_click(hover: usize, last_hover: usize, elapsed_ms: u64) -> bool {
    hover == last_hover && elapsed_ms < 500
}

impl AnimInputManager {
    /// A click while a pose is edited (not on the preview frame): the hovered
    /// vertex or edge is selected, anything else deselects.
    pub fn posing_click(
        click: MouseButton,
        selected: Option<(u64, CanvasShape)>,
        hovered: Option<(u64, CanvasShape)>,
        preview_frame_selected: bool,
    ) -> (r: PosingClick)
        ensures
            r == (if preview_frame_selected {
                PosingClick::Nothing
            } else {
                match click {
                    MouseButton::Left => match (selected, hovered) {
                        (Some(_), Some((_, h))) => if h == CanvasShape::Vertex || h == CanvasShape::Edge {
                            PosingClick::SelectShape(hovered)
                        } else {
                            PosingClick::SelectShape(None)
                        },
                        (Some((_, CanvasShape::Vertex)), None) => PosingClick::SelectShape(None),
                        (None, Some((_, h))) => if h == CanvasShape::Vertex || h == CanvasShape::Edge {
                            PosingClick::SelectShape(hovered)
                        } else {
                            PosingClick::Nothing
                        },
                        _ => PosingClick::Nothing,
                    },
                    MouseButton::Right => PosingClick::SelectShape(None),
                    MouseButton::Middle => PosingClick::Nothing,
                }
            }),
    {
        if preview_frame_selected {
            return PosingClick::Nothing;
        }
        let hov_vertex_or_edge = match hovered {
            Some((_, CanvasShape::Vertex)) | Some((_, CanvasShape::Edge)) => true,
            _ => false,
        };
        match click {
            MouseButton::Left => match (selected, hovered) {
                (Some(_), Some(_)) => if hov_vertex_or_edge {
                    PosingClick::SelectShape(hovered)
                } else {
                    PosingClick::SelectShape(None)
                },
                (Some((_, CanvasShape::Vertex)), None) => PosingClick::SelectShape(None),
                (None, Some(_)) => if hov_vertex_or_edge {
                    PosingClick::SelectShape(hovered)
                } else {
                    PosingClick::Nothing
                },
                _ => PosingClick::Nothing,
            },
            MouseButton::Right => PosingClick::SelectShape(None),
            MouseButton::Middle => PosingClick::Nothing,
        }
    }

    /// A drag while a pose is edited: a selected vertex or edge is rotated by
    /// the left button (a selected root cannot be, and is left out);
    /// otherwise the camera moves.
    pub fn posing_drag(click: MouseButton, selected: Option<(u64, CanvasShape)>, preview_frame_selected: bool) -> (r: PosingDrag)
        requires
            !(selected matches Some((_, CanvasShape::RootVertex)) && click == MouseButton::Left && !preview_frame_selected),
        ensures
            r == (match selected {
                Some((e, s)) if s != CanvasShape::Face && !preview_frame_selected => match click {
                    MouseButton::Left => if s == CanvasShape::Vertex {
                        PosingDrag::DragVertex(e)
                    } else {
                        PosingDrag::DragEdge(e)
                    },
                    _ => PosingDrag::Nothing,
                },
                _ => PosingDrag::EmptySpace,
            }),
    {
        let can_drag = match selected {
            Some((_, CanvasShape::Face)) => false,
            Some(_) => !preview_frame_selected,
            None => false,
        };
        if can_drag {
            match click {
                MouseButton::Left => match selected {
                    Some((e, CanvasShape::Vertex)) => PosingDrag::DragVertex(e),
                    Some((e, _)) => PosingDrag::DragEdge(e),
                    None => PosingDrag::Nothing,
                },
                _ => PosingDrag::Nothing,
            }
        } else {
            PosingDrag::EmptySpace
        }
    }

    /// A click on the frame list, over slot `hover` (slot 0 is the preview,
    /// slot `i + 1` is frame `i`), `elapsed_ms` after the last left click on
    /// slot `last_hover`: a frame other than the current one is selected; a
    /// double click starts posing (and on the preview, selects it). Only the
    /// left button counts.
    pub fn framing_click(
        click: MouseButton,
        hover: Option<usize>,
        current_frame_index: usize,
        last_hover: usize,
        elapsed_ms: u64,
    ) -> (r: FramingClick)
        ensures
            r == (match (click, hover) {
                (MouseButton::Left, Some(h)) => {
                    let double = is_double_click(h, last_hover, elapsed_ms);
                    if h == 0 {
                        FramingClick { select_frame: None, start_posing: double, select_preview: double, last_frame_index_hover: h }
                    } else {
                        FramingClick {
                            select_frame: if current_frame_index != h - 1 { Some(((h - 1) as usize, current_frame_index)) } else { None },
                            start_posing: double,
                            select_preview: false,
                            last_frame_index_hover: h,
                        }
                    }
                },
                _ => FramingClick { select_frame: None, start_posing: false, select_preview: false, last_frame_index_hover: last_hover },
            }),
    {
        let nothing = FramingClick { select_frame: None, start_posing: false, select_preview: false, last_frame_index_hover: last_hover };
        if click != MouseButton::Left {
            return nothing;
        }
        match hover {
            None => nothing,
            Some(h) => {
                let double = h == last_hover && elapsed_ms < 500;
                if h == 0 {
                    FramingClick { select_frame: None, start_posing: double, select_preview: double, last_frame_index_hover: h }
                } else {
                    let select_frame = if current_frame_index != h - 1 {
                        Some((h - 1, current_frame_index))
                    } else {
                        None
                    };
                    FramingClick { select_frame, start_posing: double, select_preview: false, last_frame_index_hover: h }
                }
            },
        }
    }
}

impl IconInputManager {
    /// A click in the icon editor, given whether the selected and hovered
    /// vertices share an edge: a vertex clicked from a vertex is joined to
    /// it (or selected, where they are joined already); a click on nothing
    /// from a vertex creates a vertex; any other left click selects what is
    /// hovered, and a right click deselects.
    pub fn click_outcome(
        click: MouseButton,
        selected: Option<(u64, CanvasShape)>,
        hovered: Option<(u64, CanvasShape)>,
        joined: bool,
    ) -> (r: ClickOutcome)
        ensures
            r == (match click {
                MouseButton::Left => match (selected, hovered) {
                    (Some((a, CanvasShape::Vertex)), Some((b, CanvasShape::Vertex))) => if a == b {
                        ClickOutcome::Nothing
                    } else if joined {
                        ClickOutcome::SelectShape(Some((b, CanvasShape::Vertex)))
                    } else {
                        ClickOutcome::CreateEdge(a, b)
                    },
                    (Some((a, CanvasShape::Vertex)), None) => ClickOutcome::CreateVertex(a, FileExtension::Icon),
                    _ => ClickOutcome::SelectShape(hovered),
                },
                MouseButton::Right => if selected is Some {
                    ClickOutcome::SelectShape(None)
                } else {
                    ClickOutcome::Nothing
                },
                MouseButton::Middle => ClickOutcome::Nothing,
            }),
    {
        match click {
            MouseButton::Left => match (selected, hovered) {
                (Some((a, CanvasShape::Vertex)), Some((b, CanvasShape::Vertex))) => if a == b {
                    ClickOutcome::Nothing
                } else if joined {
                    ClickOutcome::SelectShape(Some((b, CanvasShape::Vertex)))
                } else {
                    ClickOutcome::CreateEdge(a, b)
                },
                (Some((a, CanvasShape::Vertex)), None) => ClickOutcome::CreateVertex(a, FileExtension::Icon),
                _ => ClickOutcome::SelectShape(hovered),
            },
            MouseButton::Right => if selected.is_some() {
                ClickOutcome::SelectShape(None)
            } else {
                ClickOutcome::Nothing
            },
            MouseButton::Middle => ClickOutcome::Nothing,
        }
    }

    /// The shape the delete key removes in the icon editor.
    pub fn delete_target(selected: Option<(u64, CanvasShape)>) -> (r: DeleteTarget)
        ensures
            r == (match selected {
                Some((e, CanvasShape::Vertex)) => DeleteTarget::Vertex(e),
                Some((e, CanvasShape::Edge)) => DeleteTarget::Edge(e),
                Some((e, CanvasShape::Face)) => DeleteTarget::Face(e),
                _ => DeleteTarget::Nothing,
            }),
    {
        match selected {
            Some((e, CanvasShape::Vertex)) => DeleteTarget::Vertex(e),
            Some((e, CanvasShape::Edge)) => DeleteTarget::Edge(e),
            Some((e, CanvasShape::Face)) => DeleteTarget::Face(e),
            _ => DeleteTarget::Nothing,
        }
    }

    /// Whether the insert key creates a vertex: with nothing selected.
    pub fn inserts_vertex(selected: Option<(u64, CanvasShape)>) -> (r: bool)
        ensures
            r == (selected is None),
    {
        selected.is_none()
    }

    /// The vertex a drag moves: the selected vertex, with the left button;
    /// `None` means the camera moves.
    pub fn dragged_vertex(click: MouseButton, selected: Option<(u64, CanvasShape)>) -> (r: Option<u64>)
        ensures
            r == (match (click, selected) {
                (MouseButton::Left, Some((v, CanvasShape::Vertex))) => Some(v),
                _ => None,
            }),
    {
        match (click, selected) {
            (MouseButton::Left, Some((v, CanvasShape::Vertex))) => Some(v),
            _ => None,
        }
    }
}

impl SkinInputManager {
    /// A click in the skin editor: the face to select (or `None` to
    /// deselect), where the click selects anything. Nothing happens where
    /// the hover is the selection.
    pub fn click_outcome(
        click: MouseButton,
        selected: Option<(u64, CanvasShape)>,
        hovered: Option<(u64, CanvasShape)>,
    ) -> (r: Option<Option<(u64, CanvasShape)>>)
        ensures
            r == (if selected == hovered {
                None
            } else {
                match (click, selected, hovered) {
                    (MouseButton::Left, _, Some((_, CanvasShape::Face))) => Some(hovered),
                    (MouseButton::Right, Some((_, CanvasShape::Face)), _) => Some(None),
                    _ => None,
                }
            }),
    {
        let same = match (selected, hovered) {
            (None, None) => true,
            (Some((a, s)), Some((b, h))) => a == b && s == h,
            _ => false,
        };
        if same {
            return None;
        }
        match (click, selected, hovered) {
            (MouseButton::Left, _, Some((_, CanvasShape::Face))) => Some(hovered),
            (MouseButton::Right, Some((_, CanvasShape::Face)), _) => Some(None),
            _ => None,
        }
    }

    /// The 2d face whose color the delete key removes: the selected face.
    pub fn delete_target(selected: Option<(u64, CanvasShape)>) -> (r: Option<u64>)
        ensures
            r == (match selected {
                Some((e, CanvasShape::Face)) => Some(e),
                _ => None,
            }),
    {
        match selected {
            Some((e, CanvasShape::Face)) => Some(e),
            _ => None,
        }
    }
}

} // verus!
