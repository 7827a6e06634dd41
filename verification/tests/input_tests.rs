use vortex_client::canvas::Canvas;
use vortex_client::file_ext::FileExtension;
use vortex_client::input_events::{release_actions, InputEffect, InputEvent};
use vortex_client::shape_action::ShapeAction;
use vortex_client::input::{
    mesh_click, shape_click, AnimInputManager, AppInputAction, CameraAngle, ClickOutcome, ClickType, DeleteTarget,
    FramingKeyCommand, IconInputManager, InputManager, Key, KeyActionMap, KeyCommand, MeshInputManager,
    MouseButton, PosingClick, PosingDrag, SkelInputManager, SkinInputManager,
};
use vortex_client::icon_manager::CardinalDirection;
use vortex_client::shape_data::CanvasShape;

#[test]
fn default_keys_are_bound() {
    let m = InputManager::default();
    assert_eq!(m.key_to_action(Key::S), Some(AppInputAction::SwitchTo3dMode));
    assert_eq!(m.key_to_action(Key::Num3), Some(AppInputAction::SetCameraAngleFixed(CameraAngle::Ingame(3))));
    assert_eq!(m.key_to_action(Key::PageDown), Some(AppInputAction::CameraAngleYawRotate(false)));
    assert_eq!(m.key_to_action(Key::Space), None);
}

#[test]
fn later_binding_replaces_earlier() {
    let m = KeyActionMap::init(vec![(Key::S, 1u8), (Key::W, 2u8), (Key::S, 3u8)]);
    assert_eq!(m.key_to_action(Key::S), Some(3));
    assert_eq!(m.key_to_action(Key::W), Some(2));
    assert_eq!(m.key_to_action(Key::T), None);
}

#[test]
fn key_commands_per_editor() {
    assert_eq!(MeshInputManager::key_command(Key::Insert), KeyCommand::Insert);
    assert_eq!(SkelInputManager::key_command(Key::Insert), KeyCommand::Ignore);
    assert_eq!(SkelInputManager::key_command(Key::N), KeyCommand::ToggleNamingBar);
    assert_eq!(SkinInputManager::key_command(Key::D), KeyCommand::CameraControl(Key::D));
    assert_eq!(IconInputManager::key_command(Key::Delete), KeyCommand::Delete);
    assert_eq!(AnimInputManager::framing_key_command(Key::ArrowLeft), FramingKeyCommand::Navigate(CardinalDirection::West));
    assert_eq!(AnimInputManager::framing_key_command(Key::S), FramingKeyCommand::Ignore);
}

#[test]
fn selecting_twice_needs_a_deselect() {
    let mut m = InputManager::default();
    let mut canvas = Canvas::default();
    m.select_shape(&mut canvas, 7, CanvasShape::Vertex);
    assert_eq!(m.selected_shape_2d(), Some((7, CanvasShape::Vertex)));
    assert_eq!(canvas.resync_shapes, 2);
    m.deselect_shape(&mut canvas);
    assert_eq!(m.selected_shape_2d(), None);
}

#[test]
fn hover_change_requests_a_light_resync() {
    let mut m = InputManager::default();
    let mut canvas = Canvas::default();
    assert!(m.apply_hover(&mut canvas, Some((3, CanvasShape::Edge))));
    assert_eq!(canvas.resync_shapes, 1);
    canvas.resync_shapes = 0;
    assert!(!m.apply_hover(&mut canvas, Some((3, CanvasShape::Edge))));
    assert_eq!(canvas.resync_shapes, 0);
}

#[test]
fn delete_key_targets() {
    let mut m = InputManager::default();
    let mut canvas = Canvas::default();
    m.select_shape(&mut canvas, 4, CanvasShape::Edge);
    assert_eq!(m.delete_target(FileExtension::Mesh), DeleteTarget::Edge(4));
    assert_eq!(m.delete_target(FileExtension::Skel), DeleteTarget::Nothing);
    assert_eq!(m.delete_target(FileExtension::Anim), DeleteTarget::Nothing);
    assert!(!m.inserts_vertex(FileExtension::Mesh));
    m.deselect_shape(&mut canvas);
    assert!(m.inserts_vertex(FileExtension::Mesh));
    assert!(!m.inserts_vertex(FileExtension::Skel));
}

#[test]
fn mesh_clicks() {
    let v1 = Some((1, CanvasShape::Vertex));
    let v2 = Some((2, CanvasShape::Vertex));
    assert_eq!(shape_click(MouseButton::Left, v1, v2, FileExtension::Mesh, false), ClickOutcome::CreateEdge(1, 2));
    assert_eq!(
        shape_click(MouseButton::Left, v1, v2, FileExtension::Mesh, true),
        ClickOutcome::SelectShape(Some((2, CanvasShape::Vertex)))
    );
    assert_eq!(shape_click(MouseButton::Left, v1, v1, FileExtension::Mesh, false), ClickOutcome::Nothing);
    assert_eq!(shape_click(MouseButton::Left, v1, v2, FileExtension::Skel, false), ClickOutcome::SelectShape(v2));
    assert_eq!(shape_click(MouseButton::Left, v1, None, FileExtension::Skel, false), ClickOutcome::CreateVertex(1, FileExtension::Skel));
    assert_eq!(shape_click(MouseButton::Right, v1, v2, FileExtension::Anim, false), ClickOutcome::SelectAnimShape(None));
    assert_eq!(mesh_click(MouseButton::Left, None, Some((5, CanvasShape::Face)), false), ClickOutcome::SelectShape(Some((5, CanvasShape::Face))));
    assert_eq!(mesh_click(MouseButton::Left, v1, None, false), ClickOutcome::CreateVertex(1, FileExtension::Mesh));
}

#[test]
fn icon_and_skin_clicks() {
    let v1 = Some((1, CanvasShape::Vertex));
    let v2 = Some((2, CanvasShape::Vertex));
    assert_eq!(IconInputManager::click_outcome(MouseButton::Left, v1, v2, false), ClickOutcome::CreateEdge(1, 2));
    assert_eq!(IconInputManager::click_outcome(MouseButton::Right, None, v2, false), ClickOutcome::Nothing);
    assert_eq!(IconInputManager::delete_target(Some((9, CanvasShape::Face))), DeleteTarget::Face(9));
    let f = Some((8, CanvasShape::Face));
    assert_eq!(SkinInputManager::click_outcome(MouseButton::Left, None, f), Some(f));
    assert_eq!(SkinInputManager::click_outcome(MouseButton::Left, f, f), None);
    assert_eq!(SkinInputManager::click_outcome(MouseButton::Right, f, None), Some(None));
    assert_eq!(SkinInputManager::delete_target(f), Some(8));
}

#[test]
fn posing_and_framing_clicks() {
    let v = Some((1, CanvasShape::Vertex));
    let e = Some((2, CanvasShape::Edge));
    assert_eq!(AnimInputManager::posing_click(MouseButton::Left, v, e, false), PosingClick::SelectShape(e));
    assert_eq!(AnimInputManager::posing_click(MouseButton::Left, v, e, true), PosingClick::Nothing);
    assert_eq!(AnimInputManager::posing_drag(MouseButton::Left, e, false), PosingDrag::DragEdge(2));
    assert_eq!(AnimInputManager::posing_drag(MouseButton::Left, None, false), PosingDrag::EmptySpace);

    let click = AnimInputManager::framing_click(MouseButton::Left, Some(3), 0, 3, 100);
    assert_eq!(click.select_frame, Some((2, 0)));
    assert!(click.start_posing);
    let click = AnimInputManager::framing_click(MouseButton::Left, Some(3), 0, 3, 900);
    assert!(!click.start_posing);
    let click = AnimInputManager::framing_click(MouseButton::Left, Some(0), 0, 0, 10);
    assert!(click.start_posing && click.select_preview);
    assert_eq!(click.select_frame, None);
}

#[test]
fn input_events_decide_their_effect() {
    let mut m = InputManager::default();
    assert_eq!(m.input_effect(InputEvent::MouseClick(ClickType::Left), false, true, false), InputEffect::Ignore);
    assert_eq!(m.input_effect(InputEvent::MouseClick(ClickType::Right), true, false, false), InputEffect::Click(ClickType::Right));
    assert_eq!(m.input_effect(InputEvent::MouseDragged(ClickType::Left), true, false, false), InputEffect::Ignore);
    assert_eq!(m.input_effect(InputEvent::MouseDragged(ClickType::Left), false, true, false), InputEffect::Drag(ClickType::Left));
    assert_eq!(m.input_effect(InputEvent::MiddleMouseScroll, false, false, false), InputEffect::Scroll);
    assert_eq!(m.input_effect(InputEvent::MouseRelease(MouseButton::Right), true, true, false), InputEffect::Ignore);
    assert_eq!(m.input_effect(InputEvent::MouseRelease(MouseButton::Left), true, true, false), InputEffect::LeftRelease);
    assert_eq!(m.input_effect(InputEvent::KeyRelease(Key::S), true, true, false), InputEffect::Ignore);
    assert_eq!(m.input_effect(InputEvent::KeyPress(Key::S), true, true, false), InputEffect::KeyAction(AppInputAction::SwitchTo3dMode));
    assert_eq!(m.input_effect(InputEvent::MouseMoved, true, true, true), InputEffect::FramingHover);
    assert!(!m.take_resync_hover());
    assert_eq!(m.input_effect(InputEvent::MouseMoved, true, true, false), InputEffect::HoverResync);
    assert!(m.take_resync_hover());
    assert!(m.take_resync_selection());
}

#[test]
fn a_left_release_turns_drags_into_actions() {
    let (actions, rotation): (Vec<ShapeAction<u8, i32, i32>>, Option<(u64, Option<i32>, Option<i32>)>) =
        release_actions(Some(vec![(1, 0, 5), (2, 7, 9)]), Some((30, 10, 20)), Some((4, None, 3)));
    assert_eq!(actions.len(), 3);
    assert!(matches!(actions[0], ShapeAction::MoveVertex(1, 0, 5)));
    assert!(matches!(actions[1], ShapeAction::MoveVertex(2, 7, 9)));
    assert!(matches!(actions[2], ShapeAction::RotateEdge(30, 10, 20)));
    assert_eq!(rotation, Some((4, None, Some(3))));
    let (actions, rotation): (Vec<ShapeAction<u8, i32, i32>>, Option<(u64, Option<i32>, Option<i32>)>) =
        release_actions(None, None, None);
    assert!(actions.is_empty());
    assert_eq!(rotation, None);
}
