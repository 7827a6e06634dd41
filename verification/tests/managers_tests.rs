use vortex_client::action_stack::ActionStack;
use vortex_client::animation_manager::{AnimationManager, DragRotation};
use vortex_client::shape_action::ShapeAction;
use vortex_client::auth::{delete_auth_decision, may_mutate, should_be_enabled, AuthStatus, DeleteAuthDecision};
use vortex_client::canvas::Canvas;
use vortex_client::canvas_manager::{CanvasClick, CanvasDrag, CanvasKeyAction, CanvasManager, CanvasMouseEvent};
use vortex_client::color_hex::{color_to_hex, hex_to_color};
use vortex_client::dependency_map::DependencyMap;
use vortex_client::drag::{DragHistory, LastDragged};
use vortex_client::file_ext::FileExtension;
use vortex_client::icon_manager::{CardinalDirection, FileFrameData, IconManager};
use vortex_client::input::{CameraAngle, ClickType, Key};
use vortex_client::id_set::IdSet;
use vortex_client::model_manager::{ModelManager, ModelTransformData};
use vortex_client::palette::PaletteManager;
use vortex_client::shape_data::{CanvasShape, FaceKey};
use vortex_client::file_manager::get_full_path;
use std::collections::HashMap;

#[test]
fn hex_round_trip() {
    assert_eq!(color_to_hex(10, 27, 44), "#0A1B2C");
    assert_eq!(hex_to_color("#0A1B2C"), Some((10, 27, 44)));
    assert_eq!(hex_to_color("#ffffff"), Some((255, 255, 255)));
    assert_eq!(hex_to_color("#12345"), None);
    assert_eq!(hex_to_color("#12345G"), None);
}

#[test]
fn palette_register_get_deregister() {
    let mut p = PaletteManager::default();
    p.register_color(1, 30, 2);
    assert_eq!(p.get_color_entity(1, 2), Some(30));
    assert_eq!(p.get_color_entity(1, 0), None);
    assert!(p.entity_is_color(30));
    p.deregister_color(1, 30, 2);
    assert_eq!(p.get_color_entity(1, 2), None);
    assert!(!p.entity_is_color(30));
}

#[test]
fn authority_decisions() {
    assert!(should_be_enabled(&vec![Some(AuthStatus::Available), Some(AuthStatus::Available)]));
    assert!(!should_be_enabled(&vec![Some(AuthStatus::Available), Some(AuthStatus::Granted)]));
    assert!(!should_be_enabled(&vec![None]));
    assert!(should_be_enabled(&vec![]));
    assert_eq!(delete_auth_decision(AuthStatus::Denied), DeleteAuthDecision::Refuse);
    assert!(may_mutate(AuthStatus::Requested));
    assert!(!may_mutate(AuthStatus::Available));
}

#[test]
fn icon_frames_layout_and_navigation() {
    let mut icon = IconManager::new();
    icon.register_frame(1, 10);
    icon.register_frame(1, 12);
    icon.framing_recalc_order(1, &vec![(10, 0), (12, 2)]);
    assert_eq!(icon.get_frame_count(1), Some(3));
    assert_eq!(icon.get_frame_entity(1, 0), Some(10));
    assert_eq!(icon.get_frame_entity(1, 1), None);
    assert_eq!(icon.get_frame_entity(1, 2), Some(12));
    assert_eq!(icon.current_frame_entity(1), Some(10));
    // east skips the hole
    assert_eq!(icon.framing_navigate(1, CardinalDirection::East), Some((0, 2)));
    assert_eq!(icon.framing_navigate(1, CardinalDirection::West), None);
    assert_eq!(icon.framing_navigate(1, CardinalDirection::North), None);
    icon.set_current_frame_index(2);
    assert_eq!(icon.framing_navigate(1, CardinalDirection::West), Some((2, 0)));
    assert_eq!(icon.framing_navigate(1, CardinalDirection::East), None);
    assert_eq!(icon.take_resync_frame_order().len(), 1);
    icon.deregister_frame(1, 10);
    icon.deregister_frame(1, 12);
    assert_eq!(icon.get_frame_count(1), None);
}

#[test]
fn later_frame_takes_a_shared_order() {
    let mut icon = IconManager::new();
    icon.register_frame(1, 10);
    icon.framing_recalc_order(1, &vec![(10, 1), (11, 1)]);
    assert_eq!(icon.get_frame_entity(1, 1), Some(11));
    assert_eq!(icon.get_frame_entity(1, 0), None);
}

#[test]
fn frame_data_counts_filled_slots() {
    let d = FileFrameData::new();
    assert_eq!(d.count(), 0);
}

#[test]
fn icon_selection_and_registries() {
    let mut icon = IconManager::new();
    icon.select_shape(4, CanvasShape::Vertex);
    assert_eq!(icon.selected_shape(), Some((4, CanvasShape::Vertex)));
    icon.deselect_shape();
    icon.shapes_mut().register_vertex(Some(9), 4);
    assert!(icon.has_vertex_entity(4));
    assert_eq!(icon.shapes().vertex_get_frame_entity(4), Some(9));
    icon.set_hovered_entity(Some((4, CanvasShape::Vertex)));
    icon.cleanup_deleted_vertex(4);
    assert!(!icon.has_vertex_entity(4));
    assert_eq!(icon.hovered_entity(), None);
    assert!(icon.is_framing());
    icon.set_meshing();
    assert!(icon.is_meshing());
}

#[test]
fn model_transforms_by_file() {
    let mut m = ModelManager::new();
    let d = ModelTransformData {
        edge_2d_entity: 100,
        owning_file_entity: 1,
        translation_entity_2d: 11,
        translation_entity_3d: 12,
        rotation_entity_2d: 13,
        rotation_entity_3d: 14,
        scale_entity_2d: 15,
        scale_entity_3d: 16,
    };
    m.register_model_transform_controls(5, d);
    assert_eq!(m.model_transform_from_edge_2d(100), Some(5));
    assert_eq!(m.model_transform_3d_vertices(1), vec![12, 14, 16]);
    assert!(m.model_transform_3d_vertices(2).is_empty());
    let back = m.deregister_model_transform_controls(5);
    assert_eq!(back, d);
    assert!(!m.edge_2d_has_model_transform(100));
    assert!(m.model_transform_3d_vertices(1).is_empty());
    m.edge_init_assign_skin_or_scene(100);
    assert!(m.edge_is_binding());
    assert_eq!(m.take_binding_edge(), 100);
    assert!(!m.edge_is_binding());
}

#[test]
fn animation_frames_and_rotations() {
    let mut a: AnimationManager<u32> = AnimationManager::new();
    a.register_frame(1, 20, 0);
    a.register_frame(1, 21, 1);
    assert_eq!(a.current_frame(), Some(20));
    a.register_rotation(20, 30, "arm".to_string());
    assert_eq!(a.get_current_rotation(&"arm".to_string()), Some(30));
    assert_eq!(a.get_current_rotation(&"leg".to_string()), None);
    a.deregister_rotation(30);
    assert_eq!(a.get_current_rotation(&"arm".to_string()), None);
    a.deregister_frame(1, 20, 0);
    assert_eq!(a.current_frame(), None);
    a.update_last_rotation_dragged(5, None, 1);
    a.update_last_rotation_dragged(6, Some(9), 2);
    assert_eq!(a.take_last_rotation_dragged(), Some((6, None, 2)));
    assert_eq!(a.take_last_rotation_dragged(), None);
}

#[test]
fn canvas_frames() {
    let mut c: CanvasManager<i32> = CanvasManager::new();
    let mut stack: ActionStack<ShapeAction<u8, i32, u8>> = ActionStack::new();
    let f = c.update_input(&mut stack, &vec![Key::W, Key::S], true, false, false);
    assert_eq!(f.key_action, Some(CanvasKeyAction::Solid3dView));
    assert_eq!(f.mouse, CanvasMouseEvent::Click(ClickType::Left));
    assert!(f.update_hover);
    let f = c.update_input(&mut stack, &vec![Key::Num2, Key::PageUp], true, false, true);
    assert_eq!(f.key_action, Some(CanvasKeyAction::CameraAngle(CameraAngle::Ingame(2))));
    assert_eq!(f.yaw_rotate, Some(true));
    assert_eq!(f.mouse, CanvasMouseEvent::Drag(ClickType::Left));
    assert!(!f.update_hover);
    // the held page key does not rotate again
    let f = c.update_input(&mut stack, &vec![Key::PageUp], false, false, false);
    assert_eq!(f.yaw_rotate, None);
    assert_eq!(f.mouse, CanvasMouseEvent::Release);
    let f = c.update_input(&mut stack, &vec![], false, true, false);
    assert_eq!(f.mouse, CanvasMouseEvent::Click(ClickType::Right));
    assert_eq!(c.drag_action(ClickType::Right), CanvasDrag::CameraOrbit);
    c.selected_vertex = Some((3, CanvasShape::Vertex));
    assert_eq!(c.click_action(ClickType::Left), CanvasClick::CreateVertex(3));
    assert_eq!(c.drag_action(ClickType::Left), CanvasDrag::MoveVertex(3));
    assert_eq!(c.take_vertex_to_delete(), Some(3));
    assert!(c.selected_vertex.is_none());
    c.selected_vertex = Some((1, CanvasShape::RootVertex));
    assert_eq!(c.take_vertex_to_delete(), None);
}

#[test]
fn releasing_a_vertex_drag_buffers_one_move() {
    let mut c: CanvasManager<i32> = CanvasManager::new();
    let mut stack: ActionStack<ShapeAction<u8, i32, u8>> = ActionStack::new();
    c.update_input(&mut stack, &vec![], true, false, false);
    c.update_last_vertex_dragged(7, 10, 11);
    c.update_last_vertex_dragged(7, 11, 15);
    assert_eq!(c.last_vertex_dragged, Some((7, 10, 15)));
    let f = c.update_input(&mut stack, &vec![], true, false, true);
    assert_eq!(f.mouse, CanvasMouseEvent::Drag(ClickType::Left));
    assert!(stack.take_buffered_actions().is_empty());
    let f = c.update_input(&mut stack, &vec![], false, false, false);
    assert_eq!(f.mouse, CanvasMouseEvent::Release);
    assert_eq!(c.last_vertex_dragged, None);
    let buffered = stack.take_buffered_actions();
    assert_eq!(buffered.len(), 1);
    assert!(matches!(buffered[0], ShapeAction::MoveVertex(7, 10, 15)));
    c.update_input(&mut stack, &vec![], true, false, false);
    c.update_input(&mut stack, &vec![], false, false, false);
    assert!(stack.take_buffered_actions().is_empty());
}

#[test]
fn canvas_resync_counts_down() {
    let mut c = Canvas::default();
    c.queue_resync_shapes();
    assert!(c.should_sync_shapes());
    assert!(c.should_sync_shapes());
    assert!(!c.should_sync_shapes());
    c.queue_resync_shapes_light();
    assert!(c.should_sync_shapes());
    assert!(!c.should_sync_shapes());
}

#[test]
fn dependency_map_releases_when_all_complete() {
    let mut m: DependencyMap<IdSet> = DependencyMap::new();
    let mut deps = IdSet::new();
    deps.insert(1);
    deps.insert(2);
    m.insert_waiting_dependencies(deps, 10, IdSet::new());
    assert!(m.on_dependency_complete(1).is_empty());
    let released = m.on_dependency_complete(2);
    assert_eq!(released.len(), 1);
    assert_eq!(released[0].0, 10);
    assert!(m.on_dependency_complete(2).is_empty());
}

#[test]
fn drags_keep_first_value() {
    let mut d: LastDragged<u8, u8> = LastDragged::new();
    d.update(1, 5, 6);
    d.update(1, 6, 7);
    assert_eq!(d.take(), Some((1, 5, 7)));
    let mut h: DragHistory<u8> = DragHistory::new();
    h.update(1, 0, 1);
    h.update(1, 1, 2);
    h.update(2, 10, 11);
    assert_eq!(h.take_drags(), Some(vec![(1, 0, 2), (2, 10, 11)]));
    assert_eq!(h.take_drags(), None);
}

#[test]
fn file_types_come_back() {
    let mut f = vortex_client::file_manager::FileManager::new(0);
    f.on_file_create(3, FileExtension::Skin);
    assert!(f.has_file(3));
    assert_eq!(f.get_file_type(3), FileExtension::Skin);
    f.on_file_create(4, FileExtension::Mesh);
    f.file_add_dependency(3, 4);
    assert!(f.file_has_dependency(3, FileExtension::Mesh));
    assert_eq!(f.file_get_dependency(3, FileExtension::Mesh), Some(4));
    f.file_remove_dependency(3, 4);
    assert!(!f.file_has_dependency(3, FileExtension::Mesh));
}

#[test]
fn icon_graph_closes_triangle_and_registers_face() {
    let mut icon = IconManager::new();
    {
        let shapes = icon.shapes_mut();
        shapes.register_vertex(Some(9), 1);
        shapes.register_vertex(Some(9), 2);
        shapes.register_vertex(Some(9), 3);
        shapes.register_edge(Some(7), Some(9), 10, 1, 2);
        shapes.register_edge(Some(7), Some(9), 11, 2, 3);
        assert!(shapes.take_new_face_keys().is_empty());
        shapes.register_edge(Some(7), Some(9), 12, 3, 1);
    }
    let key = FaceKey::new(3, 1, 2);
    let queued = icon.shapes_mut().take_new_face_keys();
    assert_eq!(queued.len(), 1);
    assert!(queued[0].0 == key);
    assert_eq!((queued[0].1, queued[0].2), (7, 9));
    assert_eq!(icon.shapes().edge_entity_from_vertices(2, 1), Some(10));
    assert_eq!(icon.shapes().edge_get_endpoints(11), (2, 3));
    assert!(!icon.shapes().has_local_face(&key));
    icon.shapes_mut().register_local_face(7, 9, &key, 50);
    assert!(icon.shapes().has_local_face(&key));
    assert_eq!(icon.shapes().local_face_entity_from_face_key(&key), Some(50));
    assert_eq!(icon.shapes().face_get_frame_entity(50), Some(9));
    icon.shapes_mut().register_net_face(60, &key);
    assert_eq!(icon.shapes().face_entity_local_to_net(50), Some(60));
    assert_eq!(icon.shapes().face_entity_net_to_local(60), Some(50));
    assert_eq!(icon.shapes().edge_connected_faces(10).map(|v| v.len()), Some(1));

    icon.set_hovered_entity(Some((50, CanvasShape::Face)));
    let (edge, faces) = icon.cleanup_deleted_edge(10);
    assert_eq!(edge, 10);
    assert_eq!(faces, vec![50]);
    assert_eq!(icon.hovered_entity(), None);
    assert!(!icon.has_edge_entity(10));
    assert!(!icon.shapes().has_local_face(&key));
    assert_eq!(icon.shapes().face_entity_net_to_local(60), None);
    assert_eq!(icon.shapes().edge_connected_faces(11).map(|v| v.len()), Some(0));
    assert_eq!(icon.shapes().edge_entity_from_vertices(1, 2), None);
}

#[test]
fn icon_graph_edges_without_file_queue_nothing() {
    let mut icon = IconManager::new();
    let shapes = icon.shapes_mut();
    shapes.register_vertex(None, 1);
    shapes.register_vertex(None, 2);
    shapes.register_vertex(None, 3);
    shapes.register_edge(None, None, 10, 1, 2);
    shapes.register_edge(None, None, 11, 2, 3);
    shapes.register_edge(None, None, 12, 3, 1);
    assert!(shapes.take_new_face_keys().is_empty());
    assert_eq!(shapes.get_connected_vertices(1).len(), 2);
    assert!(shapes.has_edge_entity(12));
    assert_eq!(shapes.edge_get_frame_entity(99), None);
}

#[test]
fn full_path_joins_the_ancestors_outermost_first() {
    let mut entries: HashMap<u64, (String, Option<u64>)> = HashMap::new();
    entries.insert(1, ("assets".to_string(), None));
    entries.insert(2, ("meshes".to_string(), Some(1)));
    entries.insert(3, ("cube.mesh".to_string(), Some(2)));
    entries.insert(4, ("readme.txt".to_string(), None));
    assert_eq!(get_full_path(&entries, 3), "assets/meshes");
    assert_eq!(get_full_path(&entries, 2), "assets");
    assert_eq!(get_full_path(&entries, 4), "");
}

#[test]
fn icon_face_registered_then_forgotten_leaves_no_trace() {
    let mut icon = IconManager::new();
    let shapes = icon.shapes_mut();
    shapes.register_vertex(Some(9), 1);
    shapes.register_vertex(Some(9), 2);
    shapes.register_vertex(Some(9), 3);
    shapes.register_edge(Some(7), Some(9), 10, 1, 2);
    shapes.register_edge(Some(7), Some(9), 11, 2, 3);
    shapes.register_edge(Some(7), Some(9), 12, 3, 1);
    shapes.take_new_face_keys();
    let key = FaceKey::new(1, 2, 3);
    shapes.register_local_face(7, 9, &key, 50);
    assert_eq!(shapes.vertex_get_faces(2).map(|v| v.len()), Some(1));
    assert_eq!(shapes.unregister_face_key(&key), Some(50));
    assert!(!shapes.has_local_face(&key));
    assert_eq!(shapes.face_key_from_local_entity(50), None);
    assert_eq!(shapes.vertex_get_faces(2).map(|v| v.len()), Some(0));
    assert_eq!(shapes.edge_connected_faces(12).map(|v| v.len()), Some(0));
}

#[test]
fn icon_frame_order_resync_lays_out_queued_files() {
    let mut icon = IconManager::new();
    icon.register_frame(1, 10);
    icon.register_frame(1, 12);
    icon.register_frame(2, 20);
    assert_eq!(icon.take_resync_frame_order().len(), 2);
    let file_2_before = (icon.get_frame_count(2), icon.get_frame_entity(2, 0));
    icon.framing_queue_resync_frame_order(1);
    icon.framing_resync_frame_order(&vec![(12, 1, 2), (20, 2, 1), (10, 1, 0)]);
    assert_eq!(icon.get_frame_count(1), Some(3));
    assert_eq!(icon.get_frame_entity(1, 0), Some(10));
    assert_eq!(icon.get_frame_entity(1, 1), None);
    assert_eq!(icon.get_frame_entity(1, 2), Some(12));
    assert_eq!((icon.get_frame_count(2), icon.get_frame_entity(2, 0)), file_2_before);
    assert!(icon.take_resync_frame_order().is_empty());
}

#[test]
fn drag_history_gives_one_drag_per_run() {
    let mut h: DragHistory<i32> = DragHistory::new();
    assert_eq!(h.take_drags(), None);
    h.update(1, 0, 5);
    h.update(1, 5, 9);
    h.update(2, 30, 31);
    h.update(1, 9, 12);
    assert_eq!(h.take_drags(), Some(vec![(1, 0, 9), (2, 30, 31), (1, 9, 12)]));
    assert_eq!(h.take_drags(), None);
}

#[test]
fn vertex_drag_needs_a_frame_a_name_and_rotation_authority() {
    let mut a: AnimationManager<u32> = AnimationManager::new();
    let arm = "arm".to_string();
    let leg = "leg".to_string();
    let mut auth: HashMap<u64, AuthStatus> = HashMap::new();
    assert_eq!(a.drag_vertex_decision(Some(&arm), &auth), DragRotation::Skip);
    a.register_frame(1, 20, 0);
    a.register_rotation(20, 30, arm.clone());
    assert_eq!(a.drag_vertex_decision(None, &auth), DragRotation::Skip);
    assert_eq!(a.drag_vertex_decision(Some(&leg), &auth), DragRotation::Rotate { frame: 20, rotation: None });
    auth.insert(30, AuthStatus::Available);
    assert_eq!(a.drag_vertex_decision(Some(&arm), &auth), DragRotation::Skip);
    auth.insert(30, AuthStatus::Denied);
    assert_eq!(a.drag_vertex_decision(Some(&arm), &auth), DragRotation::Skip);
    auth.insert(30, AuthStatus::Requested);
    assert_eq!(a.drag_vertex_decision(Some(&arm), &auth), DragRotation::Rotate { frame: 20, rotation: Some(30) });
    auth.insert(30, AuthStatus::Granted);
    assert_eq!(a.drag_vertex_decision(Some(&arm), &auth), DragRotation::Rotate { frame: 20, rotation: Some(30) });
}
