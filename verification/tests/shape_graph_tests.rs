use vortex_client::canvas::Canvas;
use vortex_client::delete_edge::{delete_edge, delete_edge_undo};
use vortex_client::input::InputManager;
use vortex_client::shape_action::ShapeAction;
use vortex_client::shape_data::{CanvasShape, FaceKey};
use vortex_client::shape_graph::{edge_is_enabled, EdgeManager, FaceManager, VertexManager};

type Action = ShapeAction<u8, u8, u8>;

/// Three vertices (3d 1, 2, 3; 2d 101, 102, 103) joined by three edges
/// (3d 11, 12, 13; 2d 111, 112, 113) of file 50: a closed triangle.
fn triangle() -> (VertexManager, EdgeManager, FaceManager) {
    let mut vm = VertexManager::new();
    let mut em = EdgeManager::new();
    let mut fm = FaceManager::new();
    vm.register_3d_vertex(1, 101);
    vm.register_3d_vertex(2, 102);
    vm.register_3d_vertex(3, 103);
    em.register_3d_edge(&mut vm, &mut fm, 11, 111, 1, 2, Some(50), None);
    em.register_3d_edge(&mut vm, &mut fm, 12, 112, 2, 3, Some(50), None);
    em.register_3d_edge(&mut vm, &mut fm, 13, 113, 3, 1, Some(50), None);
    (vm, em, fm)
}

#[test]
fn closing_a_triangle_queues_one_face() {
    let (_vm, _em, mut fm) = triangle();
    let keys = fm.take_new_face_keys();
    assert_eq!(keys.len(), 1);
    assert_eq!(keys[0].0, FaceKey::new(3, 1, 2));
    assert_eq!(keys[0].1, 50);
    assert!(fm.take_new_face_keys().is_empty());
}

#[test]
fn face_key_does_not_depend_on_vertex_order() {
    assert_eq!(FaceKey::new(3, 1, 2), FaceKey::new(2, 3, 1));
    let k = FaceKey::new(9, 4, 7);
    assert_eq!((k.vertex_3d_a, k.vertex_3d_b, k.vertex_3d_c), (4, 7, 9));
}

#[test]
fn edge_between_vertices_is_found() {
    let (vm, em, _fm) = triangle();
    assert_eq!(em.edge_3d_entity_from_vertices(&vm, 1, 2), Some(11));
    assert_eq!(em.edge_2d_entity_from_vertices(&vm, 103, 101), Some(113));
    assert_eq!(em.edge_3d_entity_from_vertices(&vm, 1, 4), None);
}

#[test]
fn deleting_an_edge_of_a_face_remembers_the_face() {
    let (mut vm, mut em, mut fm) = triangle();
    let key = FaceKey::new(1, 2, 3);
    fm.take_new_face_keys();
    fm.register_new_face(&mut vm, &mut em, 50, &key, 200);
    fm.register_3d_face(300, &key);

    let undo: Action = delete_edge_undo(&vm, &em, &fm, 111, 1, 2);
    match undo {
        ShapeAction::CreateEdge(a, b, select, faces, old_edge) => {
            assert_eq!((a, b), (101, 102));
            assert_eq!(select, (111, CanvasShape::Edge));
            assert_eq!(faces, Some(vec![(103, 200, true)]));
            assert_eq!(old_edge, Some(111));
        }
        _ => panic!("expected the edge to be re-created"),
    }

    let mut canvas = Canvas::default();
    let mut input = InputManager::default();
    let (edge_2d, faces_2d) = em.cleanup_deleted_edge(&mut canvas, &mut input, &mut vm, &mut fm, 11);
    assert_eq!(edge_2d, 111);
    assert_eq!(faces_2d, vec![200]);
    assert!(!em.has_edge_entity_3d(11));
    assert!(!fm.has_2d_face(&key));
    assert_eq!(canvas.resync_shapes, 2);
    assert_eq!(em.edge_3d_entity_from_vertices(&vm, 1, 2), None);
}

#[test]
fn deleting_a_lone_edge_remembers_no_face() {
    let mut vm = VertexManager::new();
    let mut em = EdgeManager::new();
    let mut fm = FaceManager::new();
    vm.register_3d_vertex(1, 101);
    vm.register_3d_vertex(2, 102);
    em.register_3d_edge(&mut vm, &mut fm, 11, 111, 1, 2, Some(50), None);
    let undo: Action = delete_edge_undo(&vm, &em, &fm, 111, 1, 2);
    assert!(matches!(undo, ShapeAction::CreateEdge(101, 102, (111, CanvasShape::Edge), None, Some(111))));
}

#[test]
fn deleting_an_edge_cleans_up_and_reselects() {
    let (mut vm, mut em, mut fm) = triangle();
    let key = FaceKey::new(1, 2, 3);
    fm.take_new_face_keys();
    fm.register_new_face(&mut vm, &mut em, 50, &key, 200);

    let mut canvas = Canvas::default();
    let mut input = InputManager::default();
    let (undo, edge_3d, faces_2d, request): (Action, u64, Vec<u64>, Option<u64>) = delete_edge(
        &mut canvas,
        &mut input,
        &mut vm,
        &mut em,
        &mut fm,
        111,
        Some((103, CanvasShape::Vertex)),
    );
    match undo {
        ShapeAction::CreateEdge(a, b, select, faces, old_edge) => {
            assert_eq!((a, b), (101, 102));
            assert_eq!(select, (111, CanvasShape::Edge));
            assert_eq!(faces, Some(vec![(103, 200, false)]));
            assert_eq!(old_edge, Some(111));
        }
        _ => panic!("expected the edge to be re-created"),
    }
    assert_eq!(edge_3d, 11);
    assert_eq!(faces_2d, vec![200]);
    assert_eq!(request, Some(3));
    assert_eq!(input.selected_shape_2d(), Some((103, CanvasShape::Vertex)));
    assert!(!em.has_edge_entity_3d(11));
    assert!(!fm.has_2d_face(&key));
    assert_eq!(em.edge_3d_entity_from_vertices(&vm, 2, 3), Some(12));
}

#[test]
fn deleting_a_lone_edge_selects_nothing() {
    let mut vm = VertexManager::new();
    let mut em = EdgeManager::new();
    let mut fm = FaceManager::new();
    vm.register_3d_vertex(1, 101);
    vm.register_3d_vertex(2, 102);
    em.register_3d_edge(&mut vm, &mut fm, 11, 111, 1, 2, Some(50), None);
    let mut canvas = Canvas::default();
    let mut input = InputManager::default();
    let (undo, _, faces_2d, request): (Action, u64, Vec<u64>, Option<u64>) =
        delete_edge(&mut canvas, &mut input, &mut vm, &mut em, &mut fm, 111, None);
    match undo {
        ShapeAction::CreateEdge(_, _, _, faces, _) => assert_eq!(faces, None),
        _ => panic!("expected the edge to be re-created"),
    }
    assert!(faces_2d.is_empty());
    assert_eq!(request, None);
    assert_eq!(input.selected_shape_2d(), None);
}

#[test]
fn edges_are_enabled_by_a_non_empty_shape_name() {
    assert!(edge_is_enabled(Some(&"arm".to_string())));
    assert!(!edge_is_enabled(Some(&String::new())));
    assert!(!edge_is_enabled(None));
}

#[test]
fn registering_then_forgetting_a_face_restores_the_graph() {
    let (mut vm, mut em, mut fm) = triangle();
    let key = FaceKey::new(1, 2, 3);
    fm.take_new_face_keys();
    fm.register_new_face(&mut vm, &mut em, 50, &key, 200);
    assert_eq!(em.edge_connected_faces(11).map(|v| v.len()), Some(1));
    assert_eq!(fm.face_key_from_2d_entity(200), Some(key));
    assert_eq!(fm.unregister_face_key(&mut vm, &mut em, &key), Some(200));
    assert!(!fm.has_2d_face(&key));
    assert_eq!(fm.face_key_from_2d_entity(200), None);
    assert_eq!(em.edge_connected_faces(11).map(|v| v.len()), Some(0));
    assert_eq!(em.edge_connected_faces(12).map(|v| v.len()), Some(0));
    assert_eq!(em.edge_connected_faces(13).map(|v| v.len()), Some(0));
}

#[test]
fn setting_up_a_face_makes_its_2d_face_once() {
    let (mut vm, mut em, mut fm) = triangle();
    let key = FaceKey::new(1, 2, 3);
    let mut spawned = 0;
    let face_2d = fm.set_up_face(&mut vm, &mut em, 50, &key, 300, || {
        spawned += 1;
        200
    });
    assert_eq!(face_2d, 200);
    assert_eq!(spawned, 1);
    assert!(fm.take_new_face_keys().is_empty());
    assert_eq!(fm.face_3d_entity_from_face_key(&key), Some(300));
    assert_eq!(fm.face_entity_2d_to_3d(200), Some(300));
    assert_eq!(em.edge_connected_faces(11).map(|v| v.len()), Some(1));

    let again = fm.set_up_face(&mut vm, &mut em, 50, &key, 301, || 999);
    assert_eq!(again, 200);
    assert_eq!(fm.face_3d_entity_from_face_key(&key), Some(301));
}

#[test]
fn edge_maps_stay_two_way_through_register_and_cleanup() {
    let (mut vm, mut em, mut fm) = triangle();
    for (e2, e3) in [(111, 11), (112, 12), (113, 13)] {
        assert_eq!(em.edge_entity_2d_to_3d(e2), Some(e3));
        assert_eq!(em.edge_entity_3d_to_2d(e3), Some(e2));
    }
    let mut canvas = Canvas::default();
    let mut input = InputManager::default();
    em.cleanup_deleted_edge(&mut canvas, &mut input, &mut vm, &mut fm, 12);
    assert_eq!(em.edge_entity_2d_to_3d(112), None);
    assert_eq!(em.edge_entity_3d_to_2d(12), None);
    assert_eq!(em.edge_entity_2d_to_3d(111), Some(11));
    assert_eq!(em.edge_3d_entity_from_vertices(&vm, 2, 3), None);
    assert_eq!(em.edge_3d_entity_from_vertices(&vm, 3, 1), Some(13));
}
