use vortex_client::canvas::Canvas;
use vortex_client::component_waitlist::{
    setup_plan, vertex_setup_args, ComponentData, ComponentWaitlist, ComponentWaitlistInsert, ShapeSetup, VertexColor,
    VertexSetupArgs,
};
use vortex_client::file_ext::FileExtension;
use vortex_client::shape_graph::{EdgeManager, VertexManager};
use vortex_client::shape_data::FaceKey;

fn entities<A>(done: &Vec<(u64, vortex_client::component_waitlist::ComponentWaitlistEntry<A>)>) -> Vec<u64> {
    done.iter().map(|(e, _)| *e).collect()
}

#[test]
fn mesh_vertex_is_set_up_once_complete() {
    let vm = VertexManager::new();
    let em = EdgeManager::new();
    let mut w: ComponentWaitlist<f32> = ComponentWaitlist::new();
    assert!(w.process_insert(&mut Canvas::default(), &vm, &em, None, 10, ComponentWaitlistInsert::FileType(FileExtension::Mesh)).is_empty());
    assert!(w.process_insert(&mut Canvas::default(), &vm, &em, None, 10, ComponentWaitlistInsert::OwnedByFile(1)).is_empty());
    let mut done = w.process_insert(&mut Canvas::default(), &vm, &em, None, 10, ComponentWaitlistInsert::Vertex);
    assert_eq!(entities(&done), vec![10]);
    let (_, entry) = done.remove(0);
    let (data, file, file_type) = entry.decompose();
    assert!(matches!(data, ComponentData::Vertex(None)));
    assert_eq!(file, 1);
    assert_eq!(file_type, FileExtension::Mesh);
}

#[test]
fn edge_waits_for_both_vertices() {
    let vm = VertexManager::new();
    let em = EdgeManager::new();
    let mut w: ComponentWaitlist<f32> = ComponentWaitlist::new();
    for insert in [
        ComponentWaitlistInsert::FileType(FileExtension::Mesh),
        ComponentWaitlistInsert::OwnedByFile(1),
        ComponentWaitlistInsert::Edge(10, 11),
    ] {
        assert!(w.process_insert(&mut Canvas::default(), &vm, &em, None, 20, insert).is_empty());
    }
    for insert in [ComponentWaitlistInsert::FileType(FileExtension::Mesh), ComponentWaitlistInsert::OwnedByFile(1)] {
        assert!(w.process_insert(&mut Canvas::default(), &vm, &em, None, 10, insert).is_empty());
    }
    let done = w.process_insert(&mut Canvas::default(), &vm, &em, None, 10, ComponentWaitlistInsert::Vertex);
    assert_eq!(entities(&done), vec![10]);
    for insert in [ComponentWaitlistInsert::FileType(FileExtension::Mesh), ComponentWaitlistInsert::OwnedByFile(1)] {
        assert!(w.process_insert(&mut Canvas::default(), &vm, &em, None, 11, insert).is_empty());
    }
    let mut done = w.process_insert(&mut Canvas::default(), &vm, &em, None, 11, ComponentWaitlistInsert::Vertex);
    assert_eq!(entities(&done), vec![11, 20]);
    let (_, edge) = done.remove(1);
    let (data, file, _) = edge.decompose();
    assert!(matches!(data, ComponentData::Edge(10, 11, None)));
    assert_eq!(file, 1);
}

#[test]
fn registered_vertices_need_no_wait() {
    let mut vm = VertexManager::new();
    vm.register_3d_vertex(10, 110);
    vm.register_3d_vertex(11, 111);
    let em = EdgeManager::new();
    let mut w: ComponentWaitlist<f32> = ComponentWaitlist::new();
    w.process_insert(&mut Canvas::default(), &vm, &em, None, 20, ComponentWaitlistInsert::FileType(FileExtension::Mesh));
    w.process_insert(&mut Canvas::default(), &vm, &em, None, 20, ComponentWaitlistInsert::OwnedByFile(1));
    let done = w.process_insert(&mut Canvas::default(), &vm, &em, None, 20, ComponentWaitlistInsert::Edge(10, 11));
    assert_eq!(entities(&done), vec![20]);
}

#[test]
fn skeleton_child_vertex_learns_its_parent_from_the_edge() {
    let vm = VertexManager::new();
    let em = EdgeManager::new();
    let mut w: ComponentWaitlist<f32> = ComponentWaitlist::new();
    // the root vertex
    w.process_insert(&mut Canvas::default(), &vm, &em, None, 1, ComponentWaitlistInsert::FileType(FileExtension::Skel));
    w.process_insert(&mut Canvas::default(), &vm, &em, None, 1, ComponentWaitlistInsert::OwnedByFile(9));
    let done = w.process_insert(&mut Canvas::default(), &vm, &em, None, 1, ComponentWaitlistInsert::VertexRoot);
    assert_eq!(entities(&done), vec![1]);
    // a child vertex waits for its parent, which only the edge names
    w.process_insert(&mut Canvas::default(), &vm, &em, None, 2, ComponentWaitlistInsert::FileType(FileExtension::Skel));
    w.process_insert(&mut Canvas::default(), &vm, &em, None, 2, ComponentWaitlistInsert::OwnedByFile(9));
    assert!(w.process_insert(&mut Canvas::default(), &vm, &em, None, 2, ComponentWaitlistInsert::Vertex).is_empty());
    // the edge from 1 to 2 arrives without its angle yet
    w.process_insert(&mut Canvas::default(), &vm, &em, None, 3, ComponentWaitlistInsert::FileType(FileExtension::Skel));
    w.process_insert(&mut Canvas::default(), &vm, &em, None, 3, ComponentWaitlistInsert::OwnedByFile(9));
    let done = w.process_insert(&mut Canvas::default(), &vm, &em, None, 3, ComponentWaitlistInsert::Edge(1, 2));
    // the edge is not ready (no angle), so its end vertex is not checked either
    assert!(done.is_empty());
    let done = w.process_insert(&mut Canvas::default(), &vm, &em, None, 3, ComponentWaitlistInsert::EdgeAngle(0.5));
    // the edge waits for vertex 2; vertex 1 was set up in an earlier call and
    // is not in the registry here, so it waits for that too
    assert!(done.is_empty());
}

#[test]
fn skeleton_edge_completes_after_its_end_vertex() {
    let mut vm = VertexManager::new();
    vm.register_3d_vertex(1, 101);
    let em = EdgeManager::new();
    let mut w: ComponentWaitlist<f32> = ComponentWaitlist::new();
    w.process_insert(&mut Canvas::default(), &vm, &em, None, 2, ComponentWaitlistInsert::FileType(FileExtension::Skel));
    w.process_insert(&mut Canvas::default(), &vm, &em, None, 2, ComponentWaitlistInsert::OwnedByFile(9));
    assert!(w.process_insert(&mut Canvas::default(), &vm, &em, None, 2, ComponentWaitlistInsert::Vertex).is_empty());
    w.process_insert(&mut Canvas::default(), &vm, &em, None, 3, ComponentWaitlistInsert::FileType(FileExtension::Skel));
    w.process_insert(&mut Canvas::default(), &vm, &em, None, 3, ComponentWaitlistInsert::OwnedByFile(9));
    w.process_insert(&mut Canvas::default(), &vm, &em, None, 3, ComponentWaitlistInsert::EdgeAngle(0.25));
    let mut done = w.process_insert(&mut Canvas::default(), &vm, &em, None, 3, ComponentWaitlistInsert::Edge(1, 2));
    // the edge is complete but waits for vertex 2, which the edge completes:
    // vertex 2 is set up, then the edge
    assert_eq!(entities(&done), vec![2, 3]);
    let (_, vertex) = done.remove(0);
    let (data, _, _) = vertex.decompose();
    assert!(matches!(data, ComponentData::Vertex(Some(1))));
    let (_, edge) = done.remove(0);
    let (data, _, file_type) = edge.decompose();
    assert!(matches!(data, ComponentData::Edge(1, 2, Some(a)) if a == 0.25));
    assert_eq!(file_type, FileExtension::Skel);
}

#[test]
fn model_transform_needs_its_shape_name() {
    let vm = VertexManager::new();
    let em = EdgeManager::new();
    let mut w: ComponentWaitlist<f32> = ComponentWaitlist::new();
    w.process_insert(&mut Canvas::default(), &vm, &em, None, 5, ComponentWaitlistInsert::FileType(FileExtension::Model));
    w.process_insert(&mut Canvas::default(), &vm, &em, None, 5, ComponentWaitlistInsert::OwnedByFile(2));
    w.process_insert(&mut Canvas::default(), &vm, &em, None, 5, ComponentWaitlistInsert::NetTransform);
    assert!(w
        .process_insert(&mut Canvas::default(), &vm, &em, None, 5, ComponentWaitlistInsert::SkinOrSceneEntity(
            7,
            vortex_client::component_waitlist::NetTransformEntityType::Skin
        ))
        .is_empty());
    let mut done = w.process_insert(&mut Canvas::default(), &vm, &em, None, 5, ComponentWaitlistInsert::ShapeName("arm".to_string()));
    assert_eq!(entities(&done), vec![5]);
    let (_, entry) = done.remove(0);
    let (data, _, _) = entry.decompose();
    assert!(matches!(data, ComponentData::NetTransform(Some(ref n)) if n == "arm"));
}

#[test]
fn complete_shapes_have_a_set_up_plan() {
    let p: ShapeSetup<u8> = setup_plan(ComponentData::Vertex(None), 50, FileExtension::Skel);
    assert!(matches!(p, ShapeSetup::SkelVertex { file_entity: 50, parent: None }));
    let p: ShapeSetup<u8> = setup_plan(ComponentData::Vertex(Some(4)), 50, FileExtension::Skel);
    assert!(matches!(p, ShapeSetup::SkelVertex { file_entity: 50, parent: Some(4) }));
    let p: ShapeSetup<u8> = setup_plan(ComponentData::Vertex(None), 51, FileExtension::Mesh);
    assert!(matches!(p, ShapeSetup::MeshVertex { file_entity: 51 }));
    let p: ShapeSetup<u8> = setup_plan(ComponentData::Edge(1, 2, Some(9)), 50, FileExtension::Skel);
    assert!(matches!(p, ShapeSetup::SkelEdge { file_entity: 50, start: 1, end: 2, angle: Some(9) }));
    let p: ShapeSetup<u8> = setup_plan(ComponentData::Edge(1, 2, None), 51, FileExtension::Mesh);
    assert!(matches!(p, ShapeSetup::MeshEdge { file_entity: 51, start: 1, end: 2 }));
    let p: ShapeSetup<u8> = setup_plan(ComponentData::Face(3, 1, 2, 10, 11, 12), 51, FileExtension::Mesh);
    match p {
        ShapeSetup::Face { file_entity, key } => {
            assert_eq!(file_entity, 51);
            assert_eq!(key, FaceKey::new(1, 2, 3));
        }
        _ => panic!("expected a face"),
    }
    let p: ShapeSetup<u8> = setup_plan(ComponentData::NetTransform(Some("arm".to_string())), 52, FileExtension::Model);
    match p {
        ShapeSetup::ModelTransform { file_entity, shape_name } => {
            assert_eq!(file_entity, 52);
            assert_eq!(shape_name, "arm");
        }
        _ => panic!("expected a model transform"),
    }
    let p: ShapeSetup<u8> = setup_plan(ComponentData::NetTransform(None), 53, FileExtension::Scene);
    assert!(matches!(p, ShapeSetup::SceneTransform { file_entity: 53 }));
}

#[test]
fn handing_out_a_shape_asks_for_a_canvas_resync() {
    let vm = VertexManager::new();
    let em = EdgeManager::new();
    let mut canvas = Canvas::default();
    let mut w: ComponentWaitlist<f32> = ComponentWaitlist::new();
    assert!(w.process_insert(&mut canvas, &vm, &em, None, 10, ComponentWaitlistInsert::FileType(FileExtension::Mesh)).is_empty());
    assert!(w.process_insert(&mut canvas, &vm, &em, None, 10, ComponentWaitlistInsert::OwnedByFile(1)).is_empty());
    assert_eq!(canvas.resync_shapes, 0);
    let done = w.process_insert(&mut canvas, &vm, &em, None, 10, ComponentWaitlistInsert::Vertex);
    assert_eq!(entities(&done), vec![10]);
    assert_eq!(canvas.resync_shapes, 2);
}

#[test]
fn vertex_set_up_gets_color_root_flag_owner_and_mesh_flag() {
    let root: ShapeSetup<u8> = ShapeSetup::SkelVertex { file_entity: 50, parent: None };
    assert_eq!(
        vertex_setup_args(&root),
        Some(VertexSetupArgs { parent: None, root: true, owner: Some(50), color: VertexColor::Root, mesh: false })
    );
    let child: ShapeSetup<u8> = ShapeSetup::SkelVertex { file_entity: 50, parent: Some(4) };
    assert_eq!(
        vertex_setup_args(&child),
        Some(VertexSetupArgs { parent: Some(4), root: false, owner: Some(50), color: VertexColor::Enabled, mesh: false })
    );
    let mesh: ShapeSetup<u8> = ShapeSetup::MeshVertex { file_entity: 51 };
    assert_eq!(
        vertex_setup_args(&mesh),
        Some(VertexSetupArgs { parent: None, root: false, owner: Some(51), color: VertexColor::Enabled, mesh: true })
    );
    let edge: ShapeSetup<u8> = ShapeSetup::MeshEdge { file_entity: 51, start: 1, end: 2 };
    assert_eq!(vertex_setup_args(&edge), None);
}
