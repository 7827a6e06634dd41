use std::cell::RefCell;
use vortex_client::action_stack::ActionStack;
use vortex_client::skin_action::SkinAction;

#[test]
fn buffered_action_is_taken_once() {
    let mut stack: ActionStack<SkinAction> = ActionStack::new();
    stack.buffer_action(SkinAction::EditBckgColor(7));
    let taken = stack.take_buffered_actions();
    assert_eq!(taken.len(), 1);
    assert!(stack.take_buffered_actions().is_empty());
}

#[test]
fn new_stack_has_no_undo_or_redo() {
    let stack: ActionStack<SkinAction> = ActionStack::new();
    assert!(!stack.has_undo());
    assert!(!stack.has_redo());
}

use vortex_client::canvas::Canvas;
use vortex_client::file_ext::FileExtension;
use vortex_client::input::InputManager;
use vortex_client::shape_action::{migrate_all, Migration, ShapeAction};
use vortex_client::shape_data::{CanvasShape, FaceKey};
use vortex_client::shape_graph::{EdgeManager, FaceManager, VertexManager};
use vortex_client::auth::AuthStatus;
use std::collections::HashMap;
use vortex_client::skin_action::{plan_edit_color, select_face, ColorEdit, SkinActionType};
use vortex_client::tab_action_stack::TabActionStack;

#[test]
fn undo_then_redo_gives_the_action_back() {
    let mut stack: ActionStack<SkinAction> = ActionStack::new();
    let (_, undo) = plan_edit_color(4, Some(1), Some(2));
    stack.post_action_execution(vec![undo]);
    assert!(stack.has_undo());
    assert!(!stack.has_redo());
    let action = stack.pop_undo();
    assert_eq!(action, SkinAction::EditColor(4, Some(2), Some(1)));
    let (_, redo) = plan_edit_color(4, Some(2), Some(1));
    stack.post_execute_undo(vec![redo]);
    assert!(stack.has_redo());
    let again = stack.pop_redo();
    assert_eq!(again, SkinAction::EditColor(4, Some(1), Some(2)));
}

#[test]
fn new_action_clears_redo() {
    let mut stack: ActionStack<SkinAction> = ActionStack::new();
    stack.post_action_execution(vec![SkinAction::EditBckgColor(1)]);
    let a = stack.pop_undo();
    stack.post_execute_undo(vec![a]);
    assert!(stack.has_redo());
    stack.post_action_execution(vec![SkinAction::EditBckgColor(2)]);
    assert!(!stack.has_redo());
}

#[test]
fn disabled_top_hides_undo() {
    let mut stack: ActionStack<SkinAction> = ActionStack::new();
    stack.post_action_execution(vec![SkinAction::EditBckgColor(1)]);
    stack.set_top_enabled(false, true);
    assert!(!stack.has_undo());
}

#[test]
fn color_edit_plans() {
    assert_eq!(plan_edit_color(4, None, Some(2)).0, ColorEdit::SetPaletteColor(2));
    assert_eq!(plan_edit_color(4, Some(1), None).0, ColorEdit::RemoveColor);
    assert_eq!(plan_edit_color(4, None, None).0, ColorEdit::Nothing);
    assert_eq!(SkinAction::EditBckgColor(3).get_type(), SkinActionType::EditBckgColor);
}

#[test]
fn skin_face_selection_swaps() {
    let mut input = InputManager::default();
    let mut canvas = Canvas::default();
    let fm = FaceManager::new();
    let (undo, release, request) = select_face(&mut input, &mut canvas, &fm, &HashMap::new(), None);
    assert_eq!(undo, SkinAction::SelectFace(None));
    assert_eq!((release, request), (None, None));
    assert_eq!(canvas.resync_shapes, 0);
}

#[test]
fn tab_history_kinds() {
    let tab: TabActionStack<u8, u8, u8, SkinAction> = TabActionStack::new(FileExtension::Skin);
    assert!(matches!(tab, TabActionStack::Skin(_)));
    assert!(!tab.has_undo());
    let tab: TabActionStack<u8, u8, u8, SkinAction> = TabActionStack::new(FileExtension::Mesh);
    assert!(matches!(tab, TabActionStack::Shape(_)));
    assert!(!tab.has_redo());
}

#[test]
fn migration_retargets_selections() {
    let mut actions: Vec<ShapeAction<u8, u8, u8>> = vec![
        ShapeAction::SelectShape(Some((5, CanvasShape::Edge))),
        ShapeAction::SelectShape(Some((6, CanvasShape::Edge))),
    ];
    migrate_all(&mut actions, &Migration::Edge(5, 50), &|v: &u8| *v);
    assert!(matches!(actions[0], ShapeAction::SelectShape(Some((50, CanvasShape::Edge)))));
    assert!(matches!(actions[1], ShapeAction::SelectShape(Some((6, CanvasShape::Edge)))));
}

#[test]
fn vertex_creation_payload_goes_through_its_own_migration() {
    let mut a: ShapeAction<u8, u8, u8> = ShapeAction::CreateVertex(7, 3, Some((1, 2)));
    a.migrate_vertex_entities(1, 10, 2, 20, &|v: &u8| *v + 1);
    assert!(matches!(a, ShapeAction::CreateVertex(8, 3, Some((10, 20)))));
    a.migrate_edge_entities(4, 40, &|v: &u8| *v * 2);
    assert!(matches!(a, ShapeAction::CreateVertex(16, 3, Some((10, 20)))));
    a.migrate_face_entities(5, 50, &|v: &u8| *v - 6);
    assert!(matches!(a, ShapeAction::CreateVertex(10, 3, Some((10, 20)))));
    let mut b: ShapeAction<u8, u8, u8> = ShapeAction::CreateVertex(7, 3, None);
    b.migrate_vertex_entities(1, 10, 2, 20, &|v: &u8| *v + 1);
    assert!(matches!(b, ShapeAction::CreateVertex(8, 3, None)));
}

#[test]
fn migrating_twice_changes_nothing_more() {
    let mut actions: Vec<ShapeAction<u8, u8, u8>> = vec![
        ShapeAction::MoveVertex(1, 4, 5),
        ShapeAction::CreateEdge(1, 2, (1, CanvasShape::Vertex), Some(vec![(1, 9, true), (3, 8, false)]), Some(6)),
        ShapeAction::DeleteVertex(2, Some((1, CanvasShape::Vertex))),
    ];
    let m = Migration::Vertex(1, 11, 100, 110);
    migrate_all(&mut actions, &m, &|v: &u8| *v);
    migrate_all(&mut actions, &m, &|v: &u8| *v);
    assert!(matches!(actions[0], ShapeAction::MoveVertex(11, 4, 5)));
    match &actions[1] {
        ShapeAction::CreateEdge(a, b, sel, Some(faces), old) => {
            assert_eq!((*a, *b, *sel, *old), (11, 2, (11, CanvasShape::Vertex), Some(6)));
            assert_eq!(faces, &vec![(11, 9, true), (3, 8, false)]);
        }
        _ => panic!("edge creation expected"),
    }
    assert!(matches!(actions[2], ShapeAction::DeleteVertex(2, Some((11, CanvasShape::Vertex)))));
    let mut same = vec![ShapeAction::<u8, u8, u8>::RotateEdge(3, 1, 2)];
    migrate_all(&mut same, &Migration::Edge(3, 3), &|v: &u8| *v);
    assert!(matches!(same[0], ShapeAction::RotateEdge(3, 1, 2)));
}

/// The action that reverses `a` is `a + 100`; an action on top of a stack
/// may be used when it is even.
fn even(a: &u32) -> bool {
    *a % 2 == 0
}

#[test]
fn executing_undoing_and_redoing_through_closures() {
    let mut stack: ActionStack<u32> = ActionStack::new();
    let executed = RefCell::new(Vec::new());
    let run = |a: u32| {
        executed.borrow_mut().push(a);
        vec![a + 100]
    };
    stack.buffer_action(1);
    stack.buffer_action(2);
    stack.execute_actions(&run, &even);
    assert_eq!(*executed.borrow(), vec![1, 2]);
    assert!(stack.has_undo());
    assert!(!stack.has_redo());
    assert_eq!(stack.undo_top(), Some(&102));

    stack.undo_action(&run, &even);
    assert_eq!(*executed.borrow(), vec![1, 2, 102]);
    assert_eq!(stack.undo_top(), Some(&101));
    assert!(!stack.has_undo());
    assert_eq!(stack.redo_top(), Some(&202));
    assert!(stack.has_redo());

    stack.redo_action(&run, &even);
    assert_eq!(*executed.borrow(), vec![1, 2, 102, 202]);
    assert_eq!(stack.undo_top(), Some(&302));
    assert!(stack.has_undo());
    assert!(!stack.has_redo());

    stack.execute_action(&run, 7, &even);
    assert_eq!(stack.undo_top(), Some(&107));
    assert!(!stack.has_undo());
    stack.check_top(&|_a: &u32| true);
    assert!(stack.has_undo());
}

#[test]
fn executing_nothing_leaves_the_stack() {
    let mut stack: ActionStack<u32> = ActionStack::new();
    let executed = RefCell::new(Vec::<u32>::new());
    let run = |a: u32| {
        executed.borrow_mut().push(a);
        vec![a + 100]
    };
    stack.execute_actions(&run, &even);
    assert!(executed.borrow().is_empty());
    assert!(!stack.has_undo());
    assert!(!stack.has_redo());
}

#[test]
fn tab_history_undo_and_redo() {
    let executed = RefCell::new(Vec::<u64>::new());
    let runs = || {
        (
            |a: u8| {
                executed.borrow_mut().push(a as u64);
                vec![a + 1]
            },
            |a: u16| {
                executed.borrow_mut().push(a as u64);
                vec![a + 1]
            },
            |a: u32| {
                executed.borrow_mut().push(a as u64);
                vec![a + 1]
            },
            |a: u64| {
                executed.borrow_mut().push(a);
                vec![a + 1]
            },
        )
    };
    let checks = (|_: &u8| true, |_: &u16| true, |_: &u32| true, |_: &u64| true);
    let mut tab: TabActionStack<u8, u16, u32, u64> = TabActionStack::new(FileExtension::Palette);
    tab.execute_palette_action(|a: u32| {
        executed.borrow_mut().push(a as u64);
        vec![a + 1]
    }, 5, &checks.2);
    assert!(tab.has_undo());
    assert!(!tab.has_redo());
    tab.undo_action(runs(), &checks);
    assert!(!tab.has_undo());
    assert!(tab.has_redo());
    tab.redo_action(runs(), &checks);
    assert!(tab.has_undo());
    assert!(!tab.has_redo());
    assert_eq!(*executed.borrow(), vec![5, 6, 7]);
    tab.check_top(&checks);
    assert!(tab.has_undo());

    let mut shapes: TabActionStack<u8, u16, u32, u64> = TabActionStack::new(FileExtension::Mesh);
    shapes.execute_shape_action(|a: u8| vec![a + 1], 9, &checks.0);
    assert!(shapes.has_undo());
    let mut anim: TabActionStack<u8, u16, u32, u64> = TabActionStack::new(FileExtension::Anim);
    anim.execute_anim_action(|a: u16| vec![a + 1], 20, &checks.1);
    anim.undo_action(runs(), &checks);
    assert!(anim.has_redo());
    assert_eq!(*executed.borrow(), vec![5, 6, 7, 21]);
}

#[test]
fn shape_top_follows_the_selected_vertex_authority() {
    let mut vm = VertexManager::new();
    vm.register_3d_vertex(1, 101);
    let em = EdgeManager::new();
    let fm = FaceManager::new();
    let mut stack: ActionStack<ShapeAction<u8, u8, u8>> = ActionStack::new();
    stack.post_execute_redo(vec![ShapeAction::SelectShape(Some((101, CanvasShape::Vertex)))]);
    stack.post_execute_undo(vec![ShapeAction::DeleteFace(5)]);

    let mut statuses = HashMap::new();
    statuses.insert(1u64, AuthStatus::Available);
    stack.enable_top(&vm, &em, &fm, &statuses);
    assert!(stack.has_undo());
    assert!(stack.has_redo());

    statuses.insert(1u64, AuthStatus::Granted);
    stack.enable_top(&vm, &em, &fm, &statuses);
    assert!(!stack.has_undo());
    assert!(stack.has_redo());

    stack.enable_top(&vm, &em, &fm, &HashMap::new());
    assert!(!stack.has_undo());

    let none: Option<&ShapeAction<u8, u8, u8>> = None;
    assert!(ShapeAction::enable_top_impl(&vm, &em, &fm, &HashMap::new(), none));
    let deselect: ShapeAction<u8, u8, u8> = ShapeAction::SelectShape(None);
    assert!(ShapeAction::enable_top_impl(&vm, &em, &fm, &HashMap::new(), Some(&deselect)));
}

#[test]
fn skin_face_selection_requests_and_releases_color_entities() {
    let mut vm = VertexManager::new();
    let mut em = EdgeManager::new();
    let mut fm = FaceManager::new();
    vm.register_3d_vertex(1, 101);
    vm.register_3d_vertex(2, 102);
    vm.register_3d_vertex(3, 103);
    em.register_3d_edge(&mut vm, &mut fm, 11, 111, 1, 2, Some(50), None);
    em.register_3d_edge(&mut vm, &mut fm, 12, 112, 2, 3, Some(50), None);
    em.register_3d_edge(&mut vm, &mut fm, 13, 113, 3, 1, Some(50), None);
    let key = FaceKey::new(1, 2, 3);
    fm.set_up_face(&mut vm, &mut em, 50, &key, 300, || 200);
    let mut colors = HashMap::new();
    colors.insert(300u64, 77u64);
    let mut input = InputManager::default();
    let mut canvas = Canvas::default();
    let (undo, release, request) = select_face(&mut input, &mut canvas, &fm, &colors, Some((200, CanvasShape::Face)));
    assert_eq!(undo, SkinAction::SelectFace(None));
    assert_eq!((release, request), (None, Some(77)));
    assert_eq!(input.selected_shape_2d(), Some((200, CanvasShape::Face)));
    let (undo, release, request) = select_face(&mut input, &mut canvas, &fm, &colors, None);
    assert_eq!(undo, SkinAction::SelectFace(Some((200, CanvasShape::Face))));
    assert_eq!((release, request), (Some(77), None));
    let (_, release, request) = select_face(&mut input, &mut canvas, &fm, &HashMap::new(), Some((200, CanvasShape::Face)));
    assert_eq!((release, request), (None, None));
}
