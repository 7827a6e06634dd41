use vstd::prelude::*;
use std::collections::HashMap;
use crate::icon_shapes::{icon_hover_after, icon_keys_unregistered, icon_removable_face, IconShapes, IconShapesView};
use crate::id_set::IdSet;
use crate::shape_data::{CanvasShape, FaceKey};

verus! {

broadcast use vstd::std_specs::hash::group_hash_axioms;

/// A direction of keyboard navigation between frames.
#[derive(Clone, Copy, PartialEq, Eq, Structural, Debug)]
pub enum CardinalDirection {
    North,
    South,
    East,
    West,
}

/// The frames of one icon file: every registered frame, and the frames laid
/// out by their order (a hole where no frame has that order).
pub struct FileFrameData {
    frames: IdSet,
    frame_list: Vec<Option<u64>>,
}

pub struct FileFrameView {
    pub frames: Set<u64>,
    pub frame_list: Seq<Option<u64>>,
}

/// How many slots of `list` hold a frame.
pub open spec fn filled_count(list: Seq<Option<u64>>) -> nat
    decreases list.len(),
{
    if list.len() == 0 {
        0
    } else {
        filled_count(list.drop_last()) + if list.last() is Some { 1nat } else { 0nat }
    }
}

/// The frame list that the frames with the given orders make, a later frame
/// taking the place of an earlier one with the same order.
pub open spec fn frame_list_of(frames: Seq<(u64, u8)>) -> Seq<Option<u64>>
    decreases frames.len(),
{
    if frames.len() == 0 {
        Seq::empty()
    } else {
        let prev = frame_list_of(frames.drop_last());
        let (e, order) = frames.last();
        let grown = if order >= prev.len() {
            prev + Seq::new((order + 1 - prev.len()) as nat, |k: int| None::<u64>)
        } else {
            prev
        };
        grown.update(order as int, Some(e))
    }
}

proof fn lemma_filled_count_bound(list: Seq<Option<u64>>)
    ensures
        filled_count(list) <= list.len(),
    decreases list.len(),
{
    if list.len() > 0 {
        lemma_filled_count_bound(list.drop_last());
    }
}

impl View for FileFrameData {
    type V = FileFrameView;

    closed spec fn view(&self) -> FileFrameView {
        FileFrameView { frames: self.frames@, frame_list: self.frame_list@ }
    }
}

impl FileFrameData {
    pub fn new() -> (d: Self)
        ensures
            d@.frames == Set::<u64>::empty(),
            d@.frame_list == Seq::<Option<u64>>::empty(),
    {
        FileFrameData { frames: IdSet::new(), frame_list: Vec::new() }
    }

    pub fn register_frame(&mut self, frame_entity: u64)
        ensures
            final(self)@.frames == old(self)@.frames.insert(frame_entity),
            final(self)@.frame_list == old(self)@.frame_list,
    {
        self.frames.insert(frame_entity);
    }

    pub fn deregister_frame(&mut self, frame_entity: u64)
        ensures
            final(self)@.frames == old(self)@.frames.remove(frame_entity),
            final(self)@.frame_list == old(self)@.frame_list,
    {
        self.frames.remove(frame_entity);
    }

    /// How many slots of the frame list hold a frame.
    pub fn count(&self) -> (n: usize)
        ensures
            n == filled_count(self@.frame_list),
    {
        let mut n: usize = 0;
        let mut i: usize = 0;
        while i < self.frame_list.len()
            invariant
                i <= self.frame_list@.len(),
                n == filled_count(self.frame_list@.subrange(0, i as int)),
            decreases self.frame_list@.len() - i,
        {
            proof {
                assert(self.frame_list@.subrange(0, i + 1).drop_last() == self.frame_list@.subrange(0, i as int));
                lemma_filled_count_bound(self.frame_list@.subrange(0, i as int));
            }
            if self.frame_list[i].is_some() {
                n = n + 1;
            }
            i = i + 1;
        }
        assert(self.frame_list@.subrange(0, self.frame_list@.len() as int) == self.frame_list@);
        n
    }
}

/// The state of the icon editor that its logic reads: the framing mode, the
/// frames of each file, the hovered and selected shapes, and the shapes.
pub struct IconManager {
    meshing: bool,
    current_frame_index: usize,
    preview_playing: bool,
    hovered_entity: Option<(u64, CanvasShape)>,
    selected_shape: Option<(u64, CanvasShape)>,
    resync_frame_order: IdSet,
    file_frame_data: HashMap<u64, FileFrameData>,
    frames: HashMap<u64, u64>,
    shapes: IconShapes,
}

pub struct IconManagerView {
    pub meshing: bool,
    pub current_frame_index: usize,
    pub preview_playing: bool,
    pub hovered_entity: Option<(u64, CanvasShape)>,
    pub selected_shape: Option<(u64, CanvasShape)>,
    pub resync_frame_order: Set<u64>,
    /// file entity -> its frames
    pub file_frames: Map<u64, FileFrameView>,
    /// frame entity -> file entity
    pub frames: Map<u64, u64>,
    pub shapes: IconShapesView,
}

impl View for IconManager {
    type V = IconManagerView;

    closed spec fn view(&self) -> IconManagerView {
        IconManagerView {
            meshing: self.meshing,
            current_frame_index: self.current_frame_index,
            preview_playing: self.preview_playing,
            hovered_entity: self.hovered_entity,
            selected_shape: self.selected_shape,
            resync_frame_order: self.resync_frame_order@,
            file_frames: self.file_frame_data@.map_values(|d: FileFrameData| d@),
            frames: self.frames@,
            shapes: self.shapes@,
        }
    }
}

impl IconManager {
    pub fn new() -> (m: Self)
        ensures
            !m@.meshing,
            m@.current_frame_index == 0,
            !m@.preview_playing,
            m@.hovered_entity is None,
            m@.selected_shape is None,
            m@.resync_frame_order == Set::<u64>::empty(),
            m@.file_frames == Map::<u64, FileFrameView>::empty(),
            m@.frames == Map::<u64, u64>::empty(),
            m.wf(),
            m@.shapes.vertices.is_empty(),
            m@.shapes.edges.is_empty(),
            m@.shapes.face_keys.is_empty(),
            m@.shapes.local_faces.is_empty(),
            m@.shapes.net_faces.is_empty(),
            m@.shapes.new_face_keys.len() == 0,
    {
        let m = IconManager {
            meshing: false,
            current_frame_index: 0,
            preview_playing: false,
            hovered_entity: None,
            selected_shape: None,
            resync_frame_order: IdSet::new(),
            file_frame_data: HashMap::new(),
            frames: HashMap::new(),
            shapes: IconShapes::new(),
        };
        assert(m@.file_frames =~= Map::<u64, FileFrameView>::empty());
        m
    }

    pub fn current_frame_index(&self) -> (i: usize)
        ensures
            i == self@.current_frame_index,
    {
        self.current_frame_index
    }

    pub fn set_current_frame_index(&mut self, frame_index: usize)
        ensures
            final(self).wf() == old(self).wf(),
            final(self)@ == (IconManagerView { current_frame_index: frame_index, ..old(self)@ }),
    {
        self.current_frame_index = frame_index;
    }

    pub fn preview_is_playing(&self) -> (r: bool)
        ensures
            r == self@.preview_playing,
    {
        self.preview_playing
    }

    pub fn preview_play(&mut self)
        ensures
            final(self).wf() == old(self).wf(),
            final(self)@ == (IconManagerView { preview_playing: true, ..old(self)@ }),
    {
        self.preview_playing = true;
    }

    pub fn preview_pause(&mut self)
        ensures
            final(self).wf() == old(self).wf(),
            final(self)@ == (IconManagerView { preview_playing: false, ..old(self)@ }),
    {
        self.preview_playing = false;
    }

    pub fn is_meshing(&self) -> (r: bool)
        ensures
            r == self@.meshing,
    {
        self.meshing
    }

    pub fn is_framing(&self) -> (r: bool)
        ensures
            r == !self@.meshing,
    {
        !self.meshing
    }

    pub fn set_meshing(&mut self)
        ensures
            final(self).wf() == old(self).wf(),
            final(self)@ == (IconManagerView { meshing: true, ..old(self)@ }),
    {
        self.meshing = true;
    }

    pub fn set_framing(&mut self)
        ensures
            final(self).wf() == old(self).wf(),
            final(self)@ == (IconManagerView { meshing: false, ..old(self)@ }),
    {
        self.meshing = false;
    }

    /// Selects a shape; nothing may be selected before.
    pub fn select_shape(&mut self, entity: u64, shape: CanvasShape)
        requires
            old(self)@.selected_shape is None,
        ensures
            final(self).wf() == old(self).wf(),
            final(self)@ == (IconManagerView { selected_shape: Some((entity, shape)), ..old(self)@ }),
    {
        self.selected_shape = Some((entity, shape));
    }

    pub fn deselect_shape(&mut self)
        ensures
            final(self).wf() == old(self).wf(),
            final(self)@ == (IconManagerView { selected_shape: None, ..old(self)@ }),
    {
        self.selected_shape = None;
    }

    pub fn selected_shape(&self) -> (r: Option<(u64, CanvasShape)>)
        ensures
            r == self@.selected_shape,
    {
        self.selected_shape
    }

    pub fn set_hovered_entity(&mut self, hovered: Option<(u64, CanvasShape)>)
        ensures
            final(self).wf() == old(self).wf(),
            final(self)@ == (IconManagerView { hovered_entity: hovered, ..old(self)@ }),
    {
        self.hovered_entity = hovered;
    }

    pub fn hovered_entity(&self) -> (r: Option<(u64, CanvasShape)>)
        ensures
            r == self@.hovered_entity,
    {
        self.hovered_entity
    }

    /// The frame with order `frame_index` in `file_entity`, if there is one.
    pub fn get_frame_entity(&self, file_entity: u64, frame_index: usize) -> (r: Option<u64>)
        ensures
            r == (if self@.file_frames.contains_key(file_entity)
                && frame_index < self@.file_frames[file_entity].frame_list.len() {
                self@.file_frames[file_entity].frame_list[frame_index as int]
            } else {
                None
            }),
    {
        match self.file_frame_data.get(&file_entity) {
            None => None,
            Some(data) => {
                if frame_index < data.frame_list.len() {
                    data.frame_list[frame_index]
                } else {
                    None
                }
            },
        }
    }

    /// The frame at the current frame index in `file_entity`, if there is one.
    pub fn current_frame_entity(&self, file_entity: u64) -> (r: Option<u64>)
        ensures
            r == (if self@.file_frames.contains_key(file_entity)
                && self@.current_frame_index < self@.file_frames[file_entity].frame_list.len() {
                self@.file_frames[file_entity].frame_list[self@.current_frame_index as int]
            } else {
                None
            }),
    {
        self.get_frame_entity(file_entity, self.current_frame_index)
    }

    /// The length of the frame list of `file_entity`, holes included.
    pub fn get_frame_count(&self, file_entity: u64) -> (r: Option<usize>)
        ensures
            r == (if self@.file_frames.contains_key(file_entity) {
                Some(self@.file_frames[file_entity].frame_list.len() as usize)
            } else {
                None
            }),
    {
        match self.file_frame_data.get(&file_entity) {
            None => None,
            Some(data) => Some(data.frame_list.len()),
        }
    }

    /// Records that `frame_entity` belongs to `file_entity`, and queues the
    /// file's frame order for a resync.
    pub fn register_frame(&mut self, file_entity: u64, frame_entity: u64)
        ensures
            final(self).wf() == old(self).wf(),
            final(self)@ == (IconManagerView {
                file_frames: old(self)@.file_frames.insert(file_entity, if old(self)@.file_frames.contains_key(file_entity) {
                    FileFrameView {
                        frames: old(self)@.file_frames[file_entity].frames.insert(frame_entity),
                        ..old(self)@.file_frames[file_entity]
                    }
                } else {
                    FileFrameView { frames: set![frame_entity], frame_list: Seq::empty() }
                }),
                frames: old(self)@.frames.insert(frame_entity, file_entity),
                resync_frame_order: old(self)@.resync_frame_order.insert(file_entity),
                ..old(self)@
            }),
    {
        let ghost before = self@;
        let mut data = match self.file_frame_data.remove(&file_entity) {
            Some(d) => d,
            None => FileFrameData::new(),
        };
        data.register_frame(frame_entity);
        self.file_frame_data.insert(file_entity, data);
        self.frames.insert(frame_entity, file_entity);
        self.resync_frame_order.insert(file_entity);
        assert(self@.file_frames =~= before.file_frames.insert(file_entity, if before.file_frames.contains_key(file_entity) {
            FileFrameView {
                frames: before.file_frames[file_entity].frames.insert(frame_entity),
                ..before.file_frames[file_entity]
            }
        } else {
            FileFrameView { frames: set![frame_entity], frame_list: Seq::empty() }
        }));
    }

    /// Forgets `frame_entity` of `file_entity` (whose frames must be known),
    /// dropping the file's frame data once no frame is left, and queues the
    /// file's frame order for a resync.
    pub fn deregister_frame(&mut self, file_entity: u64, frame_entity: u64)
        requires
            old(self)@.file_frames.contains_key(file_entity),
        ensures
            final(self).wf() == old(self).wf(),
            ({
                let d = old(self)@.file_frames[file_entity];
                let nd = FileFrameView { frames: d.frames.remove(frame_entity), ..d };
                final(self)@ == (IconManagerView {
                    file_frames: if nd.frames.is_empty() {
                        old(self)@.file_frames.remove(file_entity)
                    } else {
                        old(self)@.file_frames.insert(file_entity, nd)
                    },
                    frames: old(self)@.frames.remove(frame_entity),
                    resync_frame_order: old(self)@.resync_frame_order.insert(file_entity),
                    ..old(self)@
                })
            }),
    {
        let ghost before = self@;
        let mut data = self.file_frame_data.remove(&file_entity).unwrap();
        data.deregister_frame(frame_entity);
        if !data.frames.is_empty() {
            self.file_frame_data.insert(file_entity, data);
        }
        self.frames.remove(&frame_entity);
        self.resync_frame_order.insert(file_entity);
        let ghost d = before.file_frames[file_entity];
        let ghost nd = FileFrameView { frames: d.frames.remove(frame_entity), ..d };
        assert(self@.file_frames =~= if nd.frames.is_empty() {
            before.file_frames.remove(file_entity)
        } else {
            before.file_frames.insert(file_entity, nd)
        });
    }

    /// Queues the frame order of `file_entity` for a resync.
    pub fn framing_queue_resync_frame_order(&mut self, file_entity: u64)
        ensures
            final(self).wf() == old(self).wf(),
            final(self)@ == (IconManagerView {
                resync_frame_order: old(self)@.resync_frame_order.insert(file_entity),
                ..old(self)@
            }),
    {
        self.resync_frame_order.insert(file_entity);
    }

    /// Takes the files whose frame order is queued for a resync, leaving
    /// none queued.
    pub fn take_resync_frame_order(&mut self) -> (files: IdSet)
        ensures
            final(self).wf() == old(self).wf(),
            files@ == old(self)@.resync_frame_order,
            final(self)@ == (IconManagerView { resync_frame_order: Set::empty(), ..old(self)@ }),
    {
        let mut files = IdSet::new();
        std::mem::swap(&mut files, &mut self.resync_frame_order);
        files
    }

    /// Lays out the frames of `file_entity` by their order, from the frames
    /// of that file given with their orders; nothing changes for a file whose
    /// frames are not known.
    pub fn framing_recalc_order(&mut self, file_entity: u64, frames: &Vec<(u64, u8)>)
        ensures
            final(self).wf() == old(self).wf(),
            final(self)@ == (if old(self)@.file_frames.contains_key(file_entity) {
                IconManagerView {
                    file_frames: old(self)@.file_frames.insert(file_entity, FileFrameView {
                        frame_list: frame_list_of(frames@),
                        ..old(self)@.file_frames[file_entity]
                    }),
                    ..old(self)@
                }
            } else {
                old(self)@
            }),
    {
        let ghost before = self@;
        if let Some(mut data) = self.file_frame_data.remove(&file_entity) {
            let mut list: Vec<Option<u64>> = Vec::new();
            let mut i: usize = 0;
            while i < frames.len()
                invariant
                    i <= frames@.len(),
                    list@ == frame_list_of(frames@.subrange(0, i as int)),
                    list@.len() <= 256,
                decreases frames@.len() - i,
            {
                let (e, order) = frames[i];
                let ghost prev = list@;
                proof {
                    assert(frames@.subrange(0, i + 1).drop_last() == frames@.subrange(0, i as int));
                }
                let idx = order as usize;
                if list.len() <= idx {
                    assert(list@ =~= prev + Seq::new(0nat, |k: int| None::<u64>));
                    while list.len() <= idx
                        invariant
                            prev.len() <= list@.len() <= idx + 1,
                            list@ == prev + Seq::new((list@.len() - prev.len()) as nat, |k: int| None::<u64>),
                        decreases idx + 1 - list@.len(),
                    {
                        list.push(None);
                        assert(list@ =~= prev + Seq::new((list@.len() - prev.len()) as nat, |k: int| None::<u64>));
                    }
                }
                proof {
                    if order >= prev.len() {
                        assert(list@.len() == order + 1);
                    } else {
                        assert(list@ =~= prev);
                    }
                }
                list.set(idx, Some(e));
                i = i + 1;
            }
            assert(frames@.subrange(0, frames@.len() as int) == frames@);
            data.frame_list = list;
            self.file_frame_data.insert(file_entity, data);
            assert(self@.file_frames =~= before.file_frames.insert(file_entity, FileFrameView {
                frame_list: frame_list_of(frames@),
                ..before.file_frames[file_entity]
            }));
        } else {
            assert(self@.file_frames =~= before.file_frames);
        }
    }

    /// Moves to the closest frame west or east of the current one, skipping
    /// holes: returns the current index and the one to move to, or `None`
    /// where there is no such frame, the file has no frames, or the
    /// direction is north or south.
    pub fn framing_navigate(&self, current_file_entity: u64, dir: CardinalDirection) -> (r: Option<(usize, usize)>)
        requires
            self@.file_frames.contains_key(current_file_entity) && dir == CardinalDirection::West
                && self@.current_frame_index > 0
                ==> self@.current_frame_index - 1 < self@.file_frames[current_file_entity].frame_list.len(),
            self@.file_frames.contains_key(current_file_entity) && dir == CardinalDirection::East
                ==> self@.file_frames[current_file_entity].frame_list.len() > 0,
        ensures
            ({
                let cur = self@.current_frame_index as int;
                if !self@.file_frames.contains_key(current_file_entity) {
                    r is None
                } else {
                    let list = self@.file_frames[current_file_entity].frame_list;
                    match dir {
                        CardinalDirection::West => match r {
                            Some((from, to)) => from == cur && to < cur && list[to as int] is Some
                                && forall|k: int| to < k < cur ==> !(#[trigger] list[k] is Some),
                            None => forall|k: int| 0 <= k < cur ==> !(#[trigger] list[k] is Some),
                        },
                        CardinalDirection::East => match r {
                            Some((from, to)) => from == cur && cur < to < list.len() && list[to as int] is Some
                                && forall|k: int| cur < k < to ==> !(#[trigger] list[k] is Some),
                            None => forall|k: int| cur < k < list.len() ==> !(#[trigger] list[k] is Some),
                        },
                        _ => r is None,
                    }
                }
            }),
    {
        let current = self.current_frame_index;
        let mut current_index = current;
        let data = match self.file_frame_data.get(&current_file_entity) {
            None => return None,
            Some(d) => d,
        };
        let len = data.frame_list.len();
        assert(data@.frame_list == self@.file_frames[current_file_entity].frame_list);
        match dir {
            CardinalDirection::West => {
                if current_index == 0 {
                    return None;
                }
                current_index = current_index - 1;
                while data.frame_list[current_index].is_none()
                    invariant
                        current_index < current,
                        current - 1 < len,
                        dir == CardinalDirection::West,
                        len == data.frame_list@.len(),
                        self@.file_frames.contains_key(current_file_entity),
                        current == self@.current_frame_index,
                        data@.frame_list == self@.file_frames[current_file_entity].frame_list,
                        forall|k: int| current_index < k < current ==> !(#[trigger] data.frame_list@[k] is Some),
                    decreases current_index,
                {
                    if current_index == 0 {
                        return None;
                    }
                    current_index = current_index - 1;
                }
                Some((current, current_index))
            },
            CardinalDirection::East => {
                if current_index >= len - 1 {
                    return None;
                }
                current_index = current_index + 1;
                while data.frame_list[current_index].is_none()
                    invariant
                        current < current_index < len,
                        dir == CardinalDirection::East,
                        len == data.frame_list@.len(),
                        self@.file_frames.contains_key(current_file_entity),
                        current == self@.current_frame_index,
                        data@.frame_list == self@.file_frames[current_file_entity].frame_list,
                        forall|k: int| current < k < current_index ==> !(#[trigger] data.frame_list@[k] is Some),
                    decreases len - current_index,
                {
                    if current_index >= len - 1 {
                        return None;
                    }
                    current_index = current_index + 1;
                }
                Some((current, current_index))
            },
            _ => None,
        }
    }

    /// The icon's shapes are well formed.
    pub closed spec fn wf(&self) -> bool {
        self.shapes.wf()
    }

    /// The icon's shapes.
    pub fn shapes(&self) -> (r: &IconShapes)
        ensures
            r@ == self@.shapes,
            self.wf() == r.wf(),
    {
        &self.shapes
    }

    /// The icon's shapes, to change them.
    pub fn shapes_mut(&mut self) -> (r: &mut IconShapes)
        ensures
            r@ == old(self)@.shapes,
            old(self).wf() == r.wf(),
            final(self)@ == (IconManagerView { shapes: final(r)@, ..old(self)@ }),
            final(self).wf() == final(r).wf(),
    {
        &mut self.shapes
    }

    pub fn has_vertex_entity(&self, entity: u64) -> (r: bool)
        ensures
            r == self@.shapes.vertices.contains_key(entity),
    {
        self.shapes.has_vertex_entity(entity)
    }

    pub fn has_edge_entity(&self, edge_entity: u64) -> (r: bool)
        ensures
            r == self@.shapes.edges.contains_key(edge_entity),
    {
        self.shapes.has_edge_entity(edge_entity)
    }

    /// Forgets a deleted vertex, and clears the hover if it was on it.
    pub fn cleanup_deleted_vertex(&mut self, vertex_entity: u64)
        requires
            old(self).wf(),
        ensures
            final(self).wf(),
            final(self)@ == (IconManagerView {
                shapes: IconShapesView { vertices: old(self)@.shapes.vertices.remove(vertex_entity), ..old(self)@.shapes },
                hovered_entity: if old(self)@.hovered_entity == Some((vertex_entity, CanvasShape::Vertex)) {
                    None
                } else {
                    old(self)@.hovered_entity
                },
                ..old(self)@
            }),
    {
        self.shapes.unregister_vertex(vertex_entity);
        self.clear_hover_on(vertex_entity, CanvasShape::Vertex);
    }

    fn clear_hover_on(&mut self, entity: u64, shape: CanvasShape)
        ensures
            final(self).shapes == old(self).shapes,
            final(self)@ == (IconManagerView {
                hovered_entity: if old(self)@.hovered_entity == Some((entity, shape)) {
                    None
                } else {
                    old(self)@.hovered_entity
                },
                ..old(self)@
            }),
    {
        if let Some((e, s)) = self.hovered_entity {
            if e == entity && s == shape {
                self.hovered_entity = None;
            }
        }
    }

    /// Forgets the deleted triangle `key`, which has its local face (and
    /// registered edges); the face leaves the hover. Returns the local face,
    /// which is then despawned.
    pub fn cleanup_deleted_face_key(&mut self, key: &FaceKey) -> (local_face: u64)
        requires
            old(self).wf(),
            old(self)@.shapes.has_local_face(*key),
            old(self)@.shapes.edges.contains_key(old(self)@.shapes.data(*key).edge_a),
            old(self)@.shapes.edges.contains_key(old(self)@.shapes.data(*key).edge_b),
            old(self)@.shapes.edges.contains_key(old(self)@.shapes.data(*key).edge_c),
        ensures
            final(self).wf(),
            local_face == old(self)@.shapes.data(*key).local_entity,
            ({
                let k = *key;
                let s = old(self)@.shapes;
                let d = s.data(k);
                let removed = IconShapesView { face_keys: s.face_keys.remove(k), ..s };
                final(self)@.shapes == IconShapesView { local_faces: removed.local_faces.remove(d.local_entity), ..removed }
                    .vertex_face_removed(k.vertex_3d_a, k).vertex_face_removed(k.vertex_3d_b, k).vertex_face_removed(k.vertex_3d_c, k)
                    .edge_face_removed(d.edge_a, k).edge_face_removed(d.edge_b, k).edge_face_removed(d.edge_c, k)
            }),
            final(self)@ == (IconManagerView {
                shapes: final(self)@.shapes,
                hovered_entity: if old(self)@.hovered_entity == Some((local_face, CanvasShape::Face)) {
                    None
                } else {
                    old(self)@.hovered_entity
                },
                ..old(self)@
            }),
    {
        let local_face = self.shapes.unregister_face_key(key).unwrap();
        self.clear_hover_on(local_face, CanvasShape::Face);
        local_face
    }

    /// Forgets a deleted networked face; returns its local face (which then
    /// shows as hollow) where the triangle still has one.
    pub fn cleanup_deleted_net_face(&mut self, net_entity: u64) -> (r: Option<u64>)
        requires
            old(self).wf(),
            old(self)@.shapes.net_faces.contains_key(net_entity),
        ensures
            final(self).wf(),
            ({
                let s = old(self)@.shapes;
                let k = s.net_faces[net_entity];
                let removed = IconShapesView { net_faces: s.net_faces.remove(net_entity), ..s };
                if s.has_local_face(k) {
                    &&& r == Some(s.data(k).local_entity)
                    &&& final(self)@.shapes == IconShapesView {
                        face_keys: s.face_keys.insert(k, Some(crate::icon_data::IconFaceData { net_entity: None, ..s.data(k) })),
                        ..removed
                    }
                } else {
                    &&& r is None
                    &&& final(self)@.shapes == removed
                }
            }),
            final(self)@ == (IconManagerView { shapes: final(self)@.shapes, ..old(self)@ }),
    {
        self.shapes.unregister_net_face(net_entity)
    }
    /// Forgets the deleted edge `edge_entity` and, first, every triangle on
    /// it (each must have its local face and registered edges): returns the
    /// edge and the local faces of the triangles, in the order the edge lists
    /// them; these leave the hover.
    #[verifier::spinoff_prover]
    pub fn cleanup_deleted_edge(&mut self, edge_entity: u64) -> (r: (u64, Vec<u64>))
        requires
            old(self).wf(),
            old(self)@.shapes.edges.contains_key(edge_entity),
            forall|k: FaceKey| #[trigger] old(self)@.shapes.edges[edge_entity].faces.contains(k)
                ==> icon_removable_face(old(self)@.shapes, k),
        ensures
            final(self).wf(),
            r.0 == edge_entity,
            exists|ks: Seq<FaceKey>| #![trigger ks.to_set()] {
                let s1 = icon_keys_unregistered(old(self)@.shapes, ks);
                let d = s1.edges[edge_entity];
                &&& ks.to_set() == old(self)@.shapes.edges[edge_entity].faces
                &&& ks.no_duplicates()
                &&& ks.len() == r.1@.len()
                &&& forall|i: int| 0 <= i < ks.len() ==> r.1@[i] == #[trigger] old(self)@.shapes.data(ks[i]).local_entity
                &&& final(self)@.shapes == IconShapesView { edges: s1.edges.remove(edge_entity), ..s1 }
                    .vertex_edge_removed(d.vertex_a, edge_entity).vertex_edge_removed(d.vertex_b, edge_entity)
            },
            final(self)@ == (IconManagerView {
                shapes: final(self)@.shapes,
                hovered_entity: icon_hover_after(old(self)@.hovered_entity, r.1@, edge_entity),
                ..old(self)@
            }),
    {
        let ghost s0 = self@.shapes;
        let ghost v0 = self@;
        let ghost h0 = self@.hovered_entity;
        let keys = self.shapes.edge_connected_faces(edge_entity).unwrap();
        let ghost ks = keys@;
        let mut faces: Vec<u64> = Vec::new();
        let mut i: usize = 0;
        proof {
            assert forall|j: int| 0 <= j < ks.len() implies #[trigger] self@.shapes.face_keys.contains_key(ks[j])
                && self@.shapes.face_keys[ks[j]] == s0.face_keys[ks[j]] by {
                assert(ks.to_set().contains(ks[j]));
                assert(s0.edges[edge_entity].faces.contains(ks[j]));
            }
            assert(ks.subrange(0, 0) =~= Seq::<FaceKey>::empty());
            assert(faces@ =~= Seq::<u64>::empty());
        }
        while i < keys.len()
            invariant
                i <= ks.len(),
                ks == keys@,
                ks.no_duplicates(),
                ks.to_set() == s0.edges[edge_entity].faces,
                forall|k: FaceKey| #[trigger] s0.edges[edge_entity].faces.contains(k) ==> icon_removable_face(s0, k),
                self.wf(),
                self@.shapes == icon_keys_unregistered(s0, ks.subrange(0, i as int)),
                self@.shapes.edges.dom() == s0.edges.dom(),
                self@.shapes.edges[edge_entity].vertex_a == s0.edges[edge_entity].vertex_a,
                self@.shapes.edges[edge_entity].vertex_b == s0.edges[edge_entity].vertex_b,
                forall|j: int| i <= j < ks.len() ==> #[trigger] self@.shapes.face_keys.contains_key(ks[j])
                    && self@.shapes.face_keys[ks[j]] == s0.face_keys[ks[j]],
                faces@.len() == i,
                forall|j: int| 0 <= j < i ==> faces@[j] == #[trigger] s0.data(ks[j]).local_entity,
                self@ == (IconManagerView {
                    shapes: self@.shapes,
                    hovered_entity: match h0 {
                        Some((x, CanvasShape::Face)) => if faces@.contains(x) { None } else { h0 },
                        _ => h0,
                    },
                    ..v0
                }),
            decreases ks.len() - i,
        {
            let k = keys[i];
            let ghost fs = faces@;
            let ghost hcur = self@.hovered_entity;
            proof {
                assert(ks.contains(k));
                assert(s0.edges[edge_entity].faces.contains(k));
                assert(self@.shapes.face_keys.contains_key(ks[i as int]));
                assert(self@.shapes.face_keys[ks[i as int]] == s0.face_keys[ks[i as int]]);
            }
            let f = self.cleanup_deleted_face_key(&k);
            faces.push(f);
            proof {
                assert(ks.subrange(0, i + 1).drop_last() == ks.subrange(0, i as int));
                assert(ks.subrange(0, i + 1).last() == k);
                assert forall|j: int| i + 1 <= j < ks.len() implies #[trigger] self@.shapes.face_keys.contains_key(ks[j])
                    && self@.shapes.face_keys[ks[j]] == s0.face_keys[ks[j]] by {
                    assert(ks[j] != ks[i as int]);
                }
                assert(self@.shapes.edges.dom() =~= s0.edges.dom());
                assert(faces@ == fs.push(f));
                if let Some((x, CanvasShape::Face)) = h0 {
                    if fs.push(f).contains(x) {
                        let j = choose|j: int| 0 <= j < fs.push(f).len() && fs.push(f)[j] == x;
                        if j < fs.len() {
                            assert(fs[j] == x);
                        }
                    } else {
                        assert(fs.push(f)[fs.len() as int] == f);
                        if fs.contains(x) {
                            let j = choose|j: int| 0 <= j < fs.len() && fs[j] == x;
                            assert(fs.push(f)[j] == x);
                        }
                    }
                }
            }
            i = i + 1;
        }
        proof {
            assert(ks.subrange(0, ks.len() as int) == ks);
        }
        self.shapes.unregister_edge(edge_entity);
        self.clear_hover_on(edge_entity, CanvasShape::Edge);
        proof {
            match h0 {
                Some((x, CanvasShape::Face)) => {},
                Some((x, CanvasShape::Edge)) => {},
                _ => {},
            }
        }
        (edge_entity, faces)
    }
}

impl Default for IconManager {
    fn default() -> (m: Self)
        ensures
            !m@.meshing,
            m@.current_frame_index == 0,
            !m@.preview_playing,
            m@.hovered_entity is None,
            m@.selected_shape is None,
            m@.resync_frame_order == Set::<u64>::empty(),
            m@.file_frames == Map::<u64, FileFrameView>::empty(),
            m@.frames == Map::<u64, u64>::empty(),
            m.wf(),
            m@.shapes.vertices.is_empty(),
            m@.shapes.edges.is_empty(),
            m@.shapes.face_keys.is_empty(),
            m@.shapes.local_faces.is_empty(),
            m@.shapes.net_faces.is_empty(),
            m@.shapes.new_face_keys.len() == 0,
    {
        IconManager::new()
    }
}

} // verus!
