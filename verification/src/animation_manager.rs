use vstd::prelude::*;
use std::collections::HashMap;
use crate::auth::{may_mutate, AuthStatus};
use crate::drag::{drag_step, LastDragged};

verus! {

broadcast use vstd::std_specs::hash::group_hash_axioms;

/// The frame of `file` with order `order` in a frame list (the last entry
/// for it counts).
pub open spec fn frame_lookup(frames: Seq<(u64, u8, u64)>, file: u64, order: u8) -> Option<u64>
    decreases frames.len(),
{
    if frames.len() == 0 {
        None
    } else if frames.last().0 == file && frames.last().1 == order {
        Some(frames.last().2)
    } else {
        frame_lookup(frames.drop_last(), file, order)
    }
}

/// The frame list without the entries of `file` with order `order`.
pub open spec fn frames_without(frames: Seq<(u64, u8, u64)>, file: u64, order: u8) -> Seq<(u64, u8, u64)>
    decreases frames.len(),
{
    if frames.len() == 0 {
        Seq::empty()
    } else {
        let rest = frames_without(frames.drop_last(), file, order);
        if frames.last().0 == file && frames.last().1 == order {
            rest
        } else {
            rest.push(frames.last())
        }
    }
}

proof fn lemma_frames_without(frames: Seq<(u64, u8, u64)>, file: u64, order: u8, f: u64, o: u8)
    ensures
        frame_lookup(frames_without(frames, file, order), f, o) == if f == file && o == order {
            None
        } else {
            frame_lookup(frames, f, o)
        },
    decreases frames.len(),
{
    if frames.len() > 0 {
        lemma_frames_without(frames.drop_last(), file, order, f, o);
        let rest = frames_without(frames.drop_last(), file, order);
        assert(rest.push(frames.last()).drop_last() == rest);
    }
}

/// The rotation of the vertex named `name` in `frame` (the last entry for
/// it counts).
pub open spec fn name_lookup(names: Seq<(u64, String, u64)>, frame: u64, name: Seq<char>) -> Option<u64>
    decreases names.len(),
{
    if names.len() == 0 {
        None
    } else if names.last().0 == frame && names.last().1@ == name {
        Some(names.last().2)
    } else {
        name_lookup(names.drop_last(), frame, name)
    }
}

pub open spec fn names_without(names: Seq<(u64, String, u64)>, frame: u64, name: Seq<char>) -> Seq<(u64, String, u64)>
    decreases names.len(),
{
    if names.len() == 0 {
        Seq::empty()
    } else {
        let rest = names_without(names.drop_last(), frame, name);
        if names.last().0 == frame && names.last().1@ == name {
            rest
        } else {
            rest.push(names.last())
        }
    }
}

proof fn lemma_names_without(names: Seq<(u64, String, u64)>, frame: u64, name: Seq<char>, f: u64, n: Seq<char>)
    ensures
        name_lookup(names_without(names, frame, name), f, n) == if f == frame && n == name {
            None
        } else {
            name_lookup(names, f, n)
        },
    decreases names.len(),
{
    if names.len() > 0 {
        lemma_names_without(names.drop_last(), frame, name, f, n);
        let rest = names_without(names.drop_last(), frame, name);
        assert(rest.push(names.last()).drop_last() == rest);
    }
}

/// What a drag of a skeleton vertex in an animation file does.
#[derive(Clone, Copy, PartialEq, Eq, Structural, Debug)]
pub enum DragRotation {
    /// Nothing: there is no current frame, the vertex has no name, or this
    /// client neither asked for nor holds the authority over the vertex's
    /// rotation in the current frame.
    Skip,
    /// Rotate the vertex in `frame`: through its rotation there, where it has
    /// one, otherwise through a new one.
    Rotate { frame: u64, rotation: Option<u64> },
}

/// The text of a name, if there is one.
pub open spec fn name_view(name: Option<&String>) -> Option<Seq<char>> {
    match name {
        Some(s) => Some(s@),
        None => None,
    }
}

/// The decision a drag starts with, given the vertex's name and this
/// client's authority over each rotation entity.
pub open spec fn drag_decision<Q>(m: AnimationManagerView<Q>, shape_name: Option<Seq<char>>, auth: Map<u64, AuthStatus>) -> DragRotation {
    match (m.current_frame, shape_name) {
        (Some(frame), Some(name)) => match (m.vertex_names)(frame, name) {
            Some(rotation) => if auth[rotation] == AuthStatus::Requested || auth[rotation] == AuthStatus::Granted {
                DragRotation::Rotate { frame, rotation: Some(rotation) }
            } else {
                DragRotation::Skip
            },
            None => DragRotation::Rotate { frame, rotation: None },
        },
        _ => DragRotation::Skip,
    }
}

/// The poses of animation files: each file's frames by their order, the
/// rotation of each named vertex in each frame, and the current frame. `Q`
/// is a rotation.
pub struct AnimationManager<Q> {
    pub current_skel_file: Option<u64>,
    current_frame: Option<u64>,
    frames: Vec<(u64, u8, u64)>,
    rotations: HashMap<u64, (u64, String)>,
    vertex_names: Vec<(u64, String, u64)>,
    last_rotation_dragged: LastDragged<Option<Q>, Q>,
}

pub struct AnimationManagerView<Q> {
    pub current_skel_file: Option<u64>,
    pub current_frame: Option<u64>,
    /// (file, order) -> frame
    pub frames: spec_fn(u64, u8) -> Option<u64>,
    /// rotation entity -> (frame, vertex name)
    pub rotations: Map<u64, (u64, Seq<char>)>,
    /// (frame, vertex name) -> rotation entity
    pub vertex_names: spec_fn(u64, Seq<char>) -> Option<u64>,
    pub last_rotation_dragged: Option<(u64, Option<Q>, Q)>,
}

impl<Q> View for AnimationManager<Q> {
    type V = AnimationManagerView<Q>;

    closed spec fn view(&self) -> AnimationManagerView<Q> {
        AnimationManagerView {
            current_skel_file: self.current_skel_file,
            current_frame: self.current_frame,
            frames: |f: u64, o: u8| frame_lookup(self.frames@, f, o),
            rotations: self.rotations@.map_values(|r: (u64, String)| (r.0, r.1@)),
            vertex_names: |f: u64, n: Seq<char>| name_lookup(self.vertex_names@, f, n),
            last_rotation_dragged: self.last_rotation_dragged.last,
        }
    }
}

impl<Q> AnimationManager<Q> {
    pub fn new() -> (m: Self)
        ensures
            m@.current_skel_file is None,
            m@.current_frame is None,
            forall|f: u64, o: u8| #[trigger] (m@.frames)(f, o) is None,
            m@.rotations == Map::<u64, (u64, Seq<char>)>::empty(),
            forall|f: u64, n: Seq<char>| #[trigger] (m@.vertex_names)(f, n) is None,
            m@.last_rotation_dragged is None,
    {
        let m = AnimationManager {
            current_skel_file: None,
            current_frame: None,
            frames: Vec::new(),
            rotations: HashMap::new(),
            vertex_names: Vec::new(),
            last_rotation_dragged: LastDragged::new(),
        };
        assert(m@.rotations =~= Map::<u64, (u64, Seq<char>)>::empty());
        m
    }

    pub fn current_frame(&self) -> (r: Option<u64>)
        ensures
            r == self@.current_frame,
    {
        self.current_frame
    }

    /// Records `frame_entity` as the frame of `file_entity` with order
    /// `order`; it becomes the current frame if there is none.
    pub fn register_frame(&mut self, file_entity: u64, frame_entity: u64, order: u8)
        ensures
            forall|f: u64, o: u8| #[trigger] (final(self)@.frames)(f, o) == if f == file_entity && o == order {
                Some(frame_entity)
            } else {
                (old(self)@.frames)(f, o)
            },
            final(self)@.current_frame == if old(self)@.current_frame is None {
                Some(frame_entity)
            } else {
                old(self)@.current_frame
            },
            final(self)@.rotations == old(self)@.rotations,
            final(self)@.vertex_names == old(self)@.vertex_names,
            final(self)@.current_skel_file == old(self)@.current_skel_file,
            final(self)@.last_rotation_dragged == old(self)@.last_rotation_dragged,
    {
        let ghost before = self.frames@;
        self.frames.push((file_entity, order, frame_entity));
        proof {
            assert(self.frames@.drop_last() == before);
        }
        if self.current_frame.is_none() {
            self.current_frame = Some(frame_entity);
        }
        assert(self@.vertex_names =~= old(self)@.vertex_names);
    }

    /// Forgets the frame of `file_entity` with order `order`; the current
    /// frame is cleared if it was `frame_entity`.
    pub fn deregister_frame(&mut self, file_entity: u64, frame_entity: u64, order: u8)
        ensures
            forall|f: u64, o: u8| #[trigger] (final(self)@.frames)(f, o) == if f == file_entity && o == order {
                None
            } else {
                (old(self)@.frames)(f, o)
            },
            final(self)@.current_frame == if old(self)@.current_frame == Some(frame_entity) {
                None
            } else {
                old(self)@.current_frame
            },
            final(self)@.rotations == old(self)@.rotations,
            final(self)@.vertex_names == old(self)@.vertex_names,
            final(self)@.current_skel_file == old(self)@.current_skel_file,
            final(self)@.last_rotation_dragged == old(self)@.last_rotation_dragged,
    {
        let ghost before = self.frames@;
        let mut kept: Vec<(u64, u8, u64)> = Vec::new();
        let mut i: usize = 0;
        while i < self.frames.len()
            invariant
                i <= self.frames@.len(),
                self.frames@ == before,
                kept@ == frames_without(before.subrange(0, i as int), file_entity, order),
            decreases self.frames@.len() - i,
        {
            let t = self.frames[i];
            proof {
                assert(before.subrange(0, i + 1).drop_last() == before.subrange(0, i as int));
            }
            if !(t.0 == file_entity && t.1 == order) {
                kept.push(t);
            }
            i = i + 1;
        }
        assert(before.subrange(0, before.len() as int) == before);
        self.frames = kept;
        proof {
            assert forall|f: u64, o: u8| #[trigger] frame_lookup(self.frames@, f, o) == if f == file_entity && o == order {
                None
            } else {
                frame_lookup(before, f, o)
            } by {
                lemma_frames_without(before, file_entity, order, f, o);
            }
        }
        if let Some(current) = self.current_frame {
            if current == frame_entity {
                self.current_frame = None;
            }
        }
        assert(self@.vertex_names =~= old(self)@.vertex_names);
    }

    /// Records `rotation_entity` as the rotation of the vertex named
    /// `vertex_name` in `frame_entity`.
    pub fn register_rotation(&mut self, frame_entity: u64, rotation_entity: u64, vertex_name: String)
        ensures
            final(self)@.rotations == old(self)@.rotations.insert(rotation_entity, (frame_entity, vertex_name@)),
            forall|f: u64, n: Seq<char>| #[trigger] (final(self)@.vertex_names)(f, n) == if f == frame_entity && n == vertex_name@ {
                Some(rotation_entity)
            } else {
                (old(self)@.vertex_names)(f, n)
            },
            final(self)@.frames == old(self)@.frames,
            final(self)@.current_frame == old(self)@.current_frame,
            final(self)@.current_skel_file == old(self)@.current_skel_file,
            final(self)@.last_rotation_dragged == old(self)@.last_rotation_dragged,
    {
        let ghost name = vertex_name@;
        let name_copy = vertex_name.clone();
        self.rotations.insert(rotation_entity, (frame_entity, name_copy));
        let ghost before = self.vertex_names@;
        self.vertex_names.push((frame_entity, vertex_name, rotation_entity));
        proof {
            assert(self.vertex_names@.drop_last() == before);
        }
        assert(self@.rotations =~= old(self)@.rotations.insert(rotation_entity, (frame_entity, name)));
        assert(self@.frames =~= old(self)@.frames);
    }

    /// Forgets a registered rotation.
    pub fn deregister_rotation(&mut self, rotation_entity: u64)
        requires
            old(self)@.rotations.contains_key(rotation_entity),
        ensures
            ({
                let (frame, name) = old(self)@.rotations[rotation_entity];
                &&& final(self)@.rotations == old(self)@.rotations.remove(rotation_entity)
                &&& forall|f: u64, n: Seq<char>| #[trigger] (final(self)@.vertex_names)(f, n) == if f == frame && n == name {
                    None
                } else {
                    (old(self)@.vertex_names)(f, n)
                }
            }),
            final(self)@.frames == old(self)@.frames,
            final(self)@.current_frame == old(self)@.current_frame,
            final(self)@.current_skel_file == old(self)@.current_skel_file,
            final(self)@.last_rotation_dragged == old(self)@.last_rotation_dragged,
    {
        let ghost old_rotations = self@.rotations;
        let (frame_entity, vertex_name) = self.rotations.remove(&rotation_entity).unwrap();
        let ghost before = self.vertex_names@;
        let mut kept: Vec<(u64, String, u64)> = Vec::new();
        let mut rest: Vec<(u64, String, u64)> = Vec::new();
        std::mem::swap(&mut rest, &mut self.vertex_names);
        let mut i: usize = 0;
        let n = rest.len();
        while rest.len() > 0
            invariant
                i + rest@.len() == n,
                n == before.len(),
                rest@ == before.subrange(i as int, n as int),
                kept@ == names_without(before.subrange(0, i as int), frame_entity, vertex_name@),
            decreases rest@.len(),
        {
            let t = rest.remove(0);
            proof {
                assert(before.subrange(0, i + 1).drop_last() == before.subrange(0, i as int));
                assert(t == before[i as int]);
            }
            if !(t.0 == frame_entity && t.1 == vertex_name) {
                kept.push(t);
            }
            i = i + 1;
        }
        assert(before.subrange(0, n as int) == before);
        self.vertex_names = kept;
        proof {
            assert forall|f: u64, nm: Seq<char>| #[trigger] name_lookup(self.vertex_names@, f, nm) == if f == frame_entity && nm == vertex_name@ {
                None
            } else {
                name_lookup(before, f, nm)
            } by {
                lemma_names_without(before, frame_entity, vertex_name@, f, nm);
            }
            assert(self@.rotations =~= old_rotations.remove(rotation_entity));
            assert(self@.frames =~= old(self)@.frames);
        }
    }

    /// The rotation of the vertex named `vertex_name` in the current frame.
    pub fn get_current_rotation(&self, vertex_name: &String) -> (r: Option<u64>)
        ensures
            r == match self@.current_frame {
                Some(f) => (self@.vertex_names)(f, vertex_name@),
                None => None,
            },
    {
        let frame = match self.current_frame {
            Some(f) => f,
            None => return None,
        };
        let mut i = self.vertex_names.len();
        assert(self.vertex_names@.subrange(0, i as int) == self.vertex_names@);
        while i > 0
            invariant
                i <= self.vertex_names@.len(),
                self@.current_frame == Some(frame),
                name_lookup(self.vertex_names@, frame, vertex_name@) == name_lookup(self.vertex_names@.subrange(0, i as int), frame, vertex_name@),
            decreases i,
        {
            proof {
                assert(self.vertex_names@.subrange(0, i as int).drop_last() == self.vertex_names@.subrange(0, i - 1));
            }
            let t = &self.vertex_names[i - 1];
            assert(self.vertex_names@.subrange(0, i as int).last() == *t);
            if t.0 == frame && t.1 == *vertex_name {
                return Some(t.2);
            }
            i = i - 1;
        }
        None
    }

    /// How a drag of the vertex named `shape_name` (if it has a name) starts;
    /// `auth` holds this client's authority over the rotation entities (the
    /// vertex's rotation in the current frame must be among them).
    pub fn drag_vertex_decision(&self, shape_name: Option<&String>, auth: &HashMap<u64, AuthStatus>) -> (d: DragRotation)
        requires
            match (self@.current_frame, name_view(shape_name)) {
                (Some(f), Some(n)) => match (self@.vertex_names)(f, n) {
                    Some(r) => auth@.contains_key(r),
                    None => true,
                },
                _ => true,
            },
        ensures
            d == drag_decision(self@, name_view(shape_name), auth@),
    {
        let frame = match self.current_frame {
            Some(f) => f,
            None => return DragRotation::Skip,
        };
        let name = match shape_name {
            Some(n) => n,
            None => return DragRotation::Skip,
        };
        match self.get_current_rotation(name) {
            Some(rotation) => {
                let status = match auth.get(&rotation) {
                    Some(st) => *st,
                    None => return DragRotation::Skip,
                };
                if may_mutate(status) {
                    DragRotation::Rotate { frame, rotation: Some(rotation) }
                } else {
                    DragRotation::Skip
                }
            },
            None => DragRotation::Rotate { frame, rotation: None },
        }
    }

    pub fn reset_last_rotation_dragged(&mut self)
        ensures
            final(self)@.last_rotation_dragged is None,
            final(self)@.frames == old(self)@.frames,
            final(self)@.rotations == old(self)@.rotations,
            final(self)@.vertex_names == old(self)@.vertex_names,
            final(self)@.current_frame == old(self)@.current_frame,
    {
        self.last_rotation_dragged.reset();
        assert(self@.vertex_names =~= old(self)@.vertex_names);
        assert(self@.frames =~= old(self)@.frames);
    }

    /// Records a rotation drag step of a 2d vertex; the rotation from before
    /// the drag began is kept.
    pub fn update_last_rotation_dragged(&mut self, vertex_2d_entity: u64, old_rotation: Option<Q>, new_rotation: Q)
        ensures
            final(self)@.last_rotation_dragged == drag_step(old(self)@.last_rotation_dragged, vertex_2d_entity, old_rotation, new_rotation),
            final(self)@.frames == old(self)@.frames,
            final(self)@.rotations == old(self)@.rotations,
            final(self)@.vertex_names == old(self)@.vertex_names,
            final(self)@.current_frame == old(self)@.current_frame,
    {
        self.last_rotation_dragged.update(vertex_2d_entity, old_rotation, new_rotation);
        assert(self@.vertex_names =~= old(self)@.vertex_names);
        assert(self@.frames =~= old(self)@.frames);
    }

    /// Takes the finished rotation drag, if any.
    pub fn take_last_rotation_dragged(&mut self) -> (r: Option<(u64, Option<Q>, Q)>)
        ensures
            r == old(self)@.last_rotation_dragged,
            final(self)@.last_rotation_dragged is None,
            final(self)@.frames == old(self)@.frames,
            final(self)@.rotations == old(self)@.rotations,
            final(self)@.vertex_names == old(self)@.vertex_names,
            final(self)@.current_frame == old(self)@.current_frame,
    {
        let r = self.last_rotation_dragged.take();
        assert(self@.vertex_names =~= old(self)@.vertex_names);
        assert(self@.frames =~= old(self)@.frames);
        r
    }
}

impl<Q> Default for AnimationManager<Q> {
    fn default() -> (m: Self)
        ensures
            m@.current_skel_file is None,
            m@.current_frame is None,
            forall|f: u64, o: u8| #[trigger] (m@.frames)(f, o) is None,
            m@.rotations == Map::<u64, (u64, Seq<char>)>::empty(),
            forall|f: u64, n: Seq<char>| #[trigger] (m@.vertex_names)(f, n) is None,
            m@.last_rotation_dragged is None,
    {
        AnimationManager::new()
    }
}

} // verus!
