use vstd::prelude::*;
use crate::icon_manager::{frame_list_of, FileFrameView, IconManager, IconManagerView};

verus! {

/// The frames of `file` among `all` (each a frame with its file and its
/// order), in the order given, each with its order.
pub open spec fn frames_of_file(all: Seq<(u64, u64, u8)>, file: u64) -> Seq<(u64, u8)>
    decreases all.len(),
{
    if all.len() == 0 {
        Seq::empty()
    } else {
        let prev = frames_of_file(all.drop_last(), file);
        let (frame, frame_file, order) = all.last();
        if frame_file == file {
            prev.push((frame, order))
        } else {
            prev
        }
    }
}

/// The frame layouts once those of the files `files` were laid out again from
/// all the frames `all`.
pub open spec fn relaid(file_frames: Map<u64, FileFrameView>, files: Set<u64>, all: Seq<(u64, u64, u8)>) -> Map<u64, FileFrameView> {
    Map::new(
        |f: u64| file_frames.contains_key(f),
        |f: u64| if files.contains(f) {
            FileFrameView { frame_list: frame_list_of(frames_of_file(all, f)), ..file_frames[f] }
        } else {
            file_frames[f]
        },
    )
}

fn collect_frames_of_file(all: &Vec<(u64, u64, u8)>, file: u64) -> (r: Vec<(u64, u8)>)
    ensures
        r@ == frames_of_file(all@, file),
{
    let mut r: Vec<(u64, u8)> = Vec::new();
    let mut i: usize = 0;
    while i < all.len()
        invariant
            i <= all@.len(),
            r@ == frames_of_file(all@.subrange(0, i as int), file),
        decreases all@.len() - i,
    {
        let (frame, frame_file, order) = all[i];
        proof {
            assert(all@.subrange(0, i + 1).drop_last() == all@.subrange(0, i as int));
        }
        if frame_file == file {
            r.push((frame, order));
        }
        i = i + 1;
    }
    assert(all@.subrange(0, all@.len() as int) == all@);
    r
}

impl IconManager {
    /// Lays out again the frames of every file queued for it, from all the
    /// frames known (each with its file and its order); the queue is emptied.
    pub fn framing_resync_frame_order(&mut self, all_frames: &Vec<(u64, u64, u8)>)
        ensures
            final(self).wf() == old(self).wf(),
            final(self)@ == (IconManagerView {
                resync_frame_order: Set::empty(),
                file_frames: relaid(old(self)@.file_frames, old(self)@.resync_frame_order, all_frames@),
                ..old(self)@
            }),
    {
        let ghost s0 = self@;
        let files = self.take_resync_frame_order();
        proof {
            files.lemma_elements();
            assert(relaid(s0.file_frames, files.elements().subrange(0, 0).to_set(), all_frames@) =~= s0.file_frames);
        }
        let mut i: usize = 0;
        while i < files.len()
            invariant
                i <= files.elements().len(),
                files.elements().to_set() == s0.resync_frame_order,
                self.wf() == old(self).wf(),
                self@ == (IconManagerView {
                    resync_frame_order: Set::empty(),
                    file_frames: relaid(s0.file_frames, files.elements().subrange(0, i as int).to_set(), all_frames@),
                    ..s0
                }),
            decreases files.elements().len() - i,
        {
            let f = files.get(i);
            let frames = collect_frames_of_file(all_frames, f);
            self.framing_recalc_order(f, &frames);
            proof {
                let done_before = files.elements().subrange(0, i as int).to_set();
                let done_after = files.elements().subrange(0, i + 1).to_set();
                assert(files.elements().subrange(0, i + 1) == files.elements().subrange(0, i as int).push(f));
                assert forall|x: u64| done_after.contains(x) <==> #[trigger] done_before.insert(f).contains(x) by {
                    let pre = files.elements().subrange(0, i as int);
                    if done_before.contains(x) {
                        let j = choose|j: int| 0 <= j < pre.len() && pre[j] == x;
                        assert(pre.push(f)[j] == x);
                    }
                    if x == f {
                        assert(pre.push(f)[i as int] == x);
                    }
                    if done_after.contains(x) && x != f {
                        let j = choose|j: int| 0 <= j < pre.push(f).len() && pre.push(f)[j] == x;
                        assert(pre[j] == x);
                    }
                }
                assert(done_after =~= done_before.insert(f));
                assert(self@.file_frames =~= relaid(s0.file_frames, done_after, all_frames@));
            }
            i = i + 1;
        }
        proof {
            assert(files.elements().subrange(0, files.elements().len() as int) == files.elements());
        }
    }
}

} // verus!
