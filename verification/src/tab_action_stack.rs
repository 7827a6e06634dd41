use vstd::prelude::*;
use crate::action_stack::{tops_decided, Action, ActionStack, ActionStackView};
use crate::file_ext::FileExtension;

verus! {

/// The undo history of one open tab, of the kind of actions its file takes:
/// shape edits (skeletons and meshes), animation edits, palette edits or skin
/// edits.
pub enum TabActionStack<S, N, P, K> {
    Shape(ActionStack<S>),
    Animation(ActionStack<N>),
    Palette(ActionStack<P>),
    Skin(ActionStack<K>),
}

/// The file types that have an undo history.
pub open spec fn has_history(file_ext: FileExtension) -> bool {
    file_ext == FileExtension::Skel || file_ext == FileExtension::Mesh || file_ext == FileExtension::Anim
        || file_ext == FileExtension::Palette || file_ext == FileExtension::Skin
}

impl<S, N, P, K> TabActionStack<S, N, P, K> {
    /// The empty history for a file of type `file_ext`, which must be one
    /// that has an undo history.
    pub fn new(file_ext: FileExtension) -> (t: Self)
        requires
            has_history(file_ext),
        ensures
            match t {
                TabActionStack::Shape(s) => (file_ext == FileExtension::Skel || file_ext == FileExtension::Mesh)
                    && s@ == ActionStackView::<S>::initial(),
                TabActionStack::Animation(s) => file_ext == FileExtension::Anim && s@ == ActionStackView::<N>::initial(),
                TabActionStack::Palette(s) => file_ext == FileExtension::Palette && s@ == ActionStackView::<P>::initial(),
                TabActionStack::Skin(s) => file_ext == FileExtension::Skin && s@ == ActionStackView::<K>::initial(),
            },
    {
        match file_ext {
            FileExtension::Skel | FileExtension::Mesh => TabActionStack::Shape(ActionStack::new()),
            FileExtension::Anim => TabActionStack::Animation(ActionStack::new()),
            FileExtension::Palette => TabActionStack::Palette(ActionStack::new()),
            _ => TabActionStack::Skin(ActionStack::new()),
        }
    }

    pub open spec fn spec_has_undo(&self) -> bool {
        match self {
            TabActionStack::Shape(s) => s@.has_undo(),
            TabActionStack::Animation(s) => s@.has_undo(),
            TabActionStack::Palette(s) => s@.has_undo(),
            TabActionStack::Skin(s) => s@.has_undo(),
        }
    }

    pub open spec fn spec_has_redo(&self) -> bool {
        match self {
            TabActionStack::Shape(s) => s@.has_redo(),
            TabActionStack::Animation(s) => s@.has_redo(),
            TabActionStack::Palette(s) => s@.has_redo(),
            TabActionStack::Skin(s) => s@.has_redo(),
        }
    }

    pub fn has_undo(&self) -> (r: bool)
        ensures
            r == self.spec_has_undo(),
    {
        match self {
            TabActionStack::Shape(s) => s.has_undo(),
            TabActionStack::Animation(s) => s.has_undo(),
            TabActionStack::Palette(s) => s.has_undo(),
            TabActionStack::Skin(s) => s.has_undo(),
        }
    }

    pub fn has_redo(&self) -> (r: bool)
        ensures
            r == self.spec_has_redo(),
    {
        match self {
            TabActionStack::Shape(s) => s.has_redo(),
            TabActionStack::Animation(s) => s.has_redo(),
            TabActionStack::Palette(s) => s.has_redo(),
            TabActionStack::Skin(s) => s.has_redo(),
        }
    }
    /// Both histories are of the same kind, and the second is the first with
    /// its top undo action undone by the run and the check of that kind.
    pub open spec fn undone_by<FS, FN, FP, FK, GS, GN, GP, GK>(
        self,
        after: Self,
        execute: (FS, FN, FP, FK),
        top_enabled: (GS, GN, GP, GK),
    ) -> bool where
        FS: FnOnce(S) -> Vec<S>, FN: FnOnce(N) -> Vec<N>, FP: FnOnce(P) -> Vec<P>, FK: FnOnce(K) -> Vec<K>,
        GS: Fn(&S) -> bool, GN: Fn(&N) -> bool, GP: Fn(&P) -> bool, GK: Fn(&K) -> bool,
     {
        match (self, after) {
            (TabActionStack::Shape(a), TabActionStack::Shape(b)) => a@.undone_by(b@, execute.0, top_enabled.0),
            (TabActionStack::Animation(a), TabActionStack::Animation(b)) => a@.undone_by(b@, execute.1, top_enabled.1),
            (TabActionStack::Palette(a), TabActionStack::Palette(b)) => a@.undone_by(b@, execute.2, top_enabled.2),
            (TabActionStack::Skin(a), TabActionStack::Skin(b)) => a@.undone_by(b@, execute.3, top_enabled.3),
            _ => false,
        }
    }

    /// Both histories are of the same kind, and the second is the first with
    /// its top undone action redone by the run and the check of that kind.
    pub open spec fn redone_by<FS, FN, FP, FK, GS, GN, GP, GK>(
        self,
        after: Self,
        execute: (FS, FN, FP, FK),
        top_enabled: (GS, GN, GP, GK),
    ) -> bool where
        FS: FnOnce(S) -> Vec<S>, FN: FnOnce(N) -> Vec<N>, FP: FnOnce(P) -> Vec<P>, FK: FnOnce(K) -> Vec<K>,
        GS: Fn(&S) -> bool, GN: Fn(&N) -> bool, GP: Fn(&P) -> bool, GK: Fn(&K) -> bool,
     {
        match (self, after) {
            (TabActionStack::Shape(a), TabActionStack::Shape(b)) => a@.redone_by(b@, execute.0, top_enabled.0),
            (TabActionStack::Animation(a), TabActionStack::Animation(b)) => a@.redone_by(b@, execute.1, top_enabled.1),
            (TabActionStack::Palette(a), TabActionStack::Palette(b)) => a@.redone_by(b@, execute.2, top_enabled.2),
            (TabActionStack::Skin(a), TabActionStack::Skin(b)) => a@.redone_by(b@, execute.3, top_enabled.3),
            _ => false,
        }
    }

    /// Both histories are of the same kind, and the second is the first with
    /// the flags of its top actions decided again by the check of that kind.
    pub open spec fn top_rechecked_by<GS, GN, GP, GK>(self, after: Self, top_enabled: (GS, GN, GP, GK)) -> bool where
        GS: Fn(&S) -> bool, GN: Fn(&N) -> bool, GP: Fn(&P) -> bool, GK: Fn(&K) -> bool,
     {
        match (self, after) {
            (TabActionStack::Shape(a), TabActionStack::Shape(b)) => a@.top_rechecked(b@) && tops_decided(b@, top_enabled.0),
            (TabActionStack::Animation(a), TabActionStack::Animation(b)) => a@.top_rechecked(b@) && tops_decided(b@, top_enabled.1),
            (TabActionStack::Palette(a), TabActionStack::Palette(b)) => a@.top_rechecked(b@) && tops_decided(b@, top_enabled.2),
            (TabActionStack::Skin(a), TabActionStack::Skin(b)) => a@.top_rechecked(b@) && tops_decided(b@, top_enabled.3),
            _ => false,
        }
    }

    /// Whether every check may be asked about every action of its kind.
    pub open spec fn checks_callable<GS, GN, GP, GK>(top_enabled: (GS, GN, GP, GK)) -> bool where
        GS: Fn(&S) -> bool, GN: Fn(&N) -> bool, GP: Fn(&P) -> bool, GK: Fn(&K) -> bool,
     {
        &&& forall|a: S| call_requires(top_enabled.0, (&a,))
        &&& forall|a: N| call_requires(top_enabled.1, (&a,))
        &&& forall|a: P| call_requires(top_enabled.2, (&a,))
        &&& forall|a: K| call_requires(top_enabled.3, (&a,))
    }

    /// Undoes the top action of the tab's history: the run of its kind
    /// (`execute`, one per kind: shape, animation, palette, skin) executes
    /// it, and the check of its kind (`top_enabled`) decides the new flags.
    /// Undo must be possible.
    pub fn undo_action<FS, FN, FP, FK, GS, GN, GP, GK>(&mut self, execute: (FS, FN, FP, FK), top_enabled: &(GS, GN, GP, GK))
        where
            FS: FnOnce(S) -> Vec<S>, FN: FnOnce(N) -> Vec<N>, FP: FnOnce(P) -> Vec<P>, FK: FnOnce(K) -> Vec<K>,
            GS: Fn(&S) -> bool, GN: Fn(&N) -> bool, GP: Fn(&P) -> bool, GK: Fn(&K) -> bool,
        requires
            old(self).spec_has_undo(),
            Self::checks_callable(*top_enabled),
            match *old(self) {
                TabActionStack::Shape(a) => call_requires(execute.0, (a@.undo.last(),)),
                TabActionStack::Animation(a) => call_requires(execute.1, (a@.undo.last(),)),
                TabActionStack::Palette(a) => call_requires(execute.2, (a@.undo.last(),)),
                TabActionStack::Skin(a) => call_requires(execute.3, (a@.undo.last(),)),
            },
        ensures
            old(self).undone_by(*final(self), execute, *top_enabled),
    {
        let (fs, fnn, fp, fk) = execute;
        match self {
            TabActionStack::Shape(s) => s.undo_action(fs, &top_enabled.0),
            TabActionStack::Animation(s) => s.undo_action(fnn, &top_enabled.1),
            TabActionStack::Palette(s) => s.undo_action(fp, &top_enabled.2),
            TabActionStack::Skin(s) => s.undo_action(fk, &top_enabled.3),
        }
    }

    /// Redoes the top undone action of the tab's history, run and checked as
    /// for `undo_action`. Redo must be possible.
    pub fn redo_action<FS, FN, FP, FK, GS, GN, GP, GK>(&mut self, execute: (FS, FN, FP, FK), top_enabled: &(GS, GN, GP, GK))
        where
            FS: FnOnce(S) -> Vec<S>, FN: FnOnce(N) -> Vec<N>, FP: FnOnce(P) -> Vec<P>, FK: FnOnce(K) -> Vec<K>,
            GS: Fn(&S) -> bool, GN: Fn(&N) -> bool, GP: Fn(&P) -> bool, GK: Fn(&K) -> bool,
        requires
            old(self).spec_has_redo(),
            Self::checks_callable(*top_enabled),
            match *old(self) {
                TabActionStack::Shape(a) => call_requires(execute.0, (a@.redo.last(),)),
                TabActionStack::Animation(a) => call_requires(execute.1, (a@.redo.last(),)),
                TabActionStack::Palette(a) => call_requires(execute.2, (a@.redo.last(),)),
                TabActionStack::Skin(a) => call_requires(execute.3, (a@.redo.last(),)),
            },
        ensures
            old(self).redone_by(*final(self), execute, *top_enabled),
    {
        let (fs, fnn, fp, fk) = execute;
        match self {
            TabActionStack::Shape(s) => s.redo_action(fs, &top_enabled.0),
            TabActionStack::Animation(s) => s.redo_action(fnn, &top_enabled.1),
            TabActionStack::Palette(s) => s.redo_action(fp, &top_enabled.2),
            TabActionStack::Skin(s) => s.redo_action(fk, &top_enabled.3),
        }
    }

    /// Decides again, with the check of the history's kind, whether the top
    /// undo and redo actions may be used.
    pub fn check_top<GS, GN, GP, GK>(&mut self, top_enabled: &(GS, GN, GP, GK))
        where
            GS: Fn(&S) -> bool, GN: Fn(&N) -> bool, GP: Fn(&P) -> bool, GK: Fn(&K) -> bool,
        requires
            Self::checks_callable(*top_enabled),
        ensures
            old(self).top_rechecked_by(*final(self), *top_enabled),
    {
        match self {
            TabActionStack::Shape(s) => s.check_top(&top_enabled.0),
            TabActionStack::Animation(s) => s.check_top(&top_enabled.1),
            TabActionStack::Palette(s) => s.check_top(&top_enabled.2),
            TabActionStack::Skin(s) => s.check_top(&top_enabled.3),
        }
    }

    /// Executes a new shape action in a skeleton or mesh tab: `execute` runs
    /// it and `top_enabled` decides the new flags.
    pub fn execute_shape_action<F: FnOnce(S) -> Vec<S>, G: Fn(&S) -> bool>(&mut self, execute: F, action: S, top_enabled: &G)
        requires
            *old(self) is Shape,
            call_requires(execute, (action,)),
            forall|a: S| call_requires(*top_enabled, (&a,)),
        ensures
            match (*old(self), *final(self)) {
                (TabActionStack::Shape(a), TabActionStack::Shape(b)) => a@.executed_by(b@, action, execute, *top_enabled),
                _ => false,
            },
    {
        match self {
            TabActionStack::Shape(s) => s.execute_action(execute, action, top_enabled),
            _ => {},
        }
    }

    /// Executes a new animation action in an animation tab: `execute` runs it
    /// and `top_enabled` decides the new flags.
    pub fn execute_anim_action<F: FnOnce(N) -> Vec<N>, G: Fn(&N) -> bool>(&mut self, execute: F, action: N, top_enabled: &G)
        requires
            *old(self) is Animation,
            call_requires(execute, (action,)),
            forall|a: N| call_requires(*top_enabled, (&a,)),
        ensures
            match (*old(self), *final(self)) {
                (TabActionStack::Animation(a), TabActionStack::Animation(b)) => a@.executed_by(b@, action, execute, *top_enabled),
                _ => false,
            },
    {
        match self {
            TabActionStack::Animation(s) => s.execute_action(execute, action, top_enabled),
            _ => {},
        }
    }

    /// Executes a new palette action in a palette tab: `execute` runs it and
    /// `top_enabled` decides the new flags.
    pub fn execute_palette_action<F: FnOnce(P) -> Vec<P>, G: Fn(&P) -> bool>(&mut self, execute: F, action: P, top_enabled: &G)
        requires
            *old(self) is Palette,
            call_requires(execute, (action,)),
            forall|a: P| call_requires(*top_enabled, (&a,)),
        ensures
            match (*old(self), *final(self)) {
                (TabActionStack::Palette(a), TabActionStack::Palette(b)) => a@.executed_by(b@, action, execute, *top_enabled),
                _ => false,
            },
    {
        match self {
            TabActionStack::Palette(s) => s.execute_action(execute, action, top_enabled),
            _ => {},
        }
    }
}

impl<S: Action, N: Action, P: Action, K: Action> TabActionStack<S, N, P, K> {
    /// Forwards an authority change of `entity` to the tab's history, which
    /// asks for a re-check when one of its top actions depends on it.
    pub fn entity_update_auth_status(&mut self, entity: u64)
        ensures
            match (*old(self), *final(self)) {
                (TabActionStack::Shape(a), TabActionStack::Shape(b)) => b@ == (ActionStackView {
                    buffered_check: a@.buffered_check || (a@.undo.len() > 0 && a@.undo.last().spec_watches_entity(entity))
                        || (a@.redo.len() > 0 && a@.redo.last().spec_watches_entity(entity)),
                    ..a@
                }),
                (TabActionStack::Animation(a), TabActionStack::Animation(b)) => b@ == (ActionStackView {
                    buffered_check: a@.buffered_check || (a@.undo.len() > 0 && a@.undo.last().spec_watches_entity(entity))
                        || (a@.redo.len() > 0 && a@.redo.last().spec_watches_entity(entity)),
                    ..a@
                }),
                (TabActionStack::Palette(a), TabActionStack::Palette(b)) => b@ == (ActionStackView {
                    buffered_check: a@.buffered_check || (a@.undo.len() > 0 && a@.undo.last().spec_watches_entity(entity))
                        || (a@.redo.len() > 0 && a@.redo.last().spec_watches_entity(entity)),
                    ..a@
                }),
                (TabActionStack::Skin(a), TabActionStack::Skin(b)) => b@ == (ActionStackView {
                    buffered_check: a@.buffered_check || (a@.undo.len() > 0 && a@.undo.last().spec_watches_entity(entity))
                        || (a@.redo.len() > 0 && a@.redo.last().spec_watches_entity(entity)),
                    ..a@
                }),
                _ => false,
            },
    {
        match self {
            TabActionStack::Shape(s) => s.entity_update_auth_status(entity),
            TabActionStack::Animation(s) => s.entity_update_auth_status(entity),
            TabActionStack::Palette(s) => s.entity_update_auth_status(entity),
            TabActionStack::Skin(s) => s.entity_update_auth_status(entity),
        }
    }
}

} // verus!
