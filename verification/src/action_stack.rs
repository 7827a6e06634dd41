use vstd::prelude::*;

use crate::shape_action::{accepts_all, each_migrated, migrate_all, payload_step, Migration, ShapeAction};

verus! {

/// An editor action that can watch the authority of an entity: when the
/// authority status of that entity changes while the action is on top of the
/// undo or redo stack, the stack has to re-check whether it may be used.
pub trait Action: Sized {
    /// Whether this action's availability depends on `entity`'s authority.
    spec fn spec_watches_entity(&self, entity: u64) -> bool;

    fn watches_entity(&self, entity: u64) -> (r: bool)
        ensures
            r == self.spec_watches_entity(entity),
    ;
}

/// The abstract state of an action stack.
pub struct ActionStackView<A> {
    pub buffered: Seq<A>,
    pub undo: Seq<A>,
    pub redo: Seq<A>,
    pub undo_enabled: bool,
    pub redo_enabled: bool,
    pub buffered_check: bool,
}

impl<A> ActionStackView<A> {
    pub open spec fn initial() -> Self {
        ActionStackView {
            buffered: Seq::empty(),
            undo: Seq::empty(),
            redo: Seq::empty(),
            undo_enabled: true,
            redo_enabled: true,
            buffered_check: false,
        }
    }

    pub open spec fn has_undo(self) -> bool {
        self.undo.len() > 0 && self.undo_enabled
    }

    pub open spec fn has_redo(self) -> bool {
        self.redo.len() > 0 && self.redo_enabled
    }

    /// The state after the top undo action was taken off the stack.
    pub open spec fn undo_popped(self) -> Self {
        ActionStackView { undo: self.undo.drop_last(), ..self }
    }

    /// The state after the top redo action was taken off the stack.
    pub open spec fn redo_popped(self) -> Self {
        ActionStackView { redo: self.redo.drop_last(), ..self }
    }

    /// The state after an undone action was executed and gave back `reversed`.
    pub open spec fn undo_executed(self, reversed: Seq<A>) -> Self {
        ActionStackView { redo: self.redo + reversed, ..self }
    }

    /// The state after a redone action was executed and gave back `reversed`.
    pub open spec fn redo_executed(self, reversed: Seq<A>) -> Self {
        ActionStackView { undo: self.undo + reversed, ..self }
    }

    /// The state after a new action was executed and gave back `reversed`.
    pub open spec fn action_executed(self, reversed: Seq<A>) -> Self {
        ActionStackView { undo: self.undo + reversed, redo: Seq::empty(), ..self }
    }

    /// `after` differs from this state at most in the two flags, which were
    /// decided again from the top actions: with no action on top, the flag
    /// is set.
    pub open spec fn top_rechecked(self, after: Self) -> bool {
        &&& after == (ActionStackView { undo_enabled: after.undo_enabled, redo_enabled: after.redo_enabled, ..self })
        &&& self.undo.len() == 0 ==> after.undo_enabled
        &&& self.redo.len() == 0 ==> after.redo_enabled
    }

    /// `after` is this state once its top undo action was run by `execute`,
    /// the actions that run gave back were put on the redo stack, and the
    /// flags were decided by `top_enabled` from the new top actions.
    pub open spec fn undone_by<F: FnOnce(A) -> Vec<A>, G: Fn(&A) -> bool>(self, after: Self, execute: F, top_enabled: G) -> bool {
        &&& exists|reversed: Vec<A>| #[trigger] call_ensures(execute, (self.undo.last(),), reversed)
            && self.undo_popped().undo_executed(reversed@).top_rechecked(after)
        &&& tops_decided(after, top_enabled)
    }

    /// `after` is this state once its top redo action was run by `execute`,
    /// the actions that run gave back were put on the undo stack, and the
    /// flags were decided by `top_enabled` from the new top actions.
    pub open spec fn redone_by<F: FnOnce(A) -> Vec<A>, G: Fn(&A) -> bool>(self, after: Self, execute: F, top_enabled: G) -> bool {
        &&& exists|reversed: Vec<A>| #[trigger] call_ensures(execute, (self.redo.last(),), reversed)
            && self.redo_popped().redo_executed(reversed@).top_rechecked(after)
        &&& tops_decided(after, top_enabled)
    }

    /// `after` is this state once `action` was run by `execute`, the actions
    /// that run gave back were put on the undo stack, the redo stack was
    /// dropped, and the flags were decided by `top_enabled` from the new top
    /// actions.
    pub open spec fn executed_by<F: FnOnce(A) -> Vec<A>, G: Fn(&A) -> bool>(
        self,
        after: Self,
        action: A,
        execute: F,
        top_enabled: G,
    ) -> bool {
        &&& exists|reversed: Vec<A>| #[trigger] call_ensures(execute, (action,), reversed)
            && self.action_executed(reversed@).top_rechecked(after)
        &&& tops_decided(after, top_enabled)
    }
}

/// The undo/redo history of one editor tab.
pub struct ActionStack<A> {
    buffered_actions: Vec<A>,
    undo_actions: Vec<A>,
    redo_actions: Vec<A>,
    undo_enabled: bool,
    redo_enabled: bool,
    buffered_check: bool,
}

impl<A> View for ActionStack<A> {
    type V = ActionStackView<A>;

    closed spec fn view(&self) -> ActionStackView<A> {
        ActionStackView {
            buffered: self.buffered_actions@,
            undo: self.undo_actions@,
            redo: self.redo_actions@,
            undo_enabled: self.undo_enabled,
            redo_enabled: self.redo_enabled,
            buffered_check: self.buffered_check,
        }
    }
}

impl<A> Default for ActionStack<A> {
    fn default() -> (s: Self)
        ensures
            s@ == ActionStackView::<A>::initial(),
    {
        ActionStack::new()
    }
}

impl<A> ActionStack<A> {
    /// An empty history in which undo and redo are enabled.
    pub fn new() -> (s: Self)
        ensures
            s@ == ActionStackView::<A>::initial(),
    {
        ActionStack {
            buffered_actions: Vec::new(),
            undo_actions: Vec::new(),
            redo_actions: Vec::new(),
            undo_enabled: true,
            redo_enabled: true,
            buffered_check: false,
        }
    }

    /// Queues an action to be executed on the next run of the buffered actions.
    pub fn buffer_action(&mut self, action: A)
        ensures
            final(self)@ == (ActionStackView { buffered: old(self)@.buffered.push(action), ..old(self)@ }),
    {
        self.buffered_actions.push(action);
    }

    pub fn has_undo(&self) -> (r: bool)
        ensures
            r == self@.has_undo(),
    {
        !self.undo_actions.is_empty() && self.undo_enabled
    }

    pub fn has_redo(&self) -> (r: bool)
        ensures
            r == self@.has_redo(),
    {
        !self.redo_actions.is_empty() && self.redo_enabled
    }

    /// The action that an undo would execute.
    pub fn undo_top(&self) -> (r: Option<&A>)
        ensures
            r == (if self@.undo.len() > 0 { Some(&self@.undo.last()) } else { None }),
    {
        if self.undo_actions.len() > 0 {
            Some(&self.undo_actions[self.undo_actions.len() - 1])
        } else {
            None
        }
    }

    /// The action that a redo would execute.
    pub fn redo_top(&self) -> (r: Option<&A>)
        ensures
            r == (if self@.redo.len() > 0 { Some(&self@.redo.last()) } else { None }),
    {
        if self.redo_actions.len() > 0 {
            Some(&self.redo_actions[self.redo_actions.len() - 1])
        } else {
            None
        }
    }

    /// Takes the action to undo off the stack. Undo must be possible.
    pub fn pop_undo(&mut self) -> (action: A)
        requires
            old(self)@.has_undo(),
        ensures
            action == old(self)@.undo.last(),
            final(self)@ == old(self)@.undo_popped(),
    {
        self.undo_actions.pop().unwrap()
    }

    /// Takes the action to redo off the stack. Redo must be possible.
    pub fn pop_redo(&mut self) -> (action: A)
        requires
            old(self)@.has_redo(),
        ensures
            action == old(self)@.redo.last(),
            final(self)@ == old(self)@.redo_popped(),
    {
        self.redo_actions.pop().unwrap()
    }

    /// Records the reversal of an undone action on the redo stack.
    pub fn post_execute_undo(&mut self, reversed_actions: Vec<A>)
        ensures
            final(self)@ == old(self)@.undo_executed(reversed_actions@),
    {
        let mut reversed_actions = reversed_actions;
        self.redo_actions.append(&mut reversed_actions);
    }

    /// Records the reversal of a redone action on the undo stack.
    pub fn post_execute_redo(&mut self, reversed_actions: Vec<A>)
        ensures
            final(self)@ == old(self)@.redo_executed(reversed_actions@),
    {
        let mut reversed_actions = reversed_actions;
        self.undo_actions.append(&mut reversed_actions);
    }

    /// Records the reversal of a newly executed action on the undo stack; the
    /// redo history is dropped.
    pub fn post_action_execution(&mut self, reversed_actions: Vec<A>)
        ensures
            final(self)@ == old(self)@.action_executed(reversed_actions@),
    {
        let mut reversed_actions = reversed_actions;
        self.undo_actions.append(&mut reversed_actions);
        self.redo_actions.clear();
    }

    /// Takes all buffered actions, in the order they were buffered.
    pub fn take_buffered_actions(&mut self) -> (actions: Vec<A>)
        ensures
            actions@ == old(self)@.buffered,
            final(self)@ == (ActionStackView { buffered: Seq::empty(), ..old(self)@ }),
    {
        let mut actions = Vec::new();
        std::mem::swap(&mut actions, &mut self.buffered_actions);
        actions
    }

    /// Whether an authority change asked for the top actions to be checked
    /// again; the request is cleared.
    pub fn take_buffered_check(&mut self) -> (r: bool)
        ensures
            r == old(self)@.buffered_check,
            final(self)@ == (ActionStackView { buffered_check: false, ..old(self)@ }),
    {
        let r = self.buffered_check;
        self.buffered_check = false;
        r
    }

    /// Sets whether the current top undo and redo actions may be used.
    pub fn set_top_enabled(&mut self, undo_enabled: bool, redo_enabled: bool)
        ensures
            final(self)@ == (ActionStackView { undo_enabled, redo_enabled, ..old(self)@ }),
    {
        self.undo_enabled = undo_enabled;
        self.redo_enabled = redo_enabled;
    }

    /// Decides again whether the top undo and redo actions may be used:
    /// `top_enabled` is asked about each top action; an empty stack may
    /// always be used.
    pub fn check_top<G: Fn(&A) -> bool>(&mut self, top_enabled: &G)
        requires
            forall|a: A| call_requires(*top_enabled, (&a,)),
        ensures
            old(self)@.top_rechecked(final(self)@),
            tops_decided(final(self)@, *top_enabled),
    {
        let n = self.undo_actions.len();
        let undo_enabled = if n > 0 {
            top_enabled(&self.undo_actions[n - 1])
        } else {
            true
        };
        let m = self.redo_actions.len();
        let redo_enabled = if m > 0 {
            top_enabled(&self.redo_actions[m - 1])
        } else {
            true
        };
        self.set_top_enabled(undo_enabled, redo_enabled);
    }

    /// Undoes the top action: `execute` runs it and gives back what reverses
    /// it, which goes on the redo stack; then the top actions are checked
    /// again with `top_enabled`. Undo must be possible.
    pub fn undo_action<F: FnOnce(A) -> Vec<A>, G: Fn(&A) -> bool>(&mut self, execute: F, top_enabled: &G)
        requires
            old(self)@.has_undo(),
            call_requires(execute, (old(self)@.undo.last(),)),
            forall|a: A| call_requires(*top_enabled, (&a,)),
        ensures
            old(self)@.undone_by(final(self)@, execute, *top_enabled),
    {
        let ghost s0 = self@;
        let action = self.pop_undo();
        let reversed = execute(action);
        let ghost r = reversed;
        self.post_execute_undo(reversed);
        self.check_top(top_enabled);
        assert(call_ensures(execute, (s0.undo.last(),), r) && s0.undo_popped().undo_executed(r@).top_rechecked(self@));
    }

    /// Redoes the top undone action: `execute` runs it and gives back what
    /// reverses it, which goes on the undo stack; then the top actions are
    /// checked again with `top_enabled`. Redo must be possible.
    pub fn redo_action<F: FnOnce(A) -> Vec<A>, G: Fn(&A) -> bool>(&mut self, execute: F, top_enabled: &G)
        requires
            old(self)@.has_redo(),
            call_requires(execute, (old(self)@.redo.last(),)),
            forall|a: A| call_requires(*top_enabled, (&a,)),
        ensures
            old(self)@.redone_by(final(self)@, execute, *top_enabled),
    {
        let ghost s0 = self@;
        let action = self.pop_redo();
        let reversed = execute(action);
        let ghost r = reversed;
        self.post_execute_redo(reversed);
        self.check_top(top_enabled);
        assert(call_ensures(execute, (s0.redo.last(),), r) && s0.redo_popped().redo_executed(r@).top_rechecked(self@));
    }

    /// Executes a new action: `execute` runs it and gives back what reverses
    /// it, which goes on the undo stack; the redo history is dropped and the
    /// top actions are checked again with `top_enabled`.
    pub fn execute_action<F: FnOnce(A) -> Vec<A>, G: Fn(&A) -> bool>(&mut self, execute: F, action: A, top_enabled: &G)
        requires
            call_requires(execute, (action,)),
            forall|a: A| call_requires(*top_enabled, (&a,)),
        ensures
            old(self)@.executed_by(final(self)@, action, execute, *top_enabled),
    {
        let ghost s0 = self@;
        let ghost a0 = action;
        let reversed = execute(action);
        let ghost r = reversed;
        self.post_action_execution(reversed);
        self.check_top(top_enabled);
        assert(call_ensures(execute, (a0,), r) && s0.action_executed(r@).top_rechecked(self@));
    }

    /// Runs the buffered actions through `execute`, in the order they were
    /// buffered. A re-check asked for by an authority change is done first.
    /// When actions ran, what reverses each of them goes on the undo stack,
    /// in that order, the redo history is dropped and the top actions are
    /// checked again with `top_enabled`.
    pub fn execute_actions<F: Fn(A) -> Vec<A>, G: Fn(&A) -> bool>(&mut self, execute: &F, top_enabled: &G)
        requires
            forall|a: A| call_requires(*execute, (a,)),
            forall|a: A| call_requires(*top_enabled, (&a,)),
        ensures
            final(self)@.buffered.len() == 0,
            !final(self)@.buffered_check,
            old(self)@.buffered.len() == 0 ==> ({
                let s = ActionStackView { buffered_check: false, ..old(self)@ };
                if old(self)@.buffered_check {
                    s.top_rechecked(final(self)@) && tops_decided(final(self)@, *top_enabled)
                } else {
                    final(self)@ == s
                }
            }),
            old(self)@.buffered.len() > 0 ==> exists|results: Seq<Vec<A>>| {
                &&& results.len() == old(self)@.buffered.len()
                &&& forall|i: int| 0 <= i < results.len()
                    ==> call_ensures(*execute, (old(self)@.buffered[i],), #[trigger] results[i])
                &&& (ActionStackView { buffered: Seq::empty(), buffered_check: false, ..old(self)@ }).action_executed(
                    concat_results(results),
                ).top_rechecked(final(self)@)
            },
            old(self)@.buffered.len() > 0 ==> tops_decided(final(self)@, *top_enabled),
    {
        let ghost s0 = self@;
        if self.take_buffered_check() {
            self.check_top(top_enabled);
        }
        let ghost s1 = self@;
        let mut actions = self.take_buffered_actions();
        if actions.len() == 0 {
            assert(s0.buffered =~= Seq::<A>::empty());
            return;
        }
        let ghost u0 = self@.undo;
        let ghost mut results: Seq<Vec<A>> = Seq::empty();
        while actions.len() > 0
            invariant
                results.len() + actions@.len() == s0.buffered.len(),
                actions@ == s0.buffered.skip(results.len() as int),
                forall|a: A| call_requires(*execute, (a,)),
                forall|i: int| 0 <= i < results.len() ==> call_ensures(*execute, (s0.buffered[i],), #[trigger] results[i]),
                self@ == (ActionStackView { undo: u0 + concat_results(results), ..(ActionStackView { buffered: Seq::empty(), ..s1 }) }),
            decreases actions.len(),
        {
            let ghost k = results.len();
            let action = actions.remove(0);
            assert(action == s0.buffered[k as int]);
            let reversed = execute(action);
            let ghost rv = reversed;
            let mut reversed = reversed;
            self.undo_actions.append(&mut reversed);
            proof {
                let old_results = results;
                results = results.push(rv);
                assert(results.drop_last() == old_results);
                assert(concat_results(results) == concat_results(old_results) + rv@);
                assert(self@.undo =~= u0 + concat_results(results));
                assert(actions@ =~= s0.buffered.skip(results.len() as int));
            }
        }
        self.redo_actions.clear();
        self.check_top(top_enabled);
        assert((ActionStackView { buffered: Seq::<A>::empty(), buffered_check: false, ..s0 }).action_executed(
            concat_results(results),
        ).top_rechecked(self@));
    }
}

/// The actions of `results`, one vector after the other.
pub open spec fn concat_results<A>(results: Seq<Vec<A>>) -> Seq<A>
    decreases results.len(),
{
    if results.len() == 0 {
        Seq::empty()
    } else {
        concat_results(results.drop_last()) + results.last()@
    }
}

/// The flags of `s` are what `top_enabled` decided of its top actions; a
/// side with no action is enabled.
pub open spec fn tops_decided<A, G: Fn(&A) -> bool>(s: ActionStackView<A>, top_enabled: G) -> bool {
    &&& if s.undo.len() == 0 {
        s.undo_enabled
    } else {
        call_ensures(top_enabled, (&s.undo.last(),), s.undo_enabled)
    }
    &&& if s.redo.len() == 0 {
        s.redo_enabled
    } else {
        call_ensures(top_enabled, (&s.redo.last(),), s.redo_enabled)
    }
}

impl<A: Action> ActionStack<A> {
    /// Asks for a re-check of the top actions when the authority of `entity`
    /// changed and the top undo or redo action depends on it.
    pub fn entity_update_auth_status(&mut self, entity: u64)
        ensures
            final(self)@ == (ActionStackView {
                buffered_check: old(self)@.buffered_check
                    || (old(self)@.undo.len() > 0 && old(self)@.undo.last().spec_watches_entity(entity))
                    || (old(self)@.redo.len() > 0 && old(self)@.redo.last().spec_watches_entity(entity)),
                ..old(self)@
            }),
    {
        let n = self.undo_actions.len();
        if n > 0 && self.undo_actions[n - 1].watches_entity(entity) {
            self.buffered_check = true;
        }
        let m = self.redo_actions.len();
        if m > 0 && self.redo_actions[m - 1].watches_entity(entity) {
            self.buffered_check = true;
        }
    }
}

impl<V, P, R> ActionStack<ShapeAction<V, P, R>> {
    /// Re-targets entities in the undo and redo histories (buffered actions
    /// and the flags are left as they are).
    pub open spec fn migrated_by(
        self_view: ActionStackView<ShapeAction<V, P, R>>,
        result: ActionStackView<ShapeAction<V, P, R>>,
        m: Migration,
        payload_moved: spec_fn(V, V) -> bool,
    ) -> bool {
        &&& result.buffered == self_view.buffered
        &&& result.undo_enabled == self_view.undo_enabled
        &&& result.redo_enabled == self_view.redo_enabled
        &&& result.buffered_check == self_view.buffered_check
        &&& each_migrated(self_view.undo, result.undo, m, payload_moved)
        &&& each_migrated(self_view.redo, result.redo, m, payload_moved)
    }

    fn migrate<F: Fn(&V) -> V>(&mut self, m: Migration, payload: &F)
        requires
            accepts_all(*payload),
        ensures
            Self::migrated_by(old(self)@, final(self)@, m, payload_step(*payload)),
    {
        migrate_all(&mut self.undo_actions, &m, payload);
        migrate_all(&mut self.redo_actions, &m, payload);
    }

    /// The 2d vertex `old_2d` became `new_2d` and the 3d vertex `old_3d`
    /// became `new_3d`; `payload` is the vertex payload's own vertex migration.
    pub fn migrate_vertex_entities<F: Fn(&V) -> V>(&mut self, old_2d: u64, new_2d: u64, old_3d: u64, new_3d: u64, payload: &F)
        requires
            accepts_all(*payload),
        ensures
            Self::migrated_by(old(self)@, final(self)@, Migration::Vertex(old_2d, new_2d, old_3d, new_3d), payload_step(*payload)),
    {
        self.migrate(Migration::Vertex(old_2d, new_2d, old_3d, new_3d), payload);
    }

    /// The 2d edge `old_2d` became `new_2d`; `payload` is the vertex
    /// payload's own edge migration.
    pub fn migrate_edge_entities<F: Fn(&V) -> V>(&mut self, old_2d: u64, new_2d: u64, payload: &F)
        requires
            accepts_all(*payload),
        ensures
            Self::migrated_by(old(self)@, final(self)@, Migration::Edge(old_2d, new_2d), payload_step(*payload)),
    {
        self.migrate(Migration::Edge(old_2d, new_2d), payload);
    }

    /// The 2d face `old_2d` became `new_2d`; `payload` is the vertex
    /// payload's own face migration.
    pub fn migrate_face_entities<F: Fn(&V) -> V>(&mut self, old_2d: u64, new_2d: u64, payload: &F)
        requires
            accepts_all(*payload),
        ensures
            Self::migrated_by(old(self)@, final(self)@, Migration::Face(old_2d, new_2d), payload_step(*payload)),
    {
        self.migrate(Migration::Face(old_2d, new_2d), payload);
    }
}

/// Undoing an action and then redoing it, where executing the redo gives back
/// the action that was undone, restores both the undo and the redo history.
pub proof fn lemma_undo_then_redo_restores<A>(s: ActionStackView<A>, reversed: A, rereversed: A)
    requires
        s.has_undo(),
        s.redo_enabled,
        rereversed == s.undo.last(),
    ensures
        ({
            let after_undo = s.undo_popped().undo_executed(seq![reversed]);
            &&& after_undo.has_redo()
            &&& after_undo.redo.last() == reversed
            &&& after_undo.redo_popped().redo_executed(seq![rereversed]).undo =~= s.undo
            &&& after_undo.redo_popped().redo_executed(seq![rereversed]).redo =~= s.redo
        }),
{
    let after_undo = s.undo_popped().undo_executed(seq![reversed]);
    assert(after_undo.redo.drop_last() =~= s.redo);
    assert(s.undo.drop_last().push(rereversed) =~= s.undo);
}

/// Executing a new action leaves nothing to redo, and makes an undo possible
/// whenever the execution gave back a reversal and undo is enabled.
pub proof fn lemma_new_action_clears_redo<A>(s: ActionStackView<A>, reversed: Seq<A>)
    ensures
        !s.action_executed(reversed).has_redo(),
        reversed.len() > 0 && s.undo_enabled ==> s.action_executed(reversed).has_undo(),
        s.action_executed(reversed).undo.len() == s.undo.len() + reversed.len(),
{
}

} // verus!
