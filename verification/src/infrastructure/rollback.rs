//! The rollback manager: a stack of undo actions that are carried out
//! last-registered-first, each at most once, and never re-entrantly.
use vstd::prelude::*;

use crate::domain::undo::{own, UndoAction, UndoKind};
use crate::text::{push_str, push_all, chars_of, string_of};

verus! {

/// Abstract state of the rollback manager.
pub struct UndoStackView {
    /// Registered actions, oldest first
    pub actions: Seq<UndoAction>,
    /// A rollback is in progress
    pub running: bool,
}

/// The undo stack together with the re-entrancy flag.
pub struct UndoStack {
    actions: Vec<UndoAction>,
    running: bool,
}

impl View for UndoStack {
    type V = UndoStackView;

    closed spec fn view(&self) -> UndoStackView {
        UndoStackView { actions: self.actions@, running: self.running }
    }
}

/// State after registering `a`.
pub open spec fn spec_register(s: UndoStackView, a: UndoAction) -> UndoStackView {
    UndoStackView { actions: s.actions.push(a), running: s.running }
}

/// What starting a rollback yields: nothing while one is in progress, otherwise
/// every registered action, most recent first.
pub open spec fn spec_begin_result(s: UndoStackView) -> Option<Seq<UndoAction>> {
    if s.running {
        None
    } else {
        Some(s.actions.reverse())
    }
}

/// State after starting a rollback.
pub open spec fn spec_begin(s: UndoStackView) -> UndoStackView {
    if s.running {
        s
    } else {
        UndoStackView { actions: Seq::empty(), running: true }
    }
}

/// State after a rollback has been carried out.
pub open spec fn spec_finish(s: UndoStackView) -> UndoStackView {
    UndoStackView { actions: s.actions, running: false }
}

impl UndoStack {
    /// An empty stack with no rollback in progress.
    pub fn new() -> (r: Self)
        ensures
            r@.actions == Seq::<UndoAction>::empty(),
            !r@.running,
    {
        UndoStack { actions: Vec::new(), running: false }
    }

    /// Registers an undo action.
    pub fn register_undo(&mut self, action: UndoAction)
        ensures
            final(self)@ == spec_register(old(self)@, action),
    {
        self.actions.push(action);
    }

    /// Number of registered actions.
    pub fn undo_depth(&self) -> (r: usize)
        ensures
            r == self@.actions.len(),
    {
        self.actions.len()
    }

    /// A rollback is in progress.
    pub fn is_running(&self) -> (r: bool)
        ensures
            r == self@.running,
    {
        self.running
    }

    /// Starts a rollback: hands out every registered action, most recent first, and
    /// empties the stack. While a rollback is in progress it yields `None` and
    /// changes nothing.
    pub fn begin_undo(&mut self) -> (r: Option<Vec<UndoAction>>)
        ensures
            final(self)@ == spec_begin(old(self)@),
            match r {
                Some(v) => spec_begin_result(old(self)@) == Some(v@),
                None => spec_begin_result(old(self)@) is None,
            },
    {
        if self.running {
            return None;
        }
        self.running = true;
        let mut taken: Vec<UndoAction> = Vec::new();
        std::mem::swap(&mut taken, &mut self.actions);
        let ghost orig = taken@;
        let mut out: Vec<UndoAction> = Vec::new();
        while taken.len() > 0
            invariant
                out@.len() + taken@.len() == orig.len(),
                taken@ == orig.take(taken@.len() as int),
                out@ == orig.reverse().take(out@.len() as int),
            decreases taken.len(),
        {
            let ghost k = out@.len();
            let a = taken.pop().unwrap();
            out.push(a);
            proof {
                assert(a == orig[orig.len() - 1 - k]);
                assert(out@ =~= orig.reverse().take(out@.len() as int));
                assert(taken@ =~= orig.take(taken@.len() as int));
            }
        }
        assert(out@ =~= orig.reverse());
        Some(out)
    }

    /// Marks the rollback as finished, allowing later ones.
    pub fn finish_undo(&mut self)
        ensures
            final(self)@ == spec_finish(old(self)@),
    {
        self.running = false;
    }

    /// Registers restoring `original_path` from `backup_path` (then deleting the backup).
    pub fn register_file_backup(&mut self, description: String, backup_path: String, original_path: String)
        ensures
            final(self)@ == spec_register(
                old(self)@,
                UndoAction {
                    description,
                    action: UndoKind::RestoreFile { backup_path, original_path },
                },
            ),
    {
        self.register_undo(UndoAction::new(description, UndoKind::RestoreFile { backup_path, original_path }));
    }

    /// Registers removing `package`.
    pub fn register_package_remove(&mut self, description: String, package: String)
        ensures
            final(self)@ == spec_register(
                old(self)@,
                UndoAction { description, action: UndoKind::RemovePackage { package } },
            ),
    {
        self.register_undo(UndoAction::new(description, UndoKind::RemovePackage { package }));
    }

    /// Registers deleting the user `username`, described as `删除用户 '<username>'`.
    pub fn register_user_remove(&mut self, username: String)
        ensures
            exists|d: String|
                d@ == "删除用户 '"@ + username@ + "'"@ && final(self)@ == spec_register(
                    old(self)@,
                    UndoAction { description: d, action: UndoKind::RemoveUser { username } },
                ),
    {
        let mut d: Vec<char> = chars_of("删除用户 '");
        let u = chars_of(username.as_str());
        push_all(&mut d, &u);
        push_str(&mut d, "'");
        let description = string_of(&d);
        self.register_undo(UndoAction::new(description, UndoKind::RemoveUser { username }));
    }

    /// Registers running the command line `cmd` (program, then arguments).
    pub fn register_command_undo(&mut self, description: String, cmd: Vec<String>)
        ensures
            final(self)@ == spec_register(
                old(self)@,
                UndoAction { description, action: UndoKind::RunCommand { argv: cmd } },
            ),
    {
        self.register_undo(UndoAction::new(description, UndoKind::RunCommand { argv: cmd }));
    }
}

/// The action registered last is carried out first; the others follow in the
/// order they would have had without it.
pub proof fn law_undo_is_lifo(s: UndoStackView, a: UndoAction)
    requires
        !s.running,
    ensures
        spec_begin_result(spec_register(s, a)) == Some(seq![a] + s.actions.reverse()),
{
    let t = s.actions.push(a);
    assert(t.reverse() =~= seq![a] + s.actions.reverse());
}

/// A rollback hands out every action registered before it, and after it has
/// finished nothing is left: no action is ever carried out twice.
pub proof fn law_undo_runs_each_action_once(s: UndoStackView)
    requires
        !s.running,
    ensures
        spec_begin_result(s) matches Some(v) && v.len() == s.actions.len() && v.to_multiset()
            == s.actions.to_multiset(),
        spec_begin_result(spec_finish(spec_begin(s))) == Some(Seq::<UndoAction>::empty()),
{
    s.actions.lemma_reverse_to_multiset();
    assert(Seq::<UndoAction>::empty().reverse() =~= Seq::<UndoAction>::empty());
}

/// While a rollback is in progress, starting another one yields nothing and
/// changes nothing.
pub proof fn law_undo_not_reentrant(s: UndoStackView)
    requires
        s.running,
    ensures
        spec_begin_result(s) is None,
        spec_begin(s) == s,
{
}

} // verus!
