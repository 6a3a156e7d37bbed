//! Undoable operations.
//!
//! An undo action is a value that describes how to revert one change; running it
//! means carrying out its [`Effect`]s, in order.
use vstd::prelude::*;

use crate::text::{chars_of, string_of, strings_view};

verus! {

/// How a change is reverted.
#[derive(Debug, Clone)]
pub enum UndoKind {
    /// Copy the backup over the original, then delete the backup
    RestoreFile { backup_path: String, original_path: String },
    /// Remove a package with every supported package manager
    RemovePackage { package: String },
    /// Delete a user together with its home directory
    RemoveUser { username: String },
    /// Run a command line (program followed by its arguments)
    RunCommand { argv: Vec<String> },
}

/// One host operation that an undo action performs; failures are ignored.
#[derive(Debug, Clone)]
pub enum Effect {
    CopyFile { from: String, to: String },
    RemoveFile { path: String },
    Run { argv: Vec<String> },
}

/// An undoable operation: a description and how to revert it.
#[derive(Debug, Clone)]
pub struct UndoAction {
    pub description: String,
    pub action: UndoKind,
}

/// Plain-value view of an effect.
pub enum EffectView {
    CopyFile(Seq<char>, Seq<char>),
    RemoveFile(Seq<char>),
    Run(Seq<Seq<char>>),
}

pub open spec fn effect_view(e: Effect) -> EffectView {
    match e {
        Effect::CopyFile { from, to } => EffectView::CopyFile(from@, to@),
        Effect::RemoveFile { path } => EffectView::RemoveFile(path@),
        Effect::Run { argv } => EffectView::Run(strings_view(argv@)),
    }
}

pub open spec fn effects_view(v: Seq<Effect>) -> Seq<EffectView> {
    v.map_values(|e: Effect| effect_view(e))
}

/// `<manager> remove -y <package>`
pub open spec fn remove_cmd(pm: Seq<char>, package: Seq<char>) -> Seq<Seq<char>> {
    seq![pm, "remove"@, "-y"@, package]
}

/// The operations that revert a change of the given kind.
pub open spec fn undo_effects(k: UndoKind) -> Seq<EffectView> {
    match k {
        UndoKind::RestoreFile { backup_path, original_path } => seq![
            EffectView::CopyFile(backup_path@, original_path@),
            EffectView::RemoveFile(backup_path@),
        ],
        UndoKind::RemovePackage { package } => seq![
            EffectView::Run(remove_cmd("apt"@, package@)),
            EffectView::Run(remove_cmd("yum"@, package@)),
            EffectView::Run(remove_cmd("dnf"@, package@)),
        ],
        UndoKind::RemoveUser { username } => seq![
            EffectView::Run(seq!["userdel"@, "-r"@, username@]),
        ],
        UndoKind::RunCommand { argv } => if argv@.len() > 1 {
            seq![EffectView::Run(strings_view(argv@))]
        } else {
            seq![]
        },
    }
}

pub fn own(s: &str) -> (r: String)
    ensures
        r@ == s@,
{
    let c = chars_of(s);
    string_of(&c)
}

fn clone_string(s: &String) -> (r: String)
    ensures
        r@ == s@,
{
    s.clone()
}

fn clone_strings(v: &Vec<String>) -> (r: Vec<String>)
    ensures
        strings_view(r@) == strings_view(v@),
{
    let mut out: Vec<String> = Vec::new();
    let mut i: usize = 0;
    while i < v.len()
        invariant
            i <= v.len(),
            strings_view(out@) == strings_view(v@).take(i as int),
        decreases v.len() - i,
    {
        let c = clone_string(&v[i]);
        let ghost before = out@;
        out.push(c);
        assert(strings_view(out@) =~= strings_view(before).push(c@));
        i = i + 1;
        assert(strings_view(out@) =~= strings_view(v@).take(i as int));
    }
    assert(strings_view(v@).take(v.len() as int) =~= strings_view(v@));
    out
}

fn remove_with(pm: &str, package: &String) -> (r: Effect)
    ensures
        effect_view(r) == EffectView::Run(remove_cmd(pm@, package@)),
{
    let argv = vec![own(pm), own("remove"), own("-y"), clone_string(package)];
    assert(strings_view(argv@) =~= remove_cmd(pm@, package@));
    Effect::Run { argv }
}

impl UndoAction {
    pub fn new(description: String, action: UndoKind) -> (r: Self)
        ensures
            r.description == description,
            r.action == action,
    {
        UndoAction { description, action }
    }

    /// The host operations that carry out this undo action, in order.
    pub fn effects(&self) -> (r: Vec<Effect>)
        ensures
            effects_view(r@) == undo_effects(self.action),
    {
        match &self.action {
            UndoKind::RestoreFile { backup_path, original_path } => {
                let r = vec![
                    Effect::CopyFile { from: clone_string(backup_path), to: clone_string(original_path) },
                    Effect::RemoveFile { path: clone_string(backup_path) },
                ];
                assert(effects_view(r@) =~= undo_effects(self.action));
                r
            },
            UndoKind::RemovePackage { package } => {
                let r = vec![remove_with("apt", package), remove_with("yum", package), remove_with("dnf", package)];
                assert(effects_view(r@) =~= undo_effects(self.action));
                r
            },
            UndoKind::RemoveUser { username } => {
                let argv = vec![own("userdel"), own("-r"), clone_string(username)];
                assert(strings_view(argv@) =~= seq!["userdel"@, "-r"@, username@]);
                let r = vec![Effect::Run { argv }];
                assert(effects_view(r@) =~= undo_effects(self.action));
                r
            },
            UndoKind::RunCommand { argv } => {
                if argv.len() > 1 {
                    let r = vec![Effect::Run { argv: clone_strings(argv) }];
                    assert(effects_view(r@) =~= undo_effects(self.action));
                    r
                } else {
                    let r: Vec<Effect> = Vec::new();
                    assert(effects_view(r@) =~= undo_effects(self.action));
                    r
                }
            },
        }
    }
}

} // verus!
