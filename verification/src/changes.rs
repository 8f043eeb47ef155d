//! Collection of unstaged changes: the outcome of each version-control query,
//! the per-file keep-or-skip rule, and the collector that applies it in
//! listing order.

use vstd::prelude::*;
use crate::text::{is_blank, is_blank_str, parse_listing, parse_file_list, views_of};

verus! {

/// A single modified-but-unstaged file together with its literal diff text.
#[derive(Debug, Clone)]
pub struct GitDiff {
    pub file_path: String,
    pub content: String,
}

/// The mathematical value of a collected change.
pub struct ChangeModel {
    pub path: Seq<char>,
    pub text: Seq<char>,
}

impl View for GitDiff {
    type V = ChangeModel;

    open spec fn view(&self) -> ChangeModel {
        ChangeModel { path: self.file_path@, text: self.content@ }
    }
}

/// The models of a sequence of collected changes.
pub open spec fn changes_of(v: Seq<GitDiff>) -> Seq<ChangeModel> {
    v.map_values(|g: GitDiff| g@)
}

/// What one invocation of the version-control tool came to: either the tool
/// ran, with its exit status and its output (`stdout` is `None` when the
/// output was not valid text), or it could not be invoked at all.
#[derive(Debug)]
pub enum ToolOutcome {
    Ran { success: bool, stdout: Option<String>, stderr: String },
    Failed { message: String },
}

/// The keep-or-skip rule for one probed file: the change is kept exactly when
/// the per-file query ran successfully, its output was valid text, and the
/// diff text is not blank. Every per-file failure is a skip, never an abort.
pub open spec fn kept_change(path: Seq<char>, outcome: ToolOutcome) -> Option<ChangeModel> {
    match outcome {
        ToolOutcome::Ran { success, stdout, stderr } => match stdout {
            Some(text) => if success && !is_blank(text@) {
                Some(ChangeModel { path, text: text@ })
            } else {
                None
            },
            None => None,
        },
        ToolOutcome::Failed { message } => None,
    }
}

/// The changes that a sequence of per-file probes produces: exactly the kept
/// ones, in probe order.
pub open spec fn collect_model(probes: Seq<(Seq<char>, ToolOutcome)>) -> Seq<ChangeModel> {
    probes.filter_map(|p: (Seq<char>, ToolOutcome)| kept_change(p.0, p.1))
}

/// Walks the listed files one at a time, in listing order, recording for each
/// the outcome of its diff query and keeping exactly the non-blank ones.
pub struct DiffCollector {
    pub files: Vec<String>,
    pub next: usize,
    pub collected: Vec<GitDiff>,
    pub history: Ghost<Seq<(Seq<char>, ToolOutcome)>>,
}

impl DiffCollector {
    pub open spec fn wf(self) -> bool {
        &&& self.next <= self.files@.len()
        &&& self.history@.len() == self.next
        &&& (forall|i: int|
            0 <= i < self.next ==> (#[trigger] self.history@[i]).0 == self.files@[i]@)
        &&& changes_of(self.collected@) == collect_model(self.history@)
    }

    /// Starts a collection from the raw listing of modified files.
    pub fn from_listing(listing: &str) -> (c: DiffCollector)
        ensures
            c.wf(),
            views_of(c.files@) == parse_listing(listing@),
            c.next == 0,
            c.collected@.len() == 0,
            c.history@.len() == 0,
    {
        let files = parse_file_list(listing);
        let c = DiffCollector {
            files,
            next: 0,
            collected: Vec::new(),
            history: Ghost(Seq::empty()),
        };
        proof {
            assert(changes_of(c.collected@) =~= collect_model(c.history@));
        }
        c
    }

    /// Whether every listed file has been probed.
    pub fn done(&self) -> (b: bool)
        ensures
            b == (self.next == self.files@.len()),
    {
        self.next == self.files.len()
    }

    /// The next file whose diff is to be queried, if any is left.
    pub fn next_file(&self) -> (r: Option<&String>)
        ensures
            match r {
                Some(p) => self.next < self.files@.len() && p@ == self.files@[
                    self.next as int
                ]@,
                None => self.next >= self.files@.len(),
            },
    {
        if self.next < self.files.len() {
            Some(&self.files[self.next])
        } else {
            None
        }
    }

    /// Records the outcome of the diff query for the current file and moves on
    /// to the next one. The change is kept exactly as `kept_change` says.
    pub fn record(&mut self, outcome: ToolOutcome)
        requires
            old(self).wf(),
            old(self).next < old(self).files@.len(),
        ensures
            final(self).wf(),
            final(self).files@ == old(self).files@,
            final(self).next == old(self).next + 1,
            final(self).history@ == old(self).history@.push(
                (old(self).files@[old(self).next as int]@, outcome),
            ),
    {
        let ghost entry = (self.files@[self.next as int]@, outcome);
        let ghost hist0 = self.history@;
        let ghost coll0 = self.collected@;
        let path = self.files[self.next].clone();
        match outcome {
            ToolOutcome::Ran { success, stdout, stderr } => match stdout {
                Some(text) => {
                    if success && !is_blank_str(text.as_str()) {
                        self.collected.push(GitDiff { file_path: path, content: text });
                    }
                },
                None => {},
            },
            ToolOutcome::Failed { message } => {},
        }
        let bound = self.files.len();
        self.next = self.next + 1;
        proof {
            self.history@ = hist0.push(entry);
        }
        proof {
            assert(hist0.push(entry).drop_last() =~= hist0);
            assert(changes_of(self.collected@) =~= collect_model(self.history@));
        }
    }

    /// Hands the collected changes out, in listing order.
    pub fn into_changes(self) -> (r: Vec<GitDiff>)
        requires
            self.wf(),
        ensures
            r == self.collected,
            changes_of(r@) == collect_model(self.history@),
    {
        self.collected
    }
}

/// Law: a well-formed collector holds exactly those probed files whose diff
/// query succeeded with non-blank text, in probe order — no other change is
/// ever recorded, and none of those is dropped.
pub proof fn lemma_collection_is_filter(c: DiffCollector)
    requires
        c.wf(),
    ensures
        changes_of(c.collected@) == c.history@.filter_map(
            |p: (Seq<char>, ToolOutcome)| kept_change(p.0, p.1),
        ),
{
}

} // verus!
