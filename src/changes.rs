use vstd::prelude::*;

verus! {

/// Line counts of the uncommitted changes of a working tree.
#[derive(Debug, Clone, Copy, Default, PartialEq, Eq, Structural)]
pub struct GitChanges {
    pub insertions: i32,
    pub deletions: i32,
    pub total: i32,
}

impl GitChanges {
    /// A well-formed sample counts no negative lines, and its total is the
    /// sum of insertions and deletions.
    pub open spec fn wf(&self) -> bool {
        &&& self.insertions >= 0
        &&& self.deletions >= 0
        &&& self.total == self.insertions + self.deletions
    }

    /// Two samples count the same lines.
    pub open spec fn same_counts(&self, other: &GitChanges) -> bool {
        &&& self.insertions == other.insertions
        &&& self.deletions == other.deletions
        &&& self.total == other.total
    }

    /// Whether `other` counts the same insertions, deletions and total.
    pub fn compare(&self, other: &GitChanges) -> (r: bool)
        ensures
            r == self.same_counts(other),
    {
        self.insertions == other.insertions && self.deletions == other.deletions
            && self.total == other.total
    }
}


/// One sample of the change metric, with the commit it was taken on and the
/// commit of the sample before it.
#[derive(Debug)]
pub struct GitState {
    pub git_changes: GitChanges,
    pub current_commit: String,
    pub current_commit_short: String,
    pub last_commit: Option<String>,
    pub last_commit_short: Option<String>,
    pub threshold: i32,
}

impl Clone for GitState {
    fn clone(&self) -> (r: GitState)
        ensures
            r == *self,
    {
        GitState {
            git_changes: self.git_changes,
            current_commit: self.current_commit.clone(),
            current_commit_short: self.current_commit_short.clone(),
            last_commit: clone_text(&self.last_commit),
            last_commit_short: clone_text(&self.last_commit_short),
            threshold: self.threshold,
        }
    }
}

fn clone_text(t: &Option<String>) -> (r: Option<String>)
    ensures
        r == *t,
{
    match t {
        Some(s) => Some(s.clone()),
        None => None,
    }
}

/// Whether two samples are the same for the purpose of suppressing
/// redundant work: same commit and the same line counts.
pub open spec fn same_sample(a: GitState, b: GitState) -> bool {
    &&& a.current_commit@ == b.current_commit@
    &&& a.git_changes.same_counts(&b.git_changes)
}

/// Whether `next` has to be acted on after `prev`: there was no sample
/// before, or the commit or one of the line counts differs.
pub open spec fn spec_materially_different(prev: Option<GitState>, next: GitState) -> bool {
    match prev {
        None => true,
        Some(p) => !same_sample(p, next),
    }
}

impl GitState {
    pub open spec fn above_threshold(&self) -> bool {
        self.git_changes.total > self.threshold
    }

    /// A sample with no sample before it.
    pub fn new(
        threshold: i32,
        git_changes: GitChanges,
        current_commit: String,
        current_commit_short: String,
    ) -> (r: GitState)
        ensures
            r.threshold == threshold,
            r.git_changes == git_changes,
            r.current_commit == current_commit,
            r.current_commit_short == current_commit_short,
            r.last_commit.is_none(),
            r.last_commit_short.is_none(),
    {
        GitState {
            git_changes,
            current_commit,
            current_commit_short,
            last_commit: None,
            last_commit_short: None,
            threshold,
        }
    }

    /// Moves the current commit to the previous one and takes a new reading.
    pub fn update(
        &mut self,
        git_changes: GitChanges,
        current_commit: String,
        current_commit_short: String,
    )
        ensures
            final(self).last_commit == Some(old(self).current_commit),
            final(self).last_commit_short == Some(old(self).current_commit_short),
            final(self).current_commit == current_commit,
            final(self).current_commit_short == current_commit_short,
            final(self).git_changes == git_changes,
            final(self).threshold == old(self).threshold,
    {
        self.last_commit = Some(self.current_commit.clone());
        self.last_commit_short = Some(self.current_commit_short.clone());
        self.current_commit_short = current_commit_short;
        self.current_commit = current_commit;
        self.git_changes = git_changes;
    }

    /// Whether the total of changed lines exceeds the threshold.
    pub fn is_above_threshold(&self) -> (r: bool)
        ensures
            r == self.above_threshold(),
    {
        self.git_changes.total > self.threshold
    }

    /// Whether `other` is the same sample: same commit, same line counts.
    pub fn compare(&self, other: &GitState) -> (r: bool)
        ensures
            r == same_sample(*self, *other),
    {
        if self.current_commit != other.current_commit {
            return false;
        }
        self.git_changes.compare(&other.git_changes)
    }

    /// Whether there is a previous sample and it is the same as this one.
    pub fn compare_with_prev(&self, prev: &Option<GitState>) -> (r: bool)
        ensures
            r == !spec_materially_different(*prev, *self),
    {
        match prev {
            Some(p) => p.compare(self),
            None => false,
        }
    }
}

/// Whether `next` has to be acted on after `prev`.
pub fn materially_different(prev: &Option<GitState>, next: &GitState) -> (r: bool)
    ensures
        r == spec_materially_different(*prev, *next),
{
    !next.compare_with_prev(prev)
}

} // verus!
