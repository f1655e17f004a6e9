use vstd::prelude::*;
use vstd::std_specs::cmp::PartialEqSpec;
use vstd::string::*;

verus! {

broadcast use vstd::string::to_string_from_display_ensures_for_str;

/// A backup target: a named set of source paths and exclude patterns, bound
/// to the repository whose identifier is `repo`.
#[derive(Clone, Debug, Default)]
pub struct Target {
    pub repo: u128,
    pub name: String,
    /// Paths to include in the backup; a fresh slot has no path yet.
    pub sources: Vec<Option<String>>,
    /// Exclude patterns handed to the archiver.
    pub excludes: Vec<String>,
    pub duplication: Vec<Duplication>,
}

/// A rule to copy finished backups elsewhere, kept in the model for later use.
#[derive(Clone, Debug)]
pub struct Duplication {
    pub interval_secs: u64,
    pub kind: DuplicationKind,
}

#[derive(Clone, Debug)]
pub enum DuplicationKind {
    Disk { path: String },
}

} // verus!

verus! {


/// The value of a target, with its lists as sequences.
pub struct TargetView {
    pub repo: u128,
    pub name: Seq<char>,
    pub sources: Seq<Option<String>>,
    pub excludes: Seq<String>,
    pub duplication: Seq<Duplication>,
}

impl View for Target {
    type V = TargetView;

    open spec fn view(&self) -> TargetView {
        TargetView {
            repo: self.repo,
            name: self.name@,
            sources: self.sources@,
            excludes: self.excludes@,
            duplication: self.duplication@,
        }
    }
}

impl Duplication {
    /// A copy of the rule.
    pub fn duplicate(&self) -> (r: Duplication)
        ensures
            r == *self,
    {
        let kind = match &self.kind {
            DuplicationKind::Disk { path } => DuplicationKind::Disk { path: path.clone() },
        };
        Duplication { interval_secs: self.interval_secs, kind }
    }
}

impl Target {
    /// A copy of the target, equal to it in every field.
    pub fn duplicate(&self) -> (r: Target)
        ensures
            r@ == self@,
    {
        let mut sources: Vec<Option<String>> = Vec::new();
        let mut i: usize = 0;
        while i < self.sources.len()
            invariant
                i <= self.sources@.len(),
                sources@ == self.sources@.take(i as int),
            decreases self.sources@.len() - i,
        {
            let slot = match &self.sources[i] {
                Some(p) => Some(p.clone()),
                None => None,
            };
            sources.push(slot);
            i = i + 1;
            assert(sources@ =~= self.sources@.take(i as int));
        }
        let mut excludes: Vec<String> = Vec::new();
        let mut j: usize = 0;
        while j < self.excludes.len()
            invariant
                j <= self.excludes@.len(),
                excludes@ == self.excludes@.take(j as int),
            decreases self.excludes@.len() - j,
        {
            excludes.push(self.excludes[j].clone());
            j = j + 1;
            assert(excludes@ =~= self.excludes@.take(j as int));
        }
        let mut duplication: Vec<Duplication> = Vec::new();
        let mut k: usize = 0;
        while k < self.duplication.len()
            invariant
                k <= self.duplication@.len(),
                duplication@ == self.duplication@.take(k as int),
            decreases self.duplication@.len() - k,
        {
            duplication.push(self.duplication[k].duplicate());
            k = k + 1;
            assert(duplication@ =~= self.duplication@.take(k as int));
        }
        assert(sources@ =~= self.sources@);
        assert(excludes@ =~= self.excludes@);
        assert(duplication@ =~= self.duplication@);
        Target { repo: self.repo, name: self.name.clone(), sources, excludes, duplication }
    }
}

/// A repository: where backups of its targets are stored. Targets refer to it
/// by `id`, which stays fixed when the name or home changes.
#[derive(Clone, Debug, Default)]
pub struct RepoConfig {
    pub id: u128,
    pub name: String,
    pub home: String,
    pub targets: Vec<Target>,
}

/// An entry of a selection list: a label shown to the user and the value it
/// stands for. Two entries are equal when their values are.
#[derive(Clone, Debug)]
pub struct Opt<T> {
    pub name: String,
    pub value: T,
}

impl<T: PartialEq> PartialEq for Opt<T> {
    fn eq(&self, other: &Self) -> (r: bool) {
        self.value == other.value
    }
}

impl<T: PartialEq> vstd::std_specs::cmp::PartialEqSpecImpl for Opt<T> {
    open spec fn obeys_eq_spec() -> bool {
        <T as PartialEqSpec>::obeys_eq_spec()
    }

    open spec fn eq_spec(&self, other: &Self) -> bool {
        self.value.eq_spec(&other.value)
    }
}

/// What the repository list offers: a new repository, or an existing one.
#[derive(Clone, Copy, Debug, PartialEq, Eq, Structural)]
pub enum RepoOption {
    New,
    Select(u128),
}

impl RepoOption {
    /// The identifier of the repository chosen, if an existing one is.
    pub open spec fn spec_id(&self) -> Option<u128> {
        match self {
            RepoOption::New => None,
            RepoOption::Select(id) => Some(*id),
        }
    }

    #[verifier::when_used_as_spec(spec_id)]
    pub fn id(&self) -> (r: Option<u128>)
        ensures
            r == self.spec_id(),
    {
        match self {
            RepoOption::New => None,
            RepoOption::Select(id) => Some(*id),
        }
    }
}

/// A backup that was made earlier, for display.
#[derive(Clone, Debug)]
pub struct PreviousSnapshot {
    pub name: String,
    /// Seconds since the Unix epoch, in UTC.
    pub timestamp: i64,
    pub bytes: usize,
}

/// A value that is never shown in logs.
#[derive(Clone)]
pub struct Redacted<T>(pub T);

impl<T> Redacted<T> {
    /// The text that stands for the value wherever it would be printed.
    pub fn describe(&self) -> (r: String)
        ensures
            r@ == "<redacted>"@,
    {
        "<redacted>".to_string()
    }
}

} // verus!
