use crate::icon::Icon;
use crate::model::{Opt, RepoConfig, RepoOption, Target};
use crate::repos::{
    has_key, inserted, key_index, keys_distinct, lookup, repo_entries, repos_get, repos_get_index,
    repos_insert, repos_len, repos_new,
};
use indexmap::IndexMap;
use vstd::prelude::*;
use vstd::string::*;

verus! {

broadcast use vstd::string::to_string_from_display_ensures_for_str;

/// The whole configuration: the repositories by identifier, the repository
/// chosen in the user interface, and the hash of the passphrase once one was
/// set.
#[derive(Debug)]
pub struct Config {
    pub repos: IndexMap<u128, RepoConfig>,
    pub selected_repo: Option<Opt<RepoOption>>,
    pub passphrase_hash: Option<String>,
}

/// Every entry is stored under its repository's own identifier, and no
/// identifier occurs twice.
pub open spec fn entries_wf(s: Seq<(u128, RepoConfig)>) -> bool {
    &&& keys_distinct(s)
    &&& forall|i: int| 0 <= i < s.len() ==> (#[trigger] s[i]).1.id == s[i].0
}

/// `new` is `old` with its targets replaced by `targets`, and nothing else
/// changed.
pub open spec fn same_repo_with_targets(old: RepoConfig, new: RepoConfig, targets: Seq<Target>) -> bool {
    &&& new.id == old.id
    &&& new.name == old.name
    &&& new.home == old.home
    &&& new.targets@ == targets
}

/// The label under which a repository is listed: its icon, a space, its name.
pub open spec fn repo_label(name: Seq<char>) -> Seq<char> {
    seq![Icon::Repo.spec_glyph(), ' '] + name
}

/// The label of the entry that starts the creation of a repository.
pub open spec fn new_repo_label() -> Seq<char> {
    "New repo..."@
}

/// The targets after an edit is committed: the one at `index` replaced, or,
/// for a new target, `target` appended.
pub open spec fn committed_targets(targets: Seq<Target>, index: Option<usize>, target: Target) -> Seq<Target> {
    match index {
        Some(i) => targets.update(i as int, target),
        None => targets.push(target),
    }
}

/// `c1` is `c0` after `target` was saved into the chosen repository at
/// `index` (appended for no index): that repository keeps its place, its
/// identifier, name and home, and gets the new target list; every other
/// repository, the choice and the passphrase hash stay as they were.
pub open spec fn committed(c0: Config, c1: Config, index: Option<usize>, target: Target) -> bool {
    let s = repo_entries(c0.repos);
    let id = c0.selected_id()->Some_0;
    let repo = lookup(s, id)->Some_0;
    &&& lookup(repo_entries(c1.repos), id) matches Some(v) && same_repo_with_targets(
        repo,
        v,
        committed_targets(repo.targets@, index, target),
    ) && repo_entries(c1.repos) == inserted(s, id, v)
    &&& c1.selected_repo == c0.selected_repo
    &&& c1.passphrase_hash == c0.passphrase_hash
}

impl Config {
    pub open spec fn wf(&self) -> bool {
        entries_wf(repo_entries(self.repos))
    }

    /// The identifier of the repository chosen, if an existing one is.
    pub open spec fn selected_id(&self) -> Option<u128> {
        match self.selected_repo {
            Some(o) => o.value.spec_id(),
            None => None,
        }
    }

    /// The repository chosen, if one is chosen and it exists.
    pub open spec fn spec_selected_repo(&self) -> Option<RepoConfig> {
        match self.selected_id() {
            Some(id) => lookup(repo_entries(self.repos), id),
            None => None,
        }
    }

    /// An edit can be committed: an existing repository is chosen, and the
    /// index, if any, is one of its targets.
    pub open spec fn can_commit(&self, index: Option<usize>) -> bool {
        match self.spec_selected_repo() {
            Some(repo) => match index {
                Some(i) => i < repo.targets@.len(),
                None => true,
            },
            None => false,
        }
    }

    /// An empty configuration: no repository, none chosen, no passphrase.
    pub fn new() -> (r: Config)
        ensures
            r.wf(),
            repo_entries(r.repos).len() == 0,
            r.selected_repo is None,
            r.passphrase_hash is None,
    {
        Config { repos: repos_new(), selected_repo: None, passphrase_hash: None }
    }

    /// The repository stored under `id`, if any.
    pub fn find_repo(&self, id: u128) -> (r: Option<&RepoConfig>)
        requires
            self.wf(),
        ensures
            match r {
                Some(v) => lookup(repo_entries(self.repos), id) == Some(*v),
                None => lookup(repo_entries(self.repos), id) is None,
            },
    {
        let r = repos_get(&self.repos, id);
        proof {
            let s = repo_entries(self.repos);
            if let Some(v) = r {
                let i = choose|i: int| 0 <= i < s.len() && #[trigger] s[i] == (id, *v);
                let j = key_index(s, id);
                assert(s[i].0 == id);
                assert(i == j);
            }
        }
        r
    }

    /// The repository chosen in the user interface, if one is chosen and it
    /// exists.
    pub fn selected_repo(&self) -> (r: Option<&RepoConfig>)
        requires
            self.wf(),
        ensures
            match r {
                Some(v) => self.spec_selected_repo() == Some(*v),
                None => self.spec_selected_repo() is None,
            },
    {
        match &self.selected_repo {
            Some(selected) => match selected.value.id() {
                Some(id) => self.find_repo(id),
                None => None,
            },
            None => None,
        }
    }

    /// Stores a new, empty repository under `id` and chooses it.
    pub fn add_repo(&mut self, id: u128, name: String, home: String)
        requires
            old(self).wf(),
        ensures
            final(self).wf(),
            lookup(repo_entries(final(self).repos), id) matches Some(v) && v.id == id && v.name == name
                && v.home == home && v.targets@.len() == 0
                && repo_entries(final(self).repos) == inserted(repo_entries(old(self).repos), id, v),
            final(self).selected_id() == Some(id),
            final(self).selected_repo matches Some(o) && o.name == name,
            final(self).passphrase_hash == old(self).passphrase_hash,
    {
        let label = name.clone();
        let repo = RepoConfig { id, name, home, targets: Vec::new() };
        let ghost s = repo_entries(self.repos);
        let _ = repos_insert(&mut self.repos, id, repo);
        proof {
            lemma_inserted_wf(s, id, repo);
            lemma_lookup_inserted(s, id, repo);
        }
        self.selected_repo = Some(Opt { name: label, value: RepoOption::Select(id) });
    }

    /// Saves an edited target into the chosen repository: over the target at
    /// `index`, or, with no index, after the others. Nothing changes, and
    /// `false` comes back, when no existing repository is chosen or `index`
    /// is past its targets.
    pub fn commit_target(&mut self, index: Option<usize>, target: Target) -> (ok: bool)
        requires
            old(self).wf(),
        ensures
            final(self).wf(),
            ok == old(self).can_commit(index),
            !ok ==> *final(self) == *old(self),
            ok ==> committed(*old(self), *final(self), index, target),
            final(self).selected_repo == old(self).selected_repo,
            final(self).passphrase_hash == old(self).passphrase_hash,
    {
        let id = match &self.selected_repo {
            Some(selected) => match selected.value.id() {
                Some(id) => id,
                None => return false,
            },
            None => return false,
        };
        let fits = match self.find_repo(id) {
            Some(repo) => match index {
                Some(i) => i < repo.targets.len(),
                None => true,
            },
            None => false,
        };
        if !fits {
            return false;
        }
        let ghost s = repo_entries(self.repos);
        let ghost old_repo = lookup(s, id)->Some_0;
        let placeholder = RepoConfig { id, name: String::new(), home: String::new(), targets: Vec::new() };
        let taken = repos_insert(&mut self.repos, id, placeholder);
        proof {
            assert(s[key_index(s, id)].0 == id);
        }
        let mut repo = match taken {
            Some(repo) => repo,
            None => {
                proof {
                    assert(false);
                }
                return false;
            }
        };
        assert(repo == old_repo);
        match index {
            Some(i) => {
                repo.targets.set(i, target);
            }
            None => {
                repo.targets.push(target);
            }
        }
        let ghost s1 = repo_entries(self.repos);
        let ghost new_repo = repo;
        let _ = repos_insert(&mut self.repos, id, repo);
        proof {
            let k = key_index(s, id);
            assert(s1 == s.update(k, (id, placeholder)));
            assert(s1[k].0 == id);
            assert(has_key(s1, id));
            lemma_key_index_update(s, id, placeholder);
            assert(key_index(s1, id) == k);
            assert(repo_entries(self.repos) == s1.update(k, (id, new_repo)));
            assert(repo_entries(self.repos) =~= s.update(k, (id, new_repo)));
            lemma_inserted_wf(s, id, new_repo);
            lemma_lookup_inserted(s, id, new_repo);
        }
        true
    }
}

impl Default for Config {
    fn default() -> (r: Config)
        ensures
            r.wf(),
            repo_entries(r.repos).len() == 0,
            r.selected_repo is None,
            r.passphrase_hash is None,
    {
        Config::new()
    }
}

/// The choices of the repository list: first the creation of a repository,
/// then each repository, labelled with its icon and name, in table order.
pub fn repo_options(repos: &IndexMap<u128, RepoConfig>) -> (r: Vec<Opt<RepoOption>>)
    ensures
        r@.len() == repo_entries(*repos).len() + 1,
        r@[0].name@ == new_repo_label(),
        r@[0].value == RepoOption::New,
        forall|i: int|
            0 <= i < repo_entries(*repos).len() ==> (#[trigger] r@[i + 1]).name@ == repo_label(
                repo_entries(*repos)[i].1.name@,
            ) && r@[i + 1].value == RepoOption::Select(repo_entries(*repos)[i].1.id),
{
    let mut r: Vec<Opt<RepoOption>> = Vec::new();
    r.push(Opt { name: "New repo...".to_string(), value: RepoOption::New });
    let n = repos_len(repos);
    let mut i: usize = 0;
    while i < n
        invariant
            n == repo_entries(*repos).len(),
            0 <= i <= n,
            r@.len() == i + 1,
            r@[0].name@ == new_repo_label(),
            r@[0].value == RepoOption::New,
            forall|j: int|
                0 <= j < i ==> (#[trigger] r@[j + 1]).name@ == repo_label(repo_entries(*repos)[j].1.name@)
                    && r@[j + 1].value == RepoOption::Select(repo_entries(*repos)[j].1.id),
        decreases n - i,
    {
        match repos_get_index(repos, i) {
            Some((_, repo)) => {
                let prefix = String::from_str("\u{f401} ");
                proof {
                    reveal_strlit("\u{f401} ");
                }
                let label = prefix.concat(repo.name.as_str());
                assert(label@ =~= repo_label(repo.name@));
                r.push(Opt { name: label, value: RepoOption::Select(repo.id) });
            }
            None => {
                proof {
                    assert(false);
                }
            }
        }
        i = i + 1;
    }
    r
}

/// Where keys are distinct, the position of a present key is the one entry
/// that has it.
pub proof fn lemma_key_index_unique(s: Seq<(u128, RepoConfig)>, k: u128, i: int)
    requires
        keys_distinct(s),
        0 <= i < s.len(),
        s[i].0 == k,
    ensures
        key_index(s, k) == i,
{
    assert(has_key(s, k));
    let j = key_index(s, k);
    assert(s[j].0 == k);
}

proof fn lemma_key_index_update(s: Seq<(u128, RepoConfig)>, k: u128, v: RepoConfig)
    requires
        entries_wf(s),
        has_key(s, k),
    ensures
        key_index(s.update(key_index(s, k), (k, v)), k) == key_index(s, k),
{
    let i = key_index(s, k);
    let t = s.update(i, (k, v));
    assert(s[i].0 == k);
    assert(t[i].0 == k);
    assert(keys_distinct(t)) by {
        assert forall|a: int, b: int| 0 <= a < t.len() && 0 <= b < t.len() && a != b implies
            (#[trigger] t[a]).0 != (#[trigger] t[b]).0 by {
            if a != i && b != i {
                assert(s[a].0 != s[b].0);
            } else if a == i {
                assert(s[a].0 != s[b].0);
            } else {
                assert(s[a].0 != s[b].0);
            }
        }
    }
    lemma_key_index_unique(t, k, i);
}

/// Inserting a repository under its own identifier keeps the table
/// well formed.
pub proof fn lemma_inserted_wf(s: Seq<(u128, RepoConfig)>, k: u128, v: RepoConfig)
    requires
        entries_wf(s),
        v.id == k,
    ensures
        entries_wf(inserted(s, k, v)),
{
    let t = inserted(s, k, v);
    if has_key(s, k) {
        let i = key_index(s, k);
        assert(s[i].0 == k);
        assert forall|a: int, b: int| 0 <= a < t.len() && 0 <= b < t.len() && a != b implies
            (#[trigger] t[a]).0 != (#[trigger] t[b]).0 by {
            assert(s[a].0 != s[b].0);
        }
    } else {
        assert forall|a: int, b: int| 0 <= a < t.len() && 0 <= b < t.len() && a != b implies
            (#[trigger] t[a]).0 != (#[trigger] t[b]).0 by {
            if a < s.len() && b < s.len() {
                assert(s[a].0 != s[b].0);
            } else if a < s.len() {
                assert(s[a].0 != k);
            } else {
                assert(s[b].0 != k);
            }
        }
    }
}

/// After an insertion, the key looks up the inserted value.
pub proof fn lemma_lookup_inserted(s: Seq<(u128, RepoConfig)>, k: u128, v: RepoConfig)
    requires
        entries_wf(s),
        v.id == k,
    ensures
        lookup(inserted(s, k, v), k) == Some(v),
{
    lemma_inserted_wf(s, k, v);
    let t = inserted(s, k, v);
    let i = if has_key(s, k) { key_index(s, k) } else { s.len() as int };
    if has_key(s, k) {
        assert(s[key_index(s, k)].0 == k);
    }
    assert(t[i] == (k, v));
    lemma_key_index_unique(t, k, i);
}

} // verus!
