use vstd::prelude::*;

use crate::config::FlakeHubPushCli;
use crate::sentinel::text_is;

verus! {

/// A set of environment variables, handed in rather than read from the
/// process. A later entry for a name hides an earlier one.
#[derive(Clone, Debug)]
pub struct EnvVars {
    pub entries: Vec<(String, String)>,
}

/// The value of the last entry named `key`.
pub open spec fn lookup(entries: Seq<(String, String)>, key: Seq<char>) -> Option<Seq<char>>
    decreases entries.len(),
{
    if entries.len() == 0 {
        None
    } else if entries.last().0@ == key {
        Some(entries.last().1@)
    } else {
        lookup(entries.drop_last(), key)
    }
}

impl EnvVars {
    /// No variables at all.
    pub fn new() -> (r: EnvVars)
        ensures
            r.entries@.len() == 0,
    {
        EnvVars { entries: Vec::new() }
    }

    /// Sets `key` to `value`, hiding any earlier value.
    pub fn set(&mut self, key: &str, value: &str)
        ensures
            forall|k: Seq<char>| #[trigger]
                lookup(final(self).entries@, k) == if k == key@ {
                    Some(value@)
                } else {
                    lookup(old(self).entries@, k)
                },
    {
        self.entries.push((key.to_owned(), value.to_owned()));
        assert forall|k: Seq<char>| #[trigger]
            lookup(self.entries@, k) == if k == key@ {
                Some(value@)
            } else {
                lookup(old(self).entries@, k)
            } by {
            assert(self.entries@.drop_last() =~= old(self).entries@);
        }
    }

    /// The value of `key`, if it is set.
    pub fn get(&self, key: &str) -> (r: Option<String>)
        ensures
            match r {
                Some(v) => lookup(self.entries@, key@) == Some(v@),
                None => lookup(self.entries@, key@) is None,
            },
    {
        let mut i: usize = self.entries.len();
        assert(self.entries@.take(i as int) =~= self.entries@);
        while i > 0
            invariant
                i <= self.entries@.len(),
                lookup(self.entries@, key@) == lookup(self.entries@.take(i as int), key@),
            decreases i,
        {
            let ghost pre = self.entries@.take(i as int);
            assert(pre.drop_last() =~= self.entries@.take(i - 1));
            if text_is(self.entries[i - 1].0.as_str(), key) {
                return Some(self.entries[i - 1].1.clone());
            }
            i = i - 1;
        }
        None
    }
}

/// The CI platform whose runner variables may fill unset fields.
#[derive(Clone, Copy, Debug, PartialEq, Eq)]
pub enum Platform {
    /// Not running under a known CI platform: nothing is filled.
    Local,
    GitHub,
    GitLab,
}

/// The variables that a platform's runner sets for the git root, the
/// repository and the tag, in that order.
pub open spec fn platform_vars(p: Platform) -> Option<(Seq<char>, Seq<char>, Seq<char>)> {
    match p {
        Platform::Local => None,
        Platform::GitHub => Some(("GITHUB_WORKSPACE"@, "GITHUB_REPOSITORY"@, "GITHUB_REF_NAME"@)),
        Platform::GitLab => Some(("CI_PROJECT_DIR"@, "CI_PROJECT_ID"@, "CI_COMMIT_REF_NAME"@)),
    }
}

/// A field keeps its value; an unset one takes what was found, if anything.
pub open spec fn fill(cur: Option<Seq<char>>, found: Option<Seq<char>>) -> Option<Seq<char>> {
    if cur is Some {
        cur
    } else {
        found
    }
}

/// The fields that backfill may fill: git root, repository, tag.
pub open spec fn fillable(c: FlakeHubPushCli) -> (
    Option<Seq<char>>,
    Option<Seq<char>>,
    Option<Seq<char>>,
) {
    (c.git_root@, c.repository@, c.tag@)
}

/// The fillable fields after backfill from a platform's variables.
pub open spec fn backfilled(
    f: (Option<Seq<char>>, Option<Seq<char>>, Option<Seq<char>>),
    p: Platform,
    env: Seq<(String, String)>,
) -> (Option<Seq<char>>, Option<Seq<char>>, Option<Seq<char>>) {
    match platform_vars(p) {
        None => f,
        Some(names) => (
            fill(f.0, lookup(env, names.0)),
            fill(f.1, lookup(env, names.1)),
            fill(f.2, lookup(env, names.2)),
        ),
    }
}

/// Every field but the fillable ones is the same in `a` and `b`.
pub open spec fn same_unfillable(a: FlakeHubPushCli, b: FlakeHubPushCli) -> bool {
    &&& a.host == b.host
    &&& a.visibility == b.visibility
    &&& a.rolling_minor == b.rolling_minor
    &&& a.rolling == b.rolling
    &&& a.github_token == b.github_token
    &&& a.name == b.name
    &&& a.directory == b.directory
    &&& a.mirror == b.mirror
    &&& a.jwt_issuer_uri == b.jwt_issuer_uri
    &&& a.extra_labels == b.extra_labels
    &&& a.extra_tags == b.extra_tags
    &&& a.spdx_expression == b.spdx_expression
    &&& a.error_on_conflict == b.error_on_conflict
    &&& a.include_output_paths == b.include_output_paths
}

pub open spec fn opt_text(o: Option<String>) -> Option<Seq<char>> {
    match o {
        Some(s) => Some(s@),
        None => None,
    }
}

/// Fills an unset slot from the variable `key`, if it is set.
fn fill_slot(slot: &mut Option<String>, env: &EnvVars, key: &str)
    ensures
        opt_text(*final(slot)) == fill(opt_text(*old(slot)), lookup(env.entries@, key@)),
{
    if slot.is_none() {
        *slot = env.get(key);
    }
}

impl FlakeHubPushCli {
    /// Fills the git root, the repository and the tag, where they are still
    /// unset, from the variables that `platform`'s runner sets. A field that
    /// holds a value keeps it; nothing else changes.
    pub fn backfill(&mut self, platform: Platform, env: &EnvVars)
        ensures
            fillable(*final(self)) == backfilled(fillable(*old(self)), platform, env.entries@),
            same_unfillable(*old(self), *final(self)),
    {
        match platform {
            Platform::Local => {},
            Platform::GitHub => {
                fill_slot(&mut self.git_root.0, env, "GITHUB_WORKSPACE");
                fill_slot(&mut self.repository.0, env, "GITHUB_REPOSITORY");
                fill_slot(&mut self.tag.0, env, "GITHUB_REF_NAME");
            },
            Platform::GitLab => {
                fill_slot(&mut self.git_root.0, env, "CI_PROJECT_DIR");
                fill_slot(&mut self.repository.0, env, "CI_PROJECT_ID");
                fill_slot(&mut self.tag.0, env, "CI_COMMIT_REF_NAME");
            },
        }
    }

    /// Backfill from a GitHub Actions runner's variables.
    pub fn backfill_from_github_env(&mut self, env: &EnvVars)
        ensures
            fillable(*final(self)) == backfilled(
                fillable(*old(self)),
                Platform::GitHub,
                env.entries@,
            ),
            same_unfillable(*old(self), *final(self)),
    {
        self.backfill(Platform::GitHub, env)
    }

    /// Backfill from a GitLab CI runner's variables.
    pub fn backfill_from_gitlab_env(&mut self, env: &EnvVars)
        ensures
            fillable(*final(self)) == backfilled(
                fillable(*old(self)),
                Platform::GitLab,
                env.entries@,
            ),
            same_unfillable(*old(self), *final(self)),
    {
        self.backfill(Platform::GitLab, env)
    }
}

/// Backfill is idempotent: a second pass from the same variables changes
/// nothing that the first pass left.
pub proof fn backfill_idempotent(
    f: (Option<Seq<char>>, Option<Seq<char>>, Option<Seq<char>>),
    p: Platform,
    env: Seq<(String, String)>,
)
    ensures
        backfilled(backfilled(f, p, env), p, env) == backfilled(f, p, env),
{
}

/// Backfill never overwrites: a field that holds a value keeps it, whatever
/// the variables hold.
pub proof fn backfill_keeps_set_fields(
    f: (Option<Seq<char>>, Option<Seq<char>>, Option<Seq<char>>),
    p: Platform,
    env: Seq<(String, String)>,
)
    ensures
        f.0 is Some ==> backfilled(f, p, env).0 == f.0,
        f.1 is Some ==> backfilled(f, p, env).1 == f.1,
        f.2 is Some ==> backfilled(f, p, env).2 == f.2,
{
}

} // verus!
