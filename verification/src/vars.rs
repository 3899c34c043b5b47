//! The template variable set: named string variables, built incrementally.

use vstd::prelude::*;
use crate::strutil::str_eq;

verus! {

/// A set of named template variables. Later insertions shadow earlier ones
/// with the same name.
pub struct VarSet {
    entries: Vec<(String, String)>,
}

impl View for VarSet {
    type V = Seq<(Seq<char>, Seq<char>)>;

    closed spec fn view(&self) -> Seq<(Seq<char>, Seq<char>)> {
        self.entries@.map(|i: int, e: (String, String)| (e.0@, e.1@))
    }
}

/// The base template variables of every operation: `repo`, `token` and
/// `channel`.
pub fn base_vars(repo: &str, token: &str, channel: &str) -> (v: VarSet)
    ensures
        v@ =~= seq![("repo"@, repo@), ("token"@, token@), ("channel"@, channel@)],
{
    let mut v = VarSet::new();
    v.insert("repo", repo);
    v.insert("token", token);
    v.insert("channel", channel);
    proof {
        assert(v@ =~= seq![("repo"@, repo@), ("token"@, token@), ("channel"@, channel@)]);
    }
    v
}

/// The binding of `name` among `entries`, with the latest entry winning.
pub open spec fn spec_lookup(entries: Seq<(Seq<char>, Seq<char>)>, name: Seq<char>) -> Option<
    Seq<char>,
>
    decreases entries.len(),
{
    if entries.len() == 0 {
        None
    } else if entries.last().0 == name {
        Some(entries.last().1)
    } else {
        spec_lookup(entries.drop_last(), name)
    }
}

impl VarSet {
    /// An empty variable set.
    pub fn new() -> (v: VarSet)
        ensures
            v@ =~= Seq::<(Seq<char>, Seq<char>)>::empty(),
    {
        VarSet { entries: Vec::new() }
    }

    /// Binds `name` to `value`, shadowing any earlier binding of `name`.
    pub fn insert(&mut self, name: &str, value: &str)
        ensures
            final(self)@ =~= old(self)@.push((name@, value@)),
    {
        let pair = (name.to_owned(), value.to_owned());
        self.entries.push(pair);
    }

    /// A copy of this variable set.
    pub fn duplicate(&self) -> (v: VarSet)
        ensures
            v@ == self@,
    {
        let mut out: Vec<(String, String)> = Vec::new();
        let mut i: usize = 0;
        while i < self.entries.len()
            invariant
                i <= self.entries@.len(),
                out@.len() == i,
                forall|k: int|
                    0 <= k < i ==> (#[trigger] out@[k].0)@ == self.entries@[k].0@ && out@[k].1@
                        == self.entries@[k].1@,
            decreases self.entries@.len() - i,
        {
            let name = self.entries[i].0.clone();
            let value = self.entries[i].1.clone();
            out.push((name, value));
            i = i + 1;
        }
        let v = VarSet { entries: out };
        proof {
            assert(v@ =~= self@);
        }
        v
    }

    /// The value bound to `name`, if any; the latest binding wins.
    pub fn lookup<'a>(&'a self, name: &str) -> (r: Option<&'a String>)
        ensures
            match r {
                Some(v) => spec_lookup(self@, name@) == Some(v@),
                None => spec_lookup(self@, name@) is None,
            },
    {
        let mut i: usize = self.entries.len();
        proof {
            assert(self@.take(self.entries@.len() as int) =~= self@);
        }
        while i > 0
            invariant
                i <= self.entries@.len(),
                spec_lookup(self@, name@) == spec_lookup(self@.take(i as int), name@),
            decreases i,
        {
            i = i - 1;
            proof {
                assert(self@.take(i as int + 1).drop_last() =~= self@.take(i as int));
                assert(self@.take(i as int + 1).last() == self@[i as int]);
                assert(self@[i as int] == (self.entries@[i as int].0@, self.entries@[i as int].1@));
            }
            if str_eq(self.entries[i].0.as_str(), name) {
                return Some(&self.entries[i].1);
            }
        }
        proof {
            assert(self@.take(0) =~= Seq::<(Seq<char>, Seq<char>)>::empty());
        }
        None
    }
}

} // verus!
