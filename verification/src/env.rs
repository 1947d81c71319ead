//! A model of the worker runtime's environment store: a two-tier mapping
//! from binding names to opaque string values.
//!
//! The runtime distinguishes plain-text *variables* from *secrets*; a
//! binding name can be populated in either tier. The store is read-only
//! from the provider's point of view; the mutators here exist so that the
//! store can be populated before it is handed to a provider.

use vstd::prelude::*;
use vstd::string::StringExecFns;

verus! {

/// The mapping that a sequence of name/value pairs denotes: a later pair
/// with the same name shadows an earlier one.
pub open spec fn pairs_map(s: Seq<(String, String)>) -> Map<Seq<char>, Seq<char>>
    decreases s.len(),
{
    if s.len() == 0 {
        Map::empty()
    } else {
        pairs_map(s.drop_last()).insert(s.last().0@, s.last().1@)
    }
}

/// A two-tier environment store: plain variables and secrets, each a
/// mapping from binding name to string value.
pub struct Env {
    vars: Vec<(String, String)>,
    secrets: Vec<(String, String)>,
}

/// Look `name` up among `pairs`; the latest pair with that name wins.
fn lookup_pairs(pairs: &Vec<(String, String)>, name: &str) -> (r: Option<String>)
    ensures
        match r {
            Some(v) => pairs_map(pairs@).contains_key(name@) && v@ == pairs_map(pairs@)[name@],
            None => !pairs_map(pairs@).contains_key(name@),
        },
{
    let key = String::from_str(name);
    let mut i: usize = pairs.len();
    proof {
        assert(pairs@.take(i as int) =~= pairs@);
    }
    while i > 0
        invariant
            i <= pairs@.len(),
            key@ == name@,
            pairs_map(pairs@).contains_key(name@) == pairs_map(pairs@.take(i as int)).contains_key(
                name@,
            ),
            pairs_map(pairs@).contains_key(name@) ==> pairs_map(pairs@)[name@] == pairs_map(
                pairs@.take(i as int),
            )[name@],
        decreases i,
    {
        i = i - 1;
        proof {
            assert(pairs@.take(i + 1).drop_last() =~= pairs@.take(i as int));
            assert(pairs@.take(i + 1).last() == pairs@[i as int]);
        }
        if pairs[i].0 == key {
            return Some(pairs[i].1.clone());
        }
    }
    proof {
        assert(pairs@.take(0) =~= Seq::<(String, String)>::empty());
    }
    None
}

impl Env {
    /// The plain-variable tier, as a mapping from binding name to value.
    pub closed spec fn vars_map(&self) -> Map<Seq<char>, Seq<char>> {
        pairs_map(self.vars@)
    }

    /// The secret tier, as a mapping from binding name to value.
    pub closed spec fn secrets_map(&self) -> Map<Seq<char>, Seq<char>> {
        pairs_map(self.secrets@)
    }

    /// An empty store: no variables, no secrets.
    pub fn new() -> (e: Env)
        ensures
            e.vars_map() == Map::<Seq<char>, Seq<char>>::empty(),
            e.secrets_map() == Map::<Seq<char>, Seq<char>>::empty(),
    {
        Env { vars: Vec::new(), secrets: Vec::new() }
    }

    /// Populate a plain variable; a later value for the same name replaces
    /// an earlier one. The secret tier is untouched.
    pub fn add_var(&mut self, name: String, value: String)
        ensures
            final(self).vars_map() == old(self).vars_map().insert(name@, value@),
            final(self).secrets_map() == old(self).secrets_map(),
    {
        let ghost before = self.vars@;
        self.vars.push((name, value));
        proof {
            assert(self.vars@.drop_last() =~= before);
        }
    }

    /// Populate a secret; a later value for the same name replaces an
    /// earlier one. The plain-variable tier is untouched.
    pub fn add_secret(&mut self, name: String, value: String)
        ensures
            final(self).secrets_map() == old(self).secrets_map().insert(name@, value@),
            final(self).vars_map() == old(self).vars_map(),
    {
        let ghost before = self.secrets@;
        self.secrets.push((name, value));
        proof {
            assert(self.secrets@.drop_last() =~= before);
        }
    }

    /// Look a binding name up in the plain-variable tier.
    pub fn var(&self, name: &str) -> (r: Option<String>)
        ensures
            match r {
                Some(v) => self.vars_map().contains_key(name@) && v@ == self.vars_map()[name@],
                None => !self.vars_map().contains_key(name@),
            },
    {
        lookup_pairs(&self.vars, name)
    }

    /// Look a binding name up in the secret tier.
    pub fn secret(&self, name: &str) -> (r: Option<String>)
        ensures
            match r {
                Some(v) => self.secrets_map().contains_key(name@) && v@
                    == self.secrets_map()[name@],
                None => !self.secrets_map().contains_key(name@),
            },
    {
        lookup_pairs(&self.secrets, name)
    }
}

} // verus!
