//! The policy under which a function is rewritten.

use vstd::prelude::*;

use crate::text::{listed, texts};

verus! {

/// A policy, as the rewriting reads it: three sets of names and a switch.
pub struct Policy {
    /// The containers whose element accesses are left as they are.
    pub exclude: Set<Seq<char>>,
    /// The receivers whose `unwrap` calls are left as they are.
    pub unwrap_exclude: Set<Seq<char>>,
    /// The methods and fields that need write access to the element they are
    /// applied to.
    pub mut_access: Set<Seq<char>>,
    /// Whether `unwrap` calls are rewritten at all.
    pub unwrap: bool,
}

/// The arguments of the attribute: the policy of one rewriting. It does not
/// change while a function is rewritten.
///
/// The two lists of exempt names are kept as sets: no name stands twice in
/// either.
#[derive(Debug)]
pub struct Args {
    exclude: Vec<String>,
    unwrap_exclude: Vec<String>,
    mut_access: Vec<String>,
    unwrap: bool,
}

impl Args {
    #[verifier::type_invariant]
    spec fn sets(self) -> bool {
        texts(self.exclude@).no_duplicates() && texts(self.unwrap_exclude@).no_duplicates()
    }
}

impl View for Args {
    type V = Policy;

    closed spec fn view(&self) -> Policy {
        Policy {
            exclude: texts(self.exclude@).to_set(),
            unwrap_exclude: texts(self.unwrap_exclude@).to_set(),
            mut_access: texts(self.mut_access@).to_set(),
            unwrap: self.unwrap,
        }
    }
}

/// The policy under which nothing is exempt, no method or field needs write
/// access, and `unwrap` calls are rewritten.
pub open spec fn empty_policy() -> Policy {
    Policy {
        exclude: Set::empty(),
        unwrap_exclude: Set::empty(),
        mut_access: Set::empty(),
        unwrap: true,
    }
}

impl Args {
    /// The policy under which nothing is exempt.
    pub fn empty() -> (args: Args)
        ensures
            args@ == empty_policy(),
    {
        let args = Args {
            exclude: Vec::new(),
            unwrap_exclude: Vec::new(),
            mut_access: Vec::new(),
            unwrap: true,
        };
        assert(args@.exclude =~= Set::empty());
        assert(args@.unwrap_exclude =~= Set::empty());
        assert(args@.mut_access =~= Set::empty());
        args
    }

    /// The same policy with the element accesses on the container `name`
    /// exempt.
    pub fn exclude(self, name: String) -> (args: Args)
        ensures
            args@ == (Policy { exclude: self@.exclude.insert(name@), ..self@ }),
    {
        proof {
            use_type_invariant(&self);
        }
        let mut exclude = self.exclude;
        if listed(&exclude, &name) {
            assert(self@.exclude.insert(name@) =~= self@.exclude);
        } else {
            proof {
                lemma_pushed(exclude@, name);
            }
            exclude.push(name);
        }
        Args {
            exclude,
            unwrap_exclude: self.unwrap_exclude,
            mut_access: self.mut_access,
            unwrap: self.unwrap,
        }
    }

    /// The same policy with the `unwrap` calls on the receiver `name` exempt.
    pub fn exclude_unwrap(self, name: String) -> (args: Args)
        ensures
            args@ == (Policy { unwrap_exclude: self@.unwrap_exclude.insert(name@), ..self@ }),
    {
        proof {
            use_type_invariant(&self);
        }
        let mut unwrap_exclude = self.unwrap_exclude;
        if listed(&unwrap_exclude, &name) {
            assert(self@.unwrap_exclude.insert(name@) =~= self@.unwrap_exclude);
        } else {
            proof {
                lemma_pushed(unwrap_exclude@, name);
            }
            unwrap_exclude.push(name);
        }
        Args {
            exclude: self.exclude,
            unwrap_exclude,
            mut_access: self.mut_access,
            unwrap: self.unwrap,
        }
    }

    /// The same policy with write access for the method or field `name` to
    /// the element that it is applied to.
    pub fn mut_access(self, name: String) -> (args: Args)
        ensures
            args@ == (Policy { mut_access: self@.mut_access.insert(name@), ..self@ }),
    {
        proof {
            use_type_invariant(&self);
            lemma_pushed(self.mut_access@, name);
        }
        let mut mut_access = self.mut_access;
        mut_access.push(name);
        Args {
            exclude: self.exclude,
            unwrap_exclude: self.unwrap_exclude,
            mut_access,
            unwrap: self.unwrap,
        }
    }

    /// Whether element accesses on the container `name` are left as they are.
    pub fn excludes(&self, name: &String) -> (found: bool)
        ensures
            found == self@.exclude.contains(name@),
    {
        listed(&self.exclude, name)
    }

    /// Whether `unwrap` calls on the receiver `name` are left as they are.
    pub fn excludes_unwrap(&self, name: &String) -> (found: bool)
        ensures
            found == self@.unwrap_exclude.contains(name@),
    {
        listed(&self.unwrap_exclude, name)
    }

    /// Whether the method or field `name` needs write access to the element
    /// it is applied to.
    pub fn is_mut_access(&self, name: &String) -> (found: bool)
        ensures
            found == self@.mut_access.contains(name@),
    {
        listed(&self.mut_access, name)
    }

    /// Whether `unwrap` calls are rewritten at all.
    pub fn rewrites_unwrap(&self) -> (on: bool)
        ensures
            on == self@.unwrap,
    {
        self.unwrap
    }

    /// The same policy with the rewriting of `unwrap` calls switched on or
    /// off.
    pub fn with_unwrap(self, on: bool) -> (args: Args)
        ensures
            args@ == (Policy { unwrap: on, ..self@ }),
    {
        proof {
            use_type_invariant(&self);
        }
        Args {
            exclude: self.exclude,
            unwrap_exclude: self.unwrap_exclude,
            mut_access: self.mut_access,
            unwrap: on,
        }
    }
}

proof fn lemma_pushed(list: Seq<String>, name: String)
    ensures
        texts(list.push(name)).to_set() == texts(list).to_set().insert(name@),
        texts(list).no_duplicates() && !texts(list).contains(name@) ==> texts(
            list.push(name),
        ).no_duplicates(),
{
    let before = texts(list);
    let after = texts(list.push(name));
    assert(after =~= before.push(name@));
    assert forall|n: Seq<char>| after.to_set().contains(n) == before.to_set().insert(
        name@,
    ).contains(n) by {
        if before.contains(n) {
            let i = choose|i: int| 0 <= i < before.len() && before[i] == n;
            assert(after[i] == n);
        }
        if n == name@ {
            assert(after[before.len() as int] == n);
        }
    }
    assert(after.to_set() =~= before.to_set().insert(name@));
}

} // verus!
