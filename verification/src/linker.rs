//! The capability linker: binds host-implemented capabilities (logging,
//! network egress, environment shims) to the names the interface contract
//! expects, once at startup, shared by every later instantiation.
//! Registration is idempotent, and a required capability with no binding is
//! rejected fast at startup — a fatal error, not a per-instance one.

use vstd::prelude::*;

verus! {

/// A required capability that no registered binding satisfies.
#[derive(Debug)]
pub struct LinkerSetupError {
    pub missing: String,
}

/// The capability linker, as the set of interface names a host binding has
/// been registered under.
pub struct Linker {
    registered: Vec<String>,
}

impl Linker {
    /// The names under which a host capability is bound.
    pub closed spec fn names(self) -> Set<Seq<char>> {
        self.registered.deep_view().to_set()
    }

    /// A linker with no bindings yet.
    pub fn new() -> (l: Linker)
        ensures
            l.names() =~= Set::<Seq<char>>::empty(),
    {
        let l = Linker { registered: Vec::new() };
        proof {
            assert(l.registered.deep_view() =~= Seq::<Seq<char>>::empty());
            assert(l.names() =~= Set::<Seq<char>>::empty());
        }
        l
    }

    /// Whether a host binding is registered under `name`.
    pub fn is_bound(&self, name: &String) -> (r: bool)
        ensures
            r == self.names().contains(name@),
    {
        let n = self.registered.len();
        let mut i: usize = 0;
        while i < n
            invariant
                n == self.registered.len(),
                i <= n,
                forall|j: int| 0 <= j < i ==> self.registered.deep_view()[j] != name@,
            decreases n - i,
        {
            if self.registered[i] == *name {
                proof {
                    assert(self.registered.deep_view()[i as int] == name@);
                    assert(self.registered.deep_view().contains(name@));
                }
                return true;
            }
            i += 1;
        }
        proof {
            assert(forall|j: int|
                0 <= j < self.registered.deep_view().len()
                    ==> self.registered.deep_view()[j] != name@);
            assert(!self.registered.deep_view().contains(name@));
        }
        false
    }

    /// Binds a host capability under `name`. Idempotent: a name that is
    /// already bound leaves the linker exactly as it is.
    pub fn register(&mut self, name: String)
        ensures
            final(self).names() =~= old(self).names().insert(name@),
    {
        if self.is_bound(&name) {
            proof {
                assert(self.names() =~= self.names().insert(name@));
            }
        } else {
            let ghost pre = self.registered.deep_view();
            self.registered.push(name);
            proof {
                assert(self.registered.deep_view() =~= pre.push(name@));
                pre.lemma_push_to_set_commute(name@);
            }
        }
    }

    /// Checks the interface contract against the bindings: succeeds exactly
    /// when every required name is bound, and otherwise fails fast, naming
    /// the first required capability with no binding.
    pub fn require_all(&self, required: &Vec<String>) -> (r: Result<(), LinkerSetupError>)
        ensures
            (match r {
                Ok(()) => forall|j: int|
                    0 <= j < required.deep_view().len() ==> self.names().contains(
                        required.deep_view()[j],
                    ),
                Err(e) => !self.names().contains(e.missing@) && required.deep_view().contains(
                    e.missing@,
                ),
            }),
    {
        let n = required.len();
        let mut i: usize = 0;
        while i < n
            invariant
                n == required.len(),
                i <= n,
                forall|j: int| 0 <= j < i ==> self.names().contains(required.deep_view()[j]),
            decreases n - i,
        {
            if !self.is_bound(&required[i]) {
                let missing = required[i].clone();
                proof {
                    assert(required.deep_view()[i as int] == missing@);
                    assert(required.deep_view().contains(missing@));
                }
                return Err(LinkerSetupError { missing });
            }
            proof {
                assert(self.names().contains(required.deep_view()[i as int]));
            }
            i += 1;
        }
        Ok(())
    }
}

/// Registering a capability is idempotent: binding the same name a second
/// time leaves the set of bound names exactly as after the first binding.
pub proof fn lemma_register_idempotent(names: Set<Seq<char>>, name: Seq<char>)
    ensures
        names.insert(name).insert(name) =~= names.insert(name),
{
}

} // verus!
