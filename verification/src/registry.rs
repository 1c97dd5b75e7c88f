//! Registration of player identifiers, kept unique and in registration order.

use vstd::prelude::*;

verus! {

/// Registration was refused: the candidate identifier is already taken.
#[derive(Clone, Copy, PartialEq, Eq, Structural, Debug)]
pub struct DuplicateNameError;

/// No identifier occurs twice in the sequence.
pub open spec fn distinct(s: Seq<char>) -> bool {
    forall|i: int, j: int| 0 <= i < j < s.len() ==> s[i] != s[j]
}

/// The registered players, in registration order. Identifiers are unique:
/// `register` refuses a candidate that is already present, so the sequence
/// stays distinct after any run of registrations.
pub struct PlayerRegistry {
    players: Vec<char>,
}

impl View for PlayerRegistry {
    type V = Seq<char>;

    closed spec fn view(&self) -> Seq<char> {
        self.players@
    }
}

impl PlayerRegistry {
    /// All registered identifiers are pairwise distinct.
    pub open spec fn wf(&self) -> bool {
        distinct(self@)
    }

    /// Creates an empty registry.
    pub fn new() -> (r: PlayerRegistry)
        ensures
            r@.len() == 0,
            r.wf(),
    {
        PlayerRegistry { players: Vec::new() }
    }

    /// How many players are registered.
    pub fn len(&self) -> (n: usize)
        ensures
            n == self@.len(),
    {
        self.players.len()
    }

    /// Whether `candidate` is already registered.
    pub fn contains(&self, candidate: char) -> (r: bool)
        ensures
            r == self@.contains(candidate),
    {
        let n = self.players.len();
        let mut i: usize = 0;
        while i < n
            invariant
                n == self@.len(),
                i <= n,
                forall|j: int| 0 <= j < i ==> self@[j] != candidate,
            decreases n - i,
        {
            if self.players[i] == candidate {
                assert(self@.contains(candidate));
                return true;
            }
            i = i + 1;
        }
        assert(!self@.contains(candidate));
        false
    }

    /// The identifier registered at position `i`.
    pub fn player_at(&self, i: usize) -> (p: char)
        requires
            i < self@.len(),
        ensures
            p == self@[i as int],
    {
        self.players[i]
    }

    /// Registers `candidate`.
    ///
    /// A candidate that is already present is refused and the registry is
    /// unchanged; a fresh candidate is appended. Either way the identifiers
    /// stay pairwise distinct.
    pub fn register(&mut self, candidate: char) -> (r: Result<(), DuplicateNameError>)
        requires
            old(self).wf(),
        ensures
            final(self).wf(),
            r is Ok <==> !old(self)@.contains(candidate),
            r is Ok ==> final(self)@ == old(self)@.push(candidate),
            r is Err ==> final(self)@ == old(self)@,
    {
        if self.contains(candidate) {
            Err(DuplicateNameError)
        } else {
            self.players.push(candidate);
            proof {
                let s = self@;
                let s0 = old(self)@;
                assert(s == s0.push(candidate));
                assert forall|i: int, j: int| 0 <= i < j < s.len() implies s[i] != s[j] by {
                    if j < s0.len() {
                        assert(s[i] == s0[i] && s[j] == s0[j]);
                    } else {
                        assert(s[j] == candidate);
                        assert(s[i] == s0[i]);
                        assert(s0.contains(s0[i]));
                    }
                }
            }
            Ok(())
        }
    }
}

/// After any sequence of accepted registrations the registry never holds two
/// equal identifiers: any two positions hold different players.
pub proof fn lemma_registry_distinct(reg: &PlayerRegistry, i: int, j: int)
    requires
        reg.wf(),
        0 <= i < reg@.len(),
        0 <= j < reg@.len(),
        i != j,
    ensures
        reg@[i] != reg@[j],
{
    if i < j {
        assert(reg@[i] != reg@[j]);
    } else {
        assert(reg@[j] != reg@[i]);
    }
}

} // verus!
