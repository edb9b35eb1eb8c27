//! The typestate engine's product state machine: one binary state per
//! mandatory unified field, `Missing` or `Exists`. The generated builder
//! encodes this machine in phantom type parameters; this module is the
//! machine itself, with the transition discipline the generated text
//! enforces: a setter moves exactly one field to `Exists`, and the
//! finalize conversion exists only at the all-`Exists` instantiation.

use vstd::prelude::*;
use crate::builder::{
    spec_generics, spec_required, spec_struct_fields, ApiObjectBuilderV, GenericsMode,
};

verus! {

/// The state of one mandatory field.
#[derive(Clone, Copy, Debug, PartialEq, Eq, Structural)]
pub enum FieldState {
    Missing,
    Exists,
}

/// Whether every mandatory field has been set: the terminal, accepting
/// state from which alone the finalize conversion is available.
pub open spec fn all_exists(s: Seq<FieldState>) -> bool {
    forall|i: int| 0 <= i < s.len() ==> s[i] == FieldState::Exists
}

/// The state after invoking the setter of mandatory field `i`.
pub open spec fn spec_advance(s: Seq<FieldState>, i: int) -> Seq<FieldState> {
    s.update(i, FieldState::Exists)
}

/// The construction progress of one builder value: the state of each
/// mandatory unified field, in unified-field order.
#[derive(Debug)]
pub struct BuilderState {
    pub states: Vec<FieldState>,
}

impl BuilderState {
    /// The initial state of a builder with `n` mandatory fields: every
    /// one of them `Missing`.
    pub fn initial(n: usize) -> (r: Self)
        ensures
            r.states@.len() == n,
            forall|i: int| 0 <= i < n ==> r.states@[i] == FieldState::Missing,
    {
        let mut states: Vec<FieldState> = Vec::new();
        let mut i: usize = 0;
        while i < n
            invariant
                i <= n,
                states@.len() == i,
                forall|j: int| 0 <= j < i ==> states@[j] == FieldState::Missing,
            decreases n - i,
        {
            states.push(FieldState::Missing);
            i = i + 1;
        }
        BuilderState { states }
    }

    /// Whether the finalize operation is available: true exactly when
    /// every mandatory field's state is `Exists`.
    pub fn finalizable(&self) -> (r: bool)
        ensures
            r == all_exists(self.states@),
    {
        let mut i: usize = 0;
        while i < self.states.len()
            invariant
                i <= self.states@.len(),
                forall|j: int| 0 <= j < i ==> self.states@[j] == FieldState::Exists,
            decreases self.states@.len() - i,
        {
            let hit = match self.states[i] {
                FieldState::Exists => true,
                FieldState::Missing => false,
            };
            if !hit {
                return false;
            }
            i = i + 1;
        }
        true
    }

    /// The state after calling the setter of mandatory field `i`: that
    /// field becomes `Exists` and every other field is carried over.
    pub fn advance(&self, i: usize) -> (r: Self)
        requires
            i < self.states@.len(),
        ensures
            r.states@ == spec_advance(self.states@, i as int),
    {
        let mut states: Vec<FieldState> = Vec::new();
        let mut j: usize = 0;
        while j < self.states.len()
            invariant
                j <= self.states@.len(),
                i < self.states@.len(),
                states@.len() == j,
                forall|k: int| 0 <= k < j && k != i ==> states@[k] == self.states@[k],
                i < j ==> states@[i as int] == FieldState::Exists,
            decreases self.states@.len() - j,
        {
            if j == i {
                states.push(FieldState::Exists);
            } else {
                states.push(self.states[j]);
            }
            j = j + 1;
        }
        assert(states@ =~= spec_advance(self.states@, i as int));
        BuilderState { states }
    }
}

/// A builder with zero mandatory fields carries no phantom type
/// parameters — its generic-parameter text is empty under every
/// instantiation — and its initial state is already accepting: it is
/// finalizable immediately after construction.
pub proof fn lemma_zero_mandatory_immediately_finalizable(b: ApiObjectBuilderV, s: Seq<FieldState>)
    requires
        spec_required(spec_struct_fields(b)).len() == 0,
        s.len() == spec_required(spec_struct_fields(b)).len(),
    ensures
        spec_generics(b, GenericsMode::Generic) == Seq::<char>::empty(),
        spec_generics(b, GenericsMode::ReplaceAll) == Seq::<char>::empty(),
        spec_generics(b, GenericsMode::ChangeAll) == Seq::<char>::empty(),
        all_exists(s),
{
}

/// Calling the setter of mandatory field `i` strictly advances that
/// field's state from `Missing` to `Exists` and leaves every other
/// field's state unchanged.
pub proof fn lemma_setter_advances(s: Seq<FieldState>, i: int)
    requires
        0 <= i < s.len(),
    ensures
        spec_advance(s, i).len() == s.len(),
        spec_advance(s, i)[i] == FieldState::Exists,
        s[i] == FieldState::Missing ==> spec_advance(s, i)[i] != s[i],
        forall|j: int| 0 <= j < s.len() && j != i ==> spec_advance(s, i)[j] == s[j],
{
}

/// Setters never lose progress: once every mandatory field is `Exists`,
/// it stays so under any further setter call.
pub proof fn lemma_advance_preserves_accepting(s: Seq<FieldState>, i: int)
    requires
        0 <= i < s.len(),
        all_exists(s),
    ensures
        all_exists(spec_advance(s, i)),
{
    assert forall|j: int| 0 <= j < spec_advance(s, i).len() implies spec_advance(s, i)[j]
        == FieldState::Exists by {
        if j != i {
            assert(s[j] == FieldState::Exists);
        }
    }
}

} // verus!
