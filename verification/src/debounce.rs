//! The set of inputs that are held down.
//!
//! An input is held from the moment its press is decided until its release has
//! been retired. While it is held no action that needs it may start, so that a
//! late release never lets go of a key that a newer trigger relies on.
use vstd::prelude::*;
use crate::input::Input;

verus! {

/// Whether none of `inputs` is in `held`.
pub open spec fn all_free(held: Set<Input>, inputs: Seq<Input>) -> bool {
    forall|i: int| 0 <= i < inputs.len() ==> !held.contains(#[trigger] inputs[i])
}

/// The held set after an attempt to take `inputs`: all of them join it where
/// all were free, and nothing changes where one was held.
pub open spec fn acquired(held: Set<Input>, inputs: Seq<Input>) -> Set<Input> {
    if all_free(held, inputs) {
        held.union(inputs.to_set())
    } else {
        held
    }
}

/// The inputs that are currently held. Its view is the set of them.
pub struct DebounceTracker {
    held: Vec<Input>,
}

impl View for DebounceTracker {
    type V = Set<Input>;

    closed spec fn view(&self) -> Set<Input> {
        self.held@.to_set()
    }
}

impl DebounceTracker {
    /// No input is listed twice.
    #[verifier::type_invariant]
    spec fn listed_once(&self) -> bool {
        self.held@.no_duplicates()
    }

    /// A tracker with nothing held.
    pub fn new() -> (tracker: Self)
        ensures
            tracker@ == Set::<Input>::empty(),
    {
        let tracker = DebounceTracker { held: Vec::new() };
        tracker
    }

    /// Whether `input` is held.
    pub fn is_held(&self, input: Input) -> (held: bool)
        ensures
            held == self@.contains(input),
    {
        self.position(input).is_some()
    }

    fn position(&self, input: Input) -> (at: Option<usize>)
        ensures
            match at {
                Some(i) => i < self.held@.len() && self.held@[i as int] == input,
                None => !self.held@.contains(input),
            },
    {
        let mut i: usize = 0;
        while i < self.held.len()
            invariant
                i <= self.held@.len(),
                forall|j: int| 0 <= j < i ==> self.held@[j] != input,
            decreases self.held@.len() - i,
        {
            if self.held[i] == input {
                return Some(i);
            }
            i += 1;
        }
        None
    }

    /// Whether none of `inputs` is held.
    pub fn all_free(&self, inputs: &[Input]) -> (free: bool)
        ensures
            free == all_free(self@, inputs@),
    {
        let mut i: usize = 0;
        while i < inputs.len()
            invariant
                i <= inputs@.len(),
                forall|j: int| 0 <= j < i ==> !self@.contains(#[trigger] inputs@[j]),
            decreases inputs@.len() - i,
        {
            if self.is_held(inputs[i]) {
                return false;
            }
            i += 1;
        }
        true
    }

    /// Takes all of `inputs` where none of them is held, and nothing otherwise.
    /// Returns whether they were taken.
    pub fn try_acquire(&mut self, inputs: &[Input]) -> (taken: bool)
        ensures
            taken == all_free(old(self)@, inputs@),
            final(self)@ == acquired(old(self)@, inputs@),
    {
        if !self.all_free(inputs) {
            return false;
        }
        let mut i: usize = 0;
        while i < inputs.len()
            invariant
                i <= inputs@.len(),
                self@ == old(self)@.union(inputs@.take(i as int).to_set()),
            decreases inputs@.len() - i,
        {
            let input = inputs[i];
            proof {
                let taken = inputs@.take(i as int);
                assert(inputs@.take(i + 1) =~= taken.push(input));
                taken.lemma_push_to_set_commute(input);
            }
            self.insert(input);
            i += 1;
        }
        proof {
            assert(inputs@.take(inputs@.len() as int) =~= inputs@);
        }
        true
    }

    fn insert(&mut self, input: Input)
        ensures
            final(self)@ == old(self)@.insert(input),
    {
        if self.position(input).is_none() {
            proof {
                use_type_invariant(&*self);
                let before = self.held@;
                before.lemma_push_to_set_commute(input);
            }
            // The list is taken out, changed and put back: the tracker is
            // never left with a list that breaks its invariant.
            let mut held = Vec::new();
            core::mem::swap(&mut self.held, &mut held);
            held.push(input);
            self.held = held;
        }
    }

    /// Lets go of `input`. Releasing an input that is not held changes nothing.
    pub fn release(&mut self, input: Input)
        ensures
            final(self)@ == old(self)@.remove(input),
    {
        match self.position(input) {
            Some(at) => {
                proof {
                    use_type_invariant(&*self);
                    let before = self.held@;
                    let after = before.remove(at as int);
                    assert(after.to_set() =~= before.to_set().remove(input)) by {
                        assert forall|x: Input| after.contains(x) <==> before.contains(x) && x
                            != input by {
                            if before.contains(x) && x != input {
                                let k = choose|k: int| 0 <= k < before.len() && before[k] == x;
                                if k < at {
                                    assert(after[k] == x);
                                } else {
                                    assert(after[k - 1] == x);
                                }
                            }
                        }
                    }
                }
                let mut held = Vec::new();
                core::mem::swap(&mut self.held, &mut held);
                held.remove(at);
                self.held = held;
            },
            None => {},
        }
    }
}

/// Mutual exclusion: an input taken by a successful acquire refuses every
/// later acquire that asks for it, whatever else is asked for with it and
/// whatever other inputs are released in between, for as long as it is not
/// released itself.
pub proof fn held_input_refuses_acquire(
    held: Set<Input>,
    inputs: Seq<Input>,
    released: Set<Input>,
    wanted: Seq<Input>,
    shared: Input,
)
    requires
        all_free(held, inputs),
        inputs.contains(shared),
        wanted.contains(shared),
        !released.contains(shared),
    ensures
        !all_free(acquired(held, inputs).difference(released), wanted),
        acquired(acquired(held, inputs).difference(released), wanted) == acquired(
            held,
            inputs,
        ).difference(released),
{
}

/// Once all the inputs of a successful acquire are released, the held set is
/// what it was before, and they can be taken again.
pub proof fn released_inputs_are_free(held: Set<Input>, inputs: Seq<Input>)
    requires
        all_free(held, inputs),
    ensures
        acquired(held, inputs).difference(inputs.to_set()) == held,
        all_free(acquired(held, inputs).difference(inputs.to_set()), inputs),
{
    assert forall|x: Input| held.contains(x) implies !inputs.to_set().contains(x) by {}
}

/// Two acquires that share no input do not refuse each other: after the
/// first, the second is granted exactly when it would have been before.
pub proof fn disjoint_acquires_are_independent(
    held: Set<Input>,
    first: Seq<Input>,
    second: Seq<Input>,
)
    requires
        forall|i: int, j: int|
            0 <= i < first.len() && 0 <= j < second.len() ==> #[trigger] first[i]
                != #[trigger] second[j],
    ensures
        all_free(acquired(held, first), second) == all_free(held, second),
{
    if all_free(held, first) && all_free(held, second) {
        assert forall|j: int| 0 <= j < second.len() implies !acquired(held, first).contains(
            #[trigger] second[j],
        ) by {}
    }
}

} // verus!
