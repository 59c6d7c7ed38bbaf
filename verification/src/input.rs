//! Inputs and chords.
//!
//! An action drives one or more inputs. They are written as one text, the key
//! names joined by `+`, and pressed in the order in which they are written.
use vstd::prelude::*;
use crate::keyboard::{resolve, Key, ParseKey};
use crate::text::{split_at_plus, split_plus, texts};

verus! {

/// One hardware input that an action can drive.
#[derive(Debug, Clone, Copy, PartialEq, Eq, Hash, Structural)]
pub enum Input {
    /// A key of the keyboard.
    Keyboard(Key),
}

/// The inputs that a chord text names, in the order written: each piece
/// between its `+` signs resolved as a key name. A text with a piece that
/// names no key is no chord.
pub open spec fn chord(text: Seq<char>) -> Option<Seq<Input>> {
    let names = split_plus(text);
    if forall|i: int| 0 <= i < names.len() ==> resolve(#[trigger] names[i]) is Some {
        Some(Seq::new(names.len(), |i: int| Input::Keyboard(resolve(names[i])->0)))
    } else {
        None
    }
}

/// Resolves a chord text to its inputs, or to `None` where one of its pieces
/// names no key.
pub fn parse_chord(text: &str) -> (inputs: Option<Vec<Input>>)
    ensures
        match inputs {
            Some(found) => chord(text@) == Some(found@),
            None => chord(text@) is None,
        },
{
    let pieces = split_at_plus(text);
    let ghost names = split_plus(text@);
    let mut inputs: Vec<Input> = Vec::new();
    let mut i: usize = 0;
    while i < pieces.len()
        invariant
            i <= pieces@.len(),
            names == split_plus(text@),
            texts(pieces@) == names,
            inputs@.len() == i,
            forall|j: int| 0 <= j < i ==> resolve(#[trigger] names[j]) == Some((inputs@[j])->0),
        decreases pieces@.len() - i,
    {
        match Key::parse(pieces[i]) {
            Some(key) => {
                inputs.push(Input::Keyboard(key));
            },
            None => {
                assert(resolve(names[i as int]) is None);
                return None;
            },
        }
        i += 1;
    }
    Some(inputs)
}

/// A chord names at least one input.
pub proof fn chord_is_not_empty(text: Seq<char>)
    ensures
        chord(text) matches Some(inputs) ==> inputs.len() >= 1,
{
}

} // verus!
