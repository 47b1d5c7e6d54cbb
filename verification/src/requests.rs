//! What the screens ask of the program round them, and what it answers.
//!
//! The screens decide; they neither read the store nor edit text. Where a
//! decision needs one of the two, the screen hands out a [`Request`] and
//! waits for the [`Reply`].

use crate::screens::InputSelector;
use crate::screens::Problem;
use vstd::prelude::*;

verus! {

/// Work that a screen asks for.
#[derive(Clone, Debug, PartialEq, Eq)]
pub enum Request {
    /// Nothing is to be done.
    Nothing,
    /// Hand the key to the editor of this field and answer with the lines
    /// that the field then holds.
    Edit(InputSelector),
    /// Ask the store whether it holds a problem of this name.
    Exists(String),
    /// Add this problem to the store.
    Insert(Problem),
    /// Give the stored problem of this name this rating and this date.
    Update(Problem),
    /// Read every problem from the store.
    LoadProblems,
}

/// The answer to a [`Request`].
#[derive(Clone, Debug, PartialEq, Eq)]
pub enum Reply {
    /// The lines of the field that was edited.
    Edited(Vec<String>),
    /// Whether the store holds a problem of the name asked for.
    Exists(bool),
    /// The store has taken the insert or the update.
    Written,
    /// The store could not do what was asked.
    Failed,
    /// Every problem of the store.
    Problems(Vec<Problem>),
}

} // verus!
