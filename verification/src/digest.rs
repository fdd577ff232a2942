//! Hashing types by their spellings.
use std::hash::{Hash, Hasher};

use vstd::prelude::*;

use crate::data::{NNModuleType, Quantified, Type, Union};
use crate::tokens::Token;

verus! {

/// [`Hash::hash`] on a vector of words. The state of a [`Hasher`] is its own, so that nothing is
/// claimed of it.
#[verifier::external_body]
fn feed<H: Hasher>(words: &Vec<Token>, state: &mut H) {
    words.hash(state)
}

impl Eq for Type {

}

impl Eq for Quantified {

}

impl Eq for Union {

}

impl Eq for NNModuleType {

}

impl Hash for Type {
    /// Hashes the spelling of the type.
    fn hash<H: Hasher>(&self, state: &mut H) {
        feed(&self.tokens(), state)
    }
}

impl Hash for Quantified {
    /// Hashes the spelling of the type parameter.
    fn hash<H: Hasher>(&self, state: &mut H) {
        feed(&self.tokens(), state)
    }
}

impl Hash for Union {
    /// Hashes the members alone, by their spelling.
    fn hash<H: Hasher>(&self, state: &mut H) {
        feed(&self.tokens(), state)
    }
}

impl Hash for NNModuleType {
    /// Hashes the class, the number of captured arguments, and the arguments in order, by their
    /// spelling.
    fn hash<H: Hasher>(&self, state: &mut H) {
        feed(&self.tokens(), state)
    }
}

} // verus!
