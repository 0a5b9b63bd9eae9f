//! Where the samples of the synthesizer come from.

use vstd::prelude::*;

verus! {

/// The sources that ship with the editor.
#[derive(Debug)]
pub struct MidiDefaultProvider {
    /// The addresses of the sources, the preferred one first.
    pub providers: Vec<String>,
    /// The digest that each instrument's file must have, by the name of the
    /// instrument.
    pub hashes: Option<Vec<(String, String)>>,
}

/// What is known of the sources that ship with the editor.
#[derive(Debug)]
pub enum MidiProviderContainer {
    /// Nobody has looked yet.
    Unloaded,
    /// There are none.
    Empty,
    /// These are the sources.
    Provider(MidiDefaultProvider),
}

} // verus!
