//! Phrase sections of a track (intro, build, drop, break, outro).
use vstd::prelude::*;

verus! {

/// Type of phrase section
#[derive(Debug, Clone, Copy, PartialEq, Eq, Structural)]
pub enum PhraseType {
    Intro,
    Build,
    Drop,
    Break,
    Outro,
}

/// The short label shown on the waveform for each section type.
pub open spec fn phrase_label(p: PhraseType) -> Seq<char> {
    match p {
        PhraseType::Intro => seq!['I', 'N'],
        PhraseType::Build => seq!['B', 'L', 'D'],
        PhraseType::Drop => seq!['D', 'R', 'P'],
        PhraseType::Break => seq!['B', 'R', 'K'],
        PhraseType::Outro => seq!['O', 'U', 'T'],
    }
}

impl PhraseType {
    /// Short label for waveform display
    pub fn label(self) -> (r: &'static str)
        ensures
            r@ == phrase_label(self),
    {
        proof {
            reveal_strlit("IN");
            reveal_strlit("BLD");
            reveal_strlit("DRP");
            reveal_strlit("BRK");
            reveal_strlit("OUT");
        }
        match self {
            PhraseType::Intro => "IN",
            PhraseType::Build => "BLD",
            PhraseType::Drop => "DRP",
            PhraseType::Break => "BRK",
            PhraseType::Outro => "OUT",
        }
    }
}

} // verus!
