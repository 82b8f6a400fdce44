//! The opcode space of the command channel.
//!
//! Every machine word is an opcode. Four words are named; all others are
//! carried as [`Code::Unknown`]. Opcodes are ordered by their word, so named
//! and unknown opcodes interleave.

use std::cmp::Ordering;
use vstd::prelude::*;
use vstd::std_specs::cmp::PartialOrdSpec;

verus! {

/// The word of [`Code::Version`].
pub const RMM_VERSION: usize = 0xc000_0000;

/// The word of [`Code::GranuleDelegate`].
pub const RMM_GRANULE_DELEGATE: usize = 0xc000_0001;

/// The word of [`Code::GranuleUndelegate`].
pub const RMM_GRANULE_UNDELEGATE: usize = 0xc000_0002;

/// The word of [`Code::RequestComplete`].
pub const RMM_REQ_COMPLETE: usize = 0xc000_0010;

/// An opcode of the command channel.
#[derive(Debug, Copy, Clone, PartialEq, Eq, Structural)]
pub enum Code {
    Version,
    RequestComplete,
    GranuleDelegate,
    GranuleUndelegate,
    Unknown(usize),
}

/// Whether `word` is one of the four named opcode words.
pub open spec fn is_named_word(word: usize) -> bool {
    word == RMM_VERSION || word == RMM_REQ_COMPLETE || word == RMM_GRANULE_DELEGATE || word
        == RMM_GRANULE_UNDELEGATE
}

/// How two words compare.
pub open spec fn word_ordering(a: usize, b: usize) -> Ordering {
    if a < b {
        Ordering::Less
    } else if a == b {
        Ordering::Equal
    } else {
        Ordering::Greater
    }
}

impl Code {
    /// The word that stands for this opcode on the wire.
    pub open spec fn word(self) -> usize {
        match self {
            Code::Version => RMM_VERSION,
            Code::RequestComplete => RMM_REQ_COMPLETE,
            Code::GranuleDelegate => RMM_GRANULE_DELEGATE,
            Code::GranuleUndelegate => RMM_GRANULE_UNDELEGATE,
            Code::Unknown(remain) => remain,
        }
    }

    /// The opcode that a word on the wire stands for.
    pub open spec fn of_word(word: usize) -> Code {
        if word == RMM_VERSION {
            Code::Version
        } else if word == RMM_REQ_COMPLETE {
            Code::RequestComplete
        } else if word == RMM_GRANULE_DELEGATE {
            Code::GranuleDelegate
        } else if word == RMM_GRANULE_UNDELEGATE {
            Code::GranuleUndelegate
        } else {
            Code::Unknown(word)
        }
    }

    /// An opcode is canonical unless it is an `Unknown` that carries a named
    /// word. Decoding yields canonical opcodes only.
    pub open spec fn is_canonical(self) -> bool {
        match self {
            Code::Unknown(remain) => !is_named_word(remain),
            _ => true,
        }
    }

    /// Compares two opcodes by their words.
    pub fn cmp(&self, other: &Code) -> (r: Ordering)
        ensures
            r == word_ordering(self.word(), other.word()),
    {
        let a = usize::from(*self);
        let b = usize::from(*other);
        if a < b {
            Ordering::Less
        } else if a == b {
            Ordering::Equal
        } else {
            Ordering::Greater
        }
    }
}

impl From<Code> for usize {
    fn from(origin: Code) -> (word: usize) {
        match origin {
            Code::Version => RMM_VERSION,
            Code::RequestComplete => RMM_REQ_COMPLETE,
            Code::GranuleDelegate => RMM_GRANULE_DELEGATE,
            Code::GranuleUndelegate => RMM_GRANULE_UNDELEGATE,
            Code::Unknown(remain) => remain,
        }
    }
}

impl vstd::std_specs::convert::FromSpecImpl<Code> for usize {
    open spec fn obeys_from_spec() -> bool {
        true
    }

    open spec fn from_spec(origin: Code) -> usize {
        origin.word()
    }
}

impl From<usize> for Code {
    fn from(origin: usize) -> (code: Code) {
        if origin == RMM_VERSION {
            Code::Version
        } else if origin == RMM_REQ_COMPLETE {
            Code::RequestComplete
        } else if origin == RMM_GRANULE_DELEGATE {
            Code::GranuleDelegate
        } else if origin == RMM_GRANULE_UNDELEGATE {
            Code::GranuleUndelegate
        } else {
            Code::Unknown(origin)
        }
    }
}

impl vstd::std_specs::convert::FromSpecImpl<usize> for Code {
    open spec fn obeys_from_spec() -> bool {
        true
    }

    open spec fn from_spec(origin: usize) -> Code {
        Code::of_word(origin)
    }
}

impl Default for Code {
    fn default() -> (code: Code)
        ensures
            code == Code::Unknown(0),
    {
        Code::Unknown(0)
    }
}

impl PartialOrd for Code {
    fn partial_cmp(&self, other: &Code) -> (r: Option<Ordering>) {
        Some(self.cmp(other))
    }
}

impl vstd::std_specs::cmp::PartialOrdSpecImpl for Code {
    open spec fn obeys_partial_cmp_spec() -> bool {
        true
    }

    open spec fn partial_cmp_spec(&self, other: &Code) -> Option<Ordering> {
        Some(word_ordering(self.word(), other.word()))
    }
}

/// Decoding any word and encoding the opcode again gives the word back. Each
/// named word decodes to its named opcode, every other word `w` to
/// `Unknown(w)`, and what decoding yields is canonical.
pub proof fn lemma_word_round_trip(word: usize)
    ensures
        Code::of_word(word).word() == word,
        Code::of_word(word).is_canonical(),
        !is_named_word(word) ==> Code::of_word(word) == Code::Unknown(word),
        Code::of_word(RMM_VERSION) == Code::Version,
        Code::of_word(RMM_REQ_COMPLETE) == Code::RequestComplete,
        Code::of_word(RMM_GRANULE_DELEGATE) == Code::GranuleDelegate,
        Code::of_word(RMM_GRANULE_UNDELEGATE) == Code::GranuleUndelegate,
{
}

/// Encoding an opcode and decoding the word again gives the opcode back
/// exactly when the opcode is canonical: an `Unknown` that carries a named
/// word comes back as the named opcode.
pub proof fn lemma_code_round_trip(code: Code)
    ensures
        Code::of_word(code.word()) == code <==> code.is_canonical(),
        Code::of_word(code.word()).word() == code.word(),
{
}

/// Opcodes compare exactly as their words do, whether named or unknown.
pub proof fn lemma_ordering_by_word(a: Code, b: Code)
    ensures
        a.partial_cmp_spec(&b) == Some(Ordering::Less) <==> a.word() < b.word(),
        a.partial_cmp_spec(&b) == Some(Ordering::Equal) <==> a.word() == b.word(),
        a.partial_cmp_spec(&b) == Some(Ordering::Greater) <==> a.word() > b.word(),
{
}

} // verus!
