//! The flags that the host passes to a render callback.

use vstd::prelude::*;
use vstd::string::StringExecFns;

verus! {

/// What a render call is about.
#[derive(Copy, Clone, Debug, PartialEq, Eq, Structural)]
pub struct ActionFlags {
    pub bits: u32,
}

impl ActionFlags {
    /// The callback comes before the unit renders.
    pub const PRE_RENDER: u32 = 0x4;

    /// The callback comes after the unit has rendered.
    pub const POST_RENDER: u32 = 0x8;

    /// The buffers hold silence only, so that they need not be processed.
    pub const OUTPUT_IS_SILENCE: u32 = 0x10;

    /// An offline unit is shown the audio before it renders.
    pub const OFFLINE_PREFLIGHT: u32 = 0x20;

    /// An offline unit renders, after its preflight.
    pub const OFFLINE_RENDER: u32 = 0x40;

    /// An offline unit has finished its preflight or its rendering.
    pub const OFFLINE_COMPLETE: u32 = 0x80;

    /// The rendering failed, and the buffers hold nothing of use.
    pub const POST_RENDER_ERROR: u32 = 0x100;

    /// The arguments of the render call are not checked.
    pub const DO_NOT_CHECK_RENDER_ARGS: u32 = 0x200;

    /// Every bit that is a flag.
    pub const ALL: u32 = 0x3fc;

    /// The bits that are set.
    pub open spec fn spec_bits(self) -> u32 {
        self.bits
    }

    /// Whether every bit of `mask` is set.
    pub open spec fn has(self, mask: u32) -> bool {
        self.spec_bits() & mask == mask
    }

    /// The flags among `bits`; bits that are no flag are dropped.
    pub open spec fn spec_from_bits_truncate(bits: u32) -> Self {
        ActionFlags { bits: bits & Self::ALL }
    }

    /// No flag at all.
    pub fn empty() -> (r: Self)
        ensures
            r.spec_bits() == 0,
    {
        ActionFlags { bits: 0 }
    }

    /// The flags among `bits`; bits that are no flag are dropped.
    #[verifier::when_used_as_spec(spec_from_bits_truncate)]
    pub fn from_bits_truncate(bits: u32) -> (r: Self)
        ensures
            r == Self::spec_from_bits_truncate(bits),
    {
        ActionFlags { bits: bits & Self::ALL }
    }

    /// The flags among `bits`, unless one of the bits is no flag.
    pub fn from_bits(bits: u32) -> (r: Option<Self>)
        ensures
            r is Some <==> bits & Self::ALL == bits,
            r matches Some(f) ==> f.spec_bits() == bits,
    {
        if bits & Self::ALL == bits {
            Some(ActionFlags { bits })
        } else {
            None
        }
    }

    /// The bits that are set.
    #[verifier::when_used_as_spec(spec_bits)]
    pub fn bits(self) -> (r: u32)
        ensures
            r == self.spec_bits(),
    {
        self.bits
    }

    /// Whether every flag of `other` is set here too.
    pub fn contains(self, other: Self) -> (r: bool)
        ensures
            r == self.has(other.spec_bits()),
    {
        self.bits & other.bits == other.bits
    }

    /// The flags of both.
    pub fn union(self, other: Self) -> (r: Self)
        ensures
            r.spec_bits() == self.spec_bits() | other.spec_bits(),
    {
        ActionFlags { bits: self.bits | other.bits }
    }

    /// The text for these flags: the name of the flag, in double quotes,
    /// where exactly one flag is set, and a note that the flags are unknown
    /// otherwise.
    pub open spec fn spec_text(self) -> Seq<char> {
        if self.spec_bits() == Self::PRE_RENDER {
            "\"PRE_RENDER\""@
        } else if self.spec_bits() == Self::POST_RENDER {
            "\"POST_RENDER\""@
        } else if self.spec_bits() == Self::OUTPUT_IS_SILENCE {
            "\"OUTPUT_IS_SILENCE\""@
        } else if self.spec_bits() == Self::OFFLINE_PREFLIGHT {
            "\"OFFLINE_PREFLIGHT\""@
        } else if self.spec_bits() == Self::OFFLINE_RENDER {
            "\"OFFLINE_RENDER\""@
        } else if self.spec_bits() == Self::OFFLINE_COMPLETE {
            "\"OFFLINE_COMPLETE\""@
        } else if self.spec_bits() == Self::POST_RENDER_ERROR {
            "\"POST_RENDER_ERROR\""@
        } else if self.spec_bits() == Self::DO_NOT_CHECK_RENDER_ARGS {
            "\"DO_NOT_CHECK_RENDER_ARGS\""@
        } else {
            "\"<Unknown ActionFlags>\""@
        }
    }

    /// The text for these flags, as it is shown to people.
    pub fn text(self) -> (r: String)
        ensures
            r@ == self.spec_text(),
    {
        if self.bits == Self::PRE_RENDER {
            String::from_str("\"PRE_RENDER\"")
        } else if self.bits == Self::POST_RENDER {
            String::from_str("\"POST_RENDER\"")
        } else if self.bits == Self::OUTPUT_IS_SILENCE {
            String::from_str("\"OUTPUT_IS_SILENCE\"")
        } else if self.bits == Self::OFFLINE_PREFLIGHT {
            String::from_str("\"OFFLINE_PREFLIGHT\"")
        } else if self.bits == Self::OFFLINE_RENDER {
            String::from_str("\"OFFLINE_RENDER\"")
        } else if self.bits == Self::OFFLINE_COMPLETE {
            String::from_str("\"OFFLINE_COMPLETE\"")
        } else if self.bits == Self::POST_RENDER_ERROR {
            String::from_str("\"POST_RENDER_ERROR\"")
        } else if self.bits == Self::DO_NOT_CHECK_RENDER_ARGS {
            String::from_str("\"DO_NOT_CHECK_RENDER_ARGS\"")
        } else {
            String::from_str("\"<Unknown ActionFlags>\"")
        }
    }
}

} // verus!
