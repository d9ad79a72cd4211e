//! Sample formats and the flags of linear PCM.

use vstd::prelude::*;

verus! {

/// The format tag of linear PCM, the four characters `lpcm`.
pub const LINEAR_PCM: u32 = 0x6C70636D;

/// The flags that describe how linear PCM samples are stored.
#[derive(Copy, Clone, Debug, PartialEq, Eq, Structural)]
pub struct LinearPcmFlags {
    pub bits: u32,
}

impl LinearPcmFlags {
    /// Samples are floating point numbers.
    pub const IS_FLOAT: u32 = 0x1;

    /// Samples are stored most significant byte first.
    pub const IS_BIG_ENDIAN: u32 = 0x2;

    /// Samples are signed integers.
    pub const IS_SIGNED_INTEGER: u32 = 0x4;

    /// Samples fill all the bits of their storage.
    pub const IS_PACKED: u32 = 0x8;

    /// Samples sit in the high bits of their storage.
    pub const IS_ALIGNED_HIGH: u32 = 0x10;

    /// Each channel has a buffer of its own.
    pub const IS_NON_INTERLEAVED: u32 = 0x20;

    /// The stream cannot be mixed with others.
    pub const IS_NON_MIXABLE: u32 = 0x40;

    /// Every bit that is a flag.
    pub const ALL: u32 = 0x7f;

    /// The bits that are set.
    pub open spec fn spec_bits(self) -> u32 {
        self.bits
    }

    /// The flags among `bits`; bits that are no flag are dropped.
    pub open spec fn spec_from_bits_truncate(bits: u32) -> Self {
        LinearPcmFlags { bits: bits & Self::ALL }
    }

    /// Whether every bit of `mask` is set.
    pub open spec fn has(self, mask: u32) -> bool {
        self.spec_bits() & mask == mask
    }

    /// No flag at all.
    pub fn empty() -> (r: Self)
        ensures
            r.spec_bits() == 0,
    {
        LinearPcmFlags { bits: 0 }
    }

    /// The flags among `bits`; bits that are no flag are dropped.
    #[verifier::when_used_as_spec(spec_from_bits_truncate)]
    pub fn from_bits_truncate(bits: u32) -> (r: Self)
        ensures
            r == Self::spec_from_bits_truncate(bits),
    {
        LinearPcmFlags { bits: bits & Self::ALL }
    }

    /// The flags among `bits`, unless one of the bits is no flag.
    pub fn from_bits(bits: u32) -> (r: Option<Self>)
        ensures
            r is Some <==> bits & Self::ALL == bits,
            r matches Some(f) ==> f.spec_bits() == bits,
    {
        if bits & Self::ALL == bits {
            Some(LinearPcmFlags { bits })
        } else {
            None
        }
    }

    /// The bits that are set.
    #[verifier::when_used_as_spec(spec_bits)]
    pub fn bits(self) -> (r: u32)
        ensures
            r == self.spec_bits(),
    {
        self.bits
    }

    /// Whether every flag of `other` is set here too.
    pub fn contains(self, other: Self) -> (r: bool)
        ensures
            r == self.has(other.spec_bits()),
    {
        self.bits & other.bits == other.bits
    }

    /// The flags of both.
    pub fn union(self, other: Self) -> (r: Self)
        ensures
            r.spec_bits() == self.spec_bits() | other.spec_bits(),
    {
        LinearPcmFlags { bits: self.bits | other.bits }
    }
}

/// The element type of a sample.
#[derive(Copy, Clone, Debug, PartialEq, Eq, Structural)]
pub enum SampleFormat {
    /// 32-bit floating point.
    F32,
    /// 32-bit signed integer.
    I32,
    /// 16-bit signed integer.
    I16,
    /// 8-bit signed integer.
    I8,
}

impl SampleFormat {
    /// The number of bytes one sample takes.
    pub open spec fn spec_size_in_bytes(self) -> usize {
        match self {
            SampleFormat::F32 => 4,
            SampleFormat::I32 => 4,
            SampleFormat::I16 => 2,
            SampleFormat::I8 => 1,
        }
    }

    /// Whether samples of this format are floating point numbers.
    pub open spec fn is_float(self) -> bool {
        self is F32
    }

    /// Whether `flags` describe this format: the samples are packed, and they
    /// are floats exactly when the format is, signed integers otherwise.
    pub open spec fn matches(self, flags: LinearPcmFlags) -> bool {
        &&& flags.has(LinearPcmFlags::IS_PACKED)
        &&& if self.is_float() {
            flags.has(LinearPcmFlags::IS_FLOAT)
        } else {
            !flags.has(LinearPcmFlags::IS_FLOAT) && flags.has(LinearPcmFlags::IS_SIGNED_INTEGER)
        }
    }

    /// The number of bytes one sample takes.
    #[verifier::when_used_as_spec(spec_size_in_bytes)]
    pub fn size_in_bytes(self) -> (r: usize)
        ensures
            r == self.spec_size_in_bytes(),
    {
        match self {
            SampleFormat::F32 => 4,
            SampleFormat::I32 => 4,
            SampleFormat::I16 => 2,
            SampleFormat::I8 => 1,
        }
    }

    /// The number of bits one sample takes.
    pub fn size_in_bits(self) -> (r: u32)
        ensures
            r == 8 * self.spec_size_in_bytes(),
    {
        match self {
            SampleFormat::F32 => 32,
            SampleFormat::I32 => 32,
            SampleFormat::I16 => 16,
            SampleFormat::I8 => 8,
        }
    }

    /// Whether `flags` describe this format.
    pub fn does_match_flags(self, flags: LinearPcmFlags) -> (r: bool)
        ensures
            r == self.matches(flags),
    {
        let packed = flags.bits() & LinearPcmFlags::IS_PACKED == LinearPcmFlags::IS_PACKED;
        let float = flags.bits() & LinearPcmFlags::IS_FLOAT == LinearPcmFlags::IS_FLOAT;
        let signed = flags.bits() & LinearPcmFlags::IS_SIGNED_INTEGER
            == LinearPcmFlags::IS_SIGNED_INTEGER;
        match self {
            SampleFormat::F32 => packed && float,
            _ => packed && !float && signed,
        }
    }

    /// The format that `flags` and a width of `bits_per_sample` bits describe:
    /// the one format of that width that the flags match, if there is one.
    pub fn from_flags_and_bits_per_sample(flags: LinearPcmFlags, bits_per_sample: u32) -> (r:
        Option<Self>)
        ensures
            match r {
                Some(f) => f.matches(flags) && 8 * f.spec_size_in_bytes() == bits_per_sample,
                None => forall|f: SampleFormat|
                    !(f.matches(flags) && 8 * f.spec_size_in_bytes() == bits_per_sample),
            },
    {
        if SampleFormat::F32.does_match_flags(flags) {
            if bits_per_sample == 32 {
                Some(SampleFormat::F32)
            } else {
                None
            }
        } else if SampleFormat::I32.does_match_flags(flags) {
            if bits_per_sample == 32 {
                Some(SampleFormat::I32)
            } else if bits_per_sample == 16 {
                Some(SampleFormat::I16)
            } else if bits_per_sample == 8 {
                Some(SampleFormat::I8)
            } else {
                None
            }
        } else {
            None
        }
    }
}

/// Flags and a width describe at most one sample format.
pub proof fn lemma_sample_format_is_determined(
    flags: LinearPcmFlags,
    bits_per_sample: u32,
    a: SampleFormat,
    b: SampleFormat,
)
    requires
        a.matches(flags),
        b.matches(flags),
        8 * a.spec_size_in_bytes() == bits_per_sample,
        8 * b.spec_size_in_bytes() == bits_per_sample,
    ensures
        a == b,
{
}

} // verus!
