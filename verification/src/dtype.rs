//! Element types and devices.
use vstd::prelude::*;

use crate::text::push_usize;

verus! {

/// Element type of a tensor.
#[derive(Clone, Copy, Debug, PartialEq, Eq, Structural)]
pub enum DType {
    F32,
    F16,
    BF16,
    F8E4M3,
    I8,
    I32,
    /// Two 4-bit E2M1 values packed into one byte.
    E2M1Pair,
}

impl DType {
    /// Bytes one element occupies.
    pub open spec fn size(self) -> usize {
        match self {
            DType::F32 | DType::I32 => 4,
            DType::F16 | DType::BF16 => 2,
            DType::F8E4M3 | DType::I8 | DType::E2M1Pair => 1,
        }
    }

    /// Number by which the native interface knows the type.
    pub open spec fn code(self) -> u32 {
        match self {
            DType::F32 => 0,
            DType::F16 => 1,
            DType::BF16 => 2,
            DType::F8E4M3 => 3,
            DType::I8 => 4,
            DType::I32 => 5,
            DType::E2M1Pair => 6,
        }
    }

    /// The two 16-bit floating-point types that most operators work on.
    pub open spec fn half(self) -> bool {
        self == DType::F16 || self == DType::BF16
    }

    /// Name used in messages.
    pub open spec fn label(self) -> Seq<char> {
        match self {
            DType::F32 => "F32"@,
            DType::F16 => "F16"@,
            DType::BF16 => "BF16"@,
            DType::F8E4M3 => "F8E4M3"@,
            DType::I8 => "I8"@,
            DType::I32 => "I32"@,
            DType::E2M1Pair => "E2M1Pair"@,
        }
    }

    /// Bytes one element occupies.
    pub fn size_in_bytes(self) -> (bytes: usize)
        ensures
            bytes == self.size(),
            1 <= bytes <= 4,
    {
        match self {
            DType::F32 | DType::I32 => 4,
            DType::F16 | DType::BF16 => 2,
            DType::F8E4M3 | DType::I8 | DType::E2M1Pair => 1,
        }
    }

    /// Number by which the native interface knows the type.
    pub fn abi_code(self) -> (code: u32)
        ensures
            code == self.code(),
    {
        match self {
            DType::F32 => 0,
            DType::F16 => 1,
            DType::BF16 => 2,
            DType::F8E4M3 => 3,
            DType::I8 => 4,
            DType::I32 => 5,
            DType::E2M1Pair => 6,
        }
    }

    /// Whether the type is one of the two 16-bit floating-point types.
    pub fn is_half(self) -> (half: bool)
        ensures
            half == self.half(),
    {
        self == DType::F16 || self == DType::BF16
    }

    /// Name used in messages.
    pub fn name(self) -> (name: &'static str)
        ensures
            name@ == self.label(),
    {
        match self {
            DType::F32 => "F32",
            DType::F16 => "F16",
            DType::BF16 => "BF16",
            DType::F8E4M3 => "F8E4M3",
            DType::I8 => "I8",
            DType::I32 => "I32",
            DType::E2M1Pair => "E2M1Pair",
        }
    }
}

/// Where a tensor lives.
#[derive(Clone, Copy, Debug, PartialEq, Eq, Structural)]
pub enum Device {
    Cpu,
    Cuda(usize),
}

impl Device {
    /// Name used in messages.
    pub open spec fn label(self) -> Seq<char> {
        match self {
            Device::Cpu => "cpu"@,
            Device::Cuda(ordinal) => "cuda:"@ + crate::text::decimal(ordinal as nat),
        }
    }

    /// Appends the name used in messages.
    pub fn push_name(&self, out: &mut String)
        ensures
            final(out)@ == old(out)@ + self.label(),
    {
        match *self {
            Device::Cpu => {
                out.append("cpu");
            },
            Device::Cuda(ordinal) => {
                out.append("cuda:");
                push_usize(out, ordinal);
                assert(out@ =~= old(out)@ + self.label());
            },
        }
    }
}

/// Types are told apart by their numbers, the half-precision types take half
/// of what single precision takes, and the 8-bit types one byte.
pub proof fn law_types_are_told_apart(a: DType, b: DType)
    ensures
        a.code() == b.code() <==> a == b,
        a.half() <==> a is F16 || a is BF16,
        a.half() ==> 2 * a.size() == DType::F32.size(),
        a is F32 || a is I32 <==> a.size() == 4,
        a.half() <==> a.size() == 2,
        a is F8E4M3 || a is I8 || a is E2M1Pair <==> a.size() == 1,
{
}

} // verus!
