use vstd::prelude::*;
use crate::errors::LaunchError;

verus! {

/// The instruction-set class of a target executable, derived once per run
/// from the first five bytes of its on-disk header and immutable afterwards.
#[derive(Clone, Copy, Debug, PartialEq, Eq, Structural)]
pub enum ExecutableClass {
    ThirtyTwoBit,
    SixtyFourBit,
}

/// A five-byte header prefix is supported when it opens with the fixed
/// four-byte magic `0x7f 'E' 'L' 'F'` and its class byte is 1 or 2.
pub open spec fn header_supported(h: Seq<u8>) -> bool {
    h.len() == 5 && h[0] == 0x7fu8 && h[1] == 0x45u8 && h[2] == 0x4cu8 && h[3] == 0x46u8 && (h[4]
        == 1u8 || h[4] == 2u8)
}

/// What a five-byte header prefix classifies to: class byte 1 is the
/// thirty-two-bit class, 2 the sixty-four-bit class; every other prefix is
/// an unsupported executable. This failure is fatal and never retried.
pub open spec fn classify(h: Seq<u8>) -> Result<ExecutableClass, LaunchError> {
    if header_supported(h) {
        if h[4] == 1u8 {
            Ok(ExecutableClass::ThirtyTwoBit)
        } else {
            Ok(ExecutableClass::SixtyFourBit)
        }
    } else {
        Err(LaunchError::UnsupportedExecutable)
    }
}

/// Architecture detection: classifies the first five bytes of the target's
/// header. The caller reads those bytes (zero-filling what a short file does
/// not provide) and reads the file no further.
pub fn detect_class(header: &[u8; 5]) -> (r: Result<ExecutableClass, LaunchError>)
    ensures
        r == classify(header@),
{
    if header[0] == 0x7f && header[1] == 0x45 && header[2] == 0x4c && header[3] == 0x46 {
        if header[4] == 1 {
            return Ok(ExecutableClass::ThirtyTwoBit);
        }
        if header[4] == 2 {
            return Ok(ExecutableClass::SixtyFourBit);
        }
    }
    Err(LaunchError::UnsupportedExecutable)
}

} // verus!
