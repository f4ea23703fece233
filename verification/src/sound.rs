use vstd::prelude::*;

verus! {

/// Raw unsigned 8-bit audio samples decoded from a WAV asset. Decoding is
/// platform work done by the surrounding program; the library only carries
/// the sample buffer.
pub struct SoundAsset {
    pub data: Vec<u8>,
}

impl SoundAsset {
    /// Wrap an already decoded sample buffer.
    pub fn from_samples(data: Vec<u8>) -> (r: SoundAsset)
        ensures
            r.data@ == data@,
    {
        SoundAsset { data }
    }
}

} // verus!
