//! Layout of image batches.
use vstd::prelude::*;

verus! {

/// Memory layout of a fixed-shape batch of RGB `uint8` images.
#[derive(Clone, Copy, Debug, PartialEq, Eq, Structural)]
pub enum ImageLayout {
    Nhwc,
    Nchw,
}

impl ImageLayout {
    /// Name of the layout.
    pub open spec fn label(self) -> Seq<char> {
        match self {
            ImageLayout::Nhwc => "nhwc"@,
            ImageLayout::Nchw => "nchw"@,
        }
    }

    /// Name of the layout.
    pub fn name(self) -> (name: &'static str)
        ensures
            name@ == self.label(),
    {
        match self {
            ImageLayout::Nhwc => "nhwc",
            ImageLayout::Nchw => "nchw",
        }
    }
}

} // verus!
