use vstd::prelude::*;

verus! {

/// A rectangle's dimensions, in whole pixels.
#[derive(Clone, Copy, Debug, PartialEq, Eq, Structural)]
pub struct Size {
    pub width: u64,
    pub height: u64,
}

/// Layout constraints handed down the widget tree: the largest size a
/// widget's layout may occupy.
#[derive(Clone, Copy, Debug, PartialEq, Eq, Structural)]
pub struct Limits {
    pub max_width: u64,
    pub max_height: u64,
}

/// One node of a computed layout: its own size plus the layouts produced for
/// its children, in child order.
pub struct LayoutNode {
    pub size: Size,
    pub children: Vec<LayoutNode>,
}

/// The mathematical shape of a layout node; contracts speak of layouts
/// through this type.
#[verifier::ext_equal]
pub struct LayoutTree {
    pub size: Size,
    pub children: Seq<LayoutTree>,
}

pub open spec fn spec_min(a: u64, b: u64) -> u64 {
    if a <= b {
        a
    } else {
        b
    }
}

/// The smaller of two lengths.
pub fn min_len(a: u64, b: u64) -> (r: u64)
    ensures
        r == spec_min(a, b),
{
    if a <= b {
        a
    } else {
        b
    }
}

impl Limits {
    /// Shrink these limits so that nothing wider or taller than the given
    /// dimensions fits under them.
    pub open spec fn spec_constrain(self, width: u64, height: u64) -> Limits {
        Limits {
            max_width: spec_min(self.max_width, width),
            max_height: spec_min(self.max_height, height),
        }
    }

    pub fn constrain(&self, width: u64, height: u64) -> (r: Limits)
        ensures
            r == self.spec_constrain(width, height),
    {
        Limits {
            max_width: min_len(self.max_width, width),
            max_height: min_len(self.max_height, height),
        }
    }

    /// The size an intrinsic width and height resolve to under these limits:
    /// each dimension clipped to its maximum.
    pub open spec fn spec_resolve(self, width: u64, height: u64) -> Size {
        Size { width: spec_min(width, self.max_width), height: spec_min(height, self.max_height) }
    }

    pub fn resolve(&self, width: u64, height: u64) -> (r: Size)
        ensures
            r == self.spec_resolve(width, height),
    {
        Size { width: min_len(width, self.max_width), height: min_len(height, self.max_height) }
    }
}

} // verus!
