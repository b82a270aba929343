//! Device-specific drawing resources, stamped with the generation of the
//! render target that created them.

use vstd::prelude::*;

use crate::device::Color;

verus! {

/// A solid-color brush: a logical color plus the identifier of the device
/// resource backing it, stamped with the generation of the render target
/// that created it.
///
/// The brush is valid for use only while its stamped generation equals the
/// owning render target's current generation; after a device loss the
/// generation advances and the brush must be re-created. The check is the
/// caller's: staleness is advisory, nothing refuses a stale brush by
/// itself.
pub struct SolidColorBrush {
    /// The logical color of the brush.
    color: Color,
    /// Identifier of the device resource backing the brush.
    device_brush: u64,
    /// The owning render target's generation when the brush was created.
    generation: u64,
}

impl SolidColorBrush {
    /// The logical color of the brush.
    pub closed spec fn spec_color(&self) -> Color {
        self.color
    }

    /// Identifier of the device resource backing the brush.
    pub closed spec fn spec_device_brush(&self) -> u64 {
        self.device_brush
    }

    /// The generation the brush was stamped with at creation.
    pub closed spec fn spec_generation(&self) -> u64 {
        self.generation
    }

    /// Packs a freshly created device resource with its logical color and
    /// the creating render target's current generation.
    pub(crate) fn new(color: Color, device_brush: u64, generation: u64) -> (b: SolidColorBrush)
        ensures
            b.spec_color() == color,
            b.spec_device_brush() == device_brush,
            b.spec_generation() == generation,
    {
        SolidColorBrush { color, device_brush, generation }
    }

    /// The logical color of the brush.
    pub fn color(&self) -> (c: Color)
        ensures
            c == self.spec_color(),
    {
        self.color
    }

    /// Identifier of the device resource backing the brush, for issuing
    /// drawing calls against the device.
    pub fn device_brush(&self) -> (d: u64)
        ensures
            d == self.spec_device_brush(),
    {
        self.device_brush
    }

    /// The generation the brush was stamped with. If this ever differs
    /// from the owning render target's current generation, the brush is
    /// stale and must be re-created before use.
    pub fn generation(&self) -> (g: u64)
        ensures
            g == self.spec_generation(),
    {
        self.generation
    }
}

} // verus!
