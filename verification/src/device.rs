//! The platform graphics interface a render target drives, and a
//! deterministic in-memory implementation of it.
//!
//! The render target never issues platform calls itself: it asks a
//! [`GraphicsDevice`] for them and decides from the reported outcomes. The
//! surrounding application implements the trait over the real graphics
//! API; [`ScriptedDevice`] implements it in memory so the state machine can
//! be driven and observed without a platform.

use vstd::prelude::*;

use crate::geom::Size2D;

verus! {

/// A generic failure `HRESULT`, reported by [`ScriptedDevice`] when it is
/// scripted to fail a creation call.
pub const E_FAIL: u32 = 0x8000_4005;

/// An RGBA color with 8-bit channels.
#[derive(Clone, Copy, Debug, PartialEq, Eq, Structural)]
pub struct Color {
    /// Red channel.
    pub r: u8,
    /// Green channel.
    pub g: u8,
    /// Blue channel.
    pub b: u8,
    /// Alpha channel; `255` is fully opaque.
    pub a: u8,
}

impl Color {
    /// Fully opaque color from red, green and blue channels.
    pub fn rgb(r: u8, g: u8, b: u8) -> (c: Color)
        ensures
            c == (Color { r, g, b, a: 255u8 }),
    {
        Color { r, g, b, a: 255 }
    }
}

/// The graphics calls a render target needs from the platform. Surfaces
/// and brushes are named by identifiers the device chooses; an `Err`
/// carries the platform's raw error code (`HRESULT` bit pattern).
///
/// Nothing is promised of these calls: the render target states, for every
/// outcome they can report, what it does with it.
pub trait GraphicsDevice {
    /// Creates a device surface bound to the given native window handle
    /// with the given pixel size, returning an identifier for it.
    fn create_device_surface(&mut self, hwnd: isize, size: Size2D) -> Result<u64, u32>;

    /// Opens a frame on the surface. Drawing is batched until the frame is
    /// ended.
    fn begin_frame(&mut self, surface: u64);

    /// Ends the frame, presenting it on success. The error code
    /// [`crate::target::D2DERR_RECREATE_TARGET`] reports device loss.
    fn end_frame(&mut self, surface: u64) -> Result<(), u32>;

    /// Creates a solid-color brush usable on the surface, returning an
    /// identifier for the device resource.
    fn create_solid_brush(&mut self, surface: u64, color: Color) -> Result<u64, u32>;
}

/// A deterministic, in-memory graphics device. Surfaces and brushes get
/// sequential identifiers; the outcomes of successive `end_frame` calls
/// are scripted up front, and creation calls can be made to fail. Useful
/// for driving the render-target state machine without a platform.
pub struct ScriptedDevice {
    /// The identifier the next successful creation call hands out.
    next_id: u64,
    /// Error codes that successive `end_frame` calls report, front first;
    /// `0` presents the frame successfully. When the script is exhausted,
    /// frames present successfully.
    frame_codes: Vec<u32>,
    /// When `true`, surface creation fails with [`E_FAIL`].
    fail_surface_creation: bool,
    /// When `true`, brush creation fails with [`E_FAIL`].
    fail_brush_creation: bool,
}

impl ScriptedDevice {
    /// The identifier the next successful creation call hands out.
    pub closed spec fn spec_next_id(&self) -> u64 {
        self.next_id
    }

    /// The scripted outcomes of coming `end_frame` calls, front first.
    pub closed spec fn spec_frame_codes(&self) -> Seq<u32> {
        self.frame_codes@
    }

    /// Whether surface creation is scripted to fail.
    pub closed spec fn spec_fail_surface_creation(&self) -> bool {
        self.fail_surface_creation
    }

    /// Whether brush creation is scripted to fail.
    pub closed spec fn spec_fail_brush_creation(&self) -> bool {
        self.fail_brush_creation
    }

    /// A device on which every call succeeds and every frame presents.
    pub fn new() -> (d: ScriptedDevice)
        ensures
            d.spec_next_id() == 1,
            d.spec_frame_codes() == Seq::<u32>::empty(),
            !d.spec_fail_surface_creation(),
            !d.spec_fail_brush_creation(),
    {
        let d = ScriptedDevice {
            next_id: 1,
            frame_codes: Vec::new(),
            fail_surface_creation: false,
            fail_brush_creation: false,
        };
        proof {
            assert(d.frame_codes@ =~= Seq::<u32>::empty());
        }
        d
    }

    /// Scripts the outcome of the next unscripted `end_frame` call: `0`
    /// presents the frame, any other value is reported as the platform
    /// error code.
    pub fn push_frame_code(&mut self, code: u32)
        ensures
            final(self).spec_frame_codes() == old(self).spec_frame_codes().push(code),
            final(self).spec_next_id() == old(self).spec_next_id(),
            final(self).spec_fail_surface_creation() == old(self).spec_fail_surface_creation(),
            final(self).spec_fail_brush_creation() == old(self).spec_fail_brush_creation(),
    {
        self.frame_codes.push(code);
    }

    /// Makes surface creation succeed or fail with [`E_FAIL`] from now on.
    pub fn set_surface_creation_failure(&mut self, fail: bool)
        ensures
            final(self).spec_fail_surface_creation() == fail,
            final(self).spec_fail_brush_creation() == old(self).spec_fail_brush_creation(),
            final(self).spec_frame_codes() == old(self).spec_frame_codes(),
            final(self).spec_next_id() == old(self).spec_next_id(),
    {
        self.fail_surface_creation = fail;
    }

    /// Makes brush creation succeed or fail with [`E_FAIL`] from now on.
    pub fn set_brush_creation_failure(&mut self, fail: bool)
        ensures
            final(self).spec_fail_brush_creation() == fail,
            final(self).spec_fail_surface_creation() == old(self).spec_fail_surface_creation(),
            final(self).spec_frame_codes() == old(self).spec_frame_codes(),
            final(self).spec_next_id() == old(self).spec_next_id(),
    {
        self.fail_brush_creation = fail;
    }

    /// Hands out the next sequential identifier. The counter saturates at
    /// its maximum rather than reusing identifiers.
    fn take_id(&mut self) -> (id: u64)
        ensures
            id == old(self).spec_next_id(),
            final(self).spec_next_id() as int == (if old(self).spec_next_id() < u64::MAX {
                old(self).spec_next_id() + 1
            } else {
                old(self).spec_next_id() as int
            }),
            final(self).spec_frame_codes() == old(self).spec_frame_codes(),
            final(self).spec_fail_surface_creation() == old(self).spec_fail_surface_creation(),
            final(self).spec_fail_brush_creation() == old(self).spec_fail_brush_creation(),
    {
        let id = self.next_id;
        if self.next_id < u64::MAX {
            self.next_id = self.next_id + 1;
        }
        id
    }
}

impl GraphicsDevice for ScriptedDevice {
    fn create_device_surface(&mut self, hwnd: isize, size: Size2D) -> (r: Result<u64, u32>)
        ensures
            old(self).spec_fail_surface_creation() ==> r == Err::<u64, u32>(E_FAIL) && *final(self)
                == *old(self),
            !old(self).spec_fail_surface_creation() ==> {
                &&& r == Ok::<u64, u32>(old(self).spec_next_id())
                &&& final(self).spec_frame_codes() == old(self).spec_frame_codes()
                &&& final(self).spec_next_id() as int == (if old(self).spec_next_id() < u64::MAX {
                    old(self).spec_next_id() + 1
                } else {
                    old(self).spec_next_id() as int
                })
                &&& final(self).spec_fail_surface_creation() == old(
                    self,
                ).spec_fail_surface_creation()
                &&& final(self).spec_fail_brush_creation() == old(self).spec_fail_brush_creation()
            },
    {
        if self.fail_surface_creation {
            Err(E_FAIL)
        } else {
            Ok(self.take_id())
        }
    }

    fn begin_frame(&mut self, surface: u64)
        ensures
            *final(self) == *old(self),
    {
    }

    fn end_frame(&mut self, surface: u64) -> (r: Result<(), u32>)
        ensures
            old(self).spec_frame_codes().len() == 0 ==> r == Ok::<(), u32>(()) && *final(self)
                == *old(self),
            old(self).spec_frame_codes().len() > 0 ==> {
                &&& final(self).spec_frame_codes() == old(self).spec_frame_codes().drop_first()
                &&& r == (if old(self).spec_frame_codes()[0] == 0 {
                    Ok::<(), u32>(())
                } else {
                    Err::<(), u32>(old(self).spec_frame_codes()[0])
                })
                &&& final(self).spec_next_id() == old(self).spec_next_id()
            },
    {
        if self.frame_codes.len() == 0 {
            Ok(())
        } else {
            let code = self.frame_codes.remove(0);
            proof {
                assert(self.frame_codes@ =~= old(self).frame_codes@.drop_first());
            }
            if code == 0 {
                Ok(())
            } else {
                Err(code)
            }
        }
    }

    fn create_solid_brush(&mut self, surface: u64, color: Color) -> (r: Result<u64, u32>)
        ensures
            old(self).spec_fail_brush_creation() ==> r == Err::<u64, u32>(E_FAIL) && *final(self)
                == *old(self),
            !old(self).spec_fail_brush_creation() ==> {
                &&& r == Ok::<u64, u32>(old(self).spec_next_id())
                &&& final(self).spec_frame_codes() == old(self).spec_frame_codes()
                &&& final(self).spec_next_id() as int == (if old(self).spec_next_id() < u64::MAX {
                    old(self).spec_next_id() + 1
                } else {
                    old(self).spec_next_id() as int
                })
                &&& final(self).spec_fail_surface_creation() == old(
                    self,
                ).spec_fail_surface_creation()
                &&& final(self).spec_fail_brush_creation() == old(self).spec_fail_brush_creation()
            },
    {
        if self.fail_brush_creation {
            Err(E_FAIL)
        } else {
            Ok(self.take_id())
        }
    }
}

} // verus!
