//! Panels: orientation, per-model panel data, and the command layer built on
//! them.

use vstd::prelude::*;

use crate::DisplayError;
use crate::bus::{BusTx, DisplayBus};

pub mod initseq;
pub mod mipidcs;
pub mod reset;

verus! {

/// Display orientation.
#[derive(Debug, Clone, Copy, PartialEq, Eq)]
pub enum Orientation {
    /// No rotation.
    Deg0,
    /// Rotated a quarter turn.
    Deg90,
    /// Rotated a half turn.
    Deg180,
    /// Rotated three quarter turns.
    Deg270,
}

/// Per-model panel data: resolution, coordinate offsets into controller
/// memory, coordinate alignment, and default register polarity.
///
/// Values of this type are constant data, built once per panel model and
/// never mutated.
#[derive(Debug, Clone, Copy, PartialEq, Eq)]
pub struct PanelSpec {
    /// Physical width in pixels, unrotated.
    pub physical_width: u16,
    /// Physical height in pixels, unrotated.
    pub physical_height: u16,
    /// Column offset of the panel within controller memory.
    pub x_offset: u16,
    /// Row offset of the panel within controller memory.
    pub y_offset: u16,
    /// Column offset that applies while row/column swap is active.
    pub x_offset_rotated: u16,
    /// Row offset that applies while row/column swap is active.
    pub y_offset_rotated: u16,
    /// Unit every window's x coordinate and width must be a multiple of.
    pub x_alignment: u16,
    /// Unit every window's y coordinate and height must be a multiple of.
    pub y_alignment: u16,
    /// Whether the panel wants inversion on after initialization.
    pub inverted: bool,
    /// Whether the panel latches color data as BGR.
    pub bgr: bool,
}

impl PanelSpec {
    /// A panel spec is well formed when its extent is real, its alignment
    /// units are at least one, and its offsets keep every address within the
    /// 16-bit address space.
    pub open spec fn wf(self) -> bool {
        &&& self.physical_width >= 1
        &&& self.physical_height >= 1
        &&& self.x_alignment >= 1
        &&& self.y_alignment >= 1
        &&& self.physical_width + self.x_offset <= u16::MAX
        &&& self.physical_height + self.y_offset <= u16::MAX
        &&& self.physical_width + self.x_offset_rotated <= u16::MAX
        &&& self.physical_height + self.y_offset_rotated <= u16::MAX
        &&& self.physical_height + self.x_offset <= u16::MAX
        &&& self.physical_width + self.y_offset <= u16::MAX
        &&& self.physical_height + self.x_offset_rotated <= u16::MAX
        &&& self.physical_width + self.y_offset_rotated <= u16::MAX
    }

    /// A spec with the given extent, no offsets, unit alignment, and
    /// RGB order.
    pub fn plain(width: u16, height: u16) -> (r: PanelSpec)
        ensures
            r == (PanelSpec {
                physical_width: width,
                physical_height: height,
                x_offset: 0u16,
                y_offset: 0u16,
                x_offset_rotated: 0u16,
                y_offset_rotated: 0u16,
                x_alignment: 1u16,
                y_alignment: 1u16,
                inverted: false,
                bgr: false,
            }),
    {
        PanelSpec {
            physical_width: width,
            physical_height: height,
            x_offset: 0,
            y_offset: 0,
            x_offset_rotated: 0,
            y_offset_rotated: 0,
            x_alignment: 1,
            y_alignment: 1,
            inverted: false,
            bgr: false,
        }
    }
}

/// A panel model: a marker type handing out the constant data of one
/// concrete display module.
pub trait DisplaySpec {
    /// The panel data of this model.
    spec fn spec_panel_spec() -> PanelSpec;

    /// Returns the panel data of this model.
    fn panel_spec(&self) -> (r: PanelSpec)
        ensures
            r == Self::spec_panel_spec(),
            r.wf(),
    ;
}

/// An optional trait for setting a panel's own brightness via commands.
pub trait PanelSetBrightness<B: DisplayBus> {
    /// The one-byte command that writes the brightness register.
    spec fn spec_brightness_cmd() -> u8;

    /// Sets the panel's brightness, `0` to `255`.
    fn set_brightness(&mut self, bus: &mut B, brightness: u8) -> (r: Result<
        (),
        DisplayError<B::Error>,
    >)
        requires
            B::spec_cmd_ok(seq![Self::spec_brightness_cmd()]),
        ensures
            r is Ok ==> final(bus).log() == old(bus).log().push(
                BusTx::CmdWithParams {
                    cmd: seq![Self::spec_brightness_cmd()],
                    params: seq![brightness],
                },
            ),
            r is Err ==> old(bus).log().is_prefix_of(final(bus).log()),
            r matches Err(e) ==> e is BusError,
    ;
}

} // verus!
