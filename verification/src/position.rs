//! Where a desktop object stands. Coordinates and sizes are the IEEE-754
//! bit patterns of the pixel values (`f64::to_bits`); the library only
//! carries them.
use vstd::prelude::*;

verus! {

/// The zone of the desktop an object is placed in.
#[derive(Debug, Clone, Copy, PartialEq, Eq, Structural)]
pub enum DesktopZone {
    Main,
    Dock,
    Panel,
    Notification,
}

/// The bits of `80.0`, the default width and height of an object.
pub const DEFAULT_OBJECT_SIZE_BITS: u64 = 0x4054_0000_0000_0000;

/// The position of a desktop object.
#[derive(Debug, Clone)]
pub struct DesktopObjectPosition {
    pub x_bits: u64,
    pub y_bits: u64,
    pub width_bits: u64,
    pub height_bits: u64,
    pub workspace_id: Option<u8>,
    pub container_id: Option<String>,
    pub zone: DesktopZone,
    pub z_index: i32,
}

/// A position at (x, y) in the main zone, 80 by 80, on no particular
/// workspace or container, at depth zero.
pub open spec fn desktop_position(x_bits: u64, y_bits: u64) -> DesktopObjectPosition {
    DesktopObjectPosition {
        x_bits,
        y_bits,
        width_bits: DEFAULT_OBJECT_SIZE_BITS,
        height_bits: DEFAULT_OBJECT_SIZE_BITS,
        workspace_id: None,
        container_id: None,
        zone: DesktopZone::Main,
        z_index: 0,
    }
}

impl DesktopObjectPosition {
    /// A position at (x, y) in the main zone, 80 by 80, on no particular
    /// workspace or container, at depth zero.
    pub fn desktop(x_bits: u64, y_bits: u64) -> (r: Self)
        ensures
            r == desktop_position(x_bits, y_bits),
    {
        DesktopObjectPosition {
            x_bits,
            y_bits,
            width_bits: DEFAULT_OBJECT_SIZE_BITS,
            height_bits: DEFAULT_OBJECT_SIZE_BITS,
            workspace_id: None,
            container_id: None,
            zone: DesktopZone::Main,
            z_index: 0,
        }
    }

    /// The same position with another size.
    pub fn with_size(self, width_bits: u64, height_bits: u64) -> (r: Self)
        ensures
            r == (DesktopObjectPosition { width_bits, height_bits, ..self }),
    {
        DesktopObjectPosition { width_bits, height_bits, ..self }
    }

    /// The same position on workspace `workspace_id`.
    pub fn on_workspace(self, workspace_id: u8) -> (r: Self)
        ensures
            r == (DesktopObjectPosition { workspace_id: Some(workspace_id), ..self }),
    {
        DesktopObjectPosition { workspace_id: Some(workspace_id), ..self }
    }

    /// The same position in another zone.
    pub fn in_zone(self, zone: DesktopZone) -> (r: Self)
        ensures
            r == (DesktopObjectPosition { zone, ..self }),
    {
        DesktopObjectPosition { zone, ..self }
    }

    /// The same position at another depth.
    pub fn with_z_index(self, z_index: i32) -> (r: Self)
        ensures
            r == (DesktopObjectPosition { z_index, ..self }),
    {
        DesktopObjectPosition { z_index, ..self }
    }

    /// An identical copy.
    pub fn duplicate(&self) -> (r: Self)
        ensures
            r == *self,
    {
        DesktopObjectPosition {
            x_bits: self.x_bits,
            y_bits: self.y_bits,
            width_bits: self.width_bits,
            height_bits: self.height_bits,
            workspace_id: self.workspace_id,
            container_id: match &self.container_id {
                Some(c) => Some(c.clone()),
                None => None,
            },
            zone: self.zone,
            z_index: self.z_index,
        }
    }
}

impl Default for DesktopObjectPosition {
    fn default() -> (r: Self)
        ensures
            r == (DesktopObjectPosition {
                x_bits: 0,
                y_bits: 0,
                width_bits: DEFAULT_OBJECT_SIZE_BITS,
                height_bits: DEFAULT_OBJECT_SIZE_BITS,
                workspace_id: None,
                container_id: None,
                zone: DesktopZone::Main,
                z_index: 0,
            }),
    {
        DesktopObjectPosition::desktop(0, 0)
    }
}

} // verus!
