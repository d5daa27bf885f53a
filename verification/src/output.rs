//! Kernel outputs that a cast display can take.

use vstd::prelude::*;

verus! {

/// The stable identity of an output.
#[derive(Debug, PartialEq, Eq)]
pub struct CastKmsOutputId {
    pub device_path: String,
    pub output_index: u32,
}

#[derive(Debug, Clone, Copy, PartialEq, Eq, Structural)]
pub enum OutputConnection {
    Connected,
    Disconnected,
    Unknown,
}

/// One output of a kernel device.
#[derive(Debug, PartialEq, Eq)]
pub struct CastKmsOutput {
    pub id: CastKmsOutputId,
    pub node_path: String,
    pub device_major: u32,
    pub device_minor: u32,
    pub crtc_id: u32,
    pub connector_id: u32,
    pub connector_name: String,
    pub connection: OutputConnection,
}

impl Clone for CastKmsOutputId {
    fn clone(&self) -> (copy: Self)
        ensures
            copy == *self,
    {
        CastKmsOutputId { device_path: self.device_path.clone(), output_index: self.output_index }
    }
}

impl Clone for CastKmsOutput {
    fn clone(&self) -> (copy: Self)
        ensures
            copy == *self,
    {
        CastKmsOutput {
            id: self.id.clone(),
            node_path: self.node_path.clone(),
            device_major: self.device_major,
            device_minor: self.device_minor,
            crtc_id: self.crtc_id,
            connector_id: self.connector_id,
            connector_name: self.connector_name.clone(),
            connection: self.connection,
        }
    }
}

} // verus!
