//! What is known of a device once its session is prepared.

use crate::protocol::clone_text;
use vstd::prelude::*;

verus! {

/// Where a name of a device comes from.
#[derive(Debug, Clone, Copy, PartialEq, Eq, Structural)]
pub enum IdentitySource {
    Absent,
    SetupEndpoint,
    AuthenticatedDeviceInfo,
    DiscoveryAdvertisement,
}

/// How the manufacturer of a device was resolved.
#[derive(Debug, Clone, Copy, PartialEq, Eq, Structural)]
pub enum PnpResolutionSource {
    AuthenticatedPnpId,
    ExactName,
    LegalSuffixName,
    ReviewedAlias,
    SynthesizerFallback,
}

/// The identity under which a prepared device is shown.
#[derive(Debug, PartialEq, Eq)]
pub struct PreparedCastDevice {
    pub manufacturer_name: Option<String>,
    pub manufacturer_source: IdentitySource,
    pub product_name: Option<String>,
    pub product_source: IdentitySource,
    pub pnp_id: String,
    pub pnp_source: PnpResolutionSource,
    pub product_code: u16,
    pub serial: u32,
    pub audio_enabled: bool,
}

impl Clone for PreparedCastDevice {
    fn clone(&self) -> (copy: Self)
        ensures
            copy == *self,
    {
        PreparedCastDevice {
            manufacturer_name: clone_text(&self.manufacturer_name),
            manufacturer_source: self.manufacturer_source,
            product_name: clone_text(&self.product_name),
            product_source: self.product_source,
            pnp_id: self.pnp_id.clone(),
            pnp_source: self.pnp_source,
            product_code: self.product_code,
            serial: self.serial,
            audio_enabled: self.audio_enabled,
        }
    }
}

} // verus!
