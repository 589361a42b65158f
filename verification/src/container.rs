//! Container objects.

pub mod equity;
pub mod keylist;

use vstd::bytes::{spec_u16_from_le_bytes, spec_u32_from_le_bytes, spec_u64_from_le_bytes};
use vstd::prelude::*;

use crate::appliance::Appliance;
use crate::error::Error;
use crate::field::{self, spec_field_read, Field as FieldTrait, XC_CONTAINER};
use crate::object::Wrapper;

verus! {

/// Realtime container field: the number of slots configured on the
/// container.
pub const XFLD_RT_SLOT_COUNT: u64 = 0x4001;

/// Realtime container field: the context turnkey set when the container
/// was created.
pub const XFLD_RT_TURNKEY: u64 = 0x4002;

/// Realtime container field: the type of container.
pub const XFLD_RT_CONTAINER_TYPE: u64 = 0x4003;

/// An enumeration of realtime container fields.
#[derive(Clone, Copy, Debug)]
pub enum RealTimeField {
    /// The number of slots configured on this container.
    SlotCount,
    /// The context turnkey set when the container was created.
    Turnkey,
    /// The type of container.
    Type,
}

impl FieldTrait for RealTimeField {
    open spec fn spec_id(&self) -> u64 {
        match self {
            RealTimeField::SlotCount => XFLD_RT_SLOT_COUNT,
            RealTimeField::Turnkey => XFLD_RT_TURNKEY,
            RealTimeField::Type => XFLD_RT_CONTAINER_TYPE,
        }
    }

    fn to_u64(&self) -> (r: u64) {
        match self {
            RealTimeField::SlotCount => XFLD_RT_SLOT_COUNT,
            RealTimeField::Turnkey => XFLD_RT_TURNKEY,
            RealTimeField::Type => XFLD_RT_CONTAINER_TYPE,
        }
    }
}

/// A marker trait identifying realtime containers.
pub trait RealTime: Wrapper {

}

/// Common fields used by containers.
pub trait Common: RealTime {
    /// The object type of the container.
    fn container_type(&self, plant: &Appliance) -> (r: Result<u16, Error>)
        ensures
            match spec_field_read(
                *plant,
                self.spec_handle(),
                XC_CONTAINER,
                XFLD_RT_CONTAINER_TYPE,
                2,
            ) {
                Ok(b) => r == Ok::<u16, Error>(spec_u16_from_le_bytes(b)),
                Err(e) => r == Err::<u16, Error>(e),
            },
    {
        field::get_u16(plant, self, XC_CONTAINER, RealTimeField::Type)
    }

    /// The number of slots in the container.
    fn slot_count(&self, plant: &Appliance) -> (r: Result<u32, Error>)
        ensures
            match spec_field_read(
                *plant,
                self.spec_handle(),
                XC_CONTAINER,
                XFLD_RT_SLOT_COUNT,
                4,
            ) {
                Ok(b) => r == Ok::<u32, Error>(spec_u32_from_le_bytes(b)),
                Err(e) => r == Err::<u32, Error>(e),
            },
    {
        field::get_u32(plant, self, XC_CONTAINER, RealTimeField::SlotCount)
    }
}

/// The turnkey accessor containers use to recover their context token
/// from inside a callback.
pub trait InnerCommon: RealTime {
    /// The turnkey value set at the container's creation.
    fn turnkey(&self, plant: &Appliance) -> (r: Result<u64, Error>)
        ensures
            match spec_field_read(*plant, self.spec_handle(), XC_CONTAINER, XFLD_RT_TURNKEY, 8) {
                Ok(b) => r == Ok::<u64, Error>(spec_u64_from_le_bytes(b)),
                Err(e) => r == Err::<u64, Error>(e),
            },
    {
        field::get_u64(plant, self, XC_CONTAINER, RealTimeField::Turnkey)
    }
}

} // verus!
