//! The audio processing unit: for now, its control registers.
use vstd::prelude::*;
use crate::apu::registers::{
    AudioMasterControlRegister, AudioMasterVolumeVINPanningRegister, AudioPanningRegister,
};

pub mod registers;

verus! {

pub struct APU {
    pub master_control: AudioMasterControlRegister,
    pub panning: AudioPanningRegister,
    pub master_volume_vin_panning: AudioMasterVolumeVINPanningRegister,
}

impl APU {
    /// Every control bit clear.
    pub open spec fn spec_power_on(&self) -> bool {
        &&& self.master_control@ == 0
        &&& self.panning@ == 0
        &&& self.master_volume_vin_panning@ == 0
    }

    /// An APU with every control bit clear.
    pub fn new() -> (r: APU)
        ensures
            r.spec_power_on(),
    {
        APU {
            master_control: AudioMasterControlRegister::new(),
            panning: AudioPanningRegister::new(),
            master_volume_vin_panning: AudioMasterVolumeVINPanningRegister::new(),
        }
    }
}

} // verus!
