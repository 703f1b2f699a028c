use vstd::prelude::*;

verus! {

/// Assigned 16-bit UUIDs of the audio services and profiles.
#[derive(PartialEq, Eq, Structural, Clone, Copy, Debug)]
pub enum Bluetooth16bitUUIDEnum {
    /// Service class and profile.
    Headset,
    /// Audio sink service class.
    AudioSink,
    /// Profile.
    AdvancedAudioDistribution,
    /// Service class and profile.
    AVRemoteControl,
    /// Service class.
    AVRemoteControlTarget,
    Handsfree,
    /// Service class.
    AVRemoteControlController,
    /// HS service class.
    HeadsetHS,
}

impl Bluetooth16bitUUIDEnum {
    pub open spec fn spec_value(self) -> u16 {
        match self {
            Bluetooth16bitUUIDEnum::Headset => 0x1108,
            Bluetooth16bitUUIDEnum::AudioSink => 0x110b,
            Bluetooth16bitUUIDEnum::AdvancedAudioDistribution => 0x110d,
            Bluetooth16bitUUIDEnum::AVRemoteControl => 0x110e,
            Bluetooth16bitUUIDEnum::AVRemoteControlTarget => 0x110c,
            Bluetooth16bitUUIDEnum::Handsfree => 0x111e,
            Bluetooth16bitUUIDEnum::AVRemoteControlController => 0x110f,
            Bluetooth16bitUUIDEnum::HeadsetHS => 0x1131,
        }
    }

    /// The assigned number.
    pub fn value(&self) -> (r: u16)
        ensures
            r == self.spec_value(),
    {
        match self {
            Bluetooth16bitUUIDEnum::Headset => 0x1108,
            Bluetooth16bitUUIDEnum::AudioSink => 0x110b,
            Bluetooth16bitUUIDEnum::AdvancedAudioDistribution => 0x110d,
            Bluetooth16bitUUIDEnum::AVRemoteControl => 0x110e,
            Bluetooth16bitUUIDEnum::AVRemoteControlTarget => 0x110c,
            Bluetooth16bitUUIDEnum::Handsfree => 0x111e,
            Bluetooth16bitUUIDEnum::AVRemoteControlController => 0x110f,
            Bluetooth16bitUUIDEnum::HeadsetHS => 0x1131,
        }
    }
}

} // verus!
