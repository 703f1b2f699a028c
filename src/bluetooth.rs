use vstd::prelude::*;

use crate::esp32::{Esp32, NvsAction, NvsError};
use crate::gap::{BDAddr, ScannedDevice};
use crate::text::{hex_text, push_hex};
use crate::uuids::Bluetooth16bitUUIDEnum;

verus! {

/// The address as twelve upper-case hexadecimal digits, first byte first.
pub fn bdaddr_to_string(addr: BDAddr) -> (r: String)
    ensures
        r@ == hex_text(addr@, true),
{
    let mut result = String::new();
    push_hex(&mut result, addr.as_slice(), true);
    assert(result@ =~= hex_text(addr@, true));
    result
}

/// A source of samples, read in chunks by the audio transport.
pub trait Stream<T>: Send {
    /// Fills the front of `buf` and returns how many items were written; 0 means the end
    /// of the data.
    fn read(&mut self, buf: &mut [T]) -> Result<usize, StreamError>;
}

#[derive(PartialEq, Eq, Structural, Clone, Copy, Debug)]
pub enum StreamError {
    /// The source could not be read.
    Source,
}

/// Radio modes whose controller memory can be handed back.
#[derive(PartialEq, Eq, Structural, Clone, Copy, Debug)]
pub enum BtMode {
    Ble,
    ClassicBt,
}

#[derive(PartialEq, Eq, Structural, Clone, Copy, Debug)]
pub enum BtError {
    /// A discovery is already running.
    AlreadyScanning,
    /// There is no discovery to cancel.
    NoDiscovery,
    Nvs(NvsError),
}

/// The Bluetooth stack of the chip, set up for classic Bluetooth, low energy or both.
pub struct ESP32Bluetooth {
    classic: bool,
    low_energy: bool,
}

impl ESP32Bluetooth {
    pub closed spec fn spec_classic(&self) -> bool {
        self.classic
    }

    pub closed spec fn spec_low_energy(&self) -> bool {
        self.low_energy
    }

    pub fn new(classic: bool, low_energy: bool) -> (r: ESP32Bluetooth)
        ensures
            r.spec_classic() == classic,
            r.spec_low_energy() == low_energy,
    {
        ESP32Bluetooth { classic, low_energy }
    }

    /// The mode whose controller memory is released before the controller starts: that of
    /// the mode not used, classic Bluetooth first.
    pub fn unused_mode(&self) -> (r: Option<BtMode>)
        ensures
            r == (if !self.spec_classic() {
                Some(BtMode::ClassicBt)
            } else if !self.spec_low_energy() {
                Some(BtMode::Ble)
            } else {
                None
            }),
    {
        if !self.classic {
            Some(BtMode::ClassicBt)
        } else if !self.low_energy {
            Some(BtMode::Ble)
        } else {
            None
        }
    }

    /// Records the stack as a user of the flash store, which it needs before it starts.
    /// The platform first does what `Esp32::nvs_init_action` asks.
    pub fn pre_init(&self, esp32: &mut Esp32) -> (r: Result<(), BtError>)
        ensures
            old(esp32)@ < usize::MAX ==> r is Ok && final(esp32)@ == old(esp32)@ + 1,
            old(esp32)@ == usize::MAX ==> r == Err::<(), BtError>(
                BtError::Nvs(NvsError::TooManyUsers),
            ) && final(esp32)@ == old(esp32)@,
    {
        match esp32.nvs_init() {
            Ok(()) => Ok(()),
            Err(e) => Err(BtError::Nvs(e)),
        }
    }

    /// Releases the stack's use of the flash store, and says whether the platform must now
    /// take it down.
    pub fn post_deinit(&self, esp32: &mut Esp32) -> (r: Result<NvsAction, BtError>)
        ensures
            old(esp32)@ == 0 ==> r == Err::<NvsAction, BtError>(
                BtError::Nvs(NvsError::NotInitialized),
            ) && final(esp32)@ == 0,
            old(esp32)@ > 0 ==> final(esp32)@ == old(esp32)@ - 1 && r == Ok::<NvsAction, BtError>(
                if old(esp32)@ == 1 {
                    NvsAction::DeinitFlash
                } else {
                    NvsAction::Nothing
                },
            ),
    {
        match esp32.nvs_deinit() {
            Ok(a) => Ok(a),
            Err(e) => Err(BtError::Nvs(e)),
        }
    }
}

/// The running device discovery, if any, with the channel `C` on which its results go
/// out. At most one runs at a time.
pub struct Discovery<C> {
    channel: Option<C>,
}

impl<C> View for Discovery<C> {
    type V = Option<C>;

    closed spec fn view(&self) -> Option<C> {
        self.channel
    }
}

impl<C> Discovery<C> {
    pub fn new() -> (r: Discovery<C>)
        ensures
            r@ is None,
    {
        Discovery { channel: None }
    }

    pub fn is_scanning(&self) -> (r: bool)
        ensures
            r == self@ is Some,
    {
        self.channel.is_some()
    }

    /// Whether a discovery may start now.
    pub fn check_start(&self) -> (r: Result<(), BtError>)
        ensures
            r == (if self@ is Some {
                Err::<(), BtError>(BtError::AlreadyScanning)
            } else {
                Ok(())
            }),
    {
        if self.channel.is_some() {
            Err(BtError::AlreadyScanning)
        } else {
            Ok(())
        }
    }

    /// Records a discovery that the radio has started, with its channel; refused while
    /// another runs, which keeps its own.
    pub fn start(&mut self, channel: C) -> (r: Result<(), BtError>)
        ensures
            old(self)@ is Some ==> r == Err::<(), BtError>(BtError::AlreadyScanning)
                && final(self)@ == old(self)@,
            old(self)@ is None ==> r is Ok && final(self)@ == Some(channel),
    {
        if self.channel.is_some() {
            Err(BtError::AlreadyScanning)
        } else {
            self.channel = Some(channel);
            Ok(())
        }
    }

    /// Whether there is a discovery to cancel. It ends when the radio reports that it
    /// stopped.
    pub fn check_cancel(&self) -> (r: Result<(), BtError>)
        ensures
            r == (if self@ is Some {
                Ok(())
            } else {
                Err::<(), BtError>(BtError::NoDiscovery)
            }),
    {
        if self.channel.is_some() {
            Ok(())
        } else {
            Err(BtError::NoDiscovery)
        }
    }

    /// The radio reported that discovery stopped: hands back the channel, to be closed.
    pub fn stopped(&mut self) -> (r: Option<C>)
        ensures
            r == old(self)@,
            final(self)@ is None,
    {
        self.channel.take()
    }

    /// The channel of the running discovery, to deliver a result on.
    pub fn channel(&self) -> (r: Option<&C>)
        ensures
            match self@ {
                Some(c) => r == Some(&c),
                None => r is None,
            },
    {
        match &self.channel {
            Some(c) => Some(c),
            None => None,
        }
    }
}

/// Whether a discovered device can receive streamed audio: it lists the advanced audio
/// distribution profile among its complete 16-bit UUIDs.
pub fn is_a2dp_sink(device: &ScannedDevice) -> (r: bool)
    ensures
        r == (device@.uuids16 matches Some(l) && l.contains(
            Bluetooth16bitUUIDEnum::AdvancedAudioDistribution.spec_value(),
        )),
{
    device.has_16bit_uuid(Bluetooth16bitUUIDEnum::AdvancedAudioDistribution.value())
}

} // verus!
