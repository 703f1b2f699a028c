use vstd::prelude::*;

verus! {

/// Start-up: nothing is running yet.
pub struct Boot {}

/// Joining the wireless network.
pub struct WifiConnect {}

/// Finding an audio sink and streaming to it.
pub struct Playback {}

/// The stage the device is in; each stage, once done, hands over to the next.
#[derive(PartialEq, Eq, Structural, Clone, Copy, Debug)]
pub enum Stage {
    Boot,
    WifiConnect,
    Playback,
}

impl Stage {
    /// The stage that follows: boot, then network, then playback, and back to boot
    /// when a playback session is over.
    pub fn next(&self) -> (r: Stage)
        ensures
            r == (match *self {
                Stage::Boot => Stage::WifiConnect,
                Stage::WifiConnect => Stage::Playback,
                Stage::Playback => Stage::Boot,
            }),
    {
        match self {
            Stage::Boot => Stage::WifiConnect,
            Stage::WifiConnect => Stage::Playback,
            Stage::Playback => Stage::Boot,
        }
    }
}

} // verus!
