use vstd::prelude::*;

verus! {

/// ESP-IDF's `ESP_ERR_NVS_NO_FREE_PAGES`: the flash store has no free page left.
pub const ESP_ERR_NVS_NO_FREE_PAGES: i32 = 0x110d;

/// ESP-IDF's `ESP_ERR_NVS_NEW_VERSION_FOUND`: the flash store holds data of a newer format.
pub const ESP_ERR_NVS_NEW_VERSION_FOUND: i32 = 0x1110;

/// What the platform has to do to the non-volatile flash store.
#[derive(PartialEq, Eq, Structural, Clone, Copy, Debug)]
pub enum NvsAction {
    /// Bring the flash store up: this is its first user.
    InitFlash,
    /// Take the flash store down: its last user is gone.
    DeinitFlash,
    /// Nothing: other users still hold it.
    Nothing,
}

#[derive(PartialEq, Eq, Structural, Clone, Copy, Debug)]
pub enum NvsError {
    /// A release without a matching initialisation.
    NotInitialized,
    /// The count of users cannot grow any further.
    TooManyUsers,
}

/// Whether a failed flash store initialisation is mended by erasing the store and
/// initialising it again.
pub open spec fn is_erasable_failure(code: i32) -> bool {
    code == ESP_ERR_NVS_NO_FREE_PAGES || code == ESP_ERR_NVS_NEW_VERSION_FOUND
}

pub fn nvs_erase_and_retry(code: i32) -> (r: bool)
    ensures
        r == is_erasable_failure(code),
{
    code == ESP_ERR_NVS_NO_FREE_PAGES || code == ESP_ERR_NVS_NEW_VERSION_FOUND
}

/// The chip, as far as its users share it: the flash store is brought up for its first
/// user and taken down after its last.
pub struct Esp32 {
    nvs_initialized_count: usize,
}

impl View for Esp32 {
    /// The number of users of the flash store.
    type V = nat;

    closed spec fn view(&self) -> nat {
        self.nvs_initialized_count as nat
    }
}

impl Esp32 {
    pub fn new() -> (r: Esp32)
        ensures
            r@ == 0,
    {
        Esp32 { nvs_initialized_count: 0 }
    }

    pub fn nvs_users(&self) -> (r: usize)
        ensures
            r == self@,
    {
        self.nvs_initialized_count
    }

    /// What the platform must do before one more user is recorded by `nvs_init`.
    pub fn nvs_init_action(&self) -> (r: NvsAction)
        ensures
            r == (if self@ == 0 { NvsAction::InitFlash } else { NvsAction::Nothing }),
    {
        if self.nvs_initialized_count == 0 {
            NvsAction::InitFlash
        } else {
            NvsAction::Nothing
        }
    }

    /// Records one more user of the flash store, once the platform has done what
    /// `nvs_init_action` asked.
    pub fn nvs_init(&mut self) -> (r: Result<(), NvsError>)
        ensures
            old(self)@ < usize::MAX ==> r is Ok && final(self)@ == old(self)@ + 1,
            old(self)@ == usize::MAX ==> r == Err::<(), NvsError>(NvsError::TooManyUsers)
                && final(self)@ == old(self)@,
    {
        if self.nvs_initialized_count == usize::MAX {
            Err(NvsError::TooManyUsers)
        } else {
            self.nvs_initialized_count = self.nvs_initialized_count + 1;
            Ok(())
        }
    }

    /// Releases one user of the flash store, and says whether the platform must now take
    /// it down.
    pub fn nvs_deinit(&mut self) -> (r: Result<NvsAction, NvsError>)
        ensures
            old(self)@ == 0 ==> r == Err::<NvsAction, NvsError>(NvsError::NotInitialized)
                && final(self)@ == 0,
            old(self)@ > 0 ==> final(self)@ == old(self)@ - 1 && r == Ok::<NvsAction, NvsError>(
                if old(self)@ == 1 {
                    NvsAction::DeinitFlash
                } else {
                    NvsAction::Nothing
                },
            ),
    {
        if self.nvs_initialized_count == 0 {
            Err(NvsError::NotInitialized)
        } else {
            self.nvs_initialized_count = self.nvs_initialized_count - 1;
            if self.nvs_initialized_count == 0 {
                Ok(NvsAction::DeinitFlash)
            } else {
                Ok(NvsAction::Nothing)
            }
        }
    }
}

} // verus!
