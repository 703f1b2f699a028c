use vstd::prelude::*;

verus! {

/// ESP-IDF's `ESP_A2D_MEDIA_CTRL_ACK_SUCCESS`.
pub const MEDIA_CTRL_ACK_SUCCESS: u32 = 0;

/// ESP-IDF's `ESP_A2D_DISC_RSN_NORMAL`.
pub const DISC_RSN_NORMAL: u32 = 0;

/// The states of an A2DP connection, as the radio stack reports them.
#[derive(PartialEq, Eq, Structural, Clone, Copy, Debug)]
pub enum A2dpConnectionState {
    Disconnected,
    Connecting,
    Connected,
    Disconnecting,
}

pub open spec fn connection_state_of(code: u32) -> Option<A2dpConnectionState> {
    if code == 0 {
        Some(A2dpConnectionState::Disconnected)
    } else if code == 1 {
        Some(A2dpConnectionState::Connecting)
    } else if code == 2 {
        Some(A2dpConnectionState::Connected)
    } else if code == 3 {
        Some(A2dpConnectionState::Disconnecting)
    } else {
        None
    }
}

impl A2dpConnectionState {
    /// The state with the stack's number `code` (`esp_a2d_connection_state_t`).
    pub fn from_code(code: u32) -> (r: Option<A2dpConnectionState>)
        ensures
            r == connection_state_of(code),
    {
        match code {
            0 => Some(A2dpConnectionState::Disconnected),
            1 => Some(A2dpConnectionState::Connecting),
            2 => Some(A2dpConnectionState::Connected),
            3 => Some(A2dpConnectionState::Disconnecting),
            _ => None,
        }
    }
}

#[derive(PartialEq, Eq, Structural, Clone, Copy, Debug)]
pub enum A2dpError {
    /// The stack reported a connection state that has no meaning.
    InvalidConnectionState(u32),
    /// The connection attempt ended disconnected, for this reason.
    Disconnected(u32),
    /// A media control command was refused with this status.
    Media(u32),
}

/// The last connection state that the stack reported, and the reason of the last
/// disconnection.
#[derive(PartialEq, Eq, Structural, Clone, Copy, Debug)]
pub struct ConnectionState {
    pub state: A2dpConnectionState,
    pub disconnect_reason: u32,
}

impl ConnectionState {
    pub fn new() -> (r: ConnectionState)
        ensures
            r == (ConnectionState {
                state: A2dpConnectionState::Disconnected,
                disconnect_reason: DISC_RSN_NORMAL,
            }),
    {
        ConnectionState {
            state: A2dpConnectionState::Disconnected,
            disconnect_reason: DISC_RSN_NORMAL,
        }
    }

    /// Takes in a connection state event. A settled state (connected or disconnected)
    /// records the reason with it; a transient one keeps the last reason. An unknown
    /// state is refused and changes nothing. Those waiting on the state are woken after
    /// every accepted event.
    pub fn apply_event(&mut self, code: u32, reason: u32) -> (r: Result<(), A2dpError>)
        ensures
            match connection_state_of(code) {
                None => r == Err::<(), A2dpError>(A2dpError::InvalidConnectionState(code))
                    && *final(self) == *old(self),
                Some(s) => r is Ok && *final(self) == (if s == A2dpConnectionState::Connected || s
                    == A2dpConnectionState::Disconnected {
                    ConnectionState { state: s, disconnect_reason: reason }
                } else {
                    ConnectionState { state: s, ..*old(self) }
                }),
            },
    {
        match A2dpConnectionState::from_code(code) {
            None => Err(A2dpError::InvalidConnectionState(code)),
            Some(s) => {
                match s {
                    A2dpConnectionState::Connected | A2dpConnectionState::Disconnected => {
                        self.state = s;
                        self.disconnect_reason = reason;
                    },
                    _ => {
                        self.state = s;
                    },
                }
                Ok(())
            },
        }
    }
}

/// The progress of one connection attempt: first the stack must report that it is
/// connecting, then the attempt ends connected or disconnected.
#[derive(PartialEq, Eq, Structural, Clone, Copy, Debug)]
pub enum ConnectAttempt {
    AwaitingConnecting,
    Connecting,
}

impl ConnectAttempt {
    pub fn new() -> (r: ConnectAttempt)
        ensures
            r == ConnectAttempt::AwaitingConnecting,
    {
        ConnectAttempt::AwaitingConnecting
    }

    /// Takes in the connection state seen after a wakeup. Returns the outcome once the
    /// attempt is over, and `None` while it must wait for more.
    pub fn on_state(&mut self, seen: ConnectionState) -> (r: Option<Result<(), A2dpError>>)
        ensures
            *old(self) == ConnectAttempt::AwaitingConnecting ==> r is None && *final(self) == (
            if seen.state == A2dpConnectionState::Connecting {
                ConnectAttempt::Connecting
            } else {
                ConnectAttempt::AwaitingConnecting
            }),
            *old(self) == ConnectAttempt::Connecting ==> *final(self) == ConnectAttempt::Connecting
                && r == (if seen.state == A2dpConnectionState::Connected {
                Some(Ok::<(), A2dpError>(()))
            } else if seen.state == A2dpConnectionState::Disconnected {
                Some(Err::<(), A2dpError>(A2dpError::Disconnected(seen.disconnect_reason)))
            } else {
                None
            }),
    {
        match self {
            ConnectAttempt::AwaitingConnecting => {
                if seen.state == A2dpConnectionState::Connecting {
                    *self = ConnectAttempt::Connecting;
                }
                None
            },
            ConnectAttempt::Connecting => {
                if seen.state == A2dpConnectionState::Connected {
                    Some(Ok(()))
                } else if seen.state == A2dpConnectionState::Disconnected {
                    Some(Err(A2dpError::Disconnected(seen.disconnect_reason)))
                } else {
                    None
                }
            },
        }
    }
}

/// What the audio data callback does with the byte count it is handed.
#[derive(PartialEq, Eq, Structural, Clone, Copy, Debug)]
pub enum DataRequest {
    /// Answer at once with this value.
    Reply(i32),
    /// Read this many samples and answer with their byte count.
    Read(usize),
}

/// The A2DP source profile of the chip.
pub struct ESP32A2DP {}

impl ESP32A2DP {
    pub fn new() -> (r: ESP32A2DP) {
        ESP32A2DP {}
    }

    /// The result carried by the acknowledgement of a "source ready" check.
    pub fn media_ack_result(status: u32) -> (r: Result<(), A2dpError>)
        ensures
            r == (if status == MEDIA_CTRL_ACK_SUCCESS {
                Ok::<(), A2dpError>(())
            } else {
                Err::<(), A2dpError>(A2dpError::Media(status))
            }),
    {
        if status == MEDIA_CTRL_ACK_SUCCESS {
            Ok(())
        } else {
            Err(A2dpError::Media(status))
        }
    }

    /// The data callback is asked for `len` bytes. -1 is answered with 0 and any other
    /// negative count is handed back; otherwise whole samples are read, two bytes each.
    pub fn data_request(len: i32) -> (r: DataRequest)
        ensures
            r == (if len == -1 {
                DataRequest::Reply(0)
            } else if len < 0 {
                DataRequest::Reply(len)
            } else {
                DataRequest::Read((len / 2) as usize)
            }),
    {
        if len == -1 {
            DataRequest::Reply(0)
        } else if len < 0 {
            DataRequest::Reply(len)
        } else {
            DataRequest::Read((len / 2) as usize)
        }
    }

    /// The answer of the data callback after `count` samples were written, in bytes.
    pub fn data_reply(count: usize) -> (r: i32)
        requires
            count <= i32::MAX / 2,
        ensures
            r == 2 * count,
    {
        (2 * count) as i32
    }
}

} // verus!
