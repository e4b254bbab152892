//! Process-wide device state: the flags the supervisor, the server and the
//! sessions coordinate through, and the stored error message.

use vstd::prelude::*;

verus! {

/// The flags that steer the server's lifecycle.  `restart` is latched at
/// boot so the supervisor enters its loop; `quit` stops every session;
/// `error` parks the supervisor until it is cleared from outside.
#[derive(Clone)]
pub struct DeviceState {
    pub connection_count: i32,
    pub device_ready: bool,
    pub restart: bool,
    pub quit: bool,
    pub stopped: bool,
    pub error: bool,
    pub error_msg: String,
}

impl DeviceState {
    /// Boot state: nothing ready, nothing stopped, restart armed.
    pub fn new() -> (r: DeviceState)
        ensures
            r.connection_count == 0,
            !r.device_ready,
            r.restart,
            !r.quit,
            !r.stopped,
            !r.error,
            r.error_msg@.len() == 0,
    {
        DeviceState {
            connection_count: 0,
            device_ready: false,
            restart: true,
            quit: false,
            stopped: false,
            error: false,
            error_msg: String::new(),
        }
    }

    /// Entering a server run: the restart latch and the quit flag drop.
    pub fn init(&mut self)
        ensures
            *final(self) == (DeviceState { restart: false, quit: false, ..*old(self) }),
    {
        self.restart = false;
        self.quit = false;
    }

    /// Reset the connections: arm a restart, tell sessions to quit, clear
    /// any standing error.
    pub fn reset(&mut self)
        ensures
            *final(self) == (DeviceState {
                restart: true,
                quit: true,
                error: false,
                ..*old(self)
            }),
    {
        self.restart = true;
        self.quit = true;
        self.error = false;
    }

    /// Record a fatal error: store the message, raise the error flag, arm a
    /// restart, and mark the device ready so the fault is shown.
    pub fn set_error(&mut self, error_msg: String)
        ensures
            *final(self) == (DeviceState {
                error_msg,
                error: true,
                restart: true,
                device_ready: true,
                ..*old(self)
            }),
    {
        self.error_msg = error_msg;
        self.error = true;
        self.restart = true;
        self.device_ready = true;
    }
}

} // verus!
