//! The serial bridge between the host channel and the downstream UART, as a
//! state machine: the caller waits on the three event sources, hands the
//! event in, and performs the action that comes back.
use vstd::prelude::*;

verus! {

/// Why a bridging episode ended.
#[derive(Debug, Clone, Copy, PartialEq, Eq)]
pub enum UartTaskError {
    /// The host channel went away.
    Disconnected,
    /// The downstream link failed to read, write or take a configuration.
    UartError,
}

/// The baud rate of the downstream link before the host asks for another.
pub const DEFAULT_BAUDRATE: u32 = 115200;

/// How many bytes one read from the host channel can bring.
pub const HOST_PACKET_SIZE: usize = 64;

/// How many bytes one read from the downstream link can bring.
pub const LINK_BUFFER_SIZE: usize = 1024;

#[derive(Debug, Clone, Copy, PartialEq, Eq)]
pub enum State {
    /// Blocked until the host opens the channel.
    WaitConnection,
    /// Forwarding in both directions.
    Bridging,
}

/// What happened: the host connected, one of the three raced sources became
/// ready, or an operation failed.
#[derive(Debug, PartialEq, Eq)]
pub enum Event {
    Connected,
    /// A packet from the host channel.
    HostPacket(Vec<u8>),
    /// A burst of bytes from the downstream link.
    LinkBytes(Vec<u8>),
    /// The host changed the line coding to `data_rate` bits per second.
    LineCoding { data_rate: u32 },
    /// A read, write or configuration failed.
    Fault(UartTaskError),
}

/// What the caller does next, before it waits for the next event.
#[derive(Debug, PartialEq, Eq)]
pub enum Action {
    /// Nothing to do.
    Idle,
    /// Write all of these bytes to the downstream link.
    WriteLink(Vec<u8>),
    /// Send these bytes to the host as one packet.
    SendHost(Vec<u8>),
    /// Apply these baud rates to the receive and transmit halves of the link.
    Configure { rx_baudrate: u32, tx_baudrate: u32 },
}

/// The bridge's state and the configuration of the downstream link.
#[derive(Debug, Clone, Copy, PartialEq, Eq)]
pub struct Bridge {
    pub state: State,
    pub rx_baudrate: u32,
    pub tx_baudrate: u32,
}

impl Bridge {
    /// Both halves of the link run at the same rate.
    pub open spec fn wf(&self) -> bool {
        self.rx_baudrate == self.tx_baudrate
    }

    pub fn new() -> (r: Self)
        ensures
            r.state == State::WaitConnection,
            r.rx_baudrate == DEFAULT_BAUDRATE,
            r.tx_baudrate == DEFAULT_BAUDRATE,
            r.wf(),
    {
        Bridge {
            state: State::WaitConnection,
            rx_baudrate: DEFAULT_BAUDRATE,
            tx_baudrate: DEFAULT_BAUDRATE,
        }
    }

    /// Whether the next event should come from the three-way race rather
    /// than from waiting for a connection.
    pub fn is_bridging(&self) -> (r: bool)
        ensures
            r == (self.state == State::Bridging),
    {
        match self.state {
            State::Bridging => true,
            State::WaitConnection => false,
        }
    }

    /// Decides what to do on `event`.
    ///
    /// While waiting, only a connection matters: it starts bridging. While
    /// bridging, host bytes go to the link and link bytes go to the host,
    /// verbatim; a line-coding change sets both halves of the link to the new
    /// rate; a fault drops back to waiting.
    pub fn step(&mut self, event: Event) -> (r: Action)
        ensures
            old(self).wf() ==> final(self).wf(),
            match (old(self).state, event) {
                (State::WaitConnection, Event::Connected) => {
                    &&& *final(self) == Bridge { state: State::Bridging, ..*old(self) }
                    &&& r == Action::Idle
                },
                (State::WaitConnection, _) => *final(self) == *old(self) && r == Action::Idle,
                (State::Bridging, Event::Connected) => *final(self) == *old(self) && r
                    == Action::Idle,
                (State::Bridging, Event::HostPacket(bytes)) => {
                    &&& *final(self) == *old(self)
                    &&& r matches Action::WriteLink(out) && out@ == bytes@
                },
                (State::Bridging, Event::LinkBytes(bytes)) => {
                    &&& *final(self) == *old(self)
                    &&& r matches Action::SendHost(out) && out@ == bytes@
                },
                (State::Bridging, Event::LineCoding { data_rate }) => {
                    &&& final(self).state == State::Bridging
                    &&& final(self).rx_baudrate == data_rate
                    &&& final(self).tx_baudrate == data_rate
                    &&& r == Action::Configure { rx_baudrate: data_rate, tx_baudrate: data_rate }
                },
                (State::Bridging, Event::Fault(_)) => {
                    &&& *final(self) == Bridge { state: State::WaitConnection, ..*old(self) }
                    &&& r == Action::Idle
                },
            },
    {
        match self.state {
            State::WaitConnection => match event {
                Event::Connected => {
                    self.state = State::Bridging;
                    Action::Idle
                },
                _ => Action::Idle,
            },
            State::Bridging => match event {
                Event::Connected => Action::Idle,
                Event::HostPacket(bytes) => Action::WriteLink(bytes),
                Event::LinkBytes(bytes) => Action::SendHost(bytes),
                Event::LineCoding { data_rate } => {
                    self.rx_baudrate = data_rate;
                    self.tx_baudrate = data_rate;
                    Action::Configure { rx_baudrate: data_rate, tx_baudrate: data_rate }
                },
                Event::Fault(_) => {
                    self.state = State::WaitConnection;
                    Action::Idle
                },
            },
        }
    }
}

} // verus!
