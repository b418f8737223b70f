//! Error kinds of the data plane and its collaborators. Each carries a
//! human-readable context string where one applies.
use vstd::prelude::*;

verus! {

#[derive(Debug, PartialEq, Eq)]
pub enum PacketError {
    DatabaseError(String),
    NetworkError(String),
    DeviceError(String),
    UnsupportedChannelType,
    PacketSizeTooLarge(usize),
    SendError(String),
    ParseError(String),
    FilterError(String),
    BufferError(String),
    ProtocolError(String),
    TimestampError(String),
    CounterError(String),
}

#[derive(Debug, PartialEq, Eq)]
pub enum PacketAnalysisError {
    InterfaceNotFound(String),
    InvalidEthernetFrameSize(String),
}

#[derive(Debug, PartialEq, Eq)]
pub enum MonitorError {
    NetworkError(String),
    UnsupportedChannelType,
    PacketParseError(String),
    PacketReadError(String),
    InvalidPacketSize,
    ProcessingError(String),
    MainInterfaceError(String),
    TapInterfaceError(String),
    InterfaceNotFound(String),
}

#[derive(Debug, PartialEq, Eq)]
pub enum PacketReaderError {
    FilteredPacketsFetchError(String),
    InterfaceIpv4AddressNotFound(String),
    PollingAndSendingError(String),
    InjectPacketUnexpectedError(String),
    NetworkError(String),
    UnsupportedChannelType,
    SendError(String),
}

#[derive(Debug, PartialEq, Eq)]
pub enum WriterError {
    PacketBufferFlushError(String),
    PacketParsingError(String),
}

#[derive(Debug, PartialEq, Eq)]
pub enum InterfaceError {
    CreateNetlinkConnectionError(String),
    RetrieveInterfaceInfoError(String),
    InterfaceNotFoundError,
    SetTapInterfaceAddressError(String),
    ActivateTapInterfaceError(String),
    PurseIpAddressError(String),
    NoAvailableNetworkInterfaceError,
    DockerInterfaceNotFound(String),
    StdoutFlushError(String),
    ReadLineError(String),
    InvalidInterfaceNumberError(String),
    OutOfRangeInterfaceNumberError,
}

#[derive(Debug, PartialEq, Eq)]
pub enum LoggerError {
    LogFileCreateError(String),
}

#[derive(Debug, PartialEq, Eq)]
pub enum TaskError {
    PacketAnalysisError(String),
    TaskExecutionError(String),
    TaskShutdownError(String),
    InitializationError(String),
    ExecutionError(String),
    ShutdownError(String),
    StateUpdateError(String),
    TimeoutError(String),
    CommunicationError(String),
    PanicError(String),
}

} // verus!
