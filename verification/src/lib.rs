//! A userspace network bridge core: raw Ethernet frames captured on physical
//! interfaces are relayed through full-duplex channel ports into a virtual
//! network device, where a poll-driven driver terminates connections and
//! forwards application bytes to real destinations.
//!
//! The crate holds the bridge's own logic: the FIFO channel port that links a
//! blocking capture thread to the cooperative scheduler, the move-only
//! receive/transmit tokens with their exactly-once commit discipline, the
//! at-most-one-item lookahead receiver, interface opening with partial-success
//! semantics, and the driver's per-tick decisions. The surrounding process —
//! real packet capture, the asynchronous runtime, real outbound connections —
//! lives outside and exchanges plain values with this core.

pub mod capture;
pub mod channel;
pub mod device;
pub mod driver;
pub mod iface;
pub mod peekable_receiver;
pub mod proxy;

pub use capture::RawsockInterface;
pub use capture::RawsockInterfaceSet;
pub use channel::Channel;
pub use channel::ChannelClosed;
pub use channel::ChannelPort;
pub use channel::TryRecvError;
pub use device::RawsockDevice;
pub use driver::SocketSet;
pub use driver::VirtualSocket;
pub use iface::VirtualInterface;
pub use peekable_receiver::PeekableReceiver;
pub use proxy::Proxy;
