use vstd::prelude::*;

verus! {

/// Size in bytes of one telemetry frame, encrypted or decrypted.
pub const PACKET_SIZE: usize = 296;

/// Marker that opens every correctly decrypted frame.
pub const PACKET_MAGIC_VALUE: u32 = 0x4737_5330;

/// Number of payloads the broker queue holds before new ones are dropped.
pub const DISPATCH_QUEUE_CAPACITY: usize = 100;

/// Delay in milliseconds before the loop retries a failed keep-alive send.
pub const SEND_RETRY_DELAY_MS: u64 = 100;

/// Receive timeout of the telemetry socket, in seconds.
pub const RECEIVE_TIMEOUT_SECS: u64 = 1;

/// The datagram that asks the console to keep streaming.
pub const PACKET_HEARTBEAT_DATA: [u8; 1] = [0x41];

/// The simulator interface's published key phrase; the cipher key is its
/// first 32 bytes.
pub const PACKET_DECRYPTION_KEY: [u8; 38] = [
    0x53, 0x69, 0x6d, 0x75, 0x6c, 0x61, 0x74, 0x6f, 0x72, 0x20,
    0x49, 0x6e, 0x74, 0x65, 0x72, 0x66, 0x61, 0x63, 0x65, 0x20,
    0x50, 0x61, 0x63, 0x6b, 0x65, 0x74, 0x20, 0x47, 0x54, 0x37,
    0x20, 0x76, 0x65, 0x72, 0x20, 0x30, 0x2e, 0x30,
];

} // verus!
