//! What the commands are told, and what they go by when they are told nothing.
//!
//! The sample rate is carried through and never looked at, so its type is left open.
use vstd::prelude::*;
use vstd::string::*;

use crate::text::decimal_text;

verus! {

/// Arguments of `enroll`.
#[derive(Debug, Clone)]
pub struct EnrollArgs<R> {
    /// UDP port on which raw channel state frames arrive.
    pub udp_port: u16,
    /// Address that the UDP socket is bound to.
    pub bind: String,
    /// Path of the empty-room baseline.
    pub baseline: String,
    /// PHY tier (ht20, ht40, he20 or he40).
    pub tier: String,
    /// Room label.
    pub room_id: String,
    /// Path of the enrollment file to write.
    pub output: String,
    /// Sample rate in Hz.
    pub fs_hz: R,
    /// Attempts at an anchor before moving on.
    pub attempts: u32,
}

impl<R> EnrollArgs<R> {
    /// The defaults, at a given sample rate.
    pub fn with_rate(fs_hz: R) -> (r: Self)
        ensures
            r.udp_port == 5005,
            r.bind@ == "0.0.0.0"@,
            r.baseline@ == "./baseline.bin"@,
            r.tier@ == "ht20"@,
            r.room_id@ == "default"@,
            r.output@ == "./enrollment.json"@,
            r.fs_hz == fs_hz,
            r.attempts == 2,
    {
        EnrollArgs {
            udp_port: 5005,
            bind: "0.0.0.0".to_owned(),
            baseline: "./baseline.bin".to_owned(),
            tier: "ht20".to_owned(),
            room_id: "default".to_owned(),
            output: "./enrollment.json".to_owned(),
            fs_hz,
            attempts: 2,
        }
    }
}

/// Arguments of `train-room`.
#[derive(Debug, Clone)]
pub struct TrainRoomArgs {
    /// Path of the enrollment file.
    pub enrollment: String,
    /// Path of the specialist bank to write.
    pub output: String,
}

impl Default for TrainRoomArgs {
    fn default() -> (r: Self)
        ensures
            r.enrollment@ == "./enrollment.json"@,
            r.output@ == "./room-bank.json"@,
    {
        TrainRoomArgs {
            enrollment: "./enrollment.json".to_owned(),
            output: "./room-bank.json".to_owned(),
        }
    }
}

/// Arguments of `room-status`.
#[derive(Debug, Clone)]
pub struct RoomStatusArgs {
    /// Path of the specialist bank.
    pub bank: String,
}

impl Default for RoomStatusArgs {
    fn default() -> (r: Self)
        ensures
            r.bank@ == "./room-bank.json"@,
    {
        RoomStatusArgs { bank: "./room-bank.json".to_owned() }
    }
}

/// Arguments of `room-watch`.
#[derive(Debug, Clone)]
pub struct RoomWatchArgs<R> {
    /// Path of the specialist bank.
    pub bank: String,
    /// UDP port on which raw channel state frames arrive.
    pub udp_port: u16,
    /// Address that the UDP socket is bound to.
    pub bind: String,
    /// PHY tier.
    pub tier: String,
    /// Sample rate in Hz.
    pub fs_hz: R,
    /// Frames that each inference looks back on.
    pub window: usize,
    /// Seconds to run; 0 means without end.
    pub seconds: u32,
}

impl<R> RoomWatchArgs<R> {
    /// The defaults, at a given sample rate.
    pub fn with_rate(fs_hz: R) -> (r: Self)
        ensures
            r.bank@ == "./room-bank.json"@,
            r.udp_port == 5005,
            r.bind@ == "0.0.0.0"@,
            r.tier@ == "ht20"@,
            r.fs_hz == fs_hz,
            r.window == 200,
            r.seconds == 0,
    {
        RoomWatchArgs {
            bank: "./room-bank.json".to_owned(),
            udp_port: 5005,
            bind: "0.0.0.0".to_owned(),
            tier: "ht20".to_owned(),
            fs_hz,
            window: 200,
            seconds: 0,
        }
    }
}

/// A socket address as text.
pub open spec fn socket_addr(bind: Seq<char>, port: u16) -> Seq<char> {
    bind + ":"@ + crate::text::decimal(port as nat)
}

/// Writes the address of a socket.
pub fn socket_addr_text(bind: &str, port: u16) -> (r: String)
    ensures
        r@ == socket_addr(bind@, port),
{
    let mut s = bind.to_owned();
    s.append(":");
    let digits = decimal_text(port as u64);
    s.append(digits.as_str());
    s
}

/// Files are passed on under matching names: what `enroll` writes by default `train-room` reads,
/// and what `train-room` writes `room-status` and `room-watch` read.
pub proof fn law_default_paths_chain<R>(
    enroll: EnrollArgs<R>,
    train: TrainRoomArgs,
    status: RoomStatusArgs,
    watch: RoomWatchArgs<R>,
    rate: R,
)
    requires
        call_ensures(EnrollArgs::<R>::with_rate, (rate,), enroll),
        call_ensures(<TrainRoomArgs as Default>::default, (), train),
        call_ensures(<RoomStatusArgs as Default>::default, (), status),
        call_ensures(RoomWatchArgs::<R>::with_rate, (rate,), watch),
    ensures
        enroll.output@ == train.enrollment@,
        train.output@ == status.bank@,
        train.output@ == watch.bank@,
        enroll.udp_port == watch.udp_port,
{
}

/// A socket address is the address to bind to, a colon and the port.
pub proof fn law_socket_address(bind: &str, port: u16, r: String)
    requires
        call_ensures(socket_addr_text, (bind, port), r),
    ensures
        r@ == bind@ + ":"@ + crate::text::decimal(port as nat),
{
}

} // verus!
