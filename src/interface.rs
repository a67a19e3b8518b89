//! The virtual network interface engine.
//!
//! An `Interface` is one live TUN device session. Two background loops (run
//! by the embedding application) pump packets between the device and two
//! bounded queues: the reader loop fills the inbound queue, the writer loop
//! drains the outbound one. Callers only read and write through the queues.
//! The engine is `Up` until `down` is called, which is one-way and immediate.

use vstd::prelude::*;
use crate::addr::{IpAddress, IpNetwork};
use crate::dns::delete_dns_servers;
use crate::error::{InterfaceError, QuincyError, Result};
use crate::packet::Packet;
use crate::queue::{take_count, PacketQueue};
use crate::text::owned;

verus! {

/// The largest payload a batched transfer may carry in total.
pub const MAX_BATCH_PAYLOAD: usize = 65535;

/// Capacity of each of the two packet queues.
pub const PACKET_CHANNEL_SIZE: usize = 1024 * 1024;

/// Number of packets moved by one batched call for the given MTU.
pub open spec fn spec_batch_size(mtu: nat) -> nat {
    MAX_BATCH_PAYLOAD as nat / mtu
}

/// The batch size of the offload path: also bounded by the platform's ideal batch.
pub open spec fn spec_offload_batch_size(mtu: nat, ideal: nat) -> nat {
    if spec_batch_size(mtu) < ideal { spec_batch_size(mtu) } else { ideal }
}

pub fn batch_size(mtu: u16) -> (r: usize)
    requires
        mtu > 0,
    ensures
        r == spec_batch_size(mtu as nat),
{
    MAX_BATCH_PAYLOAD / (mtu as usize)
}

pub fn offload_batch_size(mtu: u16, ideal: usize) -> (r: usize)
    requires
        mtu > 0,
    ensures
        r == spec_offload_batch_size(mtu as nat, ideal as nat),
{
    let b = batch_size(mtu);
    if b < ideal { b } else { ideal }
}

/// The two states of an interface.
#[derive(Clone, Copy, Debug, PartialEq, Eq, Structural)]
pub enum LinkState {
    Up,
    Down,
}

/// An interface-I/O error carrying exactly `operation`.
pub open spec fn is_io_error(e: QuincyError, operation: Seq<char>) -> bool {
    e matches QuincyError::Interface(InterfaceError::IoError { operation: o }) && o@ == operation
}

/// A configuration error carrying exactly `reason`.
pub open spec fn is_configuration_error(e: QuincyError, reason: Seq<char>) -> bool {
    e matches QuincyError::Interface(InterfaceError::ConfigurationFailed { reason: r }) && r@
        == reason
}

pub open spec fn read_failure() -> Seq<char> {
    "failed to receive packet from reader channel"@
}

pub open spec fn batch_read_failure() -> Seq<char> {
    "failed to receive packets from reader channel"@
}

pub open spec fn write_failure() -> Seq<char> {
    "failed to send packet to writer channel"@
}

pub open spec fn missing_gateway() -> Seq<char> {
    "Missing gateway address on client"@
}

pub open spec fn missing_name() -> Seq<char> {
    "Missing interface name on client"@
}

pub open spec fn missing_dns_name() -> Seq<char> {
    "attempted to configure DNS for interface without name"@
}

fn io_error(operation: &str) -> (r: QuincyError)
    ensures
        is_io_error(r, operation@),
{
    QuincyError::Interface(InterfaceError::IoError { operation: owned(operation) })
}

fn configuration_error(reason: &str) -> (r: QuincyError)
    ensures
        is_configuration_error(r, reason@),
{
    QuincyError::Interface(InterfaceError::ConfigurationFailed { reason: owned(reason) })
}

/// What the reader loop is told after handing over a packet from the device.
#[derive(Debug)]
pub enum Delivery {
    /// The packet is queued; receive the next one.
    Queued,
    /// The inbound queue is full: wait for room, then offer the packet again.
    Full(Packet),
    /// The interface is down: the loop ends.
    Stop,
}

/// How the device answered one batched receive.
#[derive(Clone, Copy, Debug, PartialEq, Eq, Structural)]
pub enum BatchReceive {
    /// This many packets were received.
    Received(usize),
    /// The call would block with a partial batch filled.
    WouldBlockPartial,
    /// The device failed.
    Failed,
}

/// The address settings a TUN device is built with.
#[derive(Clone, Copy, Debug, PartialEq, Eq)]
pub struct DeviceSettings {
    pub address: IpAddress,
    pub netmask: IpAddress,
    /// The point-to-point destination (IPv4 only).
    pub destination: Option<IpAddress>,
}

/// The device settings for `address`: its address and netmask, and for IPv4 on
/// platforms with point-to-point links, the tunnel gateway where it is IPv4.
pub fn device_settings(
    address: &IpNetwork,
    gateway: Option<IpAddress>,
    point_to_point: bool,
) -> (r: DeviceSettings)
    requires
        address.wf(),
    ensures
        r.address == address.spec_addr(),
        r.netmask.is_v4() == address.spec_addr().is_v4(),
        r.netmask.octets() == crate::addr::mask_bytes(
            address.spec_prefix_len(),
            address.spec_addr().octets().len(),
        ),
        r.destination == (if address.spec_addr().is_v4() && point_to_point && (gateway matches Some(
            g,
        ) && g.is_v4()) {
            gateway
        } else {
            None
        }),
{
    let addr = address.addr();
    let netmask = address.netmask();
    let destination = match addr {
        IpAddress::V4(_) => {
            if point_to_point {
                match gateway {
                    Some(IpAddress::V4(g)) => Some(IpAddress::V4(g)),
                    _ => None,
                }
            } else {
                None
            }
        },
        IpAddress::V6(_) => None,
    };
    DeviceSettings { address: addr, netmask, destination }
}

/// A packet of the first `size` bytes that one device receive wrote into `buf`.
pub fn received_packet(buf: Vec<u8>, size: usize) -> (r: Packet)
    requires
        size <= buf@.len(),
    ensures
        r@ == buf@.take(size as int),
{
    let ghost whole = buf@;
    let mut buf = buf;
    buf.truncate(size);
    assert(buf@ =~= whole.take(size as int));
    Packet::from_vec(buf)
}

/// How many packets of a batch the reader loop goes on with: the count the
/// device gave, or the whole batch where the call would block with a partial
/// batch; `None` where the device failed and the loop ends.
pub fn batch_received_count(outcome: BatchReceive, batch: usize) -> (r: Option<usize>)
    ensures
        outcome matches BatchReceive::Received(n) ==> r == Some(n),
        outcome is WouldBlockPartial ==> r == Some(batch),
        outcome is Failed ==> r is None,
{
    match outcome {
        BatchReceive::Received(n) => Some(n),
        BatchReceive::WouldBlockPartial => Some(batch),
        BatchReceive::Failed => None,
    }
}

/// The bytes that the offload writer sends for `p`: `header_len` zero bytes
/// of per-packet header, then the packet.
pub open spec fn offload_frame(p: Seq<u8>, header_len: nat) -> Seq<u8> {
    Seq::new(header_len, |i: int| 0u8) + p
}

/// The send buffers of one offloaded batch, one per packet and in order.
pub fn offload_frames(packets: &Vec<Packet>, header_len: usize) -> (r: Vec<Vec<u8>>)
    ensures
        r@.len() == packets@.len(),
        forall|i: int| 0 <= i < r@.len() ==> r@[i]@ == offload_frame(packets@[i]@, header_len as nat),
{
    let mut frames: Vec<Vec<u8>> = Vec::new();
    let mut k: usize = 0;
    while k < packets.len()
        invariant
            k <= packets@.len(),
            frames@.len() == k,
            forall|i: int| 0 <= i < k ==> frames@[i]@ == offload_frame(packets@[i]@, header_len as nat),
        decreases packets@.len() - k,
    {
        let p = &packets[k];
        let n = p.len();
        let mut frame: Vec<u8> = Vec::new();
        let mut i: usize = 0;
        while i < header_len
            invariant
                i <= header_len,
                frame@ =~= Seq::new(i as nat, |j: int| 0u8),
            decreases header_len - i,
        {
            frame.push(0u8);
            i = i + 1;
        }
        let mut j: usize = 0;
        while j < n
            invariant
                j <= n,
                n == p@.len(),
                frame@ =~= Seq::new(header_len as nat, |x: int| 0u8) + p@.take(j as int),
            decreases n - j,
        {
            frame.push(p.byte_at(j));
            assert(p@.take(j as int + 1) =~= p@.take(j as int).push(p@[j as int]));
            j = j + 1;
        }
        assert(p@.take(n as int) =~= p@);
        frames.push(frame);
        k = k + 1;
    }
    frames
}

/// One live virtual network interface: its settings, its two packet queues,
/// and whether it is up.
pub struct Interface {
    address: IpNetwork,
    mtu: u16,
    gateway: Option<IpAddress>,
    name: Option<String>,
    inbound: PacketQueue,
    outbound: PacketQueue,
    state: LinkState,
    reader_running: bool,
    writer_running: bool,
}

impl Interface {
    pub closed spec fn spec_mtu(&self) -> nat {
        self.mtu as nat
    }

    pub closed spec fn spec_address(&self) -> IpNetwork {
        self.address
    }

    pub closed spec fn spec_state(&self) -> LinkState {
        self.state
    }

    pub closed spec fn spec_gateway(&self) -> Option<IpAddress> {
        self.gateway
    }

    pub closed spec fn spec_name(&self) -> Option<Seq<char>> {
        match self.name {
            Some(n) => Some(n@),
            None => None,
        }
    }

    /// Packets received from the device and not yet read, oldest first.
    pub closed spec fn inbound(&self) -> Seq<Packet> {
        self.inbound@
    }

    /// Packets written by callers and not yet sent to the device, oldest first.
    pub closed spec fn outbound(&self) -> Seq<Packet> {
        self.outbound@
    }

    pub closed spec fn queue_capacity(&self) -> nat {
        self.inbound.spec_capacity()
    }

    pub closed spec fn reader_alive(&self) -> bool {
        self.reader_running
    }

    pub closed spec fn writer_alive(&self) -> bool {
        self.writer_running
    }

    pub closed spec fn wf(&self) -> bool {
        &&& self.mtu > 0
        &&& self.inbound.wf()
        &&& self.outbound.wf()
        &&& self.inbound.spec_capacity() == self.outbound.spec_capacity()
        &&& self.state == LinkState::Down ==> !self.reader_running && !self.writer_running
    }

    /// A new interface, up, with both loops running and both queues empty.
    pub fn new(address: IpNetwork, mtu: u16, gateway: Option<IpAddress>, name: Option<String>) -> (r: Interface)
        requires
            mtu > 0,
        ensures
            r.wf(),
            r.spec_state() == LinkState::Up,
            r.spec_mtu() == mtu,
            r.spec_gateway() == gateway,
            r.spec_name() == (match name { Some(n) => Some(n@), None => None::<Seq<char>> }),
            r.inbound() == Seq::<Packet>::empty(),
            r.outbound() == Seq::<Packet>::empty(),
            r.queue_capacity() == PACKET_CHANNEL_SIZE,
            r.reader_alive() && r.writer_alive(),
    {
        Interface {
            address,
            mtu,
            gateway,
            name,
            inbound: PacketQueue::new(PACKET_CHANNEL_SIZE),
            outbound: PacketQueue::new(PACKET_CHANNEL_SIZE),
            state: LinkState::Up,
            reader_running: true,
            writer_running: true,
        }
    }

    pub fn mtu(&self) -> (r: u16)
        ensures
            r == self.spec_mtu(),
    {
        self.mtu
    }

    pub fn name(&self) -> (r: Option<String>)
        ensures
            (match r { Some(n) => Some(n@), None => None::<Seq<char>> }) == self.spec_name(),
    {
        match &self.name {
            Some(n) => Some(n.clone()),
            None => None,
        }
    }

    pub fn address(&self) -> (r: IpNetwork)
        ensures
            r == self.spec_address(),
    {
        self.address
    }

    pub fn gateway(&self) -> (r: Option<IpAddress>)
        ensures
            r == self.spec_gateway(),
    {
        self.gateway
    }

    pub fn state(&self) -> (r: LinkState)
        ensures
            r == self.spec_state(),
    {
        self.state
    }

    /// Cancels both loops and takes the interface down. Packets still queued
    /// are abandoned.
    pub fn down(&mut self)
        requires
            old(self).wf(),
        ensures
            final(self).wf(),
            down_post(*old(self), *final(self)),
    {
        self.state = LinkState::Down;
        self.reader_running = false;
        self.writer_running = false;
    }

    /// Takes the oldest received packet. `Ok(None)`: none has arrived yet, so
    /// the caller waits for the reader loop. Fails at once where the interface
    /// is down, or where nothing is queued and the reader loop has ended.
    pub fn read_packet(&mut self) -> (r: Result<Option<Packet>>)
        requires
            old(self).wf(),
        ensures
            final(self).wf(),
            read_packet_post(*old(self), *final(self), r),
    {
        if self.state == LinkState::Down {
            return Err(io_error("failed to receive packet from reader channel"));
        }
        match self.inbound.pop() {
            Some(p) => Ok(Some(p)),
            None => {
                if self.reader_running {
                    Ok(None)
                } else {
                    Err(io_error("failed to receive packet from reader channel"))
                }
            },
        }
    }

    /// Takes up to one batch of received packets, oldest first. `Ok(None)`:
    /// none has arrived yet. Fails as `read_packet` does.
    pub fn read_packets(&mut self) -> (r: Result<Option<Vec<Packet>>>)
        requires
            old(self).wf(),
        ensures
            final(self).wf(),
            read_packets_post(*old(self), *final(self), r),
    {
        if self.state == LinkState::Down {
            return Err(io_error("failed to receive packets from reader channel"));
        }
        if self.inbound.len() == 0 {
            if self.reader_running {
                return Ok(None);
            } else {
                return Err(io_error("failed to receive packets from reader channel"));
            }
        }
        let b = batch_size(self.mtu);
        let packets = self.inbound.pop_many(b);
        Ok(Some(packets))
    }

    /// Queues `packet` for the device. `Ok(Some(packet))`: the outbound queue
    /// is full and the packet is handed back; the caller waits and offers it
    /// again. Fails at once where the interface is down or the writer loop
    /// has ended.
    pub fn write_packet(&mut self, packet: Packet) -> (r: Result<Option<Packet>>)
        requires
            old(self).wf(),
        ensures
            final(self).wf(),
            write_packet_post(*old(self), *final(self), packet, r),
    {
        if self.state == LinkState::Down || !self.writer_running {
            return Err(io_error("failed to send packet to writer channel"));
        }
        Ok(self.outbound.push(packet))
    }

    /// Queues as many of `packets` as there is room for, in order, and hands
    /// back the rest, which the caller offers again once there is room.
    /// Fails at once, queuing nothing, where the interface is down or the
    /// writer loop has ended.
    pub fn write_packets(&mut self, packets: Vec<Packet>) -> (r: Result<Vec<Packet>>)
        requires
            old(self).wf(),
        ensures
            final(self).wf(),
            write_packets_post(*old(self), *final(self), packets@, r),
    {
        if self.state == LinkState::Down || !self.writer_running {
            return Err(io_error("failed to send packet to writer channel"));
        }
        let ghost start = self.outbound@;
        let ghost cap = self.outbound.spec_capacity();
        let mut rest: Vec<Packet> = Vec::new();
        let mut input = packets;
        let ghost ps = input@;
        let mut i: usize = 0;
        let n = input.len();
        // Take the packets from the back so each is moved out once, then queue
        // them front to back.
        let mut reversed: Vec<Packet> = Vec::new();
        while input.len() > 0
            invariant
                input@.len() + reversed@.len() == n,
                n == ps.len(),
                input@ == ps.take(input@.len() as int),
                forall|j: int| 0 <= j < reversed@.len() ==> reversed@[j] == ps[n - 1 - j],
            decreases input@.len(),
        {
            let p = input.pop().unwrap();
            reversed.push(p);
            assert(input@ =~= ps.take(input@.len() as int));
        }
        let ghost room: int = cap - start.len();
        while reversed.len() > 0
            invariant
                self.wf(),
                self.outbound.spec_capacity() == cap,
                self.state == old(self).state,
                self.inbound == old(self).inbound,
                self.reader_running == old(self).reader_running,
                self.writer_running == old(self).writer_running,
                self.mtu == old(self).mtu,
                self.name == old(self).name,
                self.gateway == old(self).gateway,
                self.address == old(self).address,
                start == old(self).outbound@,
                cap == old(self).outbound.spec_capacity(),
                room == cap - start.len(),
                room >= 0,
                i + reversed@.len() == n,
                n == ps.len(),
                forall|j: int| 0 <= j < reversed@.len() ==> reversed@[j] == ps[n - 1 - j],
                self.outbound@ == start + ps.take(if i < room { i as int } else { room }),
                rest@ == ps.subrange(if i < room { i as int } else { room }, i as int),
            decreases reversed@.len(),
        {
            let p = reversed.pop().unwrap();
            assert(p == ps[i as int]);
            let ghost k: int = if i < room { i as int } else { room };
            if rest.len() > 0 {
                rest.push(p);
                assert(rest@ =~= ps.subrange(k, i as int + 1));
            } else {
                match self.outbound.push(p) {
                    Some(back) => {
                        rest.push(back);
                        assert(rest@ =~= ps.subrange(k, i as int + 1));
                    },
                    None => {
                        assert(ps.take(i as int + 1) =~= ps.take(i as int).push(ps[i as int]));
                        assert(ps.subrange(i as int + 1, i as int + 1) =~= Seq::<Packet>::empty());
                    },
                }
            }
            i = i + 1;
        }
        assert(rest@ =~= ps.skip(if n < room { n as int } else { room }));
        Ok(rest)
    }

    /// The reader loop hands over a packet received from the device.
    pub fn deliver(&mut self, packet: Packet) -> (r: Delivery)
        requires
            old(self).wf(),
        ensures
            final(self).wf(),
            deliver_post(*old(self), *final(self), packet, r),
    {
        if self.state == LinkState::Down {
            return Delivery::Stop;
        }
        match self.inbound.push(packet) {
            None => Delivery::Queued,
            Some(p) => Delivery::Full(p),
        }
    }

    /// The writer loop takes up to `max` queued packets, oldest first, to send
    /// to the device; `None` where the interface is down and the loop ends. An
    /// empty batch means the loop waits for callers.
    pub fn next_outbound(&mut self, max: usize) -> (r: Option<Vec<Packet>>)
        requires
            old(self).wf(),
        ensures
            final(self).wf(),
            next_outbound_post(*old(self), *final(self), max as nat, r),
    {
        if self.state == LinkState::Down {
            return None;
        }
        let batch = self.outbound.pop_many(max);
        Some(batch)
    }

    /// The reader loop has ended on a device error.
    pub fn reader_stopped(&mut self)
        requires
            old(self).wf(),
        ensures
            final(self).wf(),
            !final(self).reader_alive(),
            same_but_reader(*old(self), *final(self)),
    {
        self.reader_running = false;
    }

    /// The writer loop has ended on a device error.
    pub fn writer_stopped(&mut self)
        requires
            old(self).wf(),
        ensures
            final(self).wf(),
            !final(self).writer_alive(),
            final(self).reader_alive() == old(self).reader_alive(),
            final(self).spec_state() == old(self).spec_state(),
            final(self).inbound() == old(self).inbound(),
            final(self).outbound() == old(self).outbound(),
            final(self).queue_capacity() == old(self).queue_capacity(),
    {
        self.writer_running = false;
    }

    /// The gateway and OS name that routes through this interface point at.
    pub fn route_target(&self) -> (r: Result<(IpAddress, String)>)
        ensures
            self.spec_gateway() is None ==> r is Err && is_configuration_error(r->Err_0, missing_gateway()),
            self.spec_gateway() is Some && self.spec_name() is None ==> r is Err
                && is_configuration_error(r->Err_0, missing_name()),
            self.spec_gateway() is Some && self.spec_name() is Some ==> (r matches Ok((g, n))
                && Some(g) == self.spec_gateway() && Some(n@) == self.spec_name()),
    {
        let gateway = match self.gateway {
            Some(g) => g,
            None => return Err(configuration_error("Missing gateway address on client")),
        };
        match &self.name {
            Some(n) => Ok((gateway, n.clone())),
            None => Err(configuration_error("Missing interface name on client")),
        }
    }

    /// Removes the routes installed through this interface. Nothing to do:
    /// the operating system drops them with the interface.
    pub fn cleanup_routes(&self, routes: &[IpNetwork]) -> (r: Result<()>)
        ensures
            r is Ok,
    {
        Ok(())
    }

    /// Removes the DNS servers configured for this interface.
    pub fn cleanup_dns(&self, dns_servers: &[IpAddress]) -> (r: Result<()>)
        ensures
            r is Ok,
    {
        delete_dns_servers()
    }

    /// The OS name that DNS servers are configured for.
    pub fn dns_target(&self) -> (r: Result<String>)
        ensures
            self.spec_name() is None ==> r is Err && is_configuration_error(r->Err_0, missing_dns_name()),
            self.spec_name() is Some ==> (r matches Ok(n) && Some(n@) == self.spec_name()),
    {
        match &self.name {
            Some(n) => Ok(n.clone()),
            None => Err(configuration_error("attempted to configure DNS for interface without name")),
        }
    }
}

/// `down` took `old` to `new`.
pub open spec fn down_post(old: Interface, new: Interface) -> bool {
    &&& new.spec_state() == LinkState::Down
    &&& !new.reader_alive()
    &&& !new.writer_alive()
    &&& new.spec_mtu() == old.spec_mtu()
    &&& new.spec_name() == old.spec_name()
    &&& new.spec_gateway() == old.spec_gateway()
}

/// `read_packet` took `old` to `new` with result `r`.
pub open spec fn read_packet_post(old: Interface, new: Interface, r: Result<Option<Packet>>) -> bool {
    &&& same_but_inbound(old, new)
    &&& if old.spec_state() == LinkState::Down {
        r is Err && is_io_error(r->Err_0, read_failure()) && new.inbound() == old.inbound()
    } else if old.inbound().len() > 0 {
        r == Ok::<Option<Packet>, QuincyError>(Some(old.inbound()[0])) && new.inbound() == old.inbound().drop_first()
    } else if old.reader_alive() {
        r == Ok::<Option<Packet>, QuincyError>(None) && new.inbound() == old.inbound()
    } else {
        r is Err && is_io_error(r->Err_0, read_failure()) && new.inbound() == old.inbound()
    }
}

/// `read_packets` took `old` to `new` with result `r`.
pub open spec fn read_packets_post(old: Interface, new: Interface, r: Result<Option<Vec<Packet>>>) -> bool {
    &&& same_but_inbound(old, new)
    &&& if old.spec_state() == LinkState::Down {
        r is Err && is_io_error(r->Err_0, batch_read_failure()) && new.inbound() == old.inbound()
    } else if old.inbound().len() > 0 {
        let k = take_count(spec_batch_size(old.spec_mtu()), old.inbound().len()) as int;
        r matches Ok(Some(v)) && v@ == old.inbound().take(k) && new.inbound() == old.inbound().skip(k)
    } else if old.reader_alive() {
        r matches Ok(None) && new.inbound() == old.inbound()
    } else {
        r is Err && is_io_error(r->Err_0, batch_read_failure()) && new.inbound() == old.inbound()
    }
}

/// Where writes are refused at once.
pub open spec fn refuses_writes(i: Interface) -> bool {
    i.spec_state() == LinkState::Down || !i.writer_alive()
}

/// Queuing `ps` behind `queued` in a queue of capacity `cap`: the new queue
/// contents, and the packets handed back for lack of room.
pub open spec fn write_outcome(queued: Seq<Packet>, ps: Seq<Packet>, cap: nat) -> (Seq<Packet>, Seq<Packet>) {
    let room: int = if queued.len() < cap { cap - queued.len() } else { 0 };
    let k: int = if ps.len() < room { ps.len() as int } else { room };
    (queued + ps.take(k), ps.skip(k))
}

/// `write_packet` took `old` to `new` with result `r`.
pub open spec fn write_packet_post(old: Interface, new: Interface, p: Packet, r: Result<Option<Packet>>) -> bool {
    &&& same_but_outbound(old, new)
    &&& if refuses_writes(old) {
        r is Err && is_io_error(r->Err_0, write_failure()) && new.outbound() == old.outbound()
    } else if old.outbound().len() < old.queue_capacity() {
        r == Ok::<Option<Packet>, QuincyError>(None) && new.outbound() == old.outbound().push(p)
    } else {
        r == Ok::<Option<Packet>, QuincyError>(Some(p)) && new.outbound() == old.outbound()
    }
}

/// `write_packets` took `old` to `new` with result `r`.
pub open spec fn write_packets_post(old: Interface, new: Interface, ps: Seq<Packet>, r: Result<Vec<Packet>>) -> bool {
    &&& same_but_outbound(old, new)
    &&& if refuses_writes(old) {
        r is Err && is_io_error(r->Err_0, write_failure()) && new.outbound() == old.outbound()
    } else {
        r matches Ok(rest) && (new.outbound(), rest@) == write_outcome(old.outbound(), ps, old.queue_capacity())
    }
}

/// `deliver` took `old` to `new` with result `r`.
pub open spec fn deliver_post(old: Interface, new: Interface, p: Packet, r: Delivery) -> bool {
    &&& same_but_inbound(old, new)
    &&& if old.spec_state() == LinkState::Down {
        r is Stop && new.inbound() == old.inbound()
    } else if old.inbound().len() < old.queue_capacity() {
        r is Queued && new.inbound() == old.inbound().push(p)
    } else {
        r == Delivery::Full(p) && new.inbound() == old.inbound()
    }
}

/// `next_outbound` took `old` to `new` with result `r`.
pub open spec fn next_outbound_post(old: Interface, new: Interface, max: nat, r: Option<Vec<Packet>>) -> bool {
    &&& same_but_outbound(old, new)
    &&& if old.spec_state() == LinkState::Down {
        r is None && new.outbound() == old.outbound()
    } else {
        let k = take_count(max, old.outbound().len()) as int;
        r matches Some(v) && v@ == old.outbound().take(k) && new.outbound() == old.outbound().skip(k)
    }
}

/// Everything but whether the reader loop runs is unchanged.
pub open spec fn same_but_reader(old: Interface, new: Interface) -> bool {
    &&& new.spec_state() == old.spec_state()
    &&& new.inbound() == old.inbound()
    &&& new.outbound() == old.outbound()
    &&& new.queue_capacity() == old.queue_capacity()
    &&& new.writer_alive() == old.writer_alive()
}

/// Everything but the inbound queue is unchanged.
pub open spec fn same_but_inbound(old: Interface, new: Interface) -> bool {
    &&& new.spec_state() == old.spec_state()
    &&& new.outbound() == old.outbound()
    &&& same_settings(old, new)
}

/// Everything but the outbound queue is unchanged.
pub open spec fn same_but_outbound(old: Interface, new: Interface) -> bool {
    &&& new.spec_state() == old.spec_state()
    &&& new.inbound() == old.inbound()
    &&& same_settings(old, new)
}

pub open spec fn same_settings(old: Interface, new: Interface) -> bool {
    &&& new.queue_capacity() == old.queue_capacity()
    &&& new.reader_alive() == old.reader_alive()
    &&& new.writer_alive() == old.writer_alive()
    &&& new.spec_mtu() == old.spec_mtu()
    &&& new.spec_name() == old.spec_name()
    &&& new.spec_gateway() == old.spec_gateway()
    &&& new.spec_address() == old.spec_address()
}

/// The packets that successive batches of at most `batch` packets take from
/// `q`, joined in the order taken.
pub open spec fn read_back(q: Seq<Packet>, batch: nat) -> Seq<Packet>
    decreases q.len(),
{
    if q.len() == 0 || batch == 0 {
        Seq::empty()
    } else {
        let k = take_count(batch, q.len()) as int;
        q.take(k) + read_back(q.skip(k), batch)
    }
}

/// Packets written through `write_packets` and carried back over a loopback
/// device keep their order and their bytes. Written behind `queued`, nothing
/// is dropped: what finds no room is handed back to the writer, and that
/// happens exactly when the queue would overflow. Up to a queue's capacity
/// written into an empty queue are all taken. Draining a queue in batches
/// (the writer loop towards the device, `read_packets` from the device)
/// yields its packets in order.
pub proof fn lemma_loopback_round_trip(queued: Seq<Packet>, ps: Seq<Packet>, cap: nat, batch: nat)
    requires
        queued.len() <= cap,
        batch > 0,
    ensures
        write_outcome(queued, ps, cap).0 + write_outcome(queued, ps, cap).1 == queued + ps,
        write_outcome(queued, ps, cap).1.len() > 0 <==> queued.len() + ps.len() > cap,
        queued.len() == 0 && ps.len() <= cap ==> write_outcome(queued, ps, cap) == (ps, Seq::<Packet>::empty()),
        read_back(ps, batch) == ps,
        forall|i: int| 0 <= i < ps.len() ==> #[trigger] read_back(ps, batch)[i]@ == ps[i]@,
{
    let room: int = cap - queued.len();
    let k: int = if ps.len() < room { ps.len() as int } else { room };
    assert(queued + ps.take(k) + ps.skip(k) =~= queued + ps);
    if queued.len() == 0 && ps.len() <= cap {
        assert(ps.take(k) =~= ps);
        assert(queued + ps =~= ps);
        assert(ps.skip(k) =~= Seq::<Packet>::empty());
    }
    lemma_read_back(ps, batch);
}

proof fn lemma_read_back(q: Seq<Packet>, batch: nat)
    requires
        batch > 0,
    ensures
        read_back(q, batch) == q,
    decreases q.len(),
{
    if q.len() > 0 {
        let k = take_count(batch, q.len()) as int;
        lemma_read_back(q.skip(k), batch);
        assert(q.take(k) + q.skip(k) =~= q);
    } else {
        assert(q =~= Seq::<Packet>::empty());
    }
}

/// After `down`, reads and writes fail at once with an I/O error, and the
/// interface stays down.
pub proof fn lemma_io_fails_after_down(
    before: Interface,
    after: Interface,
    next: Interface,
    p: Packet,
    ps: Seq<Packet>,
    read_one: Result<Option<Packet>>,
    read_many: Result<Option<Vec<Packet>>>,
    write_one: Result<Option<Packet>>,
    write_many: Result<Vec<Packet>>,
)
    requires
        down_post(before, after),
    ensures
        read_packet_post(after, next, read_one) ==> read_one is Err && is_io_error(
            read_one->Err_0,
            read_failure(),
        ) && next.spec_state() == LinkState::Down,
        read_packets_post(after, next, read_many) ==> read_many is Err && is_io_error(
            read_many->Err_0,
            batch_read_failure(),
        ) && next.spec_state() == LinkState::Down,
        write_packet_post(after, next, p, write_one) ==> write_one is Err && is_io_error(
            write_one->Err_0,
            write_failure(),
        ) && next.spec_state() == LinkState::Down,
        write_packets_post(after, next, ps, write_many) ==> write_many is Err && is_io_error(
            write_many->Err_0,
            write_failure(),
        ) && next.spec_state() == LinkState::Down,
{
}

} // verus!
