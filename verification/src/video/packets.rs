//! The handler of the video socket: learns where the client listens, and
//! decides what is sent there.
use vstd::prelude::*;
use vstd::string::StringSliceAdditionalSpecFns;

verus! {

/// Nanoseconds between two warnings about segmented sends that failed.
pub const WARN_INTERVAL: u128 = 1_000_000_000;

/// The state of the handler; an address is a handle that the caller knows.
#[derive(Clone, Copy, Debug, PartialEq, Eq, Structural)]
pub struct PacketHandler {
    /// Where the client listens, once it is known.
    pub client_address: Option<u64>,
    /// When a failed send was last warned about.
    pub last_send_warn: Option<u128>,
    /// A reset of the stream is armed.
    pub resume_pending: bool,
}

/// What a datagram from the client asks for.
#[derive(Clone, Copy, Debug, PartialEq, Eq, Structural)]
pub enum Received {
    /// The address was learnt.
    Learnt,
    /// The address was learnt and the armed reset is to be fired.
    LearntAndReset,
    /// The datagram is not known.
    Unknown,
}

impl PacketHandler {
    /// What `datagram` asks for.
    pub open spec fn outcome(self, datagram: Seq<u8>) -> Received {
        if datagram != "PING".spec_bytes() {
            Received::Unknown
        } else if self.resume_pending {
            Received::LearntAndReset
        } else {
            Received::Learnt
        }
    }

    /// The state after `datagram` came from `address`: a ping tells where the
    /// client listens.
    pub open spec fn after_datagram(self, datagram: Seq<u8>, address: u64) -> PacketHandler {
        if datagram == "PING".spec_bytes() {
            PacketHandler { client_address: Some(address), resume_pending: false, ..self }
        } else {
            self
        }
    }

    /// Nothing is known yet.
    pub fn new() -> (r: Self)
        ensures
            r == (PacketHandler {
                client_address: None,
                last_send_warn: None,
                resume_pending: false,
            }),
    {
        PacketHandler { client_address: None, last_send_warn: None, resume_pending: false }
    }

    /// Arms a reset of the stream for a client that comes back; it fires when
    /// the client's new address is known.
    pub fn request_reset(&mut self)
        ensures
            *final(self) == (PacketHandler { resume_pending: true, ..*old(self) }),
    {
        self.resume_pending = true;
    }

    /// Where a batch of `shard_count` shards goes; nowhere if it is empty or
    /// no client is known.
    pub fn destination(&self, shard_count: usize) -> (r: Option<u64>)
        ensures
            r == if shard_count == 0 {
                None
            } else {
                self.client_address
            },
    {
        if shard_count == 0 {
            None
        } else {
            self.client_address
        }
    }

    /// A batch was sent at `now` and `failed_chunks` chunks had to be sent
    /// shard by shard: whether to warn, at most once in [`WARN_INTERVAL`].
    pub fn batch_sent(&mut self, failed_chunks: u32, now: u128) -> (r: bool)
        ensures
            r == (failed_chunks > 0 && (old(self).last_send_warn matches Some(t) ==> now - t
                >= WARN_INTERVAL)),
            *final(self) == if r {
                PacketHandler { last_send_warn: Some(now), ..*old(self) }
            } else {
                *old(self)
            },
    {
        if failed_chunks == 0 {
            return false;
        }
        if let Some(t) = self.last_send_warn {
            if now < t || now - t < WARN_INTERVAL {
                return false;
            }
        }
        self.last_send_warn = Some(now);
        true
    }

    /// A datagram came from `address`.
    pub fn received(&mut self, datagram: &[u8], address: u64) -> (r: Received)
        ensures
            r == old(self).outcome(datagram@),
            *final(self) == old(self).after_datagram(datagram@, address),
    {
        proof {
            reveal_strlit("PING");
        }
        let ping = "PING".as_bytes();
        let mut same: bool = datagram.len() == ping.len();
        let mut i: usize = 0;
        while same && i < datagram.len()
            invariant
                i <= datagram@.len(),
                same ==> datagram@.len() == ping@.len(),
                same ==> forall|j: int| 0 <= j < i ==> datagram@[j] == ping@[j],
                !same ==> datagram@ != ping@,
            decreases datagram@.len() - i,
        {
            if datagram[i] != ping[i] {
                same = false;
            }
            i = i + 1;
        }
        if !same {
            return Received::Unknown;
        }
        assert(datagram@ == ping@);
        self.client_address = Some(address);
        let reset = self.resume_pending;
        self.resume_pending = false;
        if reset {
            Received::LearntAndReset
        } else {
            Received::Learnt
        }
    }
}

/// The handler after the datagrams of `log`, each with its sender, and how
/// often the reset was fired on the way.
pub open spec fn after_log(start: PacketHandler, log: Seq<(Seq<u8>, u64)>) -> (PacketHandler, int)
    decreases log.len(),
{
    if log.len() == 0 {
        (start, 0)
    } else {
        let (before, fired) = after_log(start, log.drop_last());
        let (datagram, address) = log.last();
        (
            before.after_datagram(datagram, address),
            fired + if before.outcome(datagram) == Received::LearntAndReset {
                1int
            } else {
                0
            },
        )
    }
}

/// A datagram of `log` is a ping.
pub open spec fn has_ping(log: Seq<(Seq<u8>, u64)>) -> bool
    decreases log.len(),
{
    log.len() > 0 && (has_ping(log.drop_last()) || log.last().0 == "PING".spec_bytes())
}

/// An armed reset fires exactly once, on the first ping, when the client's
/// address is known; until a ping comes it stays armed, and without being
/// armed nothing is fired.
pub proof fn reset_fires_once(start: PacketHandler, log: Seq<(Seq<u8>, u64)>)
    ensures
        after_log(start, log).1 == if start.resume_pending && has_ping(log) {
            1int
        } else {
            0
        },
        after_log(start, log).0.resume_pending == (start.resume_pending && !has_ping(log)),
        has_ping(log) ==> after_log(start, log).0.client_address is Some,
    decreases log.len(),
{
    if log.len() > 0 {
        reset_fires_once(start, log.drop_last());
    }
}

/// The client listens where its last ping came from; what is no ping changes
/// nothing; and pings change nothing but the address and the armed reset.
pub proof fn last_ping_tells_where(start: PacketHandler, datagram: Seq<u8>, address: u64)
    ensures
        ({
            let after = start.after_datagram("PING".spec_bytes(), address);
            &&& after.client_address == Some(address)
            &&& !after.resume_pending
            &&& after.last_send_warn == start.last_send_warn
        }),
        datagram != "PING".spec_bytes() ==> start.after_datagram(datagram, address) == start,
        start.outcome(datagram) == Received::Unknown <==> datagram != "PING".spec_bytes(),
        start.outcome("PING".spec_bytes()) == Received::LearntAndReset <==> start.resume_pending,
{
}

} // verus!
