//! Hand-over points between the framing layer and whoever consumes
//! telecommands or provides telemetry.
use vstd::prelude::*;

verus! {

/// Something that takes raw telecommand packets.
///
/// `received` is the list of packets that were taken with success, oldest first.
pub trait ReceivesTcCore {
    type Error;

    open spec fn received(&self) -> Seq<Seq<u8>> {
        arbitrary()
    }

    /// Hands one packet over. A packet that is refused leaves no trace.
    fn pass_tc(&mut self, tc_raw: &[u8]) -> (r: Result<(), Self::Error>)
        ensures
            r.is_ok() ==> final(self).received() == old(self).received().push(tc_raw@),
            r.is_err() ==> final(self).received() == old(self).received(),
    ;
}

/// Something that hands out telemetry packets, one per call.
///
/// `pending` is the list of packets that are still to come, next one first.
pub trait TmPacketSourceCore {
    type Error;

    open spec fn pending(&self) -> Seq<Seq<u8>> {
        arbitrary()
    }

    /// Copies the next packet to the front of `buffer` and returns its length,
    /// or returns 0 and takes no packet. A packet that does not fit is an
    /// error and stays where it is.
    fn retrieve_packet(&mut self, buffer: &mut [u8]) -> (r: Result<usize, Self::Error>)
        ensures
            final(buffer)@.len() == old(buffer)@.len(),
            match r {
                Ok(n) => if n == 0 {
                    final(self).pending() == old(self).pending()
                } else {
                    &&& old(self).pending().len() > 0
                    &&& n == old(self).pending()[0].len()
                    &&& n <= old(buffer)@.len()
                    &&& final(buffer)@.subrange(0, n as int) == old(self).pending()[0]
                    &&& final(self).pending() == old(self).pending().drop_first()
                },
                Err(_) => final(self).pending() == old(self).pending(),
            },
    ;
}

/// A telecommand receiver that keeps every packet in memory, in order of arrival.
pub struct TcQueue {
    packets: Vec<Vec<u8>>,
}

impl View for TcQueue {
    type V = Seq<Seq<u8>>;

    closed spec fn view(&self) -> Seq<Seq<u8>> {
        Seq::new(self.packets@.len(), |i: int| self.packets@[i]@)
    }
}

impl TcQueue {
    /// A queue that holds nothing and has received nothing.
    pub fn new() -> (r: Self)
        ensures
            r@ == Seq::<Seq<u8>>::empty(),
            r.received() == Seq::<Seq<u8>>::empty(),
    {
        let r = TcQueue { packets: Vec::new() };
        assert(r@ =~= Seq::<Seq<u8>>::empty());
        r
    }

    /// Number of packets held.
    pub fn len(&self) -> (n: usize)
        ensures
            n == self@.len(),
    {
        self.packets.len()
    }

    /// The packet at position `i`, the oldest being at 0.
    pub fn get(&self, i: usize) -> (r: Option<&Vec<u8>>)
        ensures
            match r {
                Some(p) => i < self@.len() && p@ == self@[i as int],
                None => i >= self@.len(),
            },
    {
        if i < self.packets.len() {
            Some(&self.packets[i])
        } else {
            None
        }
    }

    /// Takes the oldest packet out.
    pub fn pop_front(&mut self) -> (r: Option<Vec<u8>>)
        ensures
            match r {
                Some(p) => old(self)@.len() > 0 && p@ == old(self)@[0] && final(self)@
                    == old(self)@.drop_first(),
                None => old(self)@.len() == 0 && final(self)@ == old(self)@,
            },
    {
        if self.packets.len() == 0 {
            return None;
        }
        let p = self.packets.remove(0);
        assert(self@ =~= old(self)@.drop_first());
        Some(p)
    }
}

impl ReceivesTcCore for TcQueue {
    type Error = ();

    /// What the queue has received is what it holds, until packets are taken out.
    open spec fn received(&self) -> Seq<Seq<u8>> {
        self@
    }

    fn pass_tc(&mut self, tc_raw: &[u8]) -> (r: Result<(), ()>)
        ensures
            r.is_ok(),
    {
        let copy = vstd::slice::slice_to_vec(tc_raw);
        self.packets.push(copy);
        assert(self@ =~= old(self)@.push(tc_raw@));
        Ok(())
    }
}

/// A telemetry source that hands out the packets it was given, oldest first.
pub struct TmQueue {
    packets: Vec<Vec<u8>>,
}

impl View for TmQueue {
    type V = Seq<Seq<u8>>;

    closed spec fn view(&self) -> Seq<Seq<u8>> {
        Seq::new(self.packets@.len(), |i: int| self.packets@[i]@)
    }
}

/// The next packet of a [`TmQueue`] is longer than the buffer it should go to.
#[derive(Clone, Copy, Debug, PartialEq, Eq, Structural)]
pub struct BufferTooSmall {
    pub needed: usize,
    pub found: usize,
}

impl TmQueue {
    pub fn new() -> (r: Self)
        ensures
            r@ == Seq::<Seq<u8>>::empty(),
            r.wf(),
    {
        let r = TmQueue { packets: Vec::new() };
        assert(r@ =~= Seq::<Seq<u8>>::empty());
        r
    }

    /// Number of packets still to come.
    pub fn len(&self) -> (n: usize)
        ensures
            n == self@.len(),
    {
        self.packets.len()
    }

    /// No packet of the queue is empty.
    pub closed spec fn wf(&self) -> bool {
        forall|i: int| 0 <= i < self.packets@.len() ==> (#[trigger] self.packets@[i])@.len() > 0
    }

    /// Appends a packet. An empty packet is dropped.
    pub fn add_tm(&mut self, tm: &[u8])
        ensures
            old(self).wf() ==> final(self).wf(),
            final(self)@ == (if tm@.len() > 0 {
                old(self)@.push(tm@)
            } else {
                old(self)@
            }),
    {
        if tm.len() == 0 {
            return ;
        }
        let copy = vstd::slice::slice_to_vec(tm);
        self.packets.push(copy);
        assert(self@ =~= old(self)@.push(tm@));
    }
}

impl TmPacketSourceCore for TmQueue {
    type Error = BufferTooSmall;

    closed spec fn pending(&self) -> Seq<Seq<u8>> {
        self@
    }

    fn retrieve_packet(&mut self, buffer: &mut [u8]) -> (r: Result<usize, BufferTooSmall>)
        ensures
            old(self).wf() ==> final(self).wf(),
            match r {
                Ok(n) => old(self)@.len() == 0 || (old(self)@[0].len() <= old(buffer)@.len() && (
                old(self).wf() ==> n > 0)),
                Err(e) => {
                    &&& old(self)@.len() > 0
                    &&& old(self)@[0].len() > old(buffer)@.len()
                    &&& e.needed == old(self)@[0].len()
                    &&& e.found == old(buffer)@.len()
                },
            },
    {
        if self.packets.len() == 0 {
            return Ok(0);
        }
        let n = self.packets[0].len();
        if buffer.len() < n {
            return Err(BufferTooSmall { needed: n, found: buffer.len() });
        }
        if n == 0 {
            return Ok(0);
        }
        let next = self.packets.remove(0);
        let mut k: usize = 0;
        while k < n
            invariant
                k <= n,
                n == next@.len(),
                n <= buffer@.len(),
                buffer@.len() == old(buffer)@.len(),
                buffer@.subrange(0, k as int) == next@.subrange(0, k as int),
            decreases n - k,
        {
            let ghost prev = buffer@;
            buffer[k] = next[k];
            assert(buffer@.subrange(0, k as int + 1) =~= prev.subrange(0, k as int).push(next@[k as int]));
            assert(next@.subrange(0, k as int + 1) =~= next@.subrange(0, k as int).push(next@[k as int]));
            k += 1;
        }
        assert(next@.subrange(0, n as int) =~= next@);
        assert(self@ =~= old(self)@.drop_first());
        Ok(n)
    }
}

} // verus!
