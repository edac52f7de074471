use crate::codec::{prefix_address, store_bytes};
use crate::error::{Mb85rcError, Mb85rcErrorKind};
use vstd::prelude::*;

verus! {

/// Reserved peripheral address of the device-identification command,
/// `0xF8 >> 1`.
pub const DEVICE_ID_ADDR: u8 = 0x7C;

/// A blocking two-wire bus with a single FRAM device attached.
///
/// The capability is the two transaction shapes the chip understands: a
/// combined write-then-read transaction and a plain write transaction, each
/// addressed to a 7-bit peripheral address. Any transaction may fail with a
/// transport-level error (NACK, timeout, bus fault); nothing promises
/// success. What a successful transaction returns or changes is pinned down
/// in terms of three observables of the bus: the peripheral address the chip
/// answers to, the contents of its memory, and its identification response.
pub trait I2cBus: Sized {
    /// The 7-bit peripheral address that the attached FRAM device answers to.
    ///
    /// A transport that does not model its device leaves the observables at
    /// these unspecified defaults, and the transaction contracts then pin
    /// nothing down about contents.
    open spec fn fram_addr(&self) -> u8 {
        arbitrary()
    }

    /// The contents of the attached device's memory.
    open spec fn mem(&self) -> Seq<u8> {
        arbitrary()
    }

    /// The three bytes that the device-identification command returns.
    open spec fn id_bytes(&self) -> Seq<u8> {
        arbitrary()
    }

    /// Issues a combined write-then-read transaction: write the bytes of
    /// `out` to peripheral `periph`, then read `count` bytes back in the same
    /// transaction.
    ///
    /// A successful transaction returns exactly `count` bytes. When the
    /// transaction addresses the chip with a two-byte address prefix, each
    /// returned byte whose cell lies inside the device memory is that cell's
    /// content; when it addresses the identification peripheral with the
    /// one-byte command and reads three bytes, it returns the identification
    /// response. No transaction of this shape changes the device.
    fn write_read(&mut self, periph: u8, out: &Vec<u8>, count: usize) -> (r: Result<
        Vec<u8>,
        Mb85rcError,
    >)
        ensures
            final(self).fram_addr() == old(self).fram_addr(),
            final(self).mem() == old(self).mem(),
            final(self).id_bytes() == old(self).id_bytes(),
            r matches Ok(data) ==> {
                &&& data@.len() == count
                &&& (periph == old(self).fram_addr() && out@.len() == 2)
                    ==> forall|i: int|
                        0 <= i < count && prefix_address(out@) + i < old(self).mem().len()
                        ==> #[trigger] data@[i] == old(self).mem()[prefix_address(out@) + i]
                &&& (periph == DEVICE_ID_ADDR && out@.len() == 1 && count == 3)
                    ==> data@ == old(self).id_bytes()
            },
            r matches Err(e) ==> e.kind == Mb85rcErrorKind::Bus,
    ;

    /// Issues a plain write transaction: the payload `out` is sent to
    /// peripheral `periph` in one transaction.
    ///
    /// When a successful transaction addresses the chip, its first two
    /// payload bytes are the big-endian address prefix and the remaining
    /// bytes fill consecutive memory cells from that address (the chip
    /// auto-increments its internal address register); this is pinned down
    /// whenever the data lies inside the device memory. A write addressed
    /// elsewhere leaves the memory unchanged. A failed write addressed to
    /// the chip may already have filled some cells (the chip commits each
    /// byte as it arrives), so nothing is promised of the contents then. No
    /// write changes the memory's size, the chip's address, or its
    /// identification response.
    fn write(&mut self, periph: u8, out: &Vec<u8>) -> (r: Result<(), Mb85rcError>)
        ensures
            final(self).fram_addr() == old(self).fram_addr(),
            final(self).id_bytes() == old(self).id_bytes(),
            final(self).mem().len() == old(self).mem().len(),
            periph != old(self).fram_addr() ==> final(self).mem() == old(self).mem(),
            (r is Ok && periph == old(self).fram_addr() && out@.len() >= 2
                && prefix_address(out@) + (out@.len() - 2) <= old(self).mem().len())
                ==> final(self).mem() == store_bytes(
                    old(self).mem(),
                    prefix_address(out@),
                    out@.skip(2),
                ),
            r matches Err(e) ==> e.kind == Mb85rcErrorKind::Bus,
    ;
}

/// An in-memory bus with one simulated FRAM device attached: transactions
/// addressed to the device read and write a byte vector, and the
/// identification command answers with fixed bytes. Transactions addressed
/// to any other peripheral fail, as an unacknowledged transaction on a real
/// bus does.
pub struct SimBus {
    device_addr: u8,
    mem: Vec<u8>,
    id0: u8,
    id1: u8,
    id2: u8,
}

impl SimBus {
    /// A simulated device of `size` bytes, all zero, answering at
    /// `device_addr`, whose identification response is `[id0, id1, id2]`.
    pub fn new(device_addr: u8, size: usize, id0: u8, id1: u8, id2: u8) -> (r: SimBus)
        ensures
            r.fram_addr() == device_addr,
            r.mem() == Seq::new(size as nat, |j: int| 0u8),
            r.id_bytes() == seq![id0, id1, id2],
    {
        let mut mem: Vec<u8> = Vec::new();
        let mut i: usize = 0;
        while i < size
            invariant
                i <= size,
                mem@.len() == i,
                forall|j: int| 0 <= j < i ==> mem@[j] == 0u8,
            decreases size - i,
        {
            mem.push(0u8);
            i = i + 1;
        }
        proof {
            assert(mem@ =~= Seq::new(size as nat, |j: int| 0u8));
        }
        SimBus { device_addr, mem, id0, id1, id2 }
    }
}

impl I2cBus for SimBus {
    closed spec fn fram_addr(&self) -> u8 {
        self.device_addr
    }

    closed spec fn mem(&self) -> Seq<u8> {
        self.mem@
    }

    closed spec fn id_bytes(&self) -> Seq<u8> {
        seq![self.id0, self.id1, self.id2]
    }

    fn write_read(&mut self, periph: u8, out: &Vec<u8>, count: usize) -> (r: Result<
        Vec<u8>,
        Mb85rcError,
    >) {
        if periph == self.device_addr && out.len() == 2 {
            let a: usize = (out[0] as usize) * 256 + (out[1] as usize);
            let mut data: Vec<u8> = Vec::new();
            let mut i: usize = 0;
            while i < count
                invariant
                    i <= count,
                    data@.len() == i,
                    a == prefix_address(out@),
                    out@.len() == 2,
                    forall|j: int|
                        0 <= j < i ==> #[trigger] data@[j] == (if a + j < self.mem@.len() {
                            self.mem@[a + j]
                        } else {
                            0u8
                        }),
                decreases count - i,
            {
                let v: u8 = if a < self.mem.len() && i < self.mem.len() - a {
                    self.mem[a + i]
                } else {
                    0u8
                };
                data.push(v);
                i = i + 1;
            }
            Ok(data)
        } else if periph == DEVICE_ID_ADDR && out.len() == 1 && count == 3 {
            let mut data: Vec<u8> = Vec::new();
            data.push(self.id0);
            data.push(self.id1);
            data.push(self.id2);
            proof {
                assert(data@ =~= seq![self.id0, self.id1, self.id2]);
            }
            Ok(data)
        } else {
            Err(Mb85rcError::new("I2C Error: no acknowledge from peripheral"))
        }
    }

    fn write(&mut self, periph: u8, out: &Vec<u8>) -> (r: Result<(), Mb85rcError>) {
        if periph == self.device_addr {
            if out.len() < 2 {
                // A payload without a full address prefix only sets part of
                // the chip's address register and writes no cell.
                return Ok(());
            }
            let a: usize = (out[0] as usize) * 256 + (out[1] as usize);
            let n: usize = out.len() - 2;
            let mut i: usize = 0;
            while i < n
                invariant
                    i <= n,
                    n == out@.len() - 2,
                    n <= usize::MAX - 2,
                    a == prefix_address(out@),
                    self.device_addr == old(self).device_addr,
                    self.id0 == old(self).id0,
                    self.id1 == old(self).id1,
                    self.id2 == old(self).id2,
                    self.mem@.len() == old(self).mem@.len(),
                    forall|j: int|
                        0 <= j < self.mem@.len() ==> #[trigger] self.mem@[j] == (if a <= j < a + i {
                            out@[j - a + 2]
                        } else {
                            old(self).mem@[j]
                        }),
                decreases n - i,
            {
                if a < self.mem.len() && i < self.mem.len() - a {
                    self.mem[a + i] = out[2 + i];
                }
                i = i + 1;
            }
            proof {
                if a + n <= self.mem@.len() {
                    assert(self.mem@ =~= store_bytes(
                        old(self).mem@,
                        a as int,
                        out@.skip(2),
                    ));
                }
            }
            Ok(())
        } else {
            Err(Mb85rcError::new("I2C Error: no acknowledge from peripheral"))
        }
    }
}

} // verus!
