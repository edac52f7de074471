use crate::bus::{I2cBus, DEVICE_ID_ADDR};
use crate::codec::{capacity_from_id, encode_address, prefix_address, spec_capacity_from_id,
    spec_encoded_address, store_bytes};
use crate::error::{Mb85rcError, Mb85rcErrorKind};
use vstd::prelude::*;

verus! {

/// Target of a seek: an absolute position, or a signed offset from the
/// current cursor or from the device capacity.
#[derive(Clone, Copy, Debug, PartialEq, Eq, Structural)]
pub enum SeekFrom {
    /// Absolute position from the start of the device.
    Start(u64),
    /// Signed offset from the current cursor.
    Current(i64),
    /// Signed offset from the device capacity.
    End(i64),
}

/// The position a seek aims at, resolved against the device capacity and the
/// current cursor.
pub open spec fn seek_target(pos: SeekFrom, capacity: int, cursor: int) -> int {
    match pos {
        SeekFrom::Start(p) => p as int,
        SeekFrom::Current(d) => cursor + d,
        SeekFrom::End(d) => capacity + d,
    }
}

/// Interface for the FRAM module over I2C
///
/// Construct this using a [`Builder`] to set the address and size
pub struct MB85RC<B> {
    i2c: B,
    device_addr: u8,
    device_size: u32,
    cursor: u32,
}

impl<B: I2cBus> MB85RC<B> {
    /// The bus the handle owns.
    pub closed spec fn spec_bus(&self) -> B {
        self.i2c
    }

    /// The peripheral address the handle directs its transactions to.
    pub closed spec fn spec_device_addr(&self) -> u8 {
        self.device_addr
    }

    /// The capacity in bytes recorded at construction.
    pub closed spec fn spec_size(&self) -> u32 {
        self.device_size
    }

    /// The current stream position.
    pub closed spec fn spec_cursor(&self) -> u32 {
        self.cursor
    }

    /// Well-formedness: the capacity is positive and addressable within the
    /// chip's 16-bit address space, and the cursor never lies beyond it.
    pub open spec fn wf(&self) -> bool {
        &&& 0 < self.spec_size() <= 0x10000
        &&& self.spec_cursor() <= self.spec_size()
    }

    /// The handle addresses the device that is attached to its bus.
    pub open spec fn addresses_device(&self) -> bool {
        self.spec_device_addr() == self.spec_bus().fram_addr()
    }

    /// The handle matches the attached device: it addresses it, and its
    /// recorded capacity is the device's memory size.
    pub open spec fn calibrated(&self) -> bool {
        &&& self.addresses_device()
        &&& self.spec_size() == self.spec_bus().mem().len()
    }

    fn new(i2c: B, device_addr: u8, size: Option<u32>) -> (r: Result<MB85RC<B>, Mb85rcError>)
        requires
            size matches Some(s) ==> 0 < s <= 0x10000,
        ensures
            r matches Ok(h) ==> {
                &&& h.wf()
                &&& h.spec_cursor() == 0
                &&& h.spec_device_addr() == device_addr
                &&& h.spec_bus().fram_addr() == i2c.fram_addr()
                &&& h.spec_bus().mem() == i2c.mem()
                &&& h.spec_bus().id_bytes() == i2c.id_bytes()
                &&& match size {
                    Some(s) => h.spec_size() == s,
                    None => h.spec_size() == spec_capacity_from_id(i2c.id_bytes()[1]),
                }
            },
            size is Some ==> r is Ok,
            r matches Err(e) ==> size is None && e.kind == Mb85rcErrorKind::Identification,
            size is None && spec_capacity_from_id(i2c.id_bytes()[1]) > 0x10000 ==> r is Err,
    {
        match size {
            Some(s) => Ok(MB85RC { i2c, device_addr, device_size: s, cursor: 0 }),
            None => {
                let mut bus = i2c;
                match Self::read_metadata(&mut bus, device_addr) {
                    Ok(meta) => {
                        let cap = capacity_from_id(meta[1]);
                        if cap > 0x10000 {
                            // The chip family's larger variants are addressed
                            // via extra high address bits that this driver
                            // does not model, so their capacity cannot be
                            // served from a 16-bit address space.
                            Err(Mb85rcError {
                                kind: Mb85rcErrorKind::Identification,
                                details: "Reported FRAM size exceeds the 16-bit address space. Use `Builder::with_size(u32)`.".to_string(),
                            })
                        } else {
                            Ok(MB85RC { i2c: bus, device_addr, device_size: cap, cursor: 0 })
                        }
                    },
                    Err(_) => Err(Mb85rcError {
                        kind: Mb85rcErrorKind::Identification,
                        details: "Could not automatically get FRAM size. Use `Builder::with_size(u32)`.".to_string(),
                    }),
                }
            },
        }
    }

    /// Directly read bytes at `addr` into the provided buffer
    ///
    /// The buffer's length chooses how many bytes are read; its contents are
    /// replaced on success and untouched on failure. The cursor is not
    /// disturbed.
    pub fn fram_read(&mut self, addr: u16, buf: &mut Vec<u8>) -> (r: Result<usize, Mb85rcError>)
        ensures
            final(self).spec_device_addr() == old(self).spec_device_addr(),
            final(self).spec_size() == old(self).spec_size(),
            final(self).spec_cursor() == old(self).spec_cursor(),
            final(self).spec_bus().fram_addr() == old(self).spec_bus().fram_addr(),
            final(self).spec_bus().mem() == old(self).spec_bus().mem(),
            final(self).spec_bus().id_bytes() == old(self).spec_bus().id_bytes(),
            r matches Ok(n) ==> n == old(buf)@.len() && final(buf)@.len() == old(buf)@.len(),
            old(self).addresses_device() ==> r is Ok ==> forall|i: int|
                0 <= i < old(buf)@.len() && addr + i < old(self).spec_bus().mem().len()
                    ==> #[trigger] final(buf)@[i] == old(self).spec_bus().mem()[addr + i],
            (old(self).addresses_device() && r is Ok
                && addr + old(buf)@.len() <= old(self).spec_bus().mem().len())
                ==> final(buf)@ == old(self).spec_bus().mem().subrange(
                    addr as int,
                    addr + old(buf)@.len(),
                ),
            r matches Err(e) ==> e.kind == Mb85rcErrorKind::Bus && final(buf)@ == old(buf)@,
    {
        let n = buf.len();
        let addr_buf = encode_address(addr);
        match self.i2c.write_read(self.device_addr, &addr_buf, n) {
            Ok(data) => {
                proof {
                    if old(self).addresses_device()
                        && addr + n <= old(self).spec_bus().mem().len() {
                        assert(data@ =~= old(self).spec_bus().mem().subrange(
                            addr as int,
                            addr + n,
                        ));
                    }
                }
                *buf = data;
                Ok(n)
            },
            Err(e) => Err(e),
        }
    }

    /// Directly write bytes at `addr` from the provided buffer
    ///
    /// The cursor is not disturbed. A failed transaction may already have
    /// committed a prefix of the payload to the chip, so nothing is promised
    /// of the device contents then.
    pub fn fram_write(&mut self, addr: u16, buf: &Vec<u8>) -> (r: Result<usize, Mb85rcError>)
        ensures
            final(self).spec_device_addr() == old(self).spec_device_addr(),
            final(self).spec_size() == old(self).spec_size(),
            final(self).spec_cursor() == old(self).spec_cursor(),
            final(self).spec_bus().fram_addr() == old(self).spec_bus().fram_addr(),
            final(self).spec_bus().id_bytes() == old(self).spec_bus().id_bytes(),
            final(self).spec_bus().mem().len() == old(self).spec_bus().mem().len(),
            r matches Ok(n) ==> n == buf@.len(),
            (old(self).addresses_device() && addr + buf@.len() <= old(self).spec_bus().mem().len()
                && r is Ok) ==> final(self).spec_bus().mem() == store_bytes(
                old(self).spec_bus().mem(),
                addr as int,
                buf@,
            ),
            !old(self).addresses_device()
                ==> final(self).spec_bus().mem() == old(self).spec_bus().mem(),
            r matches Err(e) ==> e.kind == Mb85rcErrorKind::Bus,
    {
        let mut write_buf = encode_address(addr);
        let mut i: usize = 0;
        while i < buf.len()
            invariant
                i <= buf@.len(),
                write_buf@.len() == i + 2,
                write_buf@[0] == spec_encoded_address(addr)[0],
                write_buf@[1] == spec_encoded_address(addr)[1],
                prefix_address(write_buf@) == addr,
                forall|j: int| 0 <= j < i ==> #[trigger] write_buf@[j + 2] == buf@[j],
            decreases buf@.len() - i,
        {
            write_buf.push(buf[i]);
            i = i + 1;
        }
        proof {
            assert(write_buf@.skip(2) =~= buf@);
        }
        match self.i2c.write(self.device_addr, &write_buf) {
            Ok(_) => Ok(buf.len()),
            Err(e) => Err(e),
        }
    }

    fn read_metadata(i2c: &mut B, addr: u8) -> (r: Result<Vec<u8>, Mb85rcError>)
        ensures
            final(i2c).fram_addr() == old(i2c).fram_addr(),
            final(i2c).mem() == old(i2c).mem(),
            final(i2c).id_bytes() == old(i2c).id_bytes(),
            r matches Ok(meta) ==> meta@.len() == 3 && meta@ == old(i2c).id_bytes(),
            r matches Err(e) ==> e.kind == Mb85rcErrorKind::Bus,
    {
        // density of the FRAM module is 2^N kB, where N is the lower nybble
        // of the second metadata byte
        let mut write_buf: Vec<u8> = Vec::new();
        write_buf.push(addr << 1);
        i2c.write_read(DEVICE_ID_ADDR, &write_buf, 3)
    }

    /// Get the auto-detected or [manually set](Builder::with_size) size of
    /// the device
    pub fn fram_size(&self) -> (size: u32)
        ensures
            size == self.spec_size(),
    {
        self.device_size
    }

    /// Repositions the stream cursor.
    ///
    /// `Start` seeks to an absolute position; `Current` and `End` apply a
    /// signed offset to the current cursor or to the device capacity. A
    /// target at or beyond the capacity is rejected with `OutOfRange`, a
    /// negative target with `InvalidArgument`; on failure the cursor is
    /// unchanged. No bus transaction is issued.
    pub fn seek(&mut self, pos: SeekFrom) -> (r: Result<u64, Mb85rcError>)
        requires
            old(self).wf(),
        ensures
            final(self).wf(),
            final(self).spec_device_addr() == old(self).spec_device_addr(),
            final(self).spec_size() == old(self).spec_size(),
            final(self).spec_bus() == old(self).spec_bus(),
            ({
                let target = seek_target(
                    pos,
                    old(self).spec_size() as int,
                    old(self).spec_cursor() as int,
                );
                &&& r is Ok <==> 0 <= target < old(self).spec_size()
                &&& (r matches Ok(p) ==> p == target && final(self).spec_cursor() == target)
                &&& (r matches Err(e) ==> final(self).spec_cursor() == old(self).spec_cursor()
                    && e.kind == (if target < 0 {
                        Mb85rcErrorKind::InvalidArgument
                    } else {
                        Mb85rcErrorKind::OutOfRange
                    }))
            }),
    {
        let size_i: i128 = self.device_size as i128;
        let target: i128 = match pos {
            SeekFrom::Start(p) => p as i128,
            SeekFrom::Current(d) => self.cursor as i128 + d as i128,
            SeekFrom::End(d) => size_i + d as i128,
        };
        if target < 0 {
            Err(Mb85rcError {
                kind: Mb85rcErrorKind::InvalidArgument,
                details: "Invalid argument (position would be negative)".to_string(),
            })
        } else if target >= size_i {
            Err(Mb85rcError {
                kind: Mb85rcErrorKind::OutOfRange,
                details: "Cannot seek past device memory size".to_string(),
            })
        } else {
            self.cursor = target as u32;
            Ok(target as u64)
        }
    }

    /// Reads into the whole buffer from the current cursor, then advances
    /// the cursor by the bytes read.
    ///
    /// A read that would run past the device capacity is rejected with
    /// `OutOfRange` before any transaction is issued, so the chip's internal
    /// address counter never rolls over; on any failure the cursor and the
    /// buffer are unchanged.
    pub fn read(&mut self, buf: &mut Vec<u8>) -> (r: Result<usize, Mb85rcError>)
        requires
            old(self).wf(),
        ensures
            final(self).wf(),
            final(self).spec_device_addr() == old(self).spec_device_addr(),
            final(self).spec_size() == old(self).spec_size(),
            final(self).spec_bus().fram_addr() == old(self).spec_bus().fram_addr(),
            final(self).spec_bus().mem() == old(self).spec_bus().mem(),
            final(self).spec_bus().id_bytes() == old(self).spec_bus().id_bytes(),
            old(self).spec_cursor() + old(buf)@.len() > old(self).spec_size() ==> (r matches Err(e)
                && e.kind == Mb85rcErrorKind::OutOfRange
                && final(self).spec_cursor() == old(self).spec_cursor()
                && final(buf)@ == old(buf)@),
            old(self).spec_cursor() + old(buf)@.len() <= old(self).spec_size() ==> {
                &&& (r matches Ok(n) ==> {
                    &&& n == old(buf)@.len()
                    &&& final(buf)@.len() == old(buf)@.len()
                    &&& final(self).spec_cursor() == old(self).spec_cursor() + n
                    &&& old(self).calibrated() ==> final(buf)@ == old(self).spec_bus().mem().subrange(
                        old(self).spec_cursor() as int,
                        old(self).spec_cursor() + old(buf)@.len(),
                    )
                })
                &&& (r matches Err(e) ==> e.kind == Mb85rcErrorKind::Bus
                    && final(self).spec_cursor() == old(self).spec_cursor()
                    && final(buf)@ == old(buf)@)
            },
    {
        let n = buf.len();
        if n as u64 > (self.device_size - self.cursor) as u64 {
            return Err(Mb85rcError {
                kind: Mb85rcErrorKind::OutOfRange,
                details: "Cannot read past device memory size".to_string(),
            });
        }
        if n == 0 {
            proof {
                if old(self).calibrated() {
                    assert(old(buf)@ =~= old(self).spec_bus().mem().subrange(
                        old(self).spec_cursor() as int,
                        old(self).spec_cursor() as int,
                    ));
                }
            }
            return Ok(0);
        }
        let a: u16 = self.cursor as u16;
        match self.fram_read(a, buf) {
            Ok(m) => {
                self.cursor = self.cursor + m as u32;
                Ok(m)
            },
            Err(e) => Err(e),
        }
    }

    /// Writes the whole buffer at the current cursor, then advances the
    /// cursor by the bytes written.
    ///
    /// A write that would run past the device capacity is rejected with
    /// `OutOfRange` before any transaction is issued, so the chip's internal
    /// address counter never rolls over and the device is left untouched; on
    /// any failure the cursor is unchanged.
    pub fn write(&mut self, buf: &Vec<u8>) -> (r: Result<usize, Mb85rcError>)
        requires
            old(self).wf(),
        ensures
            final(self).wf(),
            final(self).spec_device_addr() == old(self).spec_device_addr(),
            final(self).spec_size() == old(self).spec_size(),
            final(self).spec_bus().fram_addr() == old(self).spec_bus().fram_addr(),
            final(self).spec_bus().id_bytes() == old(self).spec_bus().id_bytes(),
            final(self).spec_bus().mem().len() == old(self).spec_bus().mem().len(),
            old(self).spec_cursor() + buf@.len() > old(self).spec_size() ==> (r matches Err(e)
                && e.kind == Mb85rcErrorKind::OutOfRange
                && final(self).spec_cursor() == old(self).spec_cursor()
                && final(self).spec_bus().mem() == old(self).spec_bus().mem()),
            old(self).spec_cursor() + buf@.len() <= old(self).spec_size() ==> {
                &&& (r matches Ok(n) ==> {
                    &&& n == buf@.len()
                    &&& final(self).spec_cursor() == old(self).spec_cursor() + n
                    &&& old(self).calibrated() ==> final(self).spec_bus().mem() == store_bytes(
                        old(self).spec_bus().mem(),
                        old(self).spec_cursor() as int,
                        buf@,
                    )
                })
                &&& (r matches Err(e) ==> e.kind == Mb85rcErrorKind::Bus
                    && final(self).spec_cursor() == old(self).spec_cursor())
            },
    {
        let n = buf.len();
        if n as u64 > (self.device_size - self.cursor) as u64 {
            return Err(Mb85rcError {
                kind: Mb85rcErrorKind::OutOfRange,
                details: "Cannot write past device memory size".to_string(),
            });
        }
        if n == 0 {
            proof {
                if old(self).calibrated() {
                    assert(store_bytes(
                        old(self).spec_bus().mem(),
                        old(self).spec_cursor() as int,
                        buf@,
                    ) =~= old(self).spec_bus().mem());
                }
            }
            return Ok(0);
        }
        let a: u16 = self.cursor as u16;
        match self.fram_write(a, buf) {
            Ok(m) => {
                self.cursor = self.cursor + m as u32;
                Ok(m)
            },
            Err(e) => Err(e),
        }
    }

    /// Nothing is cached, so there is never anything to flush.
    pub fn flush(&mut self) -> (r: Result<(), Mb85rcError>)
        ensures
            r is Ok,
            final(self).spec_device_addr() == old(self).spec_device_addr(),
            final(self).spec_size() == old(self).spec_size(),
            final(self).spec_cursor() == old(self).spec_cursor(),
            final(self).spec_bus() == old(self).spec_bus(),
    {
        Ok(())
    }
}

/// Builder to create the interface with parameters
pub struct Builder {
    device_addr: u8,
    device_size: Option<u32>,
}

impl Builder {
    /// The peripheral address the interface will be constructed with.
    pub closed spec fn spec_device_addr(&self) -> u8 {
        self.device_addr
    }

    /// The explicitly supplied capacity, if any.
    pub closed spec fn spec_size(&self) -> Option<u32> {
        self.device_size
    }

    /// Create a new builder with default parameters
    pub fn new() -> (r: Builder)
        ensures
            r.spec_device_addr() == 0x50,
            r.spec_size() is None,
    {
        Builder { device_addr: 0x50, device_size: None }
    }

    /// Set the I2C device address for the FRAM module
    pub fn with_address(self, address: u8) -> (r: Builder)
        ensures
            r.spec_device_addr() == address,
            r.spec_size() == self.spec_size(),
    {
        Builder { device_addr: address, device_size: self.device_size }
    }

    /// Set the size of the FRAM module in bytes (overrides auto-detection)
    pub fn with_size(self, size: u32) -> (r: Builder)
        ensures
            r.spec_device_addr() == self.spec_device_addr(),
            r.spec_size() == Some(size),
    {
        Builder { device_addr: self.device_addr, device_size: Some(size) }
    }

    /// Finish the builder and construct the interface by attaching an I2C
    /// bus
    ///
    /// When no capacity was supplied, one identification transaction is
    /// issued and the capacity is derived from its response; if that
    /// transaction fails, or reports a capacity beyond the 16-bit address
    /// space, construction fails with `Identification` instead of producing
    /// a partially usable handle.
    pub fn connect_i2c<B: I2cBus>(self, i2c: B) -> (r: Result<MB85RC<B>, Mb85rcError>)
        requires
            self.spec_size() matches Some(s) ==> 0 < s <= 0x10000,
        ensures
            r matches Ok(h) ==> {
                &&& h.wf()
                &&& h.spec_cursor() == 0
                &&& h.spec_device_addr() == self.spec_device_addr()
                &&& h.spec_bus().fram_addr() == i2c.fram_addr()
                &&& h.spec_bus().mem() == i2c.mem()
                &&& h.spec_bus().id_bytes() == i2c.id_bytes()
                &&& match self.spec_size() {
                    Some(s) => h.spec_size() == s,
                    None => h.spec_size() == spec_capacity_from_id(i2c.id_bytes()[1]),
                }
            },
            self.spec_size() is Some ==> r is Ok,
            r matches Err(e) ==> self.spec_size() is None && e.kind
                == Mb85rcErrorKind::Identification,
            self.spec_size() is None && spec_capacity_from_id(i2c.id_bytes()[1]) > 0x10000
                ==> r is Err,
    {
        MB85RC::new(i2c, self.device_addr, self.device_size)
    }
}

} // verus!
