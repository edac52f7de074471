//! Driver for MB85RC-series I2C FRAM modules, exposing the byte-addressable
//! non-volatile memory as a random-access, seekable byte store.
//!
//! The driver is written against the [`I2cBus`] capability: a blocking
//! two-wire bus with the FRAM device attached, offering the two transaction
//! shapes the chip understands. Any concrete transport can implement it;
//! [`SimBus`] is an in-memory implementation for exercising the driver
//! without hardware. A [`Builder`] configures the peripheral address and the
//! capacity (explicit, or auto-detected through the chip's identification
//! command) and produces the [`MB85RC`] handle, which offers direct
//! addressed access and cursor-based seek, read and write.

mod bus;
mod codec;
mod error;
mod mb85rc;

pub use bus::{I2cBus, SimBus, DEVICE_ID_ADDR};
pub use codec::{
    capacity_from_id, encode_address, lemma_read_after_write_sees_following_cells,
    lemma_write_then_read_round_trip, manufacturer_from_id,
    prefix_address, spec_capacity_from_id, spec_encoded_address, spec_manufacturer_from_id,
    store_bytes,
};
pub use error::{Mb85rcError, Mb85rcErrorKind};
pub use mb85rc::{seek_target, Builder, SeekFrom, MB85RC};
