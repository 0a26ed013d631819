//! The TMP1075 device driver: transaction sequencing and value transcoding.
//!
//! The driver owns a bus address and a transport handle, and translates
//! typed operations into register reads and read-modify-write sequences.
//! Every transaction the driver completes is recorded in a ghost history
//! of [`BusOp`] values, so the contracts state exactly which bytes go to
//! which address and how a written configuration value relates to the
//! value read just before it.

use vstd::prelude::*;

use crate::register_settings::{AlertFunction, AlertPolarity, ConsecutiveFaults, ConversionRate,
    PowerMode};
use crate::registers::{Register, ALERT_FUNCTION_MASK, ALERT_FUNCTION_SHIFT,
    ALERT_POLARITY_MASK, ALERT_POLARITY_SHIFT, CONSECUTIVE_FAULT_MASK, CONSECUTIVE_FAULT_SHIFT,
    CONVERSION_RATE_MASK, CONVERSION_RATE_SHIFT, POWER_MODE_MASK, POWER_MODE_SHIFT};

verus! {

/// Default bus address of the device (`0x48`).
pub const DEFAULT_I2C_ADDRESS: u8 = 0b1001000;

/// The transport the driver drives: an I2C bus addressed by a 7-bit
/// device address.
///
/// The two methods are the only I/O primitives the driver depends on;
/// any transport honouring them (physical bus, mock, simulator) is
/// interchangeable. A failed transaction reports the transport's own
/// error, which the driver surfaces verbatim.
pub trait I2cBus {
    /// The transport's error for a failed bus transaction.
    type BusError;

    /// Sends `bytes` to the device at `address` as a single transaction.
    fn bus_write(&mut self, address: u8, bytes: &[u8]) -> Result<(), Self::BusError>;

    /// Sends `bytes` to the device at `address`, then reads two bytes
    /// back in the same transaction (repeated start, no bus release in
    /// between).
    fn bus_write_read2(&mut self, address: u8, bytes: &[u8]) -> Result<(u8, u8), Self::BusError>;
}

/// One completed bus transaction, as the driver records it.
pub enum BusOp {
    /// A plain write of `data` to the device at `address`.
    Write { address: u8, data: Seq<u8> },
    /// A combined write-then-read: `written` sent to the device at
    /// `address`, then `returned` read back.
    WriteRead { address: u8, written: Seq<u8>, returned: Seq<u8> },
}

/// The device address a transaction was issued to.
pub open spec fn op_address(op: BusOp) -> u8 {
    match op {
        BusOp::Write { address, .. } => address,
        BusOp::WriteRead { address, .. } => address,
    }
}

/// The high byte of a 16-bit word.
pub open spec fn hi_byte(v: u16) -> u8 {
    (v >> 8) as u8
}

/// The low byte of a 16-bit word.
pub open spec fn lo_byte(v: u16) -> u8 {
    (v & 0xFF) as u8
}

/// The 16-bit word read big-endian from two bytes.
pub open spec fn be16(hi: u8, lo: u8) -> u16 {
    ((hi as u16) << 8) | (lo as u16)
}

/// A 16-bit word is exactly its two big-endian bytes put back together.
pub proof fn lemma_be16_round_trip(v: u16, hi: u8, lo: u8)
    by (bit_vector)
    ensures
        be16(hi_byte(v), lo_byte(v)) == v,
        hi_byte(be16(hi, lo)) == hi,
        lo_byte(be16(hi, lo)) == lo,
{
}

/// The transaction that reads `value` out of register `reg` of the
/// device at `address`: one byte written (the register address), two
/// bytes read back (the value, big-endian).
pub open spec fn register_read_op(address: u8, reg: Register, value: u16) -> BusOp {
    BusOp::WriteRead {
        address,
        written: seq![reg.addr_spec()],
        returned: seq![hi_byte(value), lo_byte(value)],
    }
}

/// The transaction that writes `value` into register `reg` of the
/// device at `address`: three bytes written (the register address, then
/// the value big-endian).
pub open spec fn register_write_op(address: u8, reg: Register, value: u16) -> BusOp {
    BusOp::Write {
        address,
        data: seq![reg.addr_spec(), hi_byte(value), lo_byte(value)],
    }
}

/// The register value after a read-modify-write: the bits under `mask`
/// are cleared and `bits` is OR-ed in.
pub open spec fn rmw_value(v: u16, mask: u16, bits: u16) -> u16 {
    (v & !mask) | bits
}

/// A read-modify-write leaves every bit outside `mask` exactly as it was
/// read, and puts exactly `bits` into the bits under `mask`.
pub proof fn lemma_rmw_preserves_unrelated_bits(v: u16, mask: u16, bits: u16)
    by (bit_vector)
    requires
        bits & !mask == 0,
    ensures
        rmw_value(v, mask, bits) & !mask == v & !mask,
        rmw_value(v, mask, bits) & mask == bits,
{
}

/// Two read-modify-writes on disjoint fields compose: after updating the
/// bits under `mask1` and then the bits under `mask2`, the first field
/// still holds `bits1`, the second holds `bits2`, and every bit outside
/// both fields is unchanged — the second update does not clobber the
/// first.
pub proof fn lemma_disjoint_field_updates_compose(
    v: u16,
    mask1: u16,
    bits1: u16,
    mask2: u16,
    bits2: u16,
)
    by (bit_vector)
    requires
        bits1 & !mask1 == 0,
        bits2 & !mask2 == 0,
        mask1 & mask2 == 0,
    ensures
        rmw_value(rmw_value(v, mask1, bits1), mask2, bits2) & mask1 == bits1,
        rmw_value(rmw_value(v, mask1, bits1), mask2, bits2) & mask2 == bits2,
        rmw_value(rmw_value(v, mask1, bits1), mask2, bits2) & !(mask1 | mask2) == v & !(mask1
            | mask2),
{
}

/// Encoding a conversion rate code into a register value isolates the
/// field exactly: the field decodes back to the code, and every bit
/// outside the field's mask is unchanged.
pub proof fn lemma_conversion_rate_field_isolation(value: u16, code: u16)
    by (bit_vector)
    requires
        code <= 0b11,
    ensures
        (rmw_value(value, CONVERSION_RATE_MASK, code << CONVERSION_RATE_SHIFT)
            & CONVERSION_RATE_MASK) >> CONVERSION_RATE_SHIFT == code,
        rmw_value(value, CONVERSION_RATE_MASK, code << CONVERSION_RATE_SHIFT)
            & !CONVERSION_RATE_MASK == value & !CONVERSION_RATE_MASK,
{
}

/// Encoding a consecutive fault code into a register value isolates the
/// field exactly: the field decodes back to the code, and every bit
/// outside the field's mask is unchanged.
pub proof fn lemma_consecutive_faults_field_isolation(value: u16, code: u16)
    by (bit_vector)
    requires
        code <= 0b11,
    ensures
        (rmw_value(value, CONSECUTIVE_FAULT_MASK, code << CONSECUTIVE_FAULT_SHIFT)
            & CONSECUTIVE_FAULT_MASK) >> CONSECUTIVE_FAULT_SHIFT == code,
        rmw_value(value, CONSECUTIVE_FAULT_MASK, code << CONSECUTIVE_FAULT_SHIFT)
            & !CONSECUTIVE_FAULT_MASK == value & !CONSECUTIVE_FAULT_MASK,
{
}

/// Encoding an alert polarity code into a register value isolates the
/// field exactly: the field decodes back to the code, and every bit
/// outside the field's mask is unchanged.
pub proof fn lemma_alert_polarity_field_isolation(value: u16, code: u16)
    by (bit_vector)
    requires
        code <= 1,
    ensures
        (rmw_value(value, ALERT_POLARITY_MASK, code << ALERT_POLARITY_SHIFT)
            & ALERT_POLARITY_MASK) >> ALERT_POLARITY_SHIFT == code,
        rmw_value(value, ALERT_POLARITY_MASK, code << ALERT_POLARITY_SHIFT)
            & !ALERT_POLARITY_MASK == value & !ALERT_POLARITY_MASK,
{
}

/// Encoding an alert function code into a register value isolates the
/// field exactly: the field decodes back to the code, and every bit
/// outside the field's mask is unchanged.
pub proof fn lemma_alert_function_field_isolation(value: u16, code: u16)
    by (bit_vector)
    requires
        code <= 1,
    ensures
        (rmw_value(value, ALERT_FUNCTION_MASK, code << ALERT_FUNCTION_SHIFT)
            & ALERT_FUNCTION_MASK) >> ALERT_FUNCTION_SHIFT == code,
        rmw_value(value, ALERT_FUNCTION_MASK, code << ALERT_FUNCTION_SHIFT)
            & !ALERT_FUNCTION_MASK == value & !ALERT_FUNCTION_MASK,
{
}

/// Encoding a power mode code into a register value isolates the field
/// exactly: the field decodes back to the code, and every bit outside
/// the field's mask is unchanged.
pub proof fn lemma_power_mode_field_isolation(value: u16, code: u16)
    by (bit_vector)
    requires
        code <= 1,
    ensures
        (rmw_value(value, POWER_MODE_MASK, code << POWER_MODE_SHIFT) & POWER_MODE_MASK)
            >> POWER_MODE_SHIFT == code,
        rmw_value(value, POWER_MODE_MASK, code << POWER_MODE_SHIFT) & !POWER_MODE_MASK == value
            & !POWER_MODE_MASK,
{
}

/// Round trip through a register value for every conversion rate
/// setting: encoding the setting into any register value and decoding
/// the field again returns the same setting, and every bit outside the
/// field's mask is unchanged.
pub proof fn lemma_conversion_rate_register_round_trip(value: u16, rate: ConversionRate)
    ensures
        ({
            let w = rmw_value(value, CONVERSION_RATE_MASK, rate.code_spec()
                << CONVERSION_RATE_SHIFT);
            &&& ConversionRate::from_code_spec((w & CONVERSION_RATE_MASK)
                >> CONVERSION_RATE_SHIFT) == Some(rate)
            &&& w & !CONVERSION_RATE_MASK == value & !CONVERSION_RATE_MASK
        }),
{
    lemma_conversion_rate_field_isolation(value, rate.code_spec());
    crate::register_settings::lemma_conversion_rate_code_round_trip(rate);
}

/// Round trip through a register value for every consecutive fault
/// setting: encoding the setting into any register value and decoding
/// the field again returns the same setting, and every bit outside the
/// field's mask is unchanged.
pub proof fn lemma_consecutive_faults_register_round_trip(value: u16, faults: ConsecutiveFaults)
    ensures
        ({
            let w = rmw_value(value, CONSECUTIVE_FAULT_MASK, faults.code_spec()
                << CONSECUTIVE_FAULT_SHIFT);
            &&& ConsecutiveFaults::from_code_spec((w & CONSECUTIVE_FAULT_MASK)
                >> CONSECUTIVE_FAULT_SHIFT) == Some(faults)
            &&& w & !CONSECUTIVE_FAULT_MASK == value & !CONSECUTIVE_FAULT_MASK
        }),
{
    lemma_consecutive_faults_field_isolation(value, faults.code_spec());
    crate::register_settings::lemma_consecutive_faults_code_round_trip(faults);
}

/// Round trip through a register value for every alert polarity
/// setting: encoding the setting into any register value and decoding
/// the field again returns the same setting, and every bit outside the
/// field's mask is unchanged.
pub proof fn lemma_alert_polarity_register_round_trip(value: u16, polarity: AlertPolarity)
    ensures
        ({
            let w = rmw_value(value, ALERT_POLARITY_MASK, polarity.code_spec()
                << ALERT_POLARITY_SHIFT);
            &&& AlertPolarity::from_code_spec((w & ALERT_POLARITY_MASK) >> ALERT_POLARITY_SHIFT)
                == Some(polarity)
            &&& w & !ALERT_POLARITY_MASK == value & !ALERT_POLARITY_MASK
        }),
{
    lemma_alert_polarity_field_isolation(value, polarity.code_spec());
    crate::register_settings::lemma_alert_polarity_code_round_trip(polarity);
}

/// Round trip through a register value for every alert function
/// setting: encoding the setting into any register value and decoding
/// the field again returns the same setting, and every bit outside the
/// field's mask is unchanged.
pub proof fn lemma_alert_function_register_round_trip(value: u16, function: AlertFunction)
    ensures
        ({
            let w = rmw_value(value, ALERT_FUNCTION_MASK, function.code_spec()
                << ALERT_FUNCTION_SHIFT);
            &&& AlertFunction::from_code_spec((w & ALERT_FUNCTION_MASK) >> ALERT_FUNCTION_SHIFT)
                == Some(function)
            &&& w & !ALERT_FUNCTION_MASK == value & !ALERT_FUNCTION_MASK
        }),
{
    lemma_alert_function_field_isolation(value, function.code_spec());
    crate::register_settings::lemma_alert_function_code_round_trip(function);
}

/// Round trip through a register value for every power mode setting:
/// encoding the setting into any register value and decoding the field
/// again returns the same setting, and every bit outside the field's
/// mask is unchanged.
pub proof fn lemma_power_mode_register_round_trip(value: u16, mode: PowerMode)
    ensures
        ({
            let w = rmw_value(value, POWER_MODE_MASK, mode.code_spec() << POWER_MODE_SHIFT);
            &&& PowerMode::from_code_spec((w & POWER_MODE_MASK) >> POWER_MODE_SHIFT) == Some(mode)
            &&& w & !POWER_MODE_MASK == value & !POWER_MODE_MASK
        }),
{
    lemma_power_mode_field_isolation(value, mode.code_spec());
    crate::register_settings::lemma_power_mode_code_round_trip(mode);
}

/// The history grown by a configuration read-modify-write with the given
/// field update: some value was read out of the configuration register,
/// and the same value — with the bits under `mask` replaced by `bits` —
/// was written back, both at the same device address.
pub open spec fn sets_config_field(
    pre: Seq<BusOp>,
    post: Seq<BusOp>,
    address: u8,
    mask: u16,
    bits: u16,
) -> bool {
    exists|v: u16|
        post == pre.push(register_read_op(address, Register::CFGR, v)).push(
            register_write_op(address, Register::CFGR, rmw_value(v, mask, bits)),
        )
}

/// What a failed field update leaves behind: either nothing (the initial
/// read failed) or the one successful configuration read (the write back
/// failed). No write to the device ever follows a failure, and nothing
/// is retried.
pub open spec fn no_update_on_error(pre: Seq<BusOp>, post: Seq<BusOp>, address: u8) -> bool {
    ||| post == pre
    ||| exists|v: u16| post == pre.push(register_read_op(address, Register::CFGR, v))
}

/// A register read appends exactly one transaction to the history, and
/// that transaction is issued to the given device address: together with
/// the getters' contracts, a driver issues every read to its own bus
/// address, which `new` fixes to the default `0x48`.
pub proof fn lemma_read_targets_address(
    pre: Seq<BusOp>,
    post: Seq<BusOp>,
    address: u8,
    reg: Register,
    value: u16,
)
    requires
        post == pre.push(register_read_op(address, reg, value)),
    ensures
        post.len() == pre.len() + 1,
        forall|i: int| 0 <= i < pre.len() ==> post[i] == pre[i],
        forall|i: int| pre.len() <= i < post.len() ==> op_address(#[trigger] post[i]) == address,
{
    assert(post[pre.len() as int] == register_read_op(address, reg, value));
}

/// A configuration field update appends exactly two transactions to the
/// history, both issued to the given device address: together with the
/// setters' contracts, a driver issues every transaction of a field
/// update to its own bus address, which `new` fixes to the default
/// `0x48`.
pub proof fn lemma_field_update_targets_address(
    pre: Seq<BusOp>,
    post: Seq<BusOp>,
    address: u8,
    mask: u16,
    bits: u16,
)
    requires
        sets_config_field(pre, post, address, mask, bits),
    ensures
        post.len() == pre.len() + 2,
        forall|i: int| 0 <= i < pre.len() ==> post[i] == pre[i],
        forall|i: int| pre.len() <= i < post.len() ==> op_address(#[trigger] post[i]) == address,
{
    let v: u16 = choose|v: u16|
        post == pre.push(register_read_op(address, Register::CFGR, v)).push(
            register_write_op(address, Register::CFGR, rmw_value(v, mask, bits)),
        );
    assert(post[pre.len() as int] == register_read_op(address, Register::CFGR, v));
    assert(post[pre.len() as int + 1] == register_write_op(
        address,
        Register::CFGR,
        rmw_value(v, mask, bits),
    ));
}

/// The coarse temperature in whole degrees Celsius taken from the top
/// byte of the raw temperature word, reinterpreted as a signed 8-bit
/// value. Fractional degrees are discarded, so negative temperatures
/// floor toward negative infinity.
pub open spec fn temperature_msb(raw: u16) -> int {
    if raw >= 0x8000 {
        raw as int / 256 - 256
    } else {
        raw as int / 256
    }
}

/// The temperature in sixteenths of a degree Celsius: the top 12 bits of
/// the raw word as a two's-complement signed Q4 value.
pub open spec fn temperature_q4(raw: u16) -> int {
    if raw >= 0x8000 {
        raw as int / 16 - 0x1000
    } else {
        raw as int / 16
    }
}

/// Converts a raw temperature word to whole degrees Celsius by
/// reinterpreting its top byte as a signed 8-bit value.
pub fn convert_temperature_msb(raw: u16) -> (t: i8)
    ensures
        t as int == temperature_msb(raw),
{
    let msb: u8 = (raw >> 8) as u8;
    assert(raw >> 8 == raw / 256 && raw >> 8 <= 255 && (raw >= 0x8000 <==> raw >> 8 >= 128))
        by (bit_vector);
    if msb >= 128 {
        (msb as i16 - 256) as i8
    } else {
        msb as i8
    }
}

/// Converts a raw temperature word to sixteenths of a degree Celsius:
/// the top 12 bits are isolated and sign-extended. The Celsius value is
/// the result divided by 16 (one LSB is 0.0625 degrees).
pub fn convert_temperature_q4(raw: u16) -> (t: i16)
    ensures
        t as int == temperature_q4(raw),
        -0x800 <= t < 0x800,
{
    let field: u16 = raw >> 4;
    assert(raw >> 4 == raw / 16 && raw >> 4 <= 0xFFF && (raw >= 0x8000 <==> raw >> 4 >= 0x800))
        by (bit_vector);
    if field >= 0x800 {
        (field as i32 - 0x1000) as i16
    } else {
        field as i16
    }
}

/// A raw temperature word whose low byte is zero decodes, through the
/// top-byte view, back to the whole-degree value its top byte encodes.
pub proof fn lemma_msb_round_trip(t: int)
    requires
        -128 <= t < 128,
    ensures
        t >= 0 ==> temperature_msb((t * 256) as u16) == t,
        t < 0 ==> temperature_msb((t * 256 + 0x10000) as u16) == t,
{
    if t >= 0 {
        assert((t * 256) / 256 == t) by (nonlinear_arith);
    } else {
        assert((t * 256 + 0x10000) / 256 == t + 256) by (nonlinear_arith);
    }
}

/// A raw temperature word whose low byte is zero decodes, through the Q4
/// view, to exactly sixteen times the whole-degree value its top byte
/// encodes: the fixed-point conversion is exact on whole degrees.
pub proof fn lemma_q4_exact_on_whole_degrees(t: int)
    requires
        -128 <= t < 128,
    ensures
        t >= 0 ==> temperature_q4((t * 256) as u16) == 16 * t,
        t < 0 ==> temperature_q4((t * 256 + 0x10000) as u16) == 16 * t,
{
    if t >= 0 {
        assert((t * 256) / 16 == 16 * t) by (nonlinear_arith);
    } else {
        assert((t * 256 + 0x10000) / 16 == 16 * t + 0x1000) by (nonlinear_arith);
    }
}

/// TMP1075 driver.
///
/// Holds the device's bus address, the transport handle it exclusively
/// owns, and a ghost record of every transaction it has completed.
pub struct Tmp1075<B> {
    address: u8,
    bus: B,
    log: Ghost<Seq<BusOp>>,
}

impl<B: I2cBus> Tmp1075<B> {
    /// The bus address every transaction of this driver is issued to.
    pub closed spec fn addr_spec(&self) -> u8 {
        self.address
    }

    /// The driver's record of the bus transactions it has completed, in
    /// order of issue.
    pub closed spec fn history(&self) -> Seq<BusOp> {
        self.log@
    }

    /// The transport handle the driver owns.
    pub closed spec fn bus_spec(&self) -> B {
        self.bus
    }

    /// Create a new instance with the default bus address
    /// (`0b1001000` / `0x48`).
    pub fn new(bus: B) -> (d: Tmp1075<B>)
        ensures
            d.addr_spec() == DEFAULT_I2C_ADDRESS,
            d.history() == Seq::<BusOp>::empty(),
            d.bus_spec() == bus,
    {
        Tmp1075 { address: DEFAULT_I2C_ADDRESS, bus, log: Ghost(Seq::empty()) }
    }

    /// Create a new instance with the given bus address. The address is
    /// not validated against the legal 7-bit range; that is the caller's
    /// responsibility.
    pub fn with_address(address: u8, bus: B) -> (d: Tmp1075<B>)
        ensures
            d.addr_spec() == address,
            d.history() == Seq::<BusOp>::empty(),
            d.bus_spec() == bus,
    {
        Tmp1075 { address, bus, log: Ghost(Seq::empty()) }
    }

    /// Consumes the driver and releases the transport handle it owns.
    pub fn release(self) -> (b: B)
        ensures
            b == self.bus_spec(),
    {
        self.bus
    }

    /// Reads a 16-bit register: writes the register address byte, reads
    /// two bytes back, big-endian.
    fn read_reg(&mut self, reg: Register) -> (r: Result<u16, B::BusError>)
        ensures
            final(self).addr_spec() == old(self).addr_spec(),
            r matches Ok(v) ==> final(self).history() == old(self).history().push(
                register_read_op(old(self).addr_spec(), reg, v),
            ),
            r is Err ==> final(self).history() == old(self).history(),
    {
        let request: [u8; 1] = [reg.addr()];
        match self.bus.bus_write_read2(self.address, request.as_slice()) {
            Ok((hi, lo)) => {
                let v: u16 = ((hi as u16) << 8) | (lo as u16);
                // The logged transaction holds the two bytes the
                // transport handed back; they are the big-endian bytes
                // of the value returned.
                self.log = Ghost(self.log@.push(BusOp::WriteRead {
                    address: self.address,
                    written: seq![reg.addr_spec()],
                    returned: seq![hi, lo],
                }));
                proof {
                    lemma_be16_round_trip(v, hi, lo);
                    assert(seq![hi, lo] =~= seq![hi_byte(v), lo_byte(v)]);
                }
                Ok(v)
            },
            Err(e) => Err(e),
        }
    }

    /// Writes a 16-bit register: three bytes, the register address then
    /// the value, big-endian.
    fn write_reg(&mut self, reg: Register, data: u16) -> (r: Result<(), B::BusError>)
        ensures
            final(self).addr_spec() == old(self).addr_spec(),
            r is Ok ==> final(self).history() == old(self).history().push(
                register_write_op(old(self).addr_spec(), reg, data),
            ),
            r is Err ==> final(self).history() == old(self).history(),
    {
        let request: [u8; 3] = [reg.addr(), (data >> 8) as u8, (data & 0xFF) as u8];
        match self.bus.bus_write(self.address, request.as_slice()) {
            Ok(()) => {
                self.log = Ghost(self.log@.push(register_write_op(self.address, reg, data)));
                Ok(())
            },
            Err(e) => Err(e),
        }
    }

    /// Read-modify-write of a register: reads the current value, clears
    /// the bits under `mask`, ORs `bits` in, and writes the result back.
    /// Two bus transactions; not atomic across the two.
    fn modify_reg(&mut self, reg: Register, mask: u16, bits: u16) -> (r: Result<
        (),
        B::BusError,
    >)
        ensures
            final(self).addr_spec() == old(self).addr_spec(),
            r is Ok ==> exists|v: u16|
                final(self).history() == old(self).history().push(
                    register_read_op(old(self).addr_spec(), reg, v),
                ).push(register_write_op(old(self).addr_spec(), reg, rmw_value(v, mask, bits))),
            r is Err ==> final(self).history() == old(self).history() || exists|v: u16|
                final(self).history() == old(self).history().push(
                    register_read_op(old(self).addr_spec(), reg, v),
                ),
    {
        let v: u16 = match self.read_reg(reg) {
            Ok(v) => v,
            Err(e) => {
                return Err(e);
            },
        };
        match self.write_reg(reg, (v & !mask) | bits) {
            Ok(()) => {
                assert(self.history() == old(self).history().push(
                    register_read_op(old(self).addr_spec(), reg, v),
                ).push(register_write_op(old(self).addr_spec(), reg, rmw_value(v, mask, bits))));
                Ok(())
            },
            Err(e) => Err(e),
        }
    }

    /// Sets every bit of `mask` in the register, leaving the rest as
    /// read.
    fn reg_set_bits(&mut self, reg: Register, mask: u16) -> (r: Result<(), B::BusError>)
        ensures
            final(self).addr_spec() == old(self).addr_spec(),
            r is Ok ==> exists|v: u16|
                final(self).history() == old(self).history().push(
                    register_read_op(old(self).addr_spec(), reg, v),
                ).push(register_write_op(old(self).addr_spec(), reg, rmw_value(v, mask, mask))),
            r is Err ==> final(self).history() == old(self).history() || exists|v: u16|
                final(self).history() == old(self).history().push(
                    register_read_op(old(self).addr_spec(), reg, v),
                ),
    {
        self.modify_reg(reg, mask, mask)
    }

    /// Clears every bit of `mask` in the register, leaving the rest as
    /// read.
    fn reg_reset_bits(&mut self, reg: Register, mask: u16) -> (r: Result<(), B::BusError>)
        ensures
            final(self).addr_spec() == old(self).addr_spec(),
            r is Ok ==> exists|v: u16|
                final(self).history() == old(self).history().push(
                    register_read_op(old(self).addr_spec(), reg, v),
                ).push(register_write_op(old(self).addr_spec(), reg, rmw_value(v, mask, 0))),
            r is Err ==> final(self).history() == old(self).history() || exists|v: u16|
                final(self).history() == old(self).history().push(
                    register_read_op(old(self).addr_spec(), reg, v),
                ),
    {
        self.modify_reg(reg, mask, 0)
    }

    /// Get the temperature as raw value: one combined write-then-read of
    /// the temperature register, interpreted big-endian.
    pub fn get_temperature_raw(&mut self) -> (r: Result<u16, B::BusError>)
        ensures
            final(self).addr_spec() == old(self).addr_spec(),
            r matches Ok(v) ==> final(self).history() == old(self).history().push(
                register_read_op(old(self).addr_spec(), Register::TEMP, v),
            ),
            r is Err ==> final(self).history() == old(self).history(),
    {
        self.read_reg(Register::TEMP)
    }

    /// Get the temperature in sixteenths of a degree Celsius: the raw
    /// reading's top 12 bits, sign-extended. Divide by 16 for degrees
    /// Celsius; one LSB is 0.0625 degrees.
    pub fn get_temperature_q4(&mut self) -> (r: Result<i16, B::BusError>)
        ensures
            final(self).addr_spec() == old(self).addr_spec(),
            r matches Ok(t) ==> exists|v: u16|
                final(self).history() == old(self).history().push(
                    register_read_op(old(self).addr_spec(), Register::TEMP, v),
                ) && t as int == temperature_q4(v),
            r is Err ==> final(self).history() == old(self).history(),
    {
        match self.get_temperature_raw() {
            Ok(raw) => {
                let t: i16 = convert_temperature_q4(raw);
                assert(self.history() == old(self).history().push(
                    register_read_op(old(self).addr_spec(), Register::TEMP, raw),
                ) && t as int == temperature_q4(raw));
                Ok(t)
            },
            Err(e) => Err(e),
        }
    }

    /// Get the MSB of the temperature as i8: whole degrees Celsius,
    /// floored toward negative infinity for negative temperatures.
    pub fn get_temperature_msb(&mut self) -> (r: Result<i8, B::BusError>)
        ensures
            final(self).addr_spec() == old(self).addr_spec(),
            r matches Ok(t) ==> exists|v: u16|
                final(self).history() == old(self).history().push(
                    register_read_op(old(self).addr_spec(), Register::TEMP, v),
                ) && t as int == temperature_msb(v),
            r is Err ==> final(self).history() == old(self).history(),
    {
        match self.get_temperature_raw() {
            Ok(raw) => {
                let t: i8 = convert_temperature_msb(raw);
                assert(self.history() == old(self).history().push(
                    register_read_op(old(self).addr_spec(), Register::TEMP, raw),
                ) && t as int == temperature_msb(raw));
                Ok(t)
            },
            Err(e) => Err(e),
        }
    }

    /// Set the conversion rate.
    pub fn set_conversion_rate(&mut self, rate: ConversionRate) -> (r: Result<(), B::BusError>)
        ensures
            final(self).addr_spec() == old(self).addr_spec(),
            r is Ok ==> sets_config_field(
                old(self).history(),
                final(self).history(),
                old(self).addr_spec(),
                CONVERSION_RATE_MASK,
                rate.code_spec() << CONVERSION_RATE_SHIFT,
            ),
            r is Err ==> no_update_on_error(
                old(self).history(),
                final(self).history(),
                old(self).addr_spec(),
            ),
    {
        let code: u16 = rate.code();
        self.modify_reg(Register::CFGR, CONVERSION_RATE_MASK, code << CONVERSION_RATE_SHIFT)
    }

    /// Set the number of consecutive fault measurements to trigger the
    /// alert function.
    pub fn set_consecutive_faults(&mut self, faults: ConsecutiveFaults) -> (r: Result<
        (),
        B::BusError,
    >)
        ensures
            final(self).addr_spec() == old(self).addr_spec(),
            r is Ok ==> sets_config_field(
                old(self).history(),
                final(self).history(),
                old(self).addr_spec(),
                CONSECUTIVE_FAULT_MASK,
                faults.code_spec() << CONSECUTIVE_FAULT_SHIFT,
            ),
            r is Err ==> no_update_on_error(
                old(self).history(),
                final(self).history(),
                old(self).addr_spec(),
            ),
    {
        let code: u16 = faults.code();
        self.modify_reg(Register::CFGR, CONSECUTIVE_FAULT_MASK, code << CONSECUTIVE_FAULT_SHIFT)
    }

    /// Set the polarity of the alert pin.
    pub fn set_alert_polarity(&mut self, polarity: AlertPolarity) -> (r: Result<
        (),
        B::BusError,
    >)
        ensures
            final(self).addr_spec() == old(self).addr_spec(),
            r is Ok ==> sets_config_field(
                old(self).history(),
                final(self).history(),
                old(self).addr_spec(),
                ALERT_POLARITY_MASK,
                polarity.code_spec() << ALERT_POLARITY_SHIFT,
            ),
            r is Err ==> no_update_on_error(
                old(self).history(),
                final(self).history(),
                old(self).addr_spec(),
            ),
    {
        proof {
            assert(0u16 << ALERT_POLARITY_SHIFT == 0 && 1u16 << ALERT_POLARITY_SHIFT
                == ALERT_POLARITY_MASK) by (bit_vector);
        }
        match polarity {
            AlertPolarity::ActiveLow => self.reg_reset_bits(Register::CFGR, ALERT_POLARITY_MASK),
            AlertPolarity::ActiveHigh => self.reg_set_bits(Register::CFGR, ALERT_POLARITY_MASK),
        }
    }

    /// Set the function of the alert pin.
    pub fn set_alert_function(&mut self, function: AlertFunction) -> (r: Result<
        (),
        B::BusError,
    >)
        ensures
            final(self).addr_spec() == old(self).addr_spec(),
            r is Ok ==> sets_config_field(
                old(self).history(),
                final(self).history(),
                old(self).addr_spec(),
                ALERT_FUNCTION_MASK,
                function.code_spec() << ALERT_FUNCTION_SHIFT,
            ),
            r is Err ==> no_update_on_error(
                old(self).history(),
                final(self).history(),
                old(self).addr_spec(),
            ),
    {
        proof {
            assert(0u16 << ALERT_FUNCTION_SHIFT == 0 && 1u16 << ALERT_FUNCTION_SHIFT
                == ALERT_FUNCTION_MASK) by (bit_vector);
        }
        match function {
            AlertFunction::ComparatorMode => self.reg_reset_bits(
                Register::CFGR,
                ALERT_FUNCTION_MASK,
            ),
            AlertFunction::InterruptMode => self.reg_set_bits(Register::CFGR, ALERT_FUNCTION_MASK),
        }
    }

    /// Set the power mode.
    pub fn set_power_mode(&mut self, mode: PowerMode) -> (r: Result<(), B::BusError>)
        ensures
            final(self).addr_spec() == old(self).addr_spec(),
            r is Ok ==> sets_config_field(
                old(self).history(),
                final(self).history(),
                old(self).addr_spec(),
                POWER_MODE_MASK,
                mode.code_spec() << POWER_MODE_SHIFT,
            ),
            r is Err ==> no_update_on_error(
                old(self).history(),
                final(self).history(),
                old(self).addr_spec(),
            ),
    {
        proof {
            assert(0u16 << POWER_MODE_SHIFT == 0 && 1u16 << POWER_MODE_SHIFT == POWER_MODE_MASK)
                by (bit_vector);
        }
        match mode {
            PowerMode::ContinuousConversion => self.reg_reset_bits(
                Register::CFGR,
                POWER_MODE_MASK,
            ),
            PowerMode::Shutdown => self.reg_set_bits(Register::CFGR, POWER_MODE_MASK),
        }
    }

    /// Get the device ID.
    pub fn get_device_id(&mut self) -> (r: Result<u16, B::BusError>)
        ensures
            final(self).addr_spec() == old(self).addr_spec(),
            r matches Ok(v) ==> final(self).history() == old(self).history().push(
                register_read_op(old(self).addr_spec(), Register::DIEID, v),
            ),
            r is Err ==> final(self).history() == old(self).history(),
    {
        self.read_reg(Register::DIEID)
    }
}

} // verus!
