//! The charger controller: quantizes physical configuration values into
//! register codes and drives the device's register access protocols — the
//! write-protect bracketing for charge-sensitive registers, the
//! read-modify-write for shared registers, and the atomic multi-byte status
//! read that clears latched interrupts.

use vstd::prelude::*;
use crate::bus::Bus;
use crate::bus::Transaction;
use crate::bus::failed_read_transaction;
use crate::bus::read_transaction;
use crate::bus::spec_fault;
use crate::bus::write_transaction;
use crate::details::Details;
use crate::details::spec_details_from_bytes;
use crate::interrupts::ChargerInterrupts;
use crate::interrupts::spec_interrupts_from_byte;
use crate::interrupts::spec_interrupts_to_byte;
use crate::mode::Mode;
use crate::mode::spec_mode_code;
use crate::regs::CHARGER_CONFIG_0;
use crate::regs::CHARGER_CONFIG_2;
use crate::regs::CHARGER_CONFIG_5;
use crate::regs::CHARGER_CONFIG_6;
use crate::regs::CHARGER_CONFIG_9;
use crate::regs::CHARGER_DETAILS_0;
use crate::regs::CHARGER_INTERRUPT;
use crate::regs::CHARGER_INTERRUPT_MASK;
use crate::regs::DEVICE_ADDR;
use crate::regs::Reg;
use crate::regs::SHIP_MODE_CONTROL;
use crate::regs::SHIP_MODE_ENTER;
use crate::regs::WRITE_PROTECT_LOCK;
use crate::regs::WRITE_PROTECT_UNLOCK;

verus! {

/// The quantized Vsys current-limit code: `milliamps / 500`, less the fixed
/// offset of 5, clamped to the 4-bit field.
pub open spec fn spec_sys_ilim_code(milliamps: u16) -> u8 {
    let q = (milliamps / 500) as int;
    if q <= 5 {
        0
    } else if q - 5 >= 0xf {
        0xf
    } else {
        (q - 5) as u8
    }
}

/// The byte written for a Vsys current-limit request: the quantized code
/// with the recycle bit 0x10 set exactly when recycling is enabled.
pub open spec fn spec_sys_ilim_byte(milliamps: u16, recycle_en: bool) -> u8 {
    (if recycle_en { 0x10u8 } else { 0u8 }) | spec_sys_ilim_code(milliamps)
}

/// The quantized CHGIN current-limit code: `milliamps / 50`, less the fixed
/// offset of 1, clamped to the 6-bit field.
pub open spec fn spec_chgin_ilim_code(milliamps: u16) -> u8 {
    let q = (milliamps / 50) as int;
    if q <= 1 {
        0
    } else if q - 1 >= 0x3f {
        0x3f
    } else {
        (q - 1) as u8
    }
}

/// The quantized fast-charge current code: `milliamps / 50`, clamped to the
/// 7-bit field.
pub open spec fn spec_fast_charge_code(milliamps: u16) -> u8 {
    let q = (milliamps / 50) as int;
    if q >= 0x7f {
        0x7f
    } else {
        q as u8
    }
}

/// The transactions of one protected write of `val` to register `reg`,
/// bracketed by the unlock and lock writes to the write-protect register,
/// and the result `r` they produce.
///
/// If the unlock write fails, nothing else is attempted and its error is
/// returned. Otherwise the target write and then the lock write are both
/// attempted unconditionally, the operation succeeds exactly when both do,
/// and the first failure is the error surfaced: the target write's if it
/// failed, else the lock write's.
pub open spec fn protected_write_history<E>(
    h0: Seq<Transaction<E>>,
    h1: Seq<Transaction<E>>,
    reg: u8,
    val: u8,
    r: Result<(), E>,
) -> bool {
    match r {
        Ok(_) => h1 == h0 + seq![
            write_transaction(DEVICE_ADDR, CHARGER_CONFIG_6, WRITE_PROTECT_UNLOCK, None),
            write_transaction(DEVICE_ADDR, reg, val, None),
            write_transaction(DEVICE_ADDR, CHARGER_CONFIG_6, WRITE_PROTECT_LOCK, None),
        ],
        Err(e) => {
            ||| h1 == h0.push(
                write_transaction(DEVICE_ADDR, CHARGER_CONFIG_6, WRITE_PROTECT_UNLOCK, Some(e)),
            )
            ||| {
                let n = h0.len() as int;
                &&& h1.len() == h0.len() + 3
                &&& h1.subrange(0, n) == h0
                &&& h1[n] == write_transaction(
                    DEVICE_ADDR,
                    CHARGER_CONFIG_6,
                    WRITE_PROTECT_UNLOCK,
                    Option::<E>::None,
                )
                &&& h1[n + 1] == write_transaction(DEVICE_ADDR, reg, val, h1[n + 1].fault)
                &&& h1[n + 2] == write_transaction(
                    DEVICE_ADDR,
                    CHARGER_CONFIG_6,
                    WRITE_PROTECT_LOCK,
                    h1[n + 2].fault,
                )
                &&& !(h1[n + 1].ok() && h1[n + 2].ok())
                &&& (match h1[n + 1].fault {
                    Some(target_error) => e == target_error,
                    None => h1[n + 2].fault == Some(e),
                })
            }
        },
    }
}

/// The transactions of one read-modify-write of register `reg` — a one-byte
/// read, then a write of the read byte masked by `mask` with `bits` or-ed
/// in — and the result `r` they produce. If the read fails the write is not
/// attempted; the first failure's error is the one returned.
pub open spec fn read_modify_write_history<E>(
    h0: Seq<Transaction<E>>,
    h1: Seq<Transaction<E>>,
    reg: u8,
    mask: u8,
    bits: u8,
    r: Result<(), E>,
) -> bool {
    match r {
        Ok(_) => {
            let n = h0.len() as int;
            &&& h1.len() == h0.len() + 2
            &&& h1.subrange(0, n) == h0
            &&& h1[n].read.len() == 1
            &&& h1[n] == read_transaction::<E>(DEVICE_ADDR, reg, h1[n].read)
            &&& h1[n + 1] == write_transaction(
                DEVICE_ADDR,
                reg,
                (h1[n].read[0] & mask) | bits,
                Option::<E>::None,
            )
        },
        Err(e) => {
            ||| h1 == h0.push(failed_read_transaction(DEVICE_ADDR, reg, e))
            ||| {
                let n = h0.len() as int;
                &&& h1.len() == h0.len() + 2
                &&& h1.subrange(0, n) == h0
                &&& h1[n].read.len() == 1
                &&& h1[n] == read_transaction::<E>(DEVICE_ADDR, reg, h1[n].read)
                &&& h1[n + 1] == write_transaction(
                    DEVICE_ADDR,
                    reg,
                    (h1[n].read[0] & mask) | bits,
                    Some(e),
                )
            }
        },
    }
}

/// Law: once the unlock write has succeeded, a protected write always issues
/// both the target write and the closing lock write, whatever their
/// outcomes; it succeeds exactly when both do, and the first failure is the
/// error returned — the target write's error if the target write failed,
/// even when the lock write failed too, else the lock write's.
pub proof fn lemma_protected_write_always_locks<E>(
    h0: Seq<Transaction<E>>,
    h1: Seq<Transaction<E>>,
    reg: u8,
    val: u8,
    r: Result<(), E>,
)
    requires
        protected_write_history(h0, h1, reg, val, r),
        h0.len() < h1.len(),
        h1[h0.len() as int].ok(),
    ensures
        h1.len() == h0.len() + 3,
        h1[h0.len() as int + 1] == write_transaction(
            DEVICE_ADDR,
            reg,
            val,
            h1[h0.len() as int + 1].fault,
        ),
        h1.last() == write_transaction(
            DEVICE_ADDR,
            CHARGER_CONFIG_6,
            WRITE_PROTECT_LOCK,
            h1.last().fault,
        ),
        r is Ok <==> (h1[h0.len() as int + 1].ok() && h1.last().ok()),
        (match h1[h0.len() as int + 1].fault {
            Some(target_error) => r == Err::<(), E>(target_error),
            None => (match h1.last().fault {
                Some(lock_error) => r == Err::<(), E>(lock_error),
                None => r is Ok,
            }),
        }),
{
    let n = h0.len() as int;
    match r {
        Ok(_) => {
            assert(h1[n + 1] == write_transaction(DEVICE_ADDR, reg, val, Option::<E>::None));
            assert(h1[n + 2] == write_transaction(
                DEVICE_ADDR,
                CHARGER_CONFIG_6,
                WRITE_PROTECT_LOCK,
                Option::<E>::None,
            ));
        },
        Err(e) => {
            if h1 == h0.push(
                write_transaction(DEVICE_ADDR, CHARGER_CONFIG_6, WRITE_PROTECT_UNLOCK, Some(e)),
            ) {
                assert(!h1[n].ok());
            }
        },
    }
}

/// Law: the Vsys current-limit code always fits the 4-bit field, saturates
/// at 15 for requests of 10000 mA and above, and the recycle bit of the
/// written byte is set exactly when recycling is enabled.
pub proof fn lemma_sys_ilim_quantization(milliamps: u16, recycle_en: bool)
    ensures
        spec_sys_ilim_code(milliamps) <= 0xf,
        milliamps >= 10000 ==> spec_sys_ilim_code(milliamps) == 0xf,
        (spec_sys_ilim_byte(milliamps, recycle_en) & 0x10 != 0) == recycle_en,
{
    let code = spec_sys_ilim_code(milliamps);
    if milliamps >= 10000 {
        assert(milliamps / 500 >= 20) by (nonlinear_arith)
            requires
                milliamps >= 10000,
        ;
    }
    if recycle_en {
        assert((0x10u8 | code) & 0x10 != 0) by (bit_vector);
    } else {
        assert((0x00u8 | code) & 0x10 == 0) by (bit_vector)
            requires
                code <= 0xf,
        ;
    }
}

/// Law: whatever byte the CHGIN current-limit register held, the byte
/// written back by the read-modify-write leaves its top two bits unchanged.
pub proof fn lemma_chgin_ilim_preserves_top_bits(prev: u8, milliamps: u16)
    ensures
        spec_chgin_ilim_code(milliamps) <= 0x3f,
        ((prev & 0xc0) | spec_chgin_ilim_code(milliamps)) & 0xc0 == prev & 0xc0,
{
    let code = spec_chgin_ilim_code(milliamps);
    assert(((prev & 0xc0) | code) & 0xc0 == prev & 0xc0) by (bit_vector)
        requires
            code <= 0x3f,
    ;
}

/// Law: the fast-charge current code always fits the 7-bit field and
/// saturates at 127 for requests of 6400 mA and above.
pub proof fn lemma_fast_charge_quantization(milliamps: u16)
    ensures
        spec_fast_charge_code(milliamps) <= 0x7f,
        milliamps >= 6400 ==> spec_fast_charge_code(milliamps) == 0x7f,
{
    if milliamps >= 6400 {
        assert(milliamps / 50 >= 128) by (nonlinear_arith)
            requires
                milliamps >= 6400,
        ;
    }
}

/// A MAX77975/MAX77976 battery charger, driving one device instance over
/// one bus.
pub struct Charger<D> {
    /// The bus transport the controller owns for its whole lifetime.
    pub bus: D,
}

impl<D: Bus> Charger<D> {
    /// Create a new `Charger` over the given bus transport.
    pub fn new(bus: D) -> (r: Self)
        ensures
            r.bus == bus,
    {
        Charger { bus }
    }

    /// Set the current limit for Vsys out, in milliamps.
    ///
    /// If the current limit is exceeded, Vsys is shut off. With `recycle_en`
    /// false it remains off until a valid charger is present; otherwise the
    /// device retries after 150 ms. The target register is write-protected,
    /// so the write is bracketed by the unlock and lock writes.
    pub fn set_sys_ilim(&mut self, milliamps: u16, recycle_en: bool) -> (r: Result<
        (),
        D::BusError,
    >)
        ensures
            protected_write_history(
                old(self).bus.history(),
                final(self).bus.history(),
                CHARGER_CONFIG_5,
                spec_sys_ilim_byte(milliamps, recycle_en),
                r,
            ),
    {
        let q: u16 = milliamps / 500;
        let code: u16 = if q <= 5 {
            0
        } else if q - 5 >= 0xf {
            0xf
        } else {
            q - 5
        };
        let recycle: u8 = if recycle_en {
            0x10
        } else {
            0x00
        };
        self.write_protected_reg(Reg::new(CHARGER_CONFIG_5), recycle | (code as u8))
    }

    /// Set the current limit for CHGIN, in milliamps.
    ///
    /// The register is shared with other configuration bits, so the write is
    /// a read-modify-write that preserves the top two bits of the register.
    pub fn set_chgin_ilim(&mut self, milliamps: u16) -> (r: Result<(), D::BusError>)
        ensures
            read_modify_write_history(
                old(self).bus.history(),
                final(self).bus.history(),
                CHARGER_CONFIG_9,
                0xc0,
                spec_chgin_ilim_code(milliamps),
                r,
            ),
    {
        let q: u16 = milliamps / 50;
        let code: u16 = if q <= 1 {
            0
        } else if q - 1 >= 0x3f {
            0x3f
        } else {
            q - 1
        };
        self.modify_reg(Reg::new(CHARGER_CONFIG_9), 0xc0, code as u8)
    }

    /// Set the current used during the constant-current charging phase, in
    /// milliamps. The target register is write-protected, so the write is
    /// bracketed by the unlock and lock writes.
    pub fn set_fast_charge_current(&mut self, milliamps: u16) -> (r: Result<(), D::BusError>)
        ensures
            protected_write_history(
                old(self).bus.history(),
                final(self).bus.history(),
                CHARGER_CONFIG_2,
                spec_fast_charge_code(milliamps),
                r,
            ),
    {
        let q: u16 = milliamps / 50;
        let code: u16 = if q >= 0x7f {
            0x7f
        } else {
            q
        };
        self.write_protected_reg(Reg::new(CHARGER_CONFIG_2), code as u8)
    }

    /// Set the charger [`Mode`] by writing its 4-bit code, zero-extended to
    /// a byte, to the mode-control register. Unprotected.
    pub fn set_mode(&mut self, mode: Mode) -> (r: Result<(), D::BusError>)
        ensures
            final(self).bus.history() == old(self).bus.history().push(
                write_transaction(DEVICE_ADDR, CHARGER_CONFIG_0, spec_mode_code(mode), spec_fault(r)),
            ),
    {
        let code = mode.code();
        self.write_reg(Reg::new(CHARGER_CONFIG_0), code)
    }

    /// Enter ship mode: all power is shut down until a valid charger is
    /// present. The device-level precondition that no valid input source is
    /// present is the caller's responsibility and is not checked here.
    pub fn enter_ship_mode(&mut self) -> (r: Result<(), D::BusError>)
        ensures
            final(self).bus.history() == old(self).bus.history().push(
                write_transaction(DEVICE_ADDR, SHIP_MODE_CONTROL, SHIP_MODE_ENTER, spec_fault(r)),
            ),
    {
        self.write_reg(Reg::new(SHIP_MODE_CONTROL), SHIP_MODE_ENTER)
    }

    /// Enable charger interrupts: fields set to `true` in `irqs` have their
    /// interrupts enabled. The hardware polarity is active-low-enable, so
    /// the bitwise complement of the encoded flag byte is written.
    pub fn set_charger_irq_mask(&mut self, irqs: ChargerInterrupts) -> (r: Result<
        (),
        D::BusError,
    >)
        ensures
            final(self).bus.history() == old(self).bus.history().push(
                write_transaction(
                    DEVICE_ADDR,
                    CHARGER_INTERRUPT_MASK,
                    !spec_interrupts_to_byte(irqs),
                    spec_fault(r),
                ),
            ),
    {
        let encoded = irqs.into_bytes();
        self.write_reg(Reg::new(CHARGER_INTERRUPT_MASK), !encoded[0])
    }

    /// Read and clear the current charger interrupt flags. The read itself
    /// clears the latched interrupts on the device.
    pub fn charger_irq_flags(&mut self) -> (r: Result<ChargerInterrupts, D::BusError>)
        ensures
            (match r {
                Ok(flags) => {
                    let h0 = old(self).bus.history();
                    let h1 = final(self).bus.history();
                    &&& h1 == h0.push(h1.last())
                    &&& h1.last() == read_transaction::<D::BusError>(DEVICE_ADDR, CHARGER_INTERRUPT, h1.last().read)
                    &&& h1.last().read.len() == 1
                    &&& flags == spec_interrupts_from_byte(h1.last().read[0])
                },
                Err(e) => final(self).bus.history() == old(self).bus.history().push(
                    failed_read_transaction(DEVICE_ADDR, CHARGER_INTERRUPT, e),
                ),
            }),
    {
        match self.read_reg(Reg::new(CHARGER_INTERRUPT)) {
            Ok(b) => Ok(ChargerInterrupts::from_bytes([b])),
            Err(e) => Err(e),
        }
    }

    /// Clear the charger interrupt flags and return the current status
    /// bits.
    ///
    /// The interrupt, mask, and status registers are read in one three-byte
    /// transaction so that the clear-on-read of the interrupt register and
    /// the status snapshot are atomic; only the third byte — the status
    /// register — is decoded.
    pub fn charger_status(&mut self) -> (r: Result<ChargerInterrupts, D::BusError>)
        ensures
            (match r {
                Ok(flags) => {
                    let h0 = old(self).bus.history();
                    let h1 = final(self).bus.history();
                    &&& h1 == h0.push(h1.last())
                    &&& h1.last() == read_transaction::<D::BusError>(DEVICE_ADDR, CHARGER_INTERRUPT, h1.last().read)
                    &&& h1.last().read.len() == 3
                    &&& flags == spec_interrupts_from_byte(h1.last().read[2])
                },
                Err(e) => final(self).bus.history() == old(self).bus.history().push(
                    failed_read_transaction(DEVICE_ADDR, CHARGER_INTERRUPT, e),
                ),
            }),
    {
        match self.read_buf(Reg::new(CHARGER_INTERRUPT), 3) {
            Ok(buf) => Ok(ChargerInterrupts::from_bytes([buf[2]])),
            Err(e) => Err(e),
        }
    }

    /// Get the detailed status of the charger, read from the three
    /// detailed-status registers in one transaction.
    pub fn charger_details(&mut self) -> (r: Result<Details, D::BusError>)
        ensures
            (match r {
                Ok(details) => {
                    let h0 = old(self).bus.history();
                    let h1 = final(self).bus.history();
                    &&& h1 == h0.push(h1.last())
                    &&& h1.last() == read_transaction::<D::BusError>(DEVICE_ADDR, CHARGER_DETAILS_0, h1.last().read)
                    &&& h1.last().read.len() == 3
                    &&& details == spec_details_from_bytes(
                        h1.last().read[0],
                        h1.last().read[1],
                        h1.last().read[2],
                    )
                },
                Err(e) => final(self).bus.history() == old(self).bus.history().push(
                    failed_read_transaction(DEVICE_ADDR, CHARGER_DETAILS_0, e),
                ),
            }),
    {
        match self.read_buf(Reg::new(CHARGER_DETAILS_0), 3) {
            Ok(buf) => Ok(Details::from_bytes([buf[0], buf[1], buf[2]])),
            Err(e) => Err(e),
        }
    }

    /// Read one byte from register `reg`.
    fn read_reg(&mut self, reg: Reg) -> (r: Result<u8, D::BusError>)
        ensures
            (match r {
                Ok(v) => final(self).bus.history() == old(self).bus.history().push(
                    read_transaction::<D::BusError>(DEVICE_ADDR, reg.0, seq![v]),
                ),
                Err(e) => final(self).bus.history() == old(self).bus.history().push(
                    failed_read_transaction(DEVICE_ADDR, reg.0, e),
                ),
            }),
    {
        let cmd = vec![reg.to_u8()];
        proof {
            assert(cmd@ =~= seq![reg.0]);
        }
        match self.bus.write_read(DEVICE_ADDR, cmd, 1) {
            Ok(data) => {
                let v = data[0];
                proof {
                    assert(data@ =~= seq![v]);
                }
                Ok(v)
            },
            Err(e) => Err(e),
        }
    }

    /// Read `len` sequential bytes starting at register `reg`, using the
    /// device's auto-increment addressing, in one transaction.
    fn read_buf(&mut self, reg: Reg, len: usize) -> (r: Result<Vec<u8>, D::BusError>)
        ensures
            (match r {
                Ok(data) => data@.len() == len && final(self).bus.history() == old(
                    self,
                ).bus.history().push(read_transaction::<D::BusError>(DEVICE_ADDR, reg.0, data@)),
                Err(e) => final(self).bus.history() == old(self).bus.history().push(
                    failed_read_transaction(DEVICE_ADDR, reg.0, e),
                ),
            }),
    {
        let cmd = vec![reg.to_u8()];
        proof {
            assert(cmd@ =~= seq![reg.0]);
        }
        self.bus.write_read(DEVICE_ADDR, cmd, len)
    }

    /// Write one byte to register `reg`.
    fn write_reg(&mut self, reg: Reg, val: u8) -> (r: Result<(), D::BusError>)
        ensures
            final(self).bus.history() == old(self).bus.history().push(
                write_transaction(DEVICE_ADDR, reg.0, val, spec_fault(r)),
            ),
    {
        let buf = vec![reg.to_u8(), val];
        proof {
            assert(buf@ =~= seq![reg.0, val]);
        }
        self.bus.write(DEVICE_ADDR, buf)
    }

    /// Write `val` to the write-protected register `reg`: unlock the
    /// protected registers, write the target value, then lock again.
    ///
    /// The lock write is attempted whenever the unlock write succeeded, even
    /// if the target write failed, so the device is not left unlocked; the
    /// first error encountered is the one surfaced.
    fn write_protected_reg(&mut self, reg: Reg, val: u8) -> (r: Result<(), D::BusError>)
        ensures
            protected_write_history(
                old(self).bus.history(),
                final(self).bus.history(),
                reg.0,
                val,
                r,
            ),
    {
        let ghost h0 = self.bus.history();
        match self.write_reg(Reg::new(CHARGER_CONFIG_6), WRITE_PROTECT_UNLOCK) {
            Err(e) => Err(e),
            Ok(()) => {
                let target = self.write_reg(reg, val);
                let lock = self.write_reg(Reg::new(CHARGER_CONFIG_6), WRITE_PROTECT_LOCK);
                proof {
                    let h1 = self.bus.history();
                    assert(h1.subrange(0, h0.len() as int) =~= h0);
                    if target is Ok && lock is Ok {
                        assert(h1 =~= h0 + seq![
                            write_transaction(
                                DEVICE_ADDR,
                                CHARGER_CONFIG_6,
                                WRITE_PROTECT_UNLOCK,
                                Option::<D::BusError>::None,
                            ),
                            write_transaction(DEVICE_ADDR, reg.0, val, Option::<D::BusError>::None),
                            write_transaction(
                                DEVICE_ADDR,
                                CHARGER_CONFIG_6,
                                WRITE_PROTECT_LOCK,
                                Option::<D::BusError>::None,
                            ),
                        ]);
                    }
                }
                match target {
                    Err(e) => Err(e),
                    Ok(()) => lock,
                }
            },
        }
    }

    /// Read register `reg`, keep the bits selected by `mask`, or `bits` in,
    /// and write the result back. Not atomic against another bus master.
    fn modify_reg(&mut self, reg: Reg, mask: u8, bits: u8) -> (r: Result<(), D::BusError>)
        ensures
            read_modify_write_history(
                old(self).bus.history(),
                final(self).bus.history(),
                reg.0,
                mask,
                bits,
                r,
            ),
    {
        let ghost h0 = self.bus.history();
        match self.read_reg(reg) {
            Err(e) => Err(e),
            Ok(v) => {
                let r = self.write_reg(reg, (v & mask) | bits);
                proof {
                    let h1 = self.bus.history();
                    assert(h1.subrange(0, h0.len() as int) =~= h0);
                }
                r
            },
        }
    }
}

} // verus!
