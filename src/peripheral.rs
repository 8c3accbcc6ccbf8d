use vstd::prelude::*;
use vstd::string::StringSliceAdditionalSpecFns;

use crate::baud::{
    calculate_baudrate_dividers, dividers_computable, effective_baudrate, spec_dividers,
    spec_effective_baudrate,
};
use crate::config::{config_9600_8_n_1, DataBits, Error, StopBits, UartConfig, UartPinout};
use crate::format::{format_bits, set_format};
use crate::reader::{
    self, read_byte_outcome, read_full_can_finish, read_full_outcome, read_raw_outcome, NbError,
    ReadError, ReadErrorType,
};
use crate::registers::{
    reset_regs, RxPath, TxPath, UartDevice, UartRegs, CR_CTSEN, CR_RTSEN, CR_RXE, CR_TXE,
    CR_UARTEN, DMACR_RXDMAE, DMACR_TXDMAE, LCR_H_FEN,
};
use crate::writer::{self, write_full_outcome, write_raw_outcome, WouldBlock};
use crate::registers::FIFO_DEPTH;

verus! {

/// A lifecycle state of the peripheral.
pub trait State {}

/// The peripheral is configured off: no transfer is possible.
#[derive(Clone, Copy, Debug, PartialEq, Eq, Structural)]
pub struct Disabled;

/// The peripheral is running: bytes can be sent and received.
#[derive(Clone, Copy, Debug, PartialEq, Eq, Structural)]
pub struct Enabled;

impl State for Disabled {}

impl State for Enabled {}

/// The control register bits that bring the peripheral up with the signals
/// that the pins carry.
pub open spec fn cr_enable_bits(pins: UartPinout) -> u32 {
    (CR_UARTEN + (if pins.tx {
        CR_TXE
    } else {
        0
    }) + (if pins.rx {
        CR_RXE
    } else {
        0
    }) + (if pins.cts {
        CR_CTSEN
    } else {
        0
    }) + (if pins.rts {
        CR_RTSEN
    } else {
        0
    })) as u32
}

/// The registers after the dividers were loaded and latched.
pub open spec fn spec_configure_regs(r: UartRegs, baudrate: u32, frequency: u32) -> UartRegs {
    let (i, f) = spec_dividers(baudrate, frequency);
    UartRegs {
        ibrd: i as u32,
        fbrd: (f % 64) as u32,
        latched_ibrd: i as u32,
        latched_fbrd: (f % 64) as u32,
        ..r
    }
}

/// The registers after the peripheral was enabled with a configuration.
pub open spec fn spec_enable_regs(
    r: UartRegs,
    config: UartConfig,
    frequency: u32,
    pins: UartPinout,
) -> UartRegs {
    let c = spec_configure_regs(r, config.baudrate, frequency);
    UartRegs {
        lcr_h: (LCR_H_FEN + format_bits(config.data_bits, config.stop_bits, config.parity)) as u32,
        cr: cr_enable_bits(pins),
        dmacr: (DMACR_TXDMAE + DMACR_RXDMAE) as u32,
        ..c
    }
}

/// The registers after the peripheral was disabled.
pub open spec fn spec_disable_regs(r: UartRegs) -> UartRegs {
    UartRegs { cr: 0, ..r }
}

/// Loads the baud-rate dividers and latches them, returning the rate obtained.
pub fn configure_baudrate(regs: &mut UartRegs, wanted_baudrate: u32, frequency: u32) -> (r: Result<
    u32,
    Error,
>)
    ensures
        dividers_computable(wanted_baudrate, frequency) ==> r == Ok::<u32, Error>(
            spec_effective_baudrate(
                frequency,
                spec_dividers(wanted_baudrate, frequency).0,
                spec_dividers(wanted_baudrate, frequency).1,
            ) as u32,
        ) && *final(regs) == spec_configure_regs(*old(regs), wanted_baudrate, frequency),
        !dividers_computable(wanted_baudrate, frequency) ==> r == Err::<u32, Error>(
            Error::BadArgument,
        ) && *final(regs) == *old(regs),
{
    let (baud_div_int, baud_div_frac) = match calculate_baudrate_dividers(
        wanted_baudrate,
        frequency,
    ) {
        Ok(d) => d,
        Err(e) => return Err(e),
    };
    // First the integer part of the divider, then the fractional part.
    regs.write_ibrd(baud_div_int);
    regs.write_fbrd(baud_div_frac as u8);
    // The dividers only take effect on a write of the line control register:
    // write back the value it already holds.
    let lcr_h = regs.lcr_h;
    regs.write_lcr_h(lcr_h);
    Ok(effective_baudrate(frequency, baud_div_int, baud_div_frac))
}

/// A UART peripheral in lifecycle state `S`, owning its register block and pins.
pub struct UartPeripheral<S: State> {
    device: UartDevice,
    _state: S,
    pins: UartPinout,
    config: UartConfig,
    effective_baudrate: u32,
}

impl<S: State> UartPeripheral<S> {
    /// The register block the peripheral owns.
    pub closed spec fn spec_device(&self) -> UartDevice {
        self.device
    }

    /// The pins the peripheral owns.
    pub closed spec fn spec_pins(&self) -> UartPinout {
        self.pins
    }

    /// The configuration the peripheral was enabled with.
    pub closed spec fn spec_config(&self) -> UartConfig {
        self.config
    }

    /// The baud rate actually programmed.
    pub closed spec fn spec_effective_baudrate(&self) -> u32 {
        self.effective_baudrate
    }

    pub open spec fn wf(&self) -> bool {
        self.spec_device().wf()
    }

    fn transition<To: State>(self, state: To) -> (r: UartPeripheral<To>)
        ensures
            r.device == self.device,
            r.pins == self.pins,
            r.config == self.config,
            r.effective_baudrate == self.effective_baudrate,
    {
        UartPeripheral {
            device: self.device,
            pins: self.pins,
            config: self.config,
            effective_baudrate: self.effective_baudrate,
            _state: state,
        }
    }

    /// Releases the register block and the pins.
    pub fn free(self) -> (r: (UartDevice, UartPinout))
        ensures
            r.0 == self.spec_device(),
            r.1 == self.spec_pins(),
    {
        (self.device, self.pins)
    }

    /// The configuration the peripheral was last enabled with.
    pub fn config(&self) -> (r: UartConfig)
        ensures
            r == self.spec_config(),
    {
        self.config
    }

    /// The baud rate actually programmed into the dividers.
    pub fn effective_baudrate(&self) -> (r: u32)
        ensures
            r == self.spec_effective_baudrate(),
    {
        self.effective_baudrate
    }

    /// The pins the peripheral owns.
    pub fn pins(&self) -> (r: UartPinout)
        ensures
            r == self.spec_pins(),
    {
        self.pins
    }

    /// The register block, for inspection.
    pub fn device(&self) -> (r: &UartDevice)
        ensures
            *r == self.spec_device(),
    {
        &self.device
    }
}

impl UartPeripheral<Disabled> {
    /// Takes the peripheral through a reset cycle and wraps it, disabled.
    /// The configuration is a placeholder and the effective rate zero until
    /// the peripheral is enabled.
    pub fn new(device: UartDevice, pins: UartPinout) -> (r: UartPeripheral<Disabled>)
        ensures
            r.wf(),
            r.spec_device().regs == reset_regs(),
            !r.spec_device().in_reset,
            r.spec_device().tx.fifo@.len() == 0,
            r.spec_device().tx.shifting is None,
            r.spec_device().rx.fifo@.len() == 0,
            r.spec_device().tx.line@ == device.tx.line@,
            r.spec_device().rx.line@ == device.rx.line@,
            r.spec_pins() == pins,
            r.spec_config().baudrate == 9600,
            r.spec_config().data_bits == DataBits::Eight,
            r.spec_config().stop_bits == StopBits::One,
            r.spec_config().parity is None,
            r.spec_effective_baudrate() == 0,
    {
        let mut device = device;
        device.reset_bring_down();
        device.reset_bring_up();
        UartPeripheral {
            device,
            _state: Disabled,
            pins,
            config: config_9600_8_n_1(),
            effective_baudrate: 0,
        }
    }

    /// Programs the dividers, the frame format, the enable bits for the wired
    /// signals and the DMA requests, and moves to the enabled state.
    ///
    /// When the rate cannot be derived from `frequency`, nothing is written and
    /// the peripheral comes back, still disabled, with `BadArgument`.
    pub fn enable(self, config: UartConfig, frequency: u32) -> (r: Result<
        UartPeripheral<Enabled>,
        (Error, UartPeripheral<Disabled>),
    >)
        requires
            self.wf(),
        ensures
            dividers_computable(config.baudrate, frequency) <==> r is Ok,
            r matches Ok(p) ==> {
                &&& p.wf()
                &&& p.spec_device() == (UartDevice {
                    regs: spec_enable_regs(
                        self.spec_device().regs,
                        config,
                        frequency,
                        self.spec_pins(),
                    ),
                    ..self.spec_device()
                })
                &&& p.spec_pins() == self.spec_pins()
                &&& p.spec_config() == config
                &&& p.spec_effective_baudrate() == spec_effective_baudrate(
                    frequency,
                    spec_dividers(config.baudrate, frequency).0,
                    spec_dividers(config.baudrate, frequency).1,
                )
            },
            r matches Err(e) ==> e.0 == Error::BadArgument && e.1 == self,
    {
        let mut this = self;
        let effective_baudrate = match configure_baudrate(
            &mut this.device.regs,
            config.baudrate,
            frequency,
        ) {
            Ok(b) => b,
            Err(e) => return Err((e, this)),
        };
        let (mut device, pins) = this.free();
        let format = set_format(&config.data_bits, &config.stop_bits, &config.parity);
        device.regs.write_lcr_h(LCR_H_FEN + format);
        // Enable the peripheral, and each direction and flow-control signal
        // whose pin is present.
        let mut cr: u32 = CR_UARTEN;
        if pins.tx {
            cr = cr + CR_TXE;
        }
        if pins.rx {
            cr = cr + CR_RXE;
        }
        if pins.cts {
            cr = cr + CR_CTSEN;
        }
        if pins.rts {
            cr = cr + CR_RTSEN;
        }
        device.regs.write_cr(cr);
        device.regs.write_dmacr(DMACR_TXDMAE + DMACR_RXDMAE);
        Ok(UartPeripheral { device, config, pins, effective_baudrate, _state: Enabled })
    }
}

impl UartPeripheral<Enabled> {
    /// Clears the peripheral, transmit, receive, CTS and RTS enable bits and
    /// moves to the disabled state.
    pub fn disable(self) -> (r: UartPeripheral<Disabled>)
        requires
            self.wf(),
        ensures
            r.wf(),
            r.spec_device() == (UartDevice {
                regs: spec_disable_regs(self.spec_device().regs),
                ..self.spec_device()
            }),
            r.spec_pins() == self.spec_pins(),
            r.spec_config() == self.spec_config(),
            r.spec_effective_baudrate() == self.spec_effective_baudrate(),
    {
        let mut this = self;
        this.device.regs.write_cr(0);
        this.transition(Disabled)
    }

    /// Writes as many bytes as the TX FIFO takes; see [`writer::write_raw`].
    pub fn write_raw<'d>(&mut self, data: &'d [u8]) -> (r: Result<&'d [u8], WouldBlock>)
        requires
            old(self).wf(),
        ensures
            final(self).wf(),
            final(self).spec_device().rx == old(self).spec_device().rx,
            final(self).spec_device().regs == old(self).spec_device().regs,
            write_raw_outcome(old(self).spec_device().tx, final(self).spec_device().tx, data@, r),
    {
        writer::write_raw(&mut self.device.tx, data)
    }

    /// Reads what the RX FIFO holds into `buffer`; see [`reader::read_raw`].
    pub fn read_raw(&mut self, buffer: &mut [u8]) -> (r: Result<usize, NbError<ReadError>>)
        requires
            old(self).wf(),
        ensures
            final(self).wf(),
            final(self).spec_device().tx == old(self).spec_device().tx,
            final(self).spec_device().regs == old(self).spec_device().regs,
            final(self).spec_device().rx.line@ == old(self).spec_device().rx.line@,
            read_raw_outcome(
                old(self).spec_device().rx.fifo@,
                final(self).spec_device().rx.fifo@,
                old(buffer)@,
                final(buffer)@,
                0,
                r,
            ),
    {
        reader::read_raw(&mut self.device.rx, buffer)
    }

    /// Writes the whole buffer, waiting for room in the TX FIFO as needed.
    pub fn write_full_blocking(&mut self, data: &[u8])
        requires
            old(self).wf(),
        ensures
            final(self).wf(),
            final(self).spec_device().rx == old(self).spec_device().rx,
            final(self).spec_device().regs == old(self).spec_device().regs,
            write_full_outcome(old(self).spec_device().tx, final(self).spec_device().tx, data@),
    {
        writer::write_full_blocking(&mut self.device.tx, data)
    }

    /// Fills the whole buffer, waiting for received words as needed.
    pub fn read_full_blocking(&mut self, buffer: &mut [u8]) -> (r: Result<(), ReadErrorType>)
        requires
            old(self).wf(),
            read_full_can_finish(
                old(self).spec_device().rx.fifo@ + old(self).spec_device().rx.line@,
                old(buffer)@.len() as int,
            ),
        ensures
            final(self).wf(),
            final(self).spec_device().tx == old(self).spec_device().tx,
            final(self).spec_device().regs == old(self).spec_device().regs,
            read_full_outcome(
                old(self).spec_device().rx,
                final(self).spec_device().rx,
                old(buffer)@,
                final(buffer)@,
                r,
            ),
    {
        reader::read_full_blocking(&mut self.device.rx, buffer)
    }

    /// Reads one byte, or the line error flagged on it.
    pub fn read(&mut self) -> (r: Result<u8, NbError<ReadErrorType>>)
        requires
            old(self).wf(),
        ensures
            final(self).wf(),
            final(self).spec_device().tx == old(self).spec_device().tx,
            final(self).spec_device().regs == old(self).spec_device().regs,
            final(self).spec_device().rx.line@ == old(self).spec_device().rx.line@,
            read_byte_outcome(
                old(self).spec_device().rx.fifo@,
                final(self).spec_device().rx.fifo@,
                r,
            ),
    {
        reader::read_byte(&mut self.device.rx)
    }

    /// Queues one byte, or reports `WouldBlock` when the TX FIFO is full.
    pub fn write(&mut self, word: u8) -> (r: Result<(), WouldBlock>)
        requires
            old(self).wf(),
        ensures
            final(self).wf(),
            final(self).spec_device().rx == old(self).spec_device().rx,
            final(self).spec_device().regs == old(self).spec_device().regs,
            final(self).spec_device().tx.line@ == old(self).spec_device().tx.line@,
            final(self).spec_device().tx.shifting == old(self).spec_device().tx.shifting,
            old(self).spec_device().tx.fifo@.len() == FIFO_DEPTH ==> r == Err::<(), WouldBlock>(
                WouldBlock,
            ) && final(self).spec_device().tx.fifo@ == old(self).spec_device().tx.fifo@,
            old(self).spec_device().tx.fifo@.len() < FIFO_DEPTH ==> r == Ok::<(), WouldBlock>(())
                && final(self).spec_device().tx.fifo@ == old(self).spec_device().tx.fifo@.push(
                word,
            ),
    {
        writer::write_byte(&mut self.device.tx, word)
    }

    /// Succeeds once the transmitter is idle: nothing is queued and the last
    /// byte has completely left the shift register.
    pub fn flush(&self) -> (r: Result<(), WouldBlock>)
        ensures
            r is Ok <==> self.spec_device().tx.fifo@.len() == 0
                && self.spec_device().tx.shifting is None,
    {
        writer::transmit_flushed(&self.device.tx)
    }

    /// Sends the bytes of a string, waiting for room as needed.
    pub fn write_str(&mut self, s: &str)
        requires
            old(self).wf(),
        ensures
            final(self).wf(),
            final(self).spec_device().rx == old(self).spec_device().rx,
            final(self).spec_device().regs == old(self).spec_device().regs,
            write_full_outcome(
                old(self).spec_device().tx,
                final(self).spec_device().tx,
                s.spec_bytes(),
            ),
    {
        writer::write_full_blocking(&mut self.device.tx, s.as_bytes())
    }

    /// Splits the peripheral into a receiving half, which keeps the pins, the
    /// configuration and every register but the transmit path, and a
    /// transmitting half, which holds the transmit path alone.
    pub fn split(self) -> (r: (Reader, Writer))
        requires
            self.wf(),
        ensures
            r == spec_split(self),
            r.0.spec_regs() == self.spec_device().regs,
            r.0.spec_in_reset() == self.spec_device().in_reset,
            r.0.spec_rx() == self.spec_device().rx,
            r.0.spec_pins() == self.spec_pins(),
            r.0.spec_config() == self.spec_config(),
            r.0.spec_effective_baudrate() == self.spec_effective_baudrate(),
            r.1.spec_tx() == self.spec_device().tx,
            r.0.wf(),
            r.1.wf(),
    {
        let reader = Reader {
            regs: self.device.regs,
            in_reset: self.device.in_reset,
            rx: self.device.rx,
            pins: self.pins,
            config: self.config,
            effective_baudrate: self.effective_baudrate,
        };
        let writer = Writer { tx: self.device.tx };
        (reader, writer)
    }

    /// Puts a reader and a writer back together into one peripheral. The
    /// pins, the configuration and the effective rate come from the reader.
    pub fn join(reader: Reader, writer: Writer) -> (r: Self)
        requires
            reader.wf(),
            writer.wf(),
        ensures
            r == spec_join(reader, writer),
            r.spec_device() == (UartDevice {
                regs: reader.spec_regs(),
                in_reset: reader.spec_in_reset(),
                tx: writer.spec_tx(),
                rx: reader.spec_rx(),
            }),
            r.spec_pins() == reader.spec_pins(),
            r.spec_config() == reader.spec_config(),
            r.spec_effective_baudrate() == reader.spec_effective_baudrate(),
            r.wf(),
    {
        UartPeripheral {
            device: UartDevice {
                regs: reader.regs,
                in_reset: reader.in_reset,
                tx: writer.tx,
                rx: reader.rx,
            },
            _state: Enabled,
            pins: reader.pins,
            config: reader.config,
            effective_baudrate: reader.effective_baudrate,
        }
    }
}

/// The receiving half of a split peripheral.
pub struct Reader {
    regs: UartRegs,
    in_reset: bool,
    rx: RxPath,
    pins: UartPinout,
    config: UartConfig,
    effective_baudrate: u32,
}

/// The transmitting half of a split peripheral.
pub struct Writer {
    tx: TxPath,
}

/// The halves that splitting a peripheral gives.
pub closed spec fn spec_split(p: UartPeripheral<Enabled>) -> (Reader, Writer) {
    (
        Reader {
            regs: p.device.regs,
            in_reset: p.device.in_reset,
            rx: p.device.rx,
            pins: p.pins,
            config: p.config,
            effective_baudrate: p.effective_baudrate,
        },
        Writer { tx: p.device.tx },
    )
}

/// The peripheral that joining two halves gives.
pub closed spec fn spec_join(reader: Reader, writer: Writer) -> UartPeripheral<Enabled> {
    UartPeripheral {
        device: UartDevice {
            regs: reader.regs,
            in_reset: reader.in_reset,
            tx: writer.tx,
            rx: reader.rx,
        },
        _state: Enabled,
        pins: reader.pins,
        config: reader.config,
        effective_baudrate: reader.effective_baudrate,
    }
}

impl Reader {
    /// The configuration registers this half keeps.
    pub closed spec fn spec_regs(&self) -> UartRegs {
        self.regs
    }

    /// The reset line state this half keeps.
    pub closed spec fn spec_in_reset(&self) -> bool {
        self.in_reset
    }

    /// The pins this half owns.
    pub closed spec fn spec_pins(&self) -> UartPinout {
        self.pins
    }

    /// The configuration the peripheral was enabled with.
    pub closed spec fn spec_config(&self) -> UartConfig {
        self.config
    }

    /// The baud rate actually programmed.
    pub closed spec fn spec_effective_baudrate(&self) -> u32 {
        self.effective_baudrate
    }

    /// The pins this half owns.
    pub fn pins(&self) -> (r: UartPinout)
        ensures
            r == self.spec_pins(),
    {
        self.pins
    }

    /// The configuration the peripheral was enabled with.
    pub fn config(&self) -> (r: UartConfig)
        ensures
            r == self.spec_config(),
    {
        self.config
    }

    /// The baud rate actually programmed into the dividers.
    pub fn effective_baudrate(&self) -> (r: u32)
        ensures
            r == self.spec_effective_baudrate(),
    {
        self.effective_baudrate
    }

    /// The receive path this half owns.
    pub closed spec fn spec_rx(&self) -> RxPath {
        self.rx
    }

    pub open spec fn wf(&self) -> bool {
        self.spec_rx().wf()
    }

    /// Reads what the RX FIFO holds into `buffer`; see [`reader::read_raw`].
    pub fn read_raw(&mut self, buffer: &mut [u8]) -> (r: Result<usize, NbError<ReadError>>)
        requires
            old(self).wf(),
        ensures
            final(self).wf(),
            final(self).spec_rx().line@ == old(self).spec_rx().line@,
            read_raw_outcome(
                old(self).spec_rx().fifo@,
                final(self).spec_rx().fifo@,
                old(buffer)@,
                final(buffer)@,
                0,
                r,
            ),
    {
        reader::read_raw(&mut self.rx, buffer)
    }

    /// Fills the whole buffer, waiting for received words as needed.
    pub fn read_full_blocking(&mut self, buffer: &mut [u8]) -> (r: Result<(), ReadErrorType>)
        requires
            old(self).wf(),
            read_full_can_finish(
                old(self).spec_rx().fifo@ + old(self).spec_rx().line@,
                old(buffer)@.len() as int,
            ),
        ensures
            final(self).wf(),
            read_full_outcome(
                old(self).spec_rx(),
                final(self).spec_rx(),
                old(buffer)@,
                final(buffer)@,
                r,
            ),
    {
        reader::read_full_blocking(&mut self.rx, buffer)
    }

    /// Reads one byte, or the line error flagged on it.
    pub fn read(&mut self) -> (r: Result<u8, NbError<ReadErrorType>>)
        requires
            old(self).wf(),
        ensures
            final(self).wf(),
            final(self).spec_rx().line@ == old(self).spec_rx().line@,
            read_byte_outcome(old(self).spec_rx().fifo@, final(self).spec_rx().fifo@, r),
    {
        reader::read_byte(&mut self.rx)
    }
}

impl Writer {
    /// The transmit path this half owns.
    pub closed spec fn spec_tx(&self) -> TxPath {
        self.tx
    }

    pub open spec fn wf(&self) -> bool {
        self.spec_tx().wf()
    }

    /// Writes as many bytes as the TX FIFO takes; see [`writer::write_raw`].
    pub fn write_raw<'d>(&mut self, data: &'d [u8]) -> (r: Result<&'d [u8], WouldBlock>)
        requires
            old(self).wf(),
        ensures
            final(self).wf(),
            write_raw_outcome(old(self).spec_tx(), final(self).spec_tx(), data@, r),
    {
        writer::write_raw(&mut self.tx, data)
    }

    /// Writes the whole buffer, waiting for room in the TX FIFO as needed.
    pub fn write_full_blocking(&mut self, data: &[u8])
        requires
            old(self).wf(),
        ensures
            final(self).wf(),
            write_full_outcome(old(self).spec_tx(), final(self).spec_tx(), data@),
    {
        writer::write_full_blocking(&mut self.tx, data)
    }

    /// Queues one byte, or reports `WouldBlock` when the TX FIFO is full.
    pub fn write(&mut self, word: u8) -> (r: Result<(), WouldBlock>)
        requires
            old(self).wf(),
        ensures
            final(self).wf(),
            final(self).spec_tx().line@ == old(self).spec_tx().line@,
            final(self).spec_tx().shifting == old(self).spec_tx().shifting,
            old(self).spec_tx().fifo@.len() == FIFO_DEPTH ==> r == Err::<(), WouldBlock>(
                WouldBlock,
            ) && final(self).spec_tx().fifo@ == old(self).spec_tx().fifo@,
            old(self).spec_tx().fifo@.len() < FIFO_DEPTH ==> r == Ok::<(), WouldBlock>(())
                && final(self).spec_tx().fifo@ == old(self).spec_tx().fifo@.push(word),
    {
        writer::write_byte(&mut self.tx, word)
    }

    /// Succeeds once the transmitter is idle: nothing is queued and the last
    /// byte has completely left the shift register.
    pub fn flush(&self) -> (r: Result<(), WouldBlock>)
        ensures
            r is Ok <==> self.spec_tx().fifo@.len() == 0 && self.spec_tx().shifting is None,
    {
        writer::transmit_flushed(&self.tx)
    }
}

/// Enabling, disabling and enabling again leaves the registers exactly as a
/// single enable from a fresh reset does, whatever they held at first.
pub proof fn lemma_reenable_matches_fresh(
    start: UartRegs,
    config: UartConfig,
    frequency: u32,
    pins: UartPinout,
)
    ensures
        ({
            let once = spec_enable_regs(start, config, frequency, pins);
            spec_enable_regs(spec_disable_regs(once), config, frequency, pins) == spec_enable_regs(
                reset_regs(),
                config,
                frequency,
                pins,
            )
        }),
{
}

/// Splitting a peripheral and joining the halves gives back the very same
/// peripheral: register block, pins, configuration and effective rate.
pub proof fn lemma_split_join(p: UartPeripheral<Enabled>)
    ensures
        ({
            let q = spec_join(spec_split(p).0, spec_split(p).1);
            &&& q.spec_device() == p.spec_device()
            &&& q.spec_pins() == p.spec_pins()
            &&& q.spec_config() == p.spec_config()
            &&& q.spec_effective_baudrate() == p.spec_effective_baudrate()
        }),
{
}

} // verus!
