use vstd::prelude::*;

verus! {

/// Depth of each hardware FIFO, in entries.
pub const FIFO_DEPTH: usize = 32;

/// Line control: send break.
pub const LCR_H_BRK: u32 = 1;
/// Line control: parity enable.
pub const LCR_H_PEN: u32 = 2;
/// Line control: even parity select.
pub const LCR_H_EPS: u32 = 4;
/// Line control: two stop bits.
pub const LCR_H_STP2: u32 = 8;
/// Line control: FIFO enable.
pub const LCR_H_FEN: u32 = 16;
/// Line control: word length field, lowest bit (two bits wide).
pub const LCR_H_WLEN_UNIT: u32 = 32;

/// Control: peripheral enable.
pub const CR_UARTEN: u32 = 1;
/// Control: transmit enable.
pub const CR_TXE: u32 = 256;
/// Control: receive enable.
pub const CR_RXE: u32 = 512;
/// Control: RTS hardware flow control enable.
pub const CR_RTSEN: u32 = 16384;
/// Control: CTS hardware flow control enable.
pub const CR_CTSEN: u32 = 32768;
/// Control register value out of reset (transmit and receive enabled).
pub const CR_RESET: u32 = 768;

/// DMA control: receive DMA enable.
pub const DMACR_RXDMAE: u32 = 1;
/// DMA control: transmit DMA enable.
pub const DMACR_TXDMAE: u32 = 2;

/// Data register: framing error flag.
pub const DR_FE: u16 = 256;
/// Data register: parity error flag.
pub const DR_PE: u16 = 512;
/// Data register: break error flag.
pub const DR_BE: u16 = 1024;
/// Data register: overrun error flag.
pub const DR_OE: u16 = 2048;

/// The configuration registers of the peripheral.
///
/// The divider registers take effect only when the line control register is
/// written after them: `latched_ibrd` and `latched_fbrd` hold the divider the
/// bit clock actually runs from.
#[derive(Clone, Copy, Debug, PartialEq, Eq, Structural)]
pub struct UartRegs {
    pub lcr_h: u32,
    pub cr: u32,
    pub ibrd: u32,
    pub fbrd: u32,
    pub latched_ibrd: u32,
    pub latched_fbrd: u32,
    pub dmacr: u32,
}

/// Register values right after a reset.
pub open spec fn reset_regs() -> UartRegs {
    UartRegs {
        lcr_h: 0,
        cr: CR_RESET,
        ibrd: 0,
        fbrd: 0,
        latched_ibrd: 0,
        latched_fbrd: 0,
        dmacr: 0,
    }
}

impl UartRegs {
    /// Register values right after a reset.
    pub fn reset() -> (r: UartRegs)
        ensures
            r == reset_regs(),
    {
        UartRegs {
            lcr_h: 0,
            cr: CR_RESET,
            ibrd: 0,
            fbrd: 0,
            latched_ibrd: 0,
            latched_fbrd: 0,
            dmacr: 0,
        }
    }

    /// Writes the 16-bit integer divider register.
    pub fn write_ibrd(&mut self, v: u16)
        ensures
            *final(self) == (UartRegs { ibrd: v as u32, ..*old(self) }),
    {
        self.ibrd = v as u32;
    }

    /// Writes the 6-bit fractional divider register; higher bits are dropped.
    pub fn write_fbrd(&mut self, v: u8)
        ensures
            *final(self) == (UartRegs { fbrd: (v % 64) as u32, ..*old(self) }),
    {
        self.fbrd = (v % 64) as u32;
    }

    /// Writes the line control register, which also latches the dividers.
    pub fn write_lcr_h(&mut self, v: u32)
        ensures
            *final(self) == (UartRegs {
                lcr_h: v,
                latched_ibrd: old(self).ibrd,
                latched_fbrd: old(self).fbrd,
                ..*old(self)
            }),
    {
        self.lcr_h = v;
        self.latched_ibrd = self.ibrd;
        self.latched_fbrd = self.fbrd;
    }

    /// Writes the control register.
    pub fn write_cr(&mut self, v: u32)
        ensures
            *final(self) == (UartRegs { cr: v, ..*old(self) }),
    {
        self.cr = v;
    }

    /// Writes the DMA control register.
    pub fn write_dmacr(&mut self, v: u32)
        ensures
            *final(self) == (UartRegs { dmacr: v, ..*old(self) }),
    {
        self.dmacr = v;
    }
}

/// The byte in the transmit shift register, as a sequence of zero or one bytes.
pub open spec fn shift_seq(shifting: Option<u8>) -> Seq<u8> {
    match shifting {
        Some(b) => seq![b],
        None => Seq::empty(),
    }
}

/// The transmit path: the TX FIFO, the byte being shifted out (if any), and
/// the bytes that have completely left on the line.
#[derive(Debug)]
pub struct TxPath {
    pub fifo: Vec<u8>,
    pub shifting: Option<u8>,
    pub line: Vec<u8>,
}

impl TxPath {
    pub open spec fn wf(&self) -> bool {
        self.fifo@.len() <= FIFO_DEPTH
    }

    /// The bytes accepted but not yet completely sent, oldest first.
    pub open spec fn pending(&self) -> Seq<u8> {
        shift_seq(self.shifting) + self.fifo@
    }

    /// An empty, idle transmit path.
    pub fn new() -> (r: TxPath)
        ensures
            r.wf(),
            r.fifo@.len() == 0,
            r.shifting is None,
            r.line@.len() == 0,
    {
        TxPath { fifo: Vec::new(), shifting: None, line: Vec::new() }
    }

    /// The "TX FIFO full" status flag.
    pub fn is_tx_full(&self) -> (r: bool)
        requires
            self.wf(),
        ensures
            r == (self.fifo@.len() == FIFO_DEPTH),
    {
        self.fifo.len() >= FIFO_DEPTH
    }

    /// The "busy" status flag: set from the moment a byte is queued until the
    /// last one has completely left the shift register.
    pub fn is_busy(&self) -> (r: bool)
        ensures
            r == (self.fifo@.len() > 0 || self.shifting is Some),
    {
        self.fifo.len() > 0 || self.shifting.is_some()
    }

    /// Writes a byte to the data register, queueing it in the TX FIFO.
    pub fn write_dr(&mut self, byte: u8)
        requires
            old(self).fifo@.len() < FIFO_DEPTH,
        ensures
            final(self).fifo@ == old(self).fifo@.push(byte),
            final(self).shifting == old(self).shifting,
            final(self).line@ == old(self).line@,
    {
        self.fifo.push(byte);
    }

    /// One step of the transmitter: the byte in the shift register, if any,
    /// finishes and joins the line, and the oldest queued byte, if any, moves
    /// into the shift register.
    pub fn transmit_word(&mut self)
        ensures
            final(self).line@ == old(self).line@ + shift_seq(old(self).shifting),
            old(self).fifo@.len() > 0 ==> final(self).fifo@ == old(self).fifo@.drop_first()
                && final(self).shifting == Some(old(self).fifo@[0]),
            old(self).fifo@.len() == 0 ==> final(self).fifo@ == old(self).fifo@
                && final(self).shifting is None,
    {
        match self.shifting {
            Some(b) => {
                self.line.push(b);
            },
            None => {},
        }
        if self.fifo.len() > 0 {
            let b = self.fifo.remove(0);
            self.shifting = Some(b);
        } else {
            self.shifting = None;
        }
        assert(self.line@ =~= old(self).line@ + shift_seq(old(self).shifting));
    }
}

/// The receive path: words still arriving on the line and the RX FIFO.
/// Each word holds the data byte in its low eight bits and the error flags
/// above it, as the data register presents them.
#[derive(Debug)]
pub struct RxPath {
    pub fifo: Vec<u16>,
    pub line: Vec<u16>,
}

impl RxPath {
    pub open spec fn wf(&self) -> bool {
        self.fifo@.len() <= FIFO_DEPTH
    }

    /// An empty receive path.
    pub fn new() -> (r: RxPath)
        ensures
            r.wf(),
            r.fifo@.len() == 0,
            r.line@.len() == 0,
    {
        RxPath { fifo: Vec::new(), line: Vec::new() }
    }

    /// The "RX FIFO empty" status flag.
    pub fn is_rx_empty(&self) -> (r: bool)
        ensures
            r == (self.fifo@.len() == 0),
    {
        self.fifo.len() == 0
    }

    /// Reads the data register, taking the oldest word out of the RX FIFO.
    pub fn read_dr(&mut self) -> (r: u16)
        requires
            old(self).fifo@.len() > 0,
        ensures
            r == old(self).fifo@[0],
            final(self).fifo@ == old(self).fifo@.drop_first(),
            final(self).line@ == old(self).line@,
    {
        self.fifo.remove(0)
    }

    /// The receiver moves the next word from the line into the RX FIFO,
    /// if the FIFO has room.
    pub fn receive_word(&mut self)
        requires
            old(self).wf(),
        ensures
            final(self).wf(),
            old(self).line@.len() > 0 && old(self).fifo@.len() < FIFO_DEPTH ==> final(self).fifo@
                == old(self).fifo@.push(old(self).line@[0]) && final(self).line@ == old(
                self,
            ).line@.drop_first(),
            !(old(self).line@.len() > 0 && old(self).fifo@.len() < FIFO_DEPTH) ==> *final(self)
                == *old(self),
    {
        if self.line.len() > 0 && self.fifo.len() < FIFO_DEPTH {
            let w = self.line.remove(0);
            self.fifo.push(w);
        }
    }
}

/// The register block of one UART instance, with its reset line.
#[derive(Debug)]
pub struct UartDevice {
    pub regs: UartRegs,
    pub in_reset: bool,
    pub tx: TxPath,
    pub rx: RxPath,
}

impl UartDevice {
    pub open spec fn wf(&self) -> bool {
        self.tx.wf() && self.rx.wf()
    }

    /// A device fresh out of reset, with nothing on either line.
    pub fn new() -> (r: UartDevice)
        ensures
            r.wf(),
            r.regs == reset_regs(),
            !r.in_reset,
            r.tx.fifo@.len() == 0,
            r.tx.shifting is None,
            r.tx.line@.len() == 0,
            r.rx.fifo@.len() == 0,
            r.rx.line@.len() == 0,
    {
        UartDevice {
            regs: UartRegs::reset(),
            in_reset: false,
            tx: TxPath::new(),
            rx: RxPath::new(),
        }
    }

    /// Asserts the reset line: registers return to their reset values and
    /// both FIFOs are flushed. Traffic on the lines is unaffected.
    pub fn reset_bring_down(&mut self)
        ensures
            final(self).wf(),
            final(self).regs == reset_regs(),
            final(self).in_reset,
            final(self).tx.fifo@.len() == 0,
            final(self).tx.shifting is None,
            final(self).rx.fifo@.len() == 0,
            final(self).tx.line@ == old(self).tx.line@,
            final(self).rx.line@ == old(self).rx.line@,
    {
        self.regs = UartRegs::reset();
        self.in_reset = true;
        self.tx.fifo = Vec::new();
        self.tx.shifting = None;
        self.rx.fifo = Vec::new();
    }

    /// Releases the reset line.
    pub fn reset_bring_up(&mut self)
        ensures
            *final(self) == (UartDevice { in_reset: false, ..*old(self) }),
    {
        self.in_reset = false;
    }
}

} // verus!
