//! I2C master on the IIC peripherals: configuration, the bit rate solver, and the
//! sequencing decisions of a polled multi-operation transaction.
use vstd::prelude::*;
use crate::clock::Clocks;
use crate::gpio::AlternatePin;

verus! {

/// I2C bus errors.
#[derive(Clone, Copy, PartialEq, Eq, Debug, Structural)]
pub enum Error {
    /// The addressed device did not acknowledge its address.
    NoAcknowledgeAddress,
    /// A data byte was not acknowledged.
    NoAcknowledgeData,
    /// Lost arbitration to another master.
    ArbitrationLoss,
    /// The bus never reached the state we were waiting for.
    Timeout,
    /// The bus was still busy when the transfer was started.
    Busy,
    /// A zero-length read was requested. The hardware cannot clock in no bytes.
    ZeroLengthRead,
    /// The requested bus frequency cannot be produced from the current PCLKB.
    UnsupportedFrequency,
}

/// Bus configuration.
#[derive(Clone, Copy, PartialEq, Eq, Debug, Structural)]
pub struct Config {
    /// Target SCL frequency in Hz.
    ///
    /// The achieved frequency is always a little lower than this, because the
    /// hardware counts only the driven low period and the release of SCL is followed
    /// by a rise time set by the bus pull-ups, which the counters do not model.
    pub frequency: u32,
    /// Enable the digital noise filter on SCL and SDA.
    pub noise_filter: bool,
}

impl Default for Config {
    fn default() -> (r: Self)
        ensures
            r.frequency == 100_000,
            r.noise_filter,
    {
        Self::standard()
    }
}

impl Config {
    /// Standard mode, 100 kHz.
    pub fn standard() -> (r: Self)
        ensures
            r.frequency == 100_000,
            r.noise_filter,
    {
        Config { frequency: 100_000, noise_filter: true }
    }

    /// Fast mode, 400 kHz.
    pub fn fast() -> (r: Self)
        ensures
            r.frequency == 400_000,
            r.noise_filter,
    {
        Config { frequency: 400_000, noise_filter: true }
    }

    /// An arbitrary SCL frequency.
    pub fn hz(frequency: u32) -> (r: Self)
        ensures
            r.frequency == frequency,
            r.noise_filter,
    {
        Config { frequency, noise_filter: true }
    }
}

/// Pins that can be handed to an [`I2c`]: an `(scl, sda)` tuple, or `()`.
pub trait Pins<IIC> {}

impl<IIC> Pins<IIC> for () {}

impl<IIC, A: AlternatePin, B: AlternatePin> Pins<IIC> for (A, B) {}

/// `v` limited to `lo..=hi`.
pub open spec fn clamp(v: int, lo: int, hi: int) -> int {
    if v < lo {
        lo
    } else if v > hi {
        hi
    } else {
        v
    }
}

/// `v.clamp(lo, hi)`.
pub fn clamp_u32(v: u32, lo: u32, hi: u32) -> (r: u32)
    requires
        lo <= hi,
    ensures
        r == clamp(v as int, lo as int, hi as int),
{
    if v < lo {
        lo
    } else if v > hi {
        hi
    } else {
        v
    }
}

/// `ICMR1.CKS`, `ICBRH` and `ICBRL` for a target frequency.
#[derive(Clone, Copy, PartialEq, Eq, Debug, Structural)]
pub struct BitRate {
    /// `ICMR1.CKS`: the counters run at `PCLKB / 2^cks`.
    pub cks: u8,
    /// `ICBRH`: the high period is `brh + 1` counts.
    pub brh: u8,
    /// `ICBRL`: the low period is `brl + 1` counts.
    pub brl: u8,
}

/// Counts in one SCL period at prescaler `cks`.
pub open spec fn period_counts(pclkb: u32, frequency: u32, cks: u32) -> int {
    ((pclkb >> cks) / frequency) as int
}

/// A period of `period_counts` can be split into a high and a low phase of 1 to 32
/// counts each.
pub open spec fn period_fits(pclkb: u32, frequency: u32, cks: u32) -> bool {
    2 <= period_counts(pclkb, frequency, cks) <= 64
}

/// The low phase of a period of `total` counts: five ninths of it, but never less
/// than half (rounded up), within 1..=32.
pub open spec fn low_counts(total: int) -> int {
    let five_ninths = total * 5 / 9;
    let half = (total + 1) / 2;
    clamp(if five_ninths >= half { five_ninths } else { half }, 1, 32)
}

/// The high phase: the rest of the period, within 1..=32.
pub open spec fn high_counts(total: int) -> int {
    clamp(total - low_counts(total), 1, 32)
}

/// Split one SCL period into a high and a low count.
///
/// The counters run at `PCLKB / 2^cks` and count `BRH + 1` high and `BRL + 1` low,
/// each capped at 32 counts. The smallest prescaler whose period fits is picked,
/// and the low phase gets the larger share (never less than half the period),
/// because every I2C mode specifies a longer minimum low period than high period.
///
/// Returns `None` for a zero frequency and when no prescaler fits.
pub fn calc_bitrate(pclkb: u32, frequency: u32) -> (r: Option<BitRate>)
    ensures
        frequency == 0 ==> r is None,
        frequency > 0 ==> (r is None <==> forall|c: u32| c < 8 ==> !#[trigger] period_fits(pclkb, frequency, c)),
        r matches Some(br) ==> {
            &&& frequency > 0
            &&& br.cks < 8
            &&& period_fits(pclkb, frequency, br.cks as u32)
            &&& forall|c: u32| c < br.cks ==> !#[trigger] period_fits(pclkb, frequency, c)
            &&& br.brl + 1 == low_counts(period_counts(pclkb, frequency, br.cks as u32))
            &&& br.brh + 1 == high_counts(period_counts(pclkb, frequency, br.cks as u32))
            &&& br.brl >= br.brh
        },
{
    if frequency == 0 {
        return None;
    }
    let mut cks: u32 = 0;
    while cks < 8
        invariant
            cks <= 8,
            frequency > 0,
            forall|c: u32| c < cks ==> !#[trigger] period_fits(pclkb, frequency, c),
        decreases 8 - cks,
    {
        let counter_hz = pclkb >> cks;
        let total = counter_hz / frequency;
        // Each half needs at least 1 count and at most 32.
        if total >= 2 && total <= 64 {
            assert(period_fits(pclkb, frequency, cks));
            let five_ninths = total * 5 / 9;
            let half = (total + 1) / 2;
            let low = clamp_u32(if five_ninths >= half { five_ninths } else { half }, 1, 32);
            let high = clamp_u32(total - low, 1, 32);
            proof {
                lemma_low_not_shorter_than_high(total as int);
            }
            return Some(BitRate { cks: cks as u8, brh: (high - 1) as u8, brl: (low - 1) as u8 });
        }
        cks = cks + 1;
    }
    None
}

/// The counted SCL period is never longer than the requested one: `total` counts of
/// the prescaled clock last at most `1 / frequency`.
pub proof fn lemma_counted_period_not_longer(pclkb: u32, frequency: u32, cks: u32)
    requires
        frequency > 0,
    ensures
        period_counts(pclkb, frequency, cks) * frequency <= (pclkb >> cks) as int,
{
    let c = (pclkb >> cks) as int;
    vstd::arithmetic::div_mod::lemma_fundamental_div_mod(c, frequency as int);
    assert((c / frequency as int) * frequency as int <= c) by (nonlinear_arith)
        requires
            c == frequency as int * (c / frequency as int) + c % frequency as int,
            0 <= c % frequency as int,
    ;
}

/// A chosen split always adds up to the whole period: `brh + brl + 2` counts.
pub proof fn lemma_split_covers_period(total: int)
    requires
        2 <= total <= 64,
    ensures
        low_counts(total) + high_counts(total) == total,
        1 <= low_counts(total) <= 32,
        1 <= high_counts(total) <= 32,
{
}

/// The low phase is at least as long as the high phase, for every period the
/// solver accepts.
pub proof fn lemma_low_not_shorter_than_high(total: int)
    requires
        2 <= total <= 64,
    ensures
        low_counts(total) >= high_counts(total),
{
}

// --- Driver ----------------------------------------------------------------------

/// A polled I2C master: the channel and the pins it owns.
#[derive(Debug)]
pub struct I2c<IIC, PINS> {
    iic: IIC,
    pins: PINS,
}

impl<IIC, PINS: Pins<IIC>> I2c<IIC, PINS> {
    /// Take the channel and pins for a master at `config.frequency`, returning the
    /// bit rate registers to program.
    ///
    /// Fails with [`Error::UnsupportedFrequency`] exactly when [`calc_bitrate`] finds
    /// no setting for the current PCLKB.
    pub fn new(iic: IIC, pins: PINS, config: Config, clocks: &Clocks) -> (r: Result<(Self, BitRate), Error>)
        ensures
            r is Err <==> calc_bitrate_none(clocks.spec_pclkb(), config.frequency),
            r matches Err(e) ==> e == Error::UnsupportedFrequency,
            r matches Ok((d, _)) ==> d.spec_parts() == (iic, pins),
            r matches Ok((_, rate)) ==> is_bitrate_for(clocks.spec_pclkb(), config.frequency, rate),
    {
        match calc_bitrate(clocks.pclkb(), config.frequency) {
            Some(rate) => Ok((I2c { iic, pins }, rate)),
            None => Err(Error::UnsupportedFrequency),
        }
    }

    /// The peripheral and pins it owns.
    pub closed spec fn spec_parts(&self) -> (IIC, PINS) {
        (self.iic, self.pins)
    }

    /// Give back the peripheral and pins, as they were handed to `new`.
    pub fn release(self) -> (r: (IIC, PINS))
        ensures
            r == self.spec_parts(),
    {
        (self.iic, self.pins)
    }
}

/// [`calc_bitrate`] finds no setting.
pub open spec fn calc_bitrate_none(pclkb: u32, frequency: u32) -> bool {
    frequency == 0 || forall|c: u32| c < 8 ==> !#[trigger] period_fits(pclkb, frequency, c)
}

/// `br` is what [`calc_bitrate`] returns.
pub open spec fn is_bitrate_for(pclkb: u32, frequency: u32, br: BitRate) -> bool {
    &&& frequency > 0
    &&& br.cks < 8
    &&& period_fits(pclkb, frequency, br.cks as u32)
    &&& forall|c: u32| c < br.cks ==> !#[trigger] period_fits(pclkb, frequency, c)
    &&& br.brl + 1 == low_counts(period_counts(pclkb, frequency, br.cks as u32))
    &&& br.brh + 1 == high_counts(period_counts(pclkb, frequency, br.cks as u32))
}

// --- Control words -----------------------------------------------------------

/// `ICCR1.ICE`: the interface is enabled.
pub const ICCR1_ICE: u8 = 0x80;
/// `ICCR1.IICRST`: the internal state machine and output latches are held in reset.
pub const ICCR1_IICRST: u8 = 0x40;
/// The `ICCR1` bits that read 1 out of reset (`SOWP`, `SCLO`, `SDAO`, `SCLI`, `SDAI`).
pub const ICCR1_RESET: u8 = 0x1F;
/// `ICCR2.BBSY`: the bus is busy.
pub const ICCR2_BBSY: u8 = 0x80;
/// `ICCR2.SP`: request a STOP.
pub const ICCR2_SP: u8 = 0x08;
/// `ICCR2.RS`: request a repeated START.
pub const ICCR2_RS: u8 = 0x04;
/// `ICCR2.ST`: request a START.
pub const ICCR2_ST: u8 = 0x02;
/// `ICMR3.WAIT`: hold SCL low after each received byte until `ICDRR` is read.
pub const ICMR3_WAIT: u8 = 0x40;
/// `ICMR3.ACKWP`: `ACKBT` may be written.
pub const ICMR3_ACKWP: u8 = 0x10;
/// `ICMR3.ACKBT`: answer the next byte with a NACK.
pub const ICMR3_ACKBT: u8 = 0x08;
/// The `ICMR3` value of an idle master: `RDRFS` and `WAIT` clear, ACK armed
/// (`ACKWP` set so that `ACKBT` = 0 is taken).
pub const ICMR3_IDLE: u8 = 0x10;

impl BitRate {
    /// The `ICMR1` value: `CKS` in bits 4..=6, `BCWP` (bit 3) at its reset value of
    /// 1, everything else 0.
    pub fn icmr1(&self) -> (r: u8)
        ensures
            r == 0x08 | ((self.cks & 7) << 4u8),
            (r >> 4u8) & 7 == self.cks & 7,
            r & 0x8f == 0x08,
    {
        let k = self.cks;
        let c = k & 7;
        assert(c < 8) by (bit_vector)
            requires
                c == k & 7,
        ;
        let r = 0x08u8 | (c << 4u8);
        assert((r >> 4u8) & 7 == c && r & 0x8f == 0x08) by (bit_vector)
            requires
                r == 0x08u8 | (c << 4u8),
                c < 8,
        ;
        r
    }

    /// The `ICBRH` value: `BRH` in bits 0..=4, the reserved bits 5..=7 at 1.
    pub fn icbrh(&self) -> (r: u8)
        ensures
            r == 0xE0 | (self.brh & 0x1f),
            r & 0x1f == self.brh & 0x1f,
            r & 0xE0 == 0xE0,
    {
        let v = self.brh;
        let r = 0xE0u8 | (v & 0x1f);
        assert(r & 0x1f == v & 0x1f && r & 0xE0 == 0xE0) by (bit_vector)
            requires
                r == 0xE0u8 | (v & 0x1f),
        ;
        r
    }

    /// The `ICBRL` value: `BRL` in bits 0..=4, the reserved bits 5..=7 at 1.
    pub fn icbrl(&self) -> (r: u8)
        ensures
            r == 0xE0 | (self.brl & 0x1f),
            r & 0x1f == self.brl & 0x1f,
            r & 0xE0 == 0xE0,
    {
        let v = self.brl;
        let r = 0xE0u8 | (v & 0x1f);
        assert(r & 0x1f == v & 0x1f && r & 0xE0 == 0xE0) by (bit_vector)
            requires
                r == 0xE0u8 | (v & 0x1f),
        ;
        r
    }
}

impl Config {
    /// The `ICFER` value: `SCLE` (SCL synchronisation) and `NACKE` (stop
    /// transmitting on a NACK) set, `NFE` (noise filter) as configured, and the
    /// timeout and arbitration-loss detections off.
    pub fn icfer(&self) -> (r: u8)
        ensures
            r == 0x50u8 | if self.noise_filter { 0x20u8 } else { 0u8 },
            (r & 0x20 != 0) == self.noise_filter,
            r & 0x50 == 0x50,
            r & 0x8f == 0,
    {
        let nfe: u8 = if self.noise_filter { 0x20 } else { 0 };
        let r = 0x50u8 | nfe;
        assert((r & 0x20 != 0) == (nfe == 0x20) && r & 0x50 == 0x50 && r & 0x8f == 0) by (bit_vector)
            requires
                r == 0x50u8 | nfe,
                nfe == 0 || nfe == 0x20,
        ;
        r
    }
}

/// `ICMR3` once the clock is to be held after the next byte: `WAIT` set.
pub fn icmr3_hold(icmr3: u8) -> (r: u8)
    ensures
        r == icmr3 | ICMR3_WAIT,
{
    icmr3 | ICMR3_WAIT
}

/// `ICMR3` answering the next byte with a NACK: `ACKBT` set, with `ACKWP` in the
/// same write.
pub fn icmr3_nack(icmr3: u8) -> (r: u8)
    ensures
        r == icmr3 | ICMR3_ACKWP | ICMR3_ACKBT,
{
    icmr3 | ICMR3_ACKWP | ICMR3_ACKBT
}

/// `ICMR3` releasing the held clock: `WAIT` cleared.
pub fn icmr3_release(icmr3: u8) -> (r: u8)
    ensures
        r == icmr3 & !ICMR3_WAIT,
{
    icmr3 & !ICMR3_WAIT
}

/// `ICMR3` answering bytes with an ACK again: `ACKBT` cleared, with `ACKWP` set in
/// the same write.
pub fn icmr3_ack(icmr3: u8) -> (r: u8)
    ensures
        r == (icmr3 | ICMR3_ACKWP) & !ICMR3_ACKBT,
{
    (icmr3 | ICMR3_ACKWP) & !ICMR3_ACKBT
}

// --- Status --------------------------------------------------------------------

/// `ICSR2.TDRE`: the transmit data register is empty.
pub const ICSR2_TDRE: u8 = 0x80;
/// `ICSR2.TEND`: transmission has ended.
pub const ICSR2_TEND: u8 = 0x40;
/// `ICSR2.RDRF`: a received byte is waiting.
pub const ICSR2_RDRF: u8 = 0x20;
/// `ICSR2.NACKF`: a NACK was detected.
pub const ICSR2_NACKF: u8 = 0x10;
/// `ICSR2.STOP`: a stop condition was detected.
pub const ICSR2_STOP: u8 = 0x08;
/// `ICSR2.AL`: arbitration was lost.
pub const ICSR2_AL: u8 = 0x02;

/// The outcome of a transfer step given the `ICSR2` value read after it: lost
/// arbitration wins over a NACK, which is reported as `source`.
pub fn check_nack(icsr2: u8, source: Error) -> (r: Result<(), Error>)
    ensures
        icsr2 & ICSR2_AL != 0 ==> r == Err::<(), Error>(Error::ArbitrationLoss),
        icsr2 & ICSR2_AL == 0 && icsr2 & ICSR2_NACKF != 0 ==> r == Err::<(), Error>(source),
        icsr2 & ICSR2_AL == 0 && icsr2 & ICSR2_NACKF == 0 ==> r is Ok,
{
    if icsr2 & ICSR2_AL != 0 {
        return Err(Error::ArbitrationLoss);
    }
    if icsr2 & ICSR2_NACKF != 0 {
        return Err(source);
    }
    Ok(())
}

/// The `ICSR2` value that clears the latched STOP, NACK and arbitration-loss flags
/// and keeps every other bit as read.
pub fn clear_status(icsr2: u8) -> (r: u8)
    ensures
        r == icsr2 & !(ICSR2_STOP | ICSR2_NACKF | ICSR2_AL),
        r & (ICSR2_STOP | ICSR2_NACKF | ICSR2_AL) == 0,
{
    let r = icsr2 & !(ICSR2_STOP | ICSR2_NACKF | ICSR2_AL);
    assert(r & (0x08u8 | 0x10u8 | 0x02u8) == 0) by (bit_vector)
        requires
            r == icsr2 & !(0x08u8 | 0x10u8 | 0x02u8),
    ;
    r
}

/// The address phase of a read is over once the first data byte has started
/// arriving, or a NACK or an arbitration loss shows up.
pub fn read_address_done(icsr2: u8) -> (r: bool)
    ensures
        r == (icsr2 & ICSR2_RDRF != 0 || icsr2 & ICSR2_NACKF != 0 || icsr2 & ICSR2_AL != 0),
{
    icsr2 & ICSR2_RDRF != 0 || icsr2 & ICSR2_NACKF != 0 || icsr2 & ICSR2_AL != 0
}

/// The address byte: the 7-bit address shifted up, with the read bit below it.
pub fn address_byte(address: u8, read: bool) -> (r: u8)
    ensures
        r == ((address as int * 2) % 256) + if read { 1int } else { 0int },
        address < 128 ==> r >> 1u8 == address,
        (r & 1 == 1) == read,
{
    let shifted: u8 = address << 1u8;
    let bit: u8 = if read { 1 } else { 0 };
    let r = shifted | bit;
    assert(shifted == (address as int * 2) % 256) by (bit_vector)
        requires
            shifted == address << 1u8,
    ;
    assert(r == shifted + bit && (r & 1 == 1) == (bit == 1) && (address < 128 ==> r >> 1u8 == address)) by (bit_vector)
        requires
            shifted == address << 1u8,
            r == shifted | bit,
            bit <= 1,
    ;
    r
}

// --- Transactions --------------------------------------------------------------

/// The shape of one operation of a transaction: its direction and length.
#[derive(Clone, Copy, PartialEq, Eq, Debug, Structural)]
pub enum OpKind {
    /// Read this many bytes.
    Read(usize),
    /// Write this many bytes.
    Write(usize),
}

impl OpKind {
    /// Is it a read?
    pub open spec fn spec_is_read(self) -> bool {
        self is Read
    }

    /// The bytes it reads: its length for a read, 0 for a write.
    pub open spec fn spec_read_len(self) -> int {
        match self {
            OpKind::Read(n) => n as int,
            OpKind::Write(_) => 0,
        }
    }

    /// Is it a read?
    pub fn is_read(&self) -> (r: bool)
        ensures
            r == self.spec_is_read(),
    {
        match self {
            OpKind::Read(_) => true,
            OpKind::Write(_) => false,
        }
    }
}

/// The bytes read by `ops[lo..hi]`.
pub open spec fn read_total(ops: Seq<OpKind>, lo: int, hi: int) -> int
    decreases hi - lo,
{
    if hi <= lo {
        0
    } else {
        read_total(ops, lo, hi - 1) + ops[hi - 1].spec_read_len()
    }
}

/// How a run of operations ends.
#[derive(Clone, Copy, PartialEq, Eq, Debug, Structural)]
pub enum Finish {
    /// Last run of the transaction: emit a STOP.
    Stop,
    /// Another run follows with the opposite direction: emit a repeated START.
    Restart,
}

/// How a run of operations begins.
#[derive(Clone, Copy, PartialEq, Eq, Debug, Structural)]
pub enum Opening {
    /// First run of the transaction: wait for the bus to go idle and emit a START.
    Start,
    /// A later run: we already hold the bus, so emit a repeated START.
    RepeatedStart,
}

/// A maximal run of same-direction operations, carried out as one bus transfer
/// with no repeated start inside it.
#[derive(Clone, Copy, PartialEq, Eq, Debug, Structural)]
pub struct Run {
    /// Index of the run's first operation.
    pub start: usize,
    /// One past the index of its last operation.
    pub end: usize,
    /// Direction of every operation in the run.
    pub is_read: bool,
    /// Bytes read by the run (0 for a write run), needed before its first byte is
    /// clocked in.
    pub total: usize,
    /// How the run begins: START for the first run, a repeated START otherwise.
    pub opening: Opening,
    /// How the run ends: STOP for the last run, a repeated START otherwise.
    pub finish: Finish,
}

impl Run {
    /// Does the run end with a STOP once its last byte is out? Only the last run,
    /// and only when it writes: a read run queues its STOP while its final byte is
    /// held (see [`read_byte_step`]).
    pub fn stop_after(&self) -> (r: bool)
        ensures
            r == (!self.is_read && self.finish == Finish::Stop),
    {
        !self.is_read && self.finish == Finish::Stop
    }
}

/// `runs` cuts `ops` into maximal same-direction runs, in order.
pub open spec fn runs_partition(ops: Seq<OpKind>, runs: Seq<Run>) -> bool {
    &&& ops.len() == 0 <==> runs.len() == 0
    &&& runs.len() > 0 ==> runs[0].start == 0 && runs[runs.len() - 1].end == ops.len()
    &&& forall|i: int|
        #![trigger runs[i]]
        0 <= i < runs.len() ==> {
            &&& runs[i].start < runs[i].end <= ops.len()
            &&& forall|k: int| runs[i].start <= k < runs[i].end ==> #[trigger] ops[k].spec_is_read() == runs[i].is_read
            &&& runs[i].total == if runs[i].is_read { read_total(ops, runs[i].start as int, runs[i].end as int) } else { 0 }
            &&& runs[i].finish == if i == runs.len() - 1 { Finish::Stop } else { Finish::Restart }
            &&& runs[i].opening == if i == 0 { Opening::Start } else { Opening::RepeatedStart }
        }
    &&& forall|i: int| 0 <= i < runs.len() - 1 ==> #[trigger] adjacent_runs(runs, i)
}

/// Run `i + 1` starts where run `i` ends, in the other direction.
pub open spec fn adjacent_runs(runs: Seq<Run>, i: int) -> bool {
    runs[i].end == runs[i + 1].start && runs[i].is_read != runs[i + 1].is_read
}

proof fn lemma_read_total_mono(ops: Seq<OpKind>, lo: int, mid: int, hi: int)
    requires
        lo <= mid <= hi,
    ensures
        read_total(ops, lo, mid) <= read_total(ops, lo, hi),
        read_total(ops, mid, hi) == read_total(ops, lo, hi) - read_total(ops, lo, mid),
    decreases hi - mid,
{
    if mid < hi {
        lemma_read_total_mono(ops, lo, mid, hi - 1);
        assert(ops[hi - 1].spec_read_len() >= 0);
    }
}

/// Group a transaction's operations into bus transfers.
///
/// `embedded-hal` merges consecutive operations of the same type into one transfer
/// with no repeated start between them. The first transfer opens with a START, each
/// later one with a repeated START, and the last ends with a STOP. A read run's
/// total length is computed up front, because the NACK that ends it has to be armed
/// a byte early.
pub fn plan_runs(ops: &[OpKind]) -> (runs: Vec<Run>)
    requires
        read_total(ops@, 0, ops@.len() as int) <= usize::MAX,
    ensures
        runs_partition(ops@, runs@),
{
    let len = ops.len();
    let mut runs: Vec<Run> = Vec::new();
    let mut i: usize = 0;
    while i < len
        invariant
            i <= len,
            len == ops@.len(),
            read_total(ops@, 0, len as int) <= usize::MAX,
            runs@.len() == 0 <==> i == 0,
            runs@.len() > 0 ==> runs@[0].start == 0 && runs@[runs@.len() - 1].end == i,
            forall|r: int|
                #![trigger runs@[r]]
                0 <= r < runs@.len() ==> {
                    &&& runs@[r].start < runs@[r].end <= i
                    &&& forall|k: int| runs@[r].start <= k < runs@[r].end ==> #[trigger] ops@[k].spec_is_read() == runs@[r].is_read
                    &&& runs@[r].total == if runs@[r].is_read { read_total(ops@, runs@[r].start as int, runs@[r].end as int) } else { 0 }
                    &&& runs@[r].finish == if runs@[r].end == len { Finish::Stop } else { Finish::Restart }
                    &&& runs@[r].opening == if r == 0 { Opening::Start } else { Opening::RepeatedStart }
                },
            forall|r: int| 0 <= r < runs@.len() - 1 ==> #[trigger] adjacent_runs(runs@, r),
            i < len && runs@.len() > 0 ==> ops@[i as int].spec_is_read() != runs@[runs@.len() - 1].is_read,
        decreases len - i,
    {
        let is_read = ops[i].is_read();
        let mut j = i + 1;
        let mut total: usize = ops_read_len(&ops[i]);
        proof {
            lemma_read_total_mono(ops@, 0, i as int, len as int);
            lemma_read_total_mono(ops@, i as int, (i + 1) as int, len as int);
            lemma_read_total_mono(ops@, 0, (i + 1) as int, len as int);
            assert(read_total(ops@, i as int, i as int + 1) == ops@[i as int].spec_read_len());
        }
        while j < len && ops[j].is_read() == is_read
            invariant
                i < j <= len,
                len == ops@.len(),
                read_total(ops@, 0, len as int) <= usize::MAX,
                is_read == ops@[i as int].spec_is_read(),
                forall|k: int| i <= k < j ==> #[trigger] ops@[k].spec_is_read() == is_read,
                total == read_total(ops@, i as int, j as int),
            decreases len - j,
        {
            proof {
                lemma_read_total_mono(ops@, 0, 0, i as int);
                lemma_read_total_mono(ops@, i as int, (j + 1) as int, len as int);
                lemma_read_total_mono(ops@, 0, i as int, len as int);
                lemma_read_total_mono(ops@, 0, i as int, (j + 1) as int);
                assert(read_total(ops@, i as int, j as int + 1) == total + ops@[j as int].spec_read_len());
            }
            total = total + ops_read_len(&ops[j]);
            j = j + 1;
        }
        let finish = if j == len { Finish::Stop } else { Finish::Restart };
        let run_total = if is_read { total } else { 0 };
        let ghost old_runs = runs@;
        let opening = if runs.len() == 0 { Opening::Start } else { Opening::RepeatedStart };
        let run = Run { start: i, end: j, is_read, total: run_total, opening, finish };
        assert(run.finish == if run.end == len { Finish::Stop } else { Finish::Restart });
        runs.push(run);
        proof {
            assert(runs@ == old_runs.push(run));
            assert forall|r: int| #![trigger runs@[r]] 0 <= r < runs@.len() implies runs@[r].start < runs@[r].end <= j && runs@[r].finish == if runs@[r].end == len { Finish::Stop } else { Finish::Restart } by {
                if r < old_runs.len() {
                    assert(runs@[r] == old_runs[r]);
                    assert(old_runs[r].end <= i);
                } else {
                    assert(runs@[r] == run);
                }
            }
            assert forall|r: int| 0 <= r < runs@.len() - 1 implies adjacent_runs(runs@, r) by {
                assert(runs@[r] == old_runs[r]);
                if r < old_runs.len() - 1 {
                    assert(runs@[r + 1] == old_runs[r + 1]);
                    assert(adjacent_runs(old_runs, r));
                } else {
                    assert(runs@[r + 1] == run);
                }
            }
        }
        i = j;
    }
    proof {
        assert forall|r: int| 0 <= r < runs@.len() implies runs@[r].finish == if r == runs@.len() - 1 { Finish::Stop } else { Finish::Restart } by {
            assert(runs@[r].start < runs@[r].end <= i);
            if r < runs@.len() - 1 {
                assert(adjacent_runs(runs@, r));
                assert(runs@[r + 1].start < runs@[r + 1].end <= i);
            }
        }
    }
    runs
}

fn ops_read_len(op: &OpKind) -> (r: usize)
    ensures
        r == op.spec_read_len(),
{
    match op {
        OpKind::Read(n) => *n,
        OpKind::Write(_) => 0,
    }
}

/// What to do around one byte of a read run, before the byte is read out of
/// `ICDRR`.
#[derive(Clone, Copy, PartialEq, Eq, Debug, Structural)]
pub struct ByteStep {
    /// The next read of `ICDRR` starts the final byte: NACK it, and hold the clock
    /// (`WAIT`) once it has arrived.
    pub arm_nack: bool,
    /// This is the final byte and SCL is held: queue the STOP or repeated START
    /// first, so it goes out the moment the clock is released.
    pub queue_finish: bool,
}

/// Start a read run of `total` bytes: `Ok(true)` when the NACK has to be armed
/// before the dummy read that starts the only byte, `Ok(false)` when it is armed
/// later, and [`Error::ZeroLengthRead`] when there is nothing to read.
pub fn read_run_start(total: usize) -> (r: Result<bool, Error>)
    ensures
        total == 0 <==> r == Err::<bool, Error>(Error::ZeroLengthRead),
        total > 0 ==> r == Ok::<bool, Error>(total == 1),
        r matches Ok(arm) ==> arm == nack_armed_at(total as int, -1),
{
    if total == 0 {
        return Err(Error::ZeroLengthRead);
    }
    Ok(total == 1)
}

/// The step for byte `index` of a read run of `total` bytes.
pub fn read_byte_step(index: usize, total: usize) -> (r: ByteStep)
    requires
        index < total,
    ensures
        r.arm_nack == (index + 2 == total),
        r.queue_finish == (index + 1 == total),
        r.arm_nack == nack_armed_at(total as int, index as int),
        r.queue_finish == finish_queued_at(total as int, index as int),
{
    ByteStep { arm_nack: total - index == 2, queue_finish: index + 1 == total }
}

/// How the end of a run is put on the bus.
#[derive(Clone, Copy, PartialEq, Eq, Debug, Structural)]
pub struct FinishRequest {
    /// Clear the latched `ICSR2.STOP` flag first, so the new STOP can be seen.
    pub clear_stop_flag: bool,
    /// The `ICCR2` request bit to set: `SP` for a STOP, `RS` for a repeated START.
    pub iccr2_bit: u8,
    /// Once the clock is released, wait for `ICSR2.STOP` and then clear the latched
    /// status flags ([`clear_status`]).
    pub await_stop: bool,
}

/// The requests that end a run: a STOP clears the old STOP flag, sets `SP` and is
/// awaited; a repeated START sets `RS` and is not awaited, because the next run's
/// address follows it.
pub fn finish_request(finish: Finish) -> (r: FinishRequest)
    ensures
        r == (match finish {
            Finish::Stop => FinishRequest { clear_stop_flag: true, iccr2_bit: ICCR2_SP, await_stop: true },
            Finish::Restart => FinishRequest { clear_stop_flag: false, iccr2_bit: ICCR2_RS, await_stop: false },
        }),
{
    match finish {
        Finish::Stop => FinishRequest { clear_stop_flag: true, iccr2_bit: ICCR2_SP, await_stop: true },
        Finish::Restart => FinishRequest { clear_stop_flag: false, iccr2_bit: ICCR2_RS, await_stop: false },
    }
}

/// Does a transaction of `op_count` operations touch the bus? An empty one does
/// nothing and succeeds.
pub fn transaction_needs_bus(op_count: usize) -> (r: bool)
    ensures
        r == (op_count > 0),
{
    op_count > 0
}

/// The end of a transaction that ran: whether to force a STOP (abort) so the bus is
/// left usable, and what to report. A failed transaction is aborted, the abort's
/// own result is discarded, and the error that stopped the transaction is the one
/// reported; a successful one is reported as is.
pub fn transaction_outcome(result: Result<(), Error>) -> (r: (bool, Result<(), Error>))
    ensures
        r.0 == (result is Err),
        r.1 == result,
{
    let abort = match result {
        Ok(_) => false,
        Err(_) => true,
    };
    (abort, result)
}

/// Where a read run arms its NACK: before the dummy read (`at == -1`) or before
/// reading byte `at`.
pub open spec fn nack_armed_at(total: int, at: int) -> bool {
    if at == -1 {
        total == 1
    } else {
        at + 2 == total
    }
}

/// Whether the STOP or repeated START is queued before reading byte `at` of a
/// read run of `total` bytes.
pub open spec fn finish_queued_at(total: int, at: int) -> bool {
    at + 1 == total
}

/// A read run of one or more bytes, stepped by [`read_run_start`] and then
/// [`read_byte_step`] for each byte, arms its NACK exactly once, at the read that
/// starts its final byte (before the dummy read when there is only one), and
/// queues its STOP or repeated START exactly once, while its final byte is held.
pub proof fn lemma_read_run_schedule(total: int)
    requires
        total >= 1,
    ensures
        forall|at: int| -1 <= at < total ==> (#[trigger] nack_armed_at(total, at) <==> at == total - 2),
        forall|at: int| 0 <= at < total ==> (#[trigger] finish_queued_at(total, at) <==> at == total - 1),
{
}

} // verus!
