use vstd::prelude::*;

use crate::commands::{
    COLUMN_ADDRESS_SET, DISPLAY_FUNCTION_CONTROL, DISPLAY_OFF, DISPLAY_ON,
    DRIVER_TIMING_CONTROL_A, DRIVER_TIMING_CONTROL_B, ENABLE_3G, ENTER_SLEEP_MODE,
    FRAME_CONTROL_NORMAL_MODE, GAMMA_SET, MEMORY_ACCESS_CONTROL, MEMORY_WRITE,
    NEGATIVE_GAMMA_CORRECTION, PAGE_ADDRESS_SET, PIXEL_FORMAT_SET, POSITIVE_GAMMA_CORRECTION,
    POWER_CONTROL_1, POWER_CONTROL_2, POWER_CONTROL_A, POWER_CONTROL_B, POWER_ON_SEQ_CONTROL,
    PUMP_RATIO_CONTROL, SET_TEAR_SCANLINE, SLEEP_OUT, VCOM_CONTROL_1, VCOM_CONTROL_2,
};
use crate::utils::{high_byte, low_byte, u16_to_bytes};

verus! {

/// Width of the panel in its default orientation.
pub const COLUMNS: u16 = 240;

/// Height of the panel in its default orientation.
pub const PAGES: u16 = 320;

#[derive(Clone, Copy, Debug, PartialEq, Eq, Structural)]
pub enum LcdError {
    PinError,
    SpiError,
}

/// Display rotation, where Rotate0 is the default vertical orientation.
/// Enum variants represent clock-wise rotation angles.
#[derive(Clone, Copy, Debug, PartialEq, Eq, Structural)]
pub enum LcdOrientation {
    Rotate0,
    Rotate90,
    Rotate180,
    Rotate270,
}

/// One action on the panel's hardware: a pin level, a wait, a bus transmit
/// or a backlight level.
#[derive(Debug)]
pub enum Op {
    /// Drive the reset line, high when `true`.
    Reset(bool),
    /// Wait for the given number of milliseconds.
    Delay(u32),
    /// Drive the data/command selector: `true` selects data, `false` a command.
    Select(bool),
    /// Transmit these bytes on the serial bus.
    Transmit(Vec<u8>),
    /// Set the backlight duty cycle.
    Backlight(u16),
}

/// The mathematical value of an [`Op`].
pub enum Signal {
    Reset(bool),
    Delay(u32),
    Select(bool),
    Transmit(Seq<u8>),
    Backlight(u16),
}

impl View for Op {
    type V = Signal;

    open spec fn view(&self) -> Signal {
        match self {
            Op::Reset(l) => Signal::Reset(*l),
            Op::Delay(ms) => Signal::Delay(*ms),
            Op::Select(d) => Signal::Select(*d),
            Op::Transmit(b) => Signal::Transmit(b@),
            Op::Backlight(v) => Signal::Backlight(*v),
        }
    }
}

/// The signals that a sequence of actions stands for.
pub open spec fn signals(ops: Seq<Op>) -> Seq<Signal> {
    ops.map_values(|o: Op| o@)
}

/// The error reported when performing this signal fails.
pub open spec fn failure_kind(s: Signal) -> LcdError {
    match s {
        Signal::Transmit(_) => LcdError::SpiError,
        _ => LcdError::PinError,
    }
}

/// What remains queued, and what the operation returns, once the hardware
/// has reported on the first queued signal.
pub open spec fn step(queue: Seq<Signal>, succeeded: bool) -> (Seq<Signal>, Option<Result<(), LcdError>>) {
    if succeeded {
        let rest = queue.drop_first();
        (rest, if rest.len() == 0 { Some(Ok(())) } else { None })
    } else {
        (Seq::empty(), Some(Err(failure_kind(queue[0]))))
    }
}

/// Selector low, then the opcode alone on the bus.
pub open spec fn command_signals(cmd: u8) -> Seq<Signal> {
    seq![Signal::Select(false), Signal::Transmit(seq![cmd])]
}

/// Selector high, then the payload on the bus.
pub open spec fn data_signals(data: Seq<u8>) -> Seq<Signal> {
    seq![Signal::Select(true), Signal::Transmit(data)]
}

/// Each parameter byte sent as a payload of its own.
pub open spec fn params_signals(params: Seq<u8>) -> Seq<Signal>
    decreases params.len(),
{
    if params.len() == 0 {
        Seq::empty()
    } else {
        params_signals(params.drop_last()) + data_signals(seq![params.last()])
    }
}

/// A command followed by its parameter bytes.
pub open spec fn register_signals(cmd: u8, params: Seq<u8>) -> Seq<Signal> {
    command_signals(cmd) + params_signals(params)
}

/// Inclusive end of a window from its exclusive end: `max(start, end - 1)`,
/// where `end - 1` stops at zero.
pub open spec fn window_end(start: u16, end: u16) -> u16 {
    if end == 0 || end - 1 < start {
        start
    } else {
        (end - 1) as u16
    }
}

/// Two 16-bit bounds, each high byte first.
pub open spec fn bounds_bytes(first: u16, last: u16) -> Seq<u8> {
    seq![high_byte(first), low_byte(first), high_byte(last), low_byte(last)]
}

/// Column range, page range, then the memory write that opens the transfer.
pub open spec fn window_signals(x0: u16, y0: u16, x1: u16, y1: u16) -> Seq<Signal> {
    command_signals(COLUMN_ADDRESS_SET) + data_signals(bounds_bytes(x0, window_end(x0, x1)))
        + command_signals(PAGE_ADDRESS_SET) + data_signals(bounds_bytes(y0, window_end(y0, y1)))
        + command_signals(MEMORY_WRITE)
}

/// The hardware reset pulse with its settling delays.
pub open spec fn reset_signals() -> Seq<Signal> {
    seq![
        Signal::Delay(200),
        Signal::Reset(false),
        Signal::Delay(200),
        Signal::Reset(true),
        Signal::Delay(200),
    ]
}

/// Four pixels of one color, each high byte first.
pub open spec fn fill_chunk(color: u16) -> Seq<u8> {
    let h = high_byte(color);
    let l = low_byte(color);
    seq![h, l, h, l, h, l, h, l]
}

/// Number of four-pixel chunks that cover `w * h` pixels.
pub open spec fn chunk_count(w: u16, h: u16) -> nat {
    ((w as nat * h as nat + 3) / 4) as nat
}

/// A window, then the color repeated in four-pixel chunks over it.
pub open spec fn fill_rect_signals(x: u16, y: u16, w: u16, h: u16, color: u16) -> Seq<Signal> {
    window_signals(x, y, (x + w) as u16, (y + h) as u16) + seq![Signal::Select(true)] + Seq::new(
        chunk_count(w, h),
        |i: int| Signal::Transmit(fill_chunk(color)),
    )
}

/// A window, then the pixel data verbatim.
pub open spec fn sprite_signals(x: u16, y: u16, w: u16, h: u16, data: Seq<u8>) -> Seq<Signal> {
    window_signals(x, y, (x + w) as u16, (y + h) as u16) + data_signals(data)
}

/// Logical (width, height) for an orientation.
pub open spec fn size_of(o: LcdOrientation) -> (u16, u16) {
    match o {
        LcdOrientation::Rotate0 | LcdOrientation::Rotate180 => (COLUMNS, PAGES),
        LcdOrientation::Rotate90 | LcdOrientation::Rotate270 => (PAGES, COLUMNS),
    }
}

/// Memory-access-control byte for an orientation: row/column order bits and
/// the BGR bit.
pub open spec fn madctl_of(o: LcdOrientation) -> u8 {
    match o {
        LcdOrientation::Rotate0 => 0x08,
        LcdOrientation::Rotate90 => 0x68,
        LcdOrientation::Rotate180 => 0xC8,
        LcdOrientation::Rotate270 => 0xA8,
    }
}

/// Power, driver timing and VCOM registers of the power-up sequence.
pub open spec fn power_setup_signals() -> Seq<Signal> {
    register_signals(POWER_CONTROL_B, seq![0x00, 0xC1, 0x30])
        + register_signals(POWER_ON_SEQ_CONTROL, seq![0x64, 0x03, 0x12, 0x81])
        + register_signals(DRIVER_TIMING_CONTROL_A, seq![0x85, 0x00, 0x79])
        + register_signals(POWER_CONTROL_A, seq![0x39, 0x2C, 0x00, 0x34, 0x02])
        + register_signals(PUMP_RATIO_CONTROL, seq![0x20])
        + register_signals(DRIVER_TIMING_CONTROL_B, seq![0x00, 0x00])
        + register_signals(POWER_CONTROL_1, seq![0x1D])
        + register_signals(POWER_CONTROL_2, seq![0x12])
        + register_signals(VCOM_CONTROL_1, seq![0x33, 0x3F])
        + register_signals(VCOM_CONTROL_2, seq![0x92])
}

/// Pixel format and memory access control for an orientation.
pub open spec fn format_signals(o: LcdOrientation) -> Seq<Signal> {
    register_signals(PIXEL_FORMAT_SET, seq![0x55]) + register_signals(
        MEMORY_ACCESS_CONTROL,
        seq![madctl_of(o)],
    )
}

/// Frame rate, display function and tearing scanline registers.
pub open spec fn timing_signals() -> Seq<Signal> {
    register_signals(FRAME_CONTROL_NORMAL_MODE, seq![0x00, 0x12]) + register_signals(
        DISPLAY_FUNCTION_CONTROL,
        seq![0x0A, 0xA2],
    ) + register_signals(SET_TEAR_SCANLINE, seq![0x02])
}

/// Gamma curve selection and the positive and negative correction tables.
pub open spec fn gamma_signals() -> Seq<Signal> {
    register_signals(ENABLE_3G, seq![0x00]) + register_signals(GAMMA_SET, seq![0x01])
        + register_signals(
        POSITIVE_GAMMA_CORRECTION,
        seq![
            0x0F, 0x22, 0x1C, 0x1B, 0x08, 0x0F, 0x48, 0xB8, 0x34, 0x05, 0x0C, 0x09, 0x0F, 0x07, 0x00,
        ],
    ) + register_signals(
        NEGATIVE_GAMMA_CORRECTION,
        seq![
            0x00, 0x23, 0x24, 0x07, 0x10, 0x07, 0x38, 0x47, 0x4B, 0x0A, 0x13, 0x06, 0x30, 0x38, 0x0F,
        ],
    )
}

/// The whole power-up sequence: reset pulse, wake, register setup, display
/// on, gamma, then full backlight.
pub open spec fn init_signals(o: LcdOrientation) -> Seq<Signal> {
    reset_signals() + command_signals(SLEEP_OUT) + power_setup_signals() + format_signals(o)
        + timing_signals() + command_signals(DISPLAY_ON) + gamma_signals() + seq![
        Signal::Backlight(255),
    ]
}

/// The inclusive end of a window never comes before its start, whatever the
/// exclusive end, and is the exclusive end less one when that lies past the
/// start.
pub proof fn window_end_clamped(start: u16, end: u16)
    ensures
        start <= window_end(start, end),
        end > start ==> window_end(start, end) == end - 1,
        end <= start ==> window_end(start, end) == start,
{
}

/// A fill sends whole four-pixel chunks: enough to cover every pixel of the
/// rectangle, and fewer than four pixels more.
pub proof fn fill_chunks_cover_rect(w: u16, h: u16)
    ensures
        4 * chunk_count(w, h) >= w as nat * h as nat,
        4 * chunk_count(w, h) < w as nat * h as nat + 4,
{
}

/// Performing a queued operation: each action that succeeds moves on to the
/// next one without ending the operation before the last, and a transmit
/// that fails ends it with a bus error and leaves nothing further to do.
/// Said here of the power-up sequence, for any orientation and any failing
/// transmit in it.
pub proof fn init_stops_at_failed_transmit(o: LcdOrientation, n: int)
    requires
        0 <= n < init_signals(o).len(),
        init_signals(o)[n] is Transmit,
    ensures
        forall|k: int|
            0 <= k < n ==> #[trigger] step(init_signals(o).skip(k), true) == (
                init_signals(o).skip(k + 1),
                None::<Result<(), LcdError>>,
            ),
        step(init_signals(o).skip(n), false) == (
            Seq::<Signal>::empty(),
            Some(Err::<(), LcdError>(LcdError::SpiError)),
        ),
{
    let q = init_signals(o);
    assert forall|k: int| 0 <= k < n implies #[trigger] step(q.skip(k), true) == (
        q.skip(k + 1),
        None::<Result<(), LcdError>>,
    ) by {
        assert(q.skip(k).drop_first() =~= q.skip(k + 1));
    }
    assert(q.skip(n)[0] == q[n]);
}

proof fn lemma_signals_push(ops: Seq<Op>, o: Op)
    ensures
        signals(ops.push(o)) == signals(ops).push(o@),
{
    assert(signals(ops.push(o)) =~= signals(ops).push(o@));
}

/// Panel controller.
///
/// Every operation queues the hardware actions it consists of; the owner of
/// the bus and pins performs them in order through [`Lcd::pending`] and
/// reports each outcome through [`Lcd::report`]. The first failure ends the
/// operation with its error.
pub struct Lcd {
    pub(crate) orientation: LcdOrientation,
    pub(crate) program: Vec<Op>,
    pub(crate) next: usize,
}

impl Lcd {
    /// The actions queued so far but not yet reported on.
    pub closed spec fn queued(&self) -> Seq<Signal> {
        signals(self.program@).skip(self.next as int)
    }

    pub closed spec fn orientation_spec(&self) -> LcdOrientation {
        self.orientation
    }

    pub closed spec fn wf(&self) -> bool {
        self.next <= self.program.len()
    }

    pub(crate) closed spec fn log(&self) -> Seq<Signal> {
        signals(self.program@)
    }

    /// With nothing reported on yet, what is queued is everything logged.
    pub(crate) proof fn lemma_fresh(&self)
        ensures
            self.next == 0 ==> self.wf() && self.queued() == self.log(),
            self.orientation_spec() == self.orientation,
    {
        if self.next == 0 {
            assert(self.queued() =~= self.log());
        }
    }

    pub fn new() -> (lcd: Self)
        ensures
            lcd.wf(),
            lcd.orientation_spec() == LcdOrientation::Rotate0,
            lcd.queued() == Seq::<Signal>::empty(),
    {
        let lcd = Lcd { orientation: LcdOrientation::Rotate0, program: Vec::new(), next: 0 };
        assert(lcd.queued() =~= Seq::<Signal>::empty());
        lcd
    }

    /// Sets display's rotation; meant to be called before initialization.
    pub fn with_orientation(self, orientation: LcdOrientation) -> (lcd: Self)
        requires
            self.wf(),
        ensures
            lcd.wf(),
            lcd.orientation_spec() == orientation,
            lcd.queued() == self.queued(),
    {
        let mut lcd = self;
        lcd.orientation = orientation;
        lcd
    }

    /// Logical (width, height) in the current orientation.
    pub fn size(&self) -> (r: (u16, u16))
        ensures
            r == size_of(self.orientation_spec()),
    {
        match self.orientation {
            LcdOrientation::Rotate0 | LcdOrientation::Rotate180 => (COLUMNS, PAGES),
            LcdOrientation::Rotate90 | LcdOrientation::Rotate270 => (PAGES, COLUMNS),
        }
    }

    /// Memory-access-control byte for the current orientation.
    pub fn memory_access_control_value(&self) -> (r: u8)
        ensures
            r == madctl_of(self.orientation_spec()),
    {
        let orientation: u8 = match self.orientation {
            LcdOrientation::Rotate0 => 0b00000000,
            LcdOrientation::Rotate90 => 0b01100000,
            LcdOrientation::Rotate180 => 0b11000000,
            LcdOrientation::Rotate270 => 0b10100000,
        };
        let r = orientation | 0b00001000;
        assert(0u8 | 8u8 == 8u8 && 0x60u8 | 8u8 == 0x68u8 && 0xC0u8 | 8u8 == 0xC8u8 && 0xA0u8 | 8u8
            == 0xA8u8) by (bit_vector);
        r
    }

    /// The next action to perform, if any.
    pub fn pending(&self) -> (r: Option<&Op>)
        requires
            self.wf(),
        ensures
            r is None <==> self.queued().len() == 0,
            r matches Some(o) ==> o@ == self.queued()[0],
    {
        if self.next < self.program.len() {
            Some(&self.program[self.next])
        } else {
            None
        }
    }

    /// Takes the hardware's outcome for the pending action. Returns the
    /// result of the operation once it has ended: `Ok` after its last action,
    /// or the error of the first action that failed, which drops the rest.
    pub fn report(&mut self, succeeded: bool) -> (r: Option<Result<(), LcdError>>)
        requires
            old(self).wf(),
            old(self).queued().len() > 0,
        ensures
            final(self).wf(),
            final(self).orientation_spec() == old(self).orientation_spec(),
            (final(self).queued(), r) == step(old(self).queued(), succeeded),
    {
        let ghost q = self.queued();
        if succeeded {
            self.next = self.next + 1;
            assert(self.queued() =~= q.drop_first());
            if self.next == self.program.len() {
                Some(Ok(()))
            } else {
                None
            }
        } else {
            let kind = match &self.program[self.next] {
                Op::Transmit(_) => LcdError::SpiError,
                _ => LcdError::PinError,
            };
            self.next = self.program.len();
            assert(self.queued() =~= Seq::<Signal>::empty());
            Some(Err(kind))
        }
    }

    /// Drops whatever was queued, to start a new operation.
    pub(crate) fn start(&mut self)
        ensures
            final(self).next == 0,
            final(self).log() == Seq::<Signal>::empty(),
            final(self).orientation == old(self).orientation,
    {
        self.program.clear();
        self.next = 0;
        assert(self.log() =~= Seq::<Signal>::empty());
    }

    fn push(&mut self, op: Op)
        ensures
            final(self).next == old(self).next,
            final(self).log() == old(self).log().push(op@),
            final(self).orientation == old(self).orientation,
    {
        proof {
            lemma_signals_push(self.program@, op);
        }
        self.program.push(op);
    }

    fn write_command(&mut self, cmd: u8)
        ensures
            final(self).next == old(self).next,
            final(self).log() == old(self).log() + command_signals(cmd),
            final(self).orientation == old(self).orientation,
    {
        let ghost l = self.log();
        self.push(Op::Select(false));
        let mut bytes: Vec<u8> = Vec::new();
        bytes.push(cmd);
        self.push(Op::Transmit(bytes));
        assert(self.log() =~= l + command_signals(cmd));
    }

    /// Sets the data pin
    pub(crate) fn enable_write_data(&mut self)
        ensures
            final(self).next == old(self).next,
            final(self).log() == old(self).log().push(Signal::Select(true)),
            final(self).orientation == old(self).orientation,
    {
        self.push(Op::Select(true));
    }

    /// Sends the payload; expects the data pin to be set already.
    pub(crate) fn write_data_continue(&mut self, data: &[u8])
        ensures
            final(self).next == old(self).next,
            final(self).log() == old(self).log().push(Signal::Transmit(data@)),
            final(self).orientation == old(self).orientation,
    {
        self.push(Op::Transmit(vstd::slice::slice_to_vec(data)));
    }

    /// Sets the data pin and sends the payload
    pub(crate) fn write_data(&mut self, data: &[u8])
        ensures
            final(self).next == old(self).next,
            final(self).log() == old(self).log() + data_signals(data@),
            final(self).orientation == old(self).orientation,
    {
        let ghost l = self.log();
        self.enable_write_data();
        self.write_data_continue(data);
        assert(self.log() =~= l + data_signals(data@));
    }

    /// Each parameter byte as a payload of its own.
    fn write_params(&mut self, params: &[u8])
        ensures
            final(self).next == old(self).next,
            final(self).log() == old(self).log() + params_signals(params@),
            final(self).orientation == old(self).orientation,
    {
        let ghost l = self.log();
        for i in 0..params.len()
            invariant
                self.next == old(self).next,
                self.orientation == old(self).orientation,
                self.log() == l + params_signals(params@.take(i as int)),
        {
            let ghost before = self.log();
            let b = params[i];
            let one = [b];
            self.write_data(&one);
            assert(params@.take(i + 1).drop_last() =~= params@.take(i as int));
            assert(one@ =~= seq![params@.take(i + 1).last()]);
            assert(self.log() =~= l + params_signals(params@.take(i + 1)));
        }
        assert(params@.take(params.len() as int) =~= params@);
    }

    fn write_register(&mut self, cmd: u8, params: &[u8])
        ensures
            final(self).next == old(self).next,
            final(self).log() == old(self).log() + register_signals(cmd, params@),
            final(self).orientation == old(self).orientation,
    {
        let ghost l = self.log();
        self.write_command(cmd);
        self.write_params(params);
        assert(self.log() =~= l + register_signals(cmd, params@));
    }

    /// Loads an operation made of a single command.
    fn single_command(&mut self, cmd: u8)
        ensures
            final(self).wf(),
            final(self).orientation_spec() == old(self).orientation_spec(),
            final(self).queued() == command_signals(cmd),
    {
        self.start();
        self.write_command(cmd);
        assert(self.queued() =~= command_signals(cmd));
    }

    /// Leave off state
    pub fn display_on(&mut self)
        ensures
            final(self).wf(),
            final(self).orientation_spec() == old(self).orientation_spec(),
            final(self).queued() == command_signals(DISPLAY_ON),
    {
        self.single_command(DISPLAY_ON)
    }

    /// Enter off state
    pub fn display_off(&mut self)
        ensures
            final(self).wf(),
            final(self).orientation_spec() == old(self).orientation_spec(),
            final(self).queued() == command_signals(DISPLAY_OFF),
    {
        self.single_command(DISPLAY_OFF)
    }

    /// Enter sleep mode
    pub fn enter_sleep_mode(&mut self)
        ensures
            final(self).wf(),
            final(self).orientation_spec() == old(self).orientation_spec(),
            final(self).queued() == command_signals(ENTER_SLEEP_MODE),
    {
        self.single_command(ENTER_SLEEP_MODE)
    }

    /// Disable sleep mode
    pub fn leave_sleep_mode(&mut self)
        ensures
            final(self).wf(),
            final(self).orientation_spec() == old(self).orientation_spec(),
            final(self).queued() == command_signals(SLEEP_OUT),
    {
        self.single_command(SLEEP_OUT)
    }

    /// Sets the backlight duty cycle.
    pub fn set_backlight(&mut self, value: u16)
        ensures
            final(self).wf(),
            final(self).orientation_spec() == old(self).orientation_spec(),
            final(self).queued() == seq![Signal::Backlight(value)],
    {
        self.start();
        self.push(Op::Backlight(value));
        assert(self.queued() =~= seq![Signal::Backlight(value)]);
    }
    fn write_reset(&mut self)
        ensures
            final(self).next == old(self).next,
            final(self).log() == old(self).log() + reset_signals(),
            final(self).orientation == old(self).orientation,
    {
        let ghost l = self.log();
        self.push(Op::Delay(200));
        self.push(Op::Reset(false));
        self.push(Op::Delay(200));
        self.push(Op::Reset(true));
        self.push(Op::Delay(200));
        assert(self.log() =~= l + reset_signals());
    }

    /// Pulses the hardware reset line between settling delays.
    pub fn reset(&mut self)
        ensures
            final(self).wf(),
            final(self).orientation_spec() == old(self).orientation_spec(),
            final(self).queued() == reset_signals(),
    {
        self.start();
        self.write_reset();
        assert(self.queued() =~= reset_signals());
    }

    fn write_power_setup(&mut self)
        ensures
            final(self).next == old(self).next,
            final(self).log() == old(self).log() + power_setup_signals(),
            final(self).orientation == old(self).orientation,
    {
        let ghost l = self.log();
        let params = [0x00u8, 0xC1, 0x30];
        assert(params@ =~= seq![0x00u8, 0xC1, 0x30]);
        self.write_register(POWER_CONTROL_B, &params);
        let params = [0x64u8, 0x03, 0x12, 0x81];
        assert(params@ =~= seq![0x64u8, 0x03, 0x12, 0x81]);
        self.write_register(POWER_ON_SEQ_CONTROL, &params);
        let params = [0x85u8, 0x00, 0x79];
        assert(params@ =~= seq![0x85u8, 0x00, 0x79]);
        self.write_register(DRIVER_TIMING_CONTROL_A, &params);
        let params = [0x39u8, 0x2C, 0x00, 0x34, 0x02];
        assert(params@ =~= seq![0x39u8, 0x2C, 0x00, 0x34, 0x02]);
        self.write_register(POWER_CONTROL_A, &params);
        let params = [0x20u8];
        assert(params@ =~= seq![0x20u8]);
        self.write_register(PUMP_RATIO_CONTROL, &params);
        let params = [0x00u8, 0x00];
        assert(params@ =~= seq![0x00u8, 0x00]);
        self.write_register(DRIVER_TIMING_CONTROL_B, &params);
        let params = [0x1Du8];
        assert(params@ =~= seq![0x1Du8]);
        self.write_register(POWER_CONTROL_1, &params);
        let params = [0x12u8];
        assert(params@ =~= seq![0x12u8]);
        self.write_register(POWER_CONTROL_2, &params);
        let params = [0x33u8, 0x3F];
        assert(params@ =~= seq![0x33u8, 0x3F]);
        self.write_register(VCOM_CONTROL_1, &params);
        let params = [0x92u8];
        assert(params@ =~= seq![0x92u8]);
        self.write_register(VCOM_CONTROL_2, &params);
        assert(self.log() =~= l + power_setup_signals());
    }

    fn write_format(&mut self)
        ensures
            final(self).next == old(self).next,
            final(self).log() == old(self).log() + format_signals(old(self).orientation),
            final(self).orientation == old(self).orientation,
    {
        let ghost l = self.log();
        let params = [0x55u8];
        assert(params@ =~= seq![0x55u8]);
        self.write_register(PIXEL_FORMAT_SET, &params);
        let madctl = self.memory_access_control_value();
        let params = [madctl];
        assert(params@ =~= seq![madctl]);
        self.write_register(MEMORY_ACCESS_CONTROL, &params);
        assert(self.log() =~= l + format_signals(self.orientation));
    }

    fn write_timing(&mut self)
        ensures
            final(self).next == old(self).next,
            final(self).log() == old(self).log() + timing_signals(),
            final(self).orientation == old(self).orientation,
    {
        let ghost l = self.log();
        let params = [0x00u8, 0x12];
        assert(params@ =~= seq![0x00u8, 0x12]);
        self.write_register(FRAME_CONTROL_NORMAL_MODE, &params);
        let params = [0x0Au8, 0xA2];
        assert(params@ =~= seq![0x0Au8, 0xA2]);
        self.write_register(DISPLAY_FUNCTION_CONTROL, &params);
        let params = [0x02u8];
        assert(params@ =~= seq![0x02u8]);
        self.write_register(SET_TEAR_SCANLINE, &params);
        assert(self.log() =~= l + timing_signals());
    }

    fn set_gamma(&mut self)
        ensures
            final(self).next == old(self).next,
            final(self).log() == old(self).log() + gamma_signals(),
            final(self).orientation == old(self).orientation,
    {
        let ghost l = self.log();
        let params = [0x00u8];
        assert(params@ =~= seq![0x00u8]);
        self.write_register(ENABLE_3G, &params);
        let params = [0x01u8];
        assert(params@ =~= seq![0x01u8]);
        self.write_register(GAMMA_SET, &params);
        let params = [0x0Fu8, 0x22, 0x1C, 0x1B, 0x08, 0x0F, 0x48, 0xB8, 0x34, 0x05, 0x0C, 0x09, 0x0F, 0x07, 0x00];
        assert(params@ =~= seq![0x0Fu8, 0x22, 0x1C, 0x1B, 0x08, 0x0F, 0x48, 0xB8, 0x34, 0x05, 0x0C, 0x09, 0x0F, 0x07, 0x00]);
        self.write_register(POSITIVE_GAMMA_CORRECTION, &params);
        let params = [0x00u8, 0x23, 0x24, 0x07, 0x10, 0x07, 0x38, 0x47, 0x4B, 0x0A, 0x13, 0x06, 0x30, 0x38, 0x0F];
        assert(params@ =~= seq![0x00u8, 0x23, 0x24, 0x07, 0x10, 0x07, 0x38, 0x47, 0x4B, 0x0A, 0x13, 0x06, 0x30, 0x38, 0x0F]);
        self.write_register(NEGATIVE_GAMMA_CORRECTION, &params);
        assert(self.log() =~= l + gamma_signals());
    }

    /// Queues the power-up sequence for the current orientation.
    pub fn init(&mut self)
        ensures
            final(self).wf(),
            final(self).orientation_spec() == old(self).orientation_spec(),
            final(self).queued() == init_signals(old(self).orientation_spec()),
    {
        self.start();
        self.write_reset();
        self.write_command(SLEEP_OUT);
        self.write_power_setup();
        self.write_format();
        self.write_timing();
        self.write_command(DISPLAY_ON);
        self.set_gamma();
        self.push(Op::Backlight(255));
        assert(self.queued() =~= init_signals(self.orientation));
    }

    pub(crate) fn set_window(&mut self, x0: u16, y0: u16, x1: u16, y1: u16)
        ensures
            final(self).next == old(self).next,
            final(self).log() == old(self).log() + window_signals(x0, y0, x1, y1),
            final(self).orientation == old(self).orientation,
    {
        let ghost l = self.log();
        let ce: u16 = if x1 > 0 { x1 - 1 } else { 0 };
        let c1: u16 = if ce < x0 { x0 } else { ce };
        let pe: u16 = if y1 > 0 { y1 - 1 } else { 0 };
        let params: u16 = if pe < y0 { y0 } else { pe };
        let (c0h, c0l) = u16_to_bytes(x0);
        let (c1h, c1l) = u16_to_bytes(c1);
        let (p0h, p0l) = u16_to_bytes(y0);
        let (p1h, p1l) = u16_to_bytes(params);

        self.write_command(COLUMN_ADDRESS_SET);
        let columns = [c0h, c0l, c1h, c1l];
        self.write_data(&columns);

        self.write_command(PAGE_ADDRESS_SET);
        let pages = [p0h, p0l, p1h, p1l];
        self.write_data(&pages);

        self.write_command(MEMORY_WRITE);
        assert(columns@ =~= bounds_bytes(x0, window_end(x0, x1)));
        assert(pages@ =~= bounds_bytes(y0, window_end(y0, y1)));
        assert(self.log() =~= l + window_signals(x0, y0, x1, y1));
    }

    /// Clear the entire screen with the given color
    pub fn clear(&mut self, color: u16)
        ensures
            final(self).wf(),
            final(self).orientation_spec() == old(self).orientation_spec(),
            final(self).queued() == fill_rect_signals(
                0,
                0,
                size_of(old(self).orientation_spec()).0,
                size_of(old(self).orientation_spec()).1,
                color,
            ),
    {
        let (w, h) = self.size();
        self.fill_rect(0, 0, w, h, color);
    }

    /// Draw filled rect or line (when width or height set to 1)
    pub fn fill_rect(&mut self, x: u16, y: u16, w: u16, h: u16, color: u16)
        requires
            x + w <= u16::MAX,
            y + h <= u16::MAX,
        ensures
            final(self).wf(),
            final(self).orientation_spec() == old(self).orientation_spec(),
            final(self).queued() == fill_rect_signals(x, y, w, h, color),
    {
        self.start();
        self.set_window(x, y, x + w, y + h);
        let (ch, cl) = u16_to_bytes(color);
        self.enable_write_data();
        let ghost base = self.log();

        // Four pixels per transmit; the window's wraparound absorbs what
        // goes past the last pixel.
        let chunk = [ch, cl, ch, cl, ch, cl, ch, cl];
        assert(chunk@ =~= fill_chunk(color));
        assert(w as u32 * h as u32 <= 65535u32 * 65535u32) by (nonlinear_arith);
        let count: u32 = (w as u32 * h as u32 + 3) / 4;
        for i in 0..count
            invariant
                self.next == 0,
                self.orientation == old(self).orientation,
                chunk@ == fill_chunk(color),
                self.log() == base + Seq::new(
                    i as nat,
                    |k: int| Signal::Transmit(fill_chunk(color)),
                ),
        {
            self.write_data_continue(&chunk);
            assert(self.log() =~= base + Seq::new(
                (i + 1) as nat,
                |k: int| Signal::Transmit(fill_chunk(color)),
            ));
        }
        assert(self.queued() =~= fill_rect_signals(x, y, w, h, color));
    }

    /// Draw raw sprite data on the screen.
    ///
    /// The input buffer should contain color information in high_byte_u8,
    /// low_byte_u8 format. Its length should match the rect specified by
    /// (x, y, w, h); a mismatch is sent as it is.
    pub fn draw_sprite(&mut self, x: u16, y: u16, w: u16, h: u16, data: &[u8])
        requires
            x + w <= u16::MAX,
            y + h <= u16::MAX,
        ensures
            final(self).wf(),
            final(self).orientation_spec() == old(self).orientation_spec(),
            final(self).queued() == sprite_signals(x, y, w, h, data@),
    {
        self.start();
        self.set_window(x, y, x + w, y + h);
        self.write_data(data);
        assert(self.queued() =~= sprite_signals(x, y, w, h, data@));
    }
}

} // verus!
