use vstd::prelude::*;

use crate::bus::{
    be16, be_bytes, close_frame, copy_bytes, framed, open_frame, push_all, push_op,
    push_open_frame, trace, Line, Op, Signal,
};
use crate::command::Command;

verus! {

/// Panel width in the native (portrait) orientation.
pub const WIDTH: usize = 240;

/// Panel height in the native (portrait) orientation.
pub const HEIGHT: usize = 320;

/// How the panel is turned; the default is `Portrait`.
#[derive(Clone, Copy, Debug, PartialEq, Eq)]
pub enum Orientation {
    Portrait,
    PortraitFlipped,
    Landscape,
    LandscapeFlipped,
}

/// The memory-access-control byte that selects an orientation: the row/column
/// exchange and mirror bits, always with the BGR bit (0x08) set.
pub open spec fn access_byte(mode: Orientation) -> u8 {
    match mode {
        Orientation::Portrait => 0x48,
        Orientation::PortraitFlipped => 0x88,
        Orientation::Landscape => 0x28,
        Orientation::LandscapeFlipped => 0xe8,
    }
}

/// Logical (width, height) of the panel in an orientation.
pub open spec fn dimensions(mode: Orientation) -> (usize, usize) {
    match mode {
        Orientation::Portrait | Orientation::PortraitFlipped => (WIDTH, HEIGHT),
        Orientation::Landscape | Orientation::LandscapeFlipped => (HEIGHT, WIDTH),
    }
}

/// Sets the column range `x0..=x1`, then the page (row) range `y0..=y1`.
pub open spec fn window_trace(x0: u16, y0: u16, x1: u16, y1: u16) -> Seq<Signal> {
    framed(Command::ColumnAddressSet.opcode(), be16(x0) + be16(x1)) + framed(
        Command::PageAddressSet.opcode(),
        be16(y0) + be16(y1),
    )
}

/// A memory write that sends `data` in one transfer.
pub open spec fn raw_trace(data: Seq<u8>) -> Seq<Signal> {
    framed(Command::MemoryWrite.opcode(), data)
}

/// One two-byte transfer per color, most significant byte first.
pub open spec fn color_writes(colors: Seq<u16>) -> Seq<Signal> {
    colors.map_values(|c: u16| Signal::Write(be16(c)))
}

/// A memory write that sends the colors one by one.
pub open spec fn iter_trace(colors: Seq<u16>) -> Seq<Signal> {
    open_frame(Command::MemoryWrite.opcode()) + color_writes(colors) + close_frame()
}

/// Windowed write of raw bytes into the rectangle `(x0, y0)..=(x1, y1)`.
pub open spec fn draw_raw_trace(x0: u16, y0: u16, x1: u16, y1: u16, data: Seq<u8>) -> Seq<Signal> {
    window_trace(x0, y0, x1, y1) + raw_trace(data)
}

/// Reset line high, low, high, each level held for 200 ms.
pub open spec fn hard_reset_trace() -> Seq<Signal> {
    seq![
        Signal::Pin(Line::Reset, true),
        Signal::DelayMs(200),
        Signal::Pin(Line::Reset, false),
        Signal::DelayMs(200),
        Signal::Pin(Line::Reset, true),
        Signal::DelayMs(200),
    ]
}

/// Power-on configuration: power, timing, VCOM, pixel format and gamma registers.
pub open spec fn configure_trace() -> Seq<Signal> {
    framed(Command::PowerControlA.opcode(), seq![0x39u8, 0x2c, 0x00, 0x34, 0x02])
        + framed(Command::PowerControlB.opcode(), seq![0x00u8, 0xc1, 0x30])
        + framed(Command::DriverTimingControlA.opcode(), seq![0x85u8, 0x00, 0x78])
        + framed(Command::DriverTimingControlB.opcode(), seq![0x00u8, 0x00])
        + framed(Command::PowerOnSequenceControl.opcode(), seq![0x64u8, 0x03, 0x12, 0x81])
        + framed(Command::PumpRatioControl.opcode(), seq![0x20u8])
        + framed(Command::PowerControl1.opcode(), seq![0x23u8])
        + framed(Command::PowerControl2.opcode(), seq![0x10u8])
        + framed(Command::VCOMControl1.opcode(), seq![0x3eu8, 0x28])
        + framed(Command::VCOMControl2.opcode(), seq![0x86u8])
        + framed(Command::MemoryAccessControl.opcode(), seq![0x48u8])
        + framed(Command::PixelFormatSet.opcode(), seq![0x55u8])
        + framed(Command::FrameControlNormal.opcode(), seq![0x00u8, 0x18])
        + framed(Command::DisplayFunctionControl.opcode(), seq![0x08u8, 0x82, 0x27])
        + framed(Command::Enable3G.opcode(), seq![0x00u8])
        + framed(Command::GammaSet.opcode(), seq![0x01u8])
        + framed(
            Command::PositiveGammaCorrection.opcode(),
            seq![
                0x0fu8, 0x31, 0x2b, 0x0c, 0x0e, 0x08, 0x4e, 0xf1, 0x37, 0x07, 0x10, 0x03, 0x0e,
                0x09, 0x00,
            ],
        ) + framed(
            Command::NegativeGammaCorrection.opcode(),
            seq![
                0x00u8, 0x0e, 0x14, 0x03, 0x11, 0x07, 0x31, 0xc1, 0x48, 0x08, 0x0f, 0x0c, 0x31,
                0x36, 0x0f,
            ],
        )
}

/// The whole power-on sequence: hard reset, software reset, configuration,
/// then sleep out and display on.
pub open spec fn init_trace() -> Seq<Signal> {
    hard_reset_trace() + framed(Command::SoftwareReset.opcode(), seq![]) + seq![
        Signal::DelayMs(200),
    ] + configure_trace() + framed(Command::SleepOut.opcode(), seq![]) + seq![
        Signal::DelayMs(120),
    ] + framed(Command::DisplayOn.opcode(), seq![])
}

/// The window is set by exactly two commands, column then page address, each
/// with four argument bytes: the start and the end coordinate, big endian.
pub proof fn lemma_window_bytes(x0: u16, y0: u16, x1: u16, y1: u16)
    ensures
        window_trace(x0, y0, x1, y1) == framed(
            Command::ColumnAddressSet.opcode(),
            seq![(x0 / 256) as u8, (x0 % 256) as u8, (x1 / 256) as u8, (x1 % 256) as u8],
        ) + framed(
            Command::PageAddressSet.opcode(),
            seq![(y0 / 256) as u8, (y0 % 256) as u8, (y1 / 256) as u8, (y1 % 256) as u8],
        ),
{
    assert(be16(x0) + be16(x1) =~= seq![
        (x0 / 256) as u8,
        (x0 % 256) as u8,
        (x1 / 256) as u8,
        (x1 % 256) as u8,
    ]);
    assert(be16(y0) + be16(y1) =~= seq![
        (y0 / 256) as u8,
        (y0 % 256) as u8,
        (y1 / 256) as u8,
        (y1 % 256) as u8,
    ]);
}

/// Power-on starts with the hard reset, before anything is sent on the bus,
/// and ends with sleep out, a 120 ms pause, and display on.
pub proof fn lemma_init_order()
    ensures
        init_trace().subrange(0, 6) == hard_reset_trace(),
        forall|i: int| 0 <= i < 6 ==> !(#[trigger] init_trace()[i] is Write),
        init_trace().subrange(init_trace().len() - 13, init_trace().len() as int) == framed(
            Command::SleepOut.opcode(),
            seq![],
        ) + seq![Signal::DelayMs(120)] + framed(Command::DisplayOn.opcode(), seq![]),
{
    let t = init_trace();
    let tail = framed(Command::SleepOut.opcode(), seq![]) + seq![Signal::DelayMs(120)] + framed(
        Command::DisplayOn.opcode(),
        seq![],
    );
    assert(tail.len() == 13);
    assert(t.subrange(0, 6) =~= hard_reset_trace());
    assert(t.subrange(t.len() - 13, t.len() as int) =~= tail);
    assert forall|i: int| 0 <= i < 6 implies !(#[trigger] t[i] is Write) by {
        assert(t[i] == t.subrange(0, 6)[i]);
    }
}

/// The display handle: the panel's logical size in its current orientation.
/// Each operation returns the bus operations that carry it out.
pub struct Ili9341 {
    width: usize,
    height: usize,
}

impl Ili9341 {
    pub closed spec fn spec_width(&self) -> usize {
        self.width
    }

    pub closed spec fn spec_height(&self) -> usize {
        self.height
    }

    /// The size is the panel's, upright or turned.
    pub open spec fn wf(&self) -> bool {
        (self.spec_width() == WIDTH && self.spec_height() == HEIGHT) || (self.spec_width()
            == HEIGHT && self.spec_height() == WIDTH)
    }

    #[verifier::type_invariant]
    pub(crate) open spec fn size_is_panel(&self) -> bool {
        self.wf()
    }

    /// Appends the hard reset: reset line high, low, high, 200 ms each.
    fn hard_reset(ops: &mut Vec<Op>)
        ensures
            trace(final(ops)@) == trace(old(ops)@) + hard_reset_trace(),
    {
        push_op(ops, Op::Pin(Line::Reset, true));
        push_op(ops, Op::DelayMs(200));
        push_op(ops, Op::Pin(Line::Reset, false));
        push_op(ops, Op::DelayMs(200));
        push_op(ops, Op::Pin(Line::Reset, true));
        push_op(ops, Op::DelayMs(200));
        assert(trace(ops@) =~= trace(old(ops)@) + hard_reset_trace());
    }

    /// Appends the power-on configuration registers.
    #[verifier::rlimit(50)]
    fn configure(ops: &mut Vec<Op>)
        ensures
            trace(final(ops)@) == trace(old(ops)@) + configure_trace(),
    {
        let ghost t0 = trace(ops@);
        let a: Vec<u8> = vec![0x39, 0x2c, 0x00, 0x34, 0x02];
        assert(a@ =~= seq![0x39u8, 0x2c, 0x00, 0x34, 0x02]);
        Self::command(ops, Command::PowerControlA, a.as_slice());
        let a: Vec<u8> = vec![0x00, 0xc1, 0x30];
        assert(a@ =~= seq![0x00u8, 0xc1, 0x30]);
        Self::command(ops, Command::PowerControlB, a.as_slice());
        let a: Vec<u8> = vec![0x85, 0x00, 0x78];
        assert(a@ =~= seq![0x85u8, 0x00, 0x78]);
        Self::command(ops, Command::DriverTimingControlA, a.as_slice());
        let a: Vec<u8> = vec![0x00, 0x00];
        assert(a@ =~= seq![0x00u8, 0x00]);
        Self::command(ops, Command::DriverTimingControlB, a.as_slice());
        let a: Vec<u8> = vec![0x64, 0x03, 0x12, 0x81];
        assert(a@ =~= seq![0x64u8, 0x03, 0x12, 0x81]);
        Self::command(ops, Command::PowerOnSequenceControl, a.as_slice());
        let a: Vec<u8> = vec![0x20];
        assert(a@ =~= seq![0x20u8]);
        Self::command(ops, Command::PumpRatioControl, a.as_slice());
        let a: Vec<u8> = vec![0x23];
        assert(a@ =~= seq![0x23u8]);
        Self::command(ops, Command::PowerControl1, a.as_slice());
        let a: Vec<u8> = vec![0x10];
        assert(a@ =~= seq![0x10u8]);
        Self::command(ops, Command::PowerControl2, a.as_slice());
        let a: Vec<u8> = vec![0x3e, 0x28];
        assert(a@ =~= seq![0x3eu8, 0x28]);
        Self::command(ops, Command::VCOMControl1, a.as_slice());
        let a: Vec<u8> = vec![0x86];
        assert(a@ =~= seq![0x86u8]);
        Self::command(ops, Command::VCOMControl2, a.as_slice());
        let a: Vec<u8> = vec![0x48];
        assert(a@ =~= seq![0x48u8]);
        Self::command(ops, Command::MemoryAccessControl, a.as_slice());
        let a: Vec<u8> = vec![0x55];
        assert(a@ =~= seq![0x55u8]);
        Self::command(ops, Command::PixelFormatSet, a.as_slice());
        let a: Vec<u8> = vec![0x00, 0x18];
        assert(a@ =~= seq![0x00u8, 0x18]);
        Self::command(ops, Command::FrameControlNormal, a.as_slice());
        let a: Vec<u8> = vec![0x08, 0x82, 0x27];
        assert(a@ =~= seq![0x08u8, 0x82, 0x27]);
        Self::command(ops, Command::DisplayFunctionControl, a.as_slice());
        let a: Vec<u8> = vec![0x00];
        assert(a@ =~= seq![0x00u8]);
        Self::command(ops, Command::Enable3G, a.as_slice());
        let a: Vec<u8> = vec![0x01];
        assert(a@ =~= seq![0x01u8]);
        Self::command(ops, Command::GammaSet, a.as_slice());
        let a: Vec<u8> = vec![
            0x0f, 0x31, 0x2b, 0x0c, 0x0e, 0x08, 0x4e, 0xf1,
            0x37, 0x07, 0x10, 0x03, 0x0e, 0x09, 0x00,
        ];
        assert(a@ =~= seq![
            0x0fu8, 0x31, 0x2b, 0x0c, 0x0e, 0x08, 0x4e, 0xf1,
            0x37, 0x07, 0x10, 0x03, 0x0e, 0x09, 0x00,
        ]);
        Self::command(ops, Command::PositiveGammaCorrection, a.as_slice());
        let a: Vec<u8> = vec![
            0x00, 0x0e, 0x14, 0x03, 0x11, 0x07, 0x31, 0xc1,
            0x48, 0x08, 0x0f, 0x0c, 0x31, 0x36, 0x0f,
        ];
        assert(a@ =~= seq![
            0x00u8, 0x0e, 0x14, 0x03, 0x11, 0x07, 0x31, 0xc1,
            0x48, 0x08, 0x0f, 0x0c, 0x31, 0x36, 0x0f,
        ]);
        Self::command(ops, Command::NegativeGammaCorrection, a.as_slice());
        assert(trace(ops@) =~~= t0 + configure_trace());
    }

    /// A handle in portrait orientation, and the power-on sequence that brings
    /// the controller up: hard reset, software reset, configuration, sleep out
    /// and display on, with the settle delays the controller needs.
    pub fn new() -> (r: (Ili9341, Vec<Op>))
        ensures
            r.0.spec_width() == WIDTH,
            r.0.spec_height() == HEIGHT,
            r.0.wf(),
            trace(r.1@) == init_trace(),
    {
        let no_args: Vec<u8> = Vec::new();
        let mut ops: Vec<Op> = Vec::new();
        Self::hard_reset(&mut ops);
        Self::command(&mut ops, Command::SoftwareReset, no_args.as_slice());
        push_op(&mut ops, Op::DelayMs(200));
        Self::configure(&mut ops);
        Self::command(&mut ops, Command::SleepOut, no_args.as_slice());
        push_op(&mut ops, Op::DelayMs(120));
        Self::command(&mut ops, Command::DisplayOn, no_args.as_slice());
        assert(trace(ops@) =~~= init_trace());
        (Ili9341 { width: WIDTH, height: HEIGHT }, ops)
    }

    /// Appends a command with its arguments.
    pub fn command(ops: &mut Vec<Op>, cmd: Command, args: &[u8])
        ensures
            trace(final(ops)@) == trace(old(ops)@) + framed(cmd.opcode(), args@),
    {
        push_open_frame(ops, cmd.code());
        push_op(ops, Op::Write(copy_bytes(args)));
        push_op(ops, Op::Pin(Line::ChipSelect, true));
        assert(trace(ops@) =~= trace(old(ops)@) + framed(cmd.opcode(), args@));
    }

    /// Appends a memory write of raw bytes.
    pub fn write_raw(ops: &mut Vec<Op>, data: &[u8])
        ensures
            trace(final(ops)@) == trace(old(ops)@) + raw_trace(data@),
    {
        Self::command(ops, Command::MemoryWrite, data);
    }

    /// Appends a memory write that sends each color as its own transfer.
    pub fn write_iter(ops: &mut Vec<Op>, data: &[u16])
        ensures
            trace(final(ops)@) == trace(old(ops)@) + iter_trace(data@),
    {
        push_open_frame(ops, Command::MemoryWrite.code());
        let ghost start = trace(ops@);
        let mut i: usize = 0;
        while i < data.len()
            invariant
                i <= data@.len(),
                trace(ops@) == start + color_writes(data@.subrange(0, i as int)),
            decreases data@.len() - i,
        {
            push_op(ops, Op::Write(be_bytes(data[i])));
            i += 1;
            assert(color_writes(data@.subrange(0, i as int)) =~= color_writes(
                data@.subrange(0, i - 1),
            ).push(Signal::Write(be16(data@[i - 1]))));
        }
        assert(data@.subrange(0, i as int) =~= data@);
        push_op(ops, Op::Pin(Line::ChipSelect, true));
        assert(trace(ops@) =~= trace(old(ops)@) + iter_trace(data@));
    }

    /// Appends the window setup for the rectangle `(x0, y0)..=(x1, y1)`.
    pub fn set_window(ops: &mut Vec<Op>, x0: u16, y0: u16, x1: u16, y1: u16)
        ensures
            trace(final(ops)@) == trace(old(ops)@) + window_trace(x0, y0, x1, y1),
    {
        let mut xs = be_bytes(x0);
        let mut x1b = be_bytes(x1);
        xs.append(&mut x1b);
        Self::command(ops, Command::ColumnAddressSet, xs.as_slice());
        let mut ys = be_bytes(y0);
        let mut y1b = be_bytes(y1);
        ys.append(&mut y1b);
        Self::command(ops, Command::PageAddressSet, ys.as_slice());
        assert(trace(ops@) =~= trace(old(ops)@) + window_trace(x0, y0, x1, y1));
    }

    /// Draws the rectangle `(x0, y0)..=(x1, y1)`, borders included, from raw
    /// rgb565 bytes (two per pixel, big endian), copied unchanged.
    pub fn draw_raw(&self, x0: u16, y0: u16, x1: u16, y1: u16, data: &[u8]) -> (r: Vec<Op>)
        ensures
            trace(r@) == draw_raw_trace(x0, y0, x1, y1, data@),
    {
        let mut ops: Vec<Op> = Vec::new();
        Self::set_window(&mut ops, x0, y0, x1, y1);
        Self::write_raw(&mut ops, data);
        assert(trace(ops@) =~= draw_raw_trace(x0, y0, x1, y1, data@));
        ops
    }

    /// Draws the rectangle `(x0, y0)..=(x1, y1)`, borders included, from rgb565
    /// colors in raster order.
    pub fn draw_iter(&self, x0: u16, y0: u16, x1: u16, y1: u16, data: &[u16]) -> (r: Vec<Op>)
        ensures
            trace(r@) == window_trace(x0, y0, x1, y1) + iter_trace(data@),
    {
        let mut ops: Vec<Op> = Vec::new();
        Self::set_window(&mut ops, x0, y0, x1, y1);
        Self::write_iter(&mut ops, data);
        assert(trace(ops@) =~= window_trace(x0, y0, x1, y1) + iter_trace(data@));
        ops
    }

    /// Turns the panel: one memory-access-control command, and the logical
    /// size follows.
    pub fn set_orientation(&mut self, mode: Orientation) -> (r: Vec<Op>)
        ensures
            final(self).spec_width() == dimensions(mode).0,
            final(self).spec_height() == dimensions(mode).1,
            final(self).wf(),
            trace(r@) == framed(Command::MemoryAccessControl.opcode(), seq![access_byte(mode)]),
    {
        let (width, height, byte): (usize, usize, u8) = match mode {
            Orientation::Portrait => (WIDTH, HEIGHT, 0x48),
            Orientation::Landscape => (HEIGHT, WIDTH, 0x28),
            Orientation::PortraitFlipped => (WIDTH, HEIGHT, 0x88),
            Orientation::LandscapeFlipped => (HEIGHT, WIDTH, 0xe8),
        };
        *self = Ili9341 { width, height };
        let mut ops: Vec<Op> = Vec::new();
        let args = vec![byte];
        assert(args@ =~= seq![access_byte(mode)]);
        Self::command(&mut ops, Command::MemoryAccessControl, args.as_slice());
        assert(trace(ops@) =~= framed(Command::MemoryAccessControl.opcode(), seq![access_byte(mode)]));
        ops
    }

    /// The current logical width, which depends on the orientation.
    pub fn width(&self) -> (r: usize)
        ensures
            r == self.spec_width(),
    {
        self.width
    }

    /// The current logical height, which depends on the orientation.
    pub fn height(&self) -> (r: usize)
        ensures
            r == self.spec_height(),
    {
        self.height
    }
}

} // verus!
