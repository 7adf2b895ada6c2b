use vstd::prelude::*;

verus! {

/// A failure of the transport: on the bus, or on one of the output pins.
#[derive(Debug)]
pub enum Error<SpiE, PinE> {
    Spi(SpiE),
    OutputPin(PinE),
}

/// The three output lines that the driver controls besides the bus.
#[derive(Clone, Copy, Debug, PartialEq, Eq)]
pub enum Line {
    /// Chip select: low while the controller listens to the bus.
    ChipSelect,
    /// Data/command select: low for an opcode, high for arguments and pixels.
    DataCommand,
    /// Hardware reset: low holds the controller in reset.
    Reset,
}

/// One operation on the transport, in the order it is to be carried out.
#[derive(Clone, Debug, PartialEq, Eq)]
pub enum Op {
    /// Drive a line high (`true`) or low (`false`).
    Pin(Line, bool),
    /// Write these bytes on the bus in one transfer.
    Write(Vec<u8>),
    /// Wait this many milliseconds.
    DelayMs(u16),
}

/// The mathematical value of an [`Op`].
pub enum Signal {
    Pin(Line, bool),
    Write(Seq<u8>),
    DelayMs(u16),
}

impl View for Op {
    type V = Signal;

    open spec fn view(&self) -> Signal {
        match self {
            Op::Pin(l, high) => Signal::Pin(*l, *high),
            Op::Write(b) => Signal::Write(b@),
            Op::DelayMs(ms) => Signal::DelayMs(*ms),
        }
    }
}

/// What a sequence of operations does on the wire.
pub open spec fn trace(ops: Seq<Op>) -> Seq<Signal> {
    ops.map_values(|o: Op| o@)
}

/// The two bytes of a 16-bit value, most significant first.
pub open spec fn be16(v: u16) -> Seq<u8> {
    seq![(v / 256) as u8, (v % 256) as u8]
}

/// Selects the controller and sends an opcode; what follows is data.
pub open spec fn open_frame(code: u8) -> Seq<Signal> {
    seq![
        Signal::Pin(Line::ChipSelect, false),
        Signal::Pin(Line::DataCommand, false),
        Signal::Write(seq![code]),
        Signal::Pin(Line::DataCommand, true),
    ]
}

/// Releases the controller at the end of a command.
pub open spec fn close_frame() -> Seq<Signal> {
    seq![Signal::Pin(Line::ChipSelect, true)]
}

/// A command with its arguments, framed by chip select and data/command select.
pub open spec fn framed(code: u8, args: Seq<u8>) -> Seq<Signal> {
    open_frame(code) + seq![Signal::Write(args)] + close_frame()
}

pub proof fn lemma_trace_push(ops: Seq<Op>, o: Op)
    ensures
        trace(ops.push(o)) == trace(ops).push(o@),
{
    assert(trace(ops.push(o)) =~= trace(ops).push(o@));
}

pub proof fn lemma_trace_concat(a: Seq<Op>, b: Seq<Op>)
    ensures
        trace(a + b) == trace(a) + trace(b),
{
    assert(trace(a + b) =~= trace(a) + trace(b));
}

/// Appends one operation to a plan.
pub(crate) fn push_op(ops: &mut Vec<Op>, o: Op)
    ensures
        trace(final(ops)@) == trace(old(ops)@).push(o@),
{
    proof {
        lemma_trace_push(ops@, o);
    }
    ops.push(o);
}

/// Appends a whole plan to another.
pub(crate) fn push_all(ops: &mut Vec<Op>, more: Vec<Op>)
    ensures
        trace(final(ops)@) == trace(old(ops)@) + trace(more@),
{
    let mut more = more;
    proof {
        lemma_trace_concat(ops@, more@);
    }
    ops.append(&mut more);
}

/// A copy of a byte slice.
pub(crate) fn copy_bytes(data: &[u8]) -> (r: Vec<u8>)
    ensures
        r@ == data@,
{
    let mut r: Vec<u8> = Vec::with_capacity(data.len());
    let mut i: usize = 0;
    while i < data.len()
        invariant
            i <= data@.len(),
            r@ == data@.subrange(0, i as int),
        decreases data@.len() - i,
    {
        r.push(data[i]);
        i += 1;
        assert(r@ =~= data@.subrange(0, i as int));
    }
    assert(r@ =~= data@);
    r
}

/// The big-endian bytes of a 16-bit value.
pub(crate) fn be_bytes(v: u16) -> (r: Vec<u8>)
    ensures
        r@ == be16(v),
{
    let r = vec![(v / 256) as u8, (v % 256) as u8];
    assert(r@ =~= be16(v));
    r
}

/// Appends the opening of a command frame: select, opcode, then data mode.
pub(crate) fn push_open_frame(ops: &mut Vec<Op>, code: u8)
    ensures
        trace(final(ops)@) == trace(old(ops)@) + open_frame(code),
{
    push_op(ops, Op::Pin(Line::ChipSelect, false));
    push_op(ops, Op::Pin(Line::DataCommand, false));
    let mut w: Vec<u8> = Vec::new();
    w.push(code);
    assert(w@ =~= seq![code]);
    push_op(ops, Op::Write(w));
    push_op(ops, Op::Pin(Line::DataCommand, true));
    assert(trace(ops@) =~= trace(old(ops)@) + open_frame(code));
}

} // verus!
