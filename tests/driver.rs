use ili9341::{Command, Error, Ili9341, Line, Op, Orientation, Pixel, Transaction, RUN_BYTES};

fn framed(code: u8, args: Vec<u8>) -> Vec<Op> {
    vec![
        Op::Pin(Line::ChipSelect, false),
        Op::Pin(Line::DataCommand, false),
        Op::Write(vec![code]),
        Op::Pin(Line::DataCommand, true),
        Op::Write(args),
        Op::Pin(Line::ChipSelect, true),
    ]
}

fn window(x0: u16, y0: u16, x1: u16, y1: u16) -> Vec<Op> {
    let mut ops = framed(
        0x2a,
        vec![(x0 >> 8) as u8, x0 as u8, (x1 >> 8) as u8, x1 as u8],
    );
    ops.extend(framed(
        0x2b,
        vec![(y0 >> 8) as u8, y0 as u8, (y1 >> 8) as u8, y1 as u8],
    ));
    ops
}

fn raw(x0: u16, y0: u16, x1: u16, y1: u16, data: Vec<u8>) -> Vec<Op> {
    let mut ops = window(x0, y0, x1, y1);
    ops.extend(framed(0x2c, data));
    ops
}

fn px(x: i32, y: i32, color: u16) -> Pixel {
    Pixel { x, y, color }
}

fn handle() -> Ili9341 {
    Ili9341::new().0
}

#[test]
fn new_handle_is_portrait() {
    let d = handle();
    assert_eq!(d.width(), 240);
    assert_eq!(d.height(), 320);
}

#[test]
fn orientation_sets_size_and_register() {
    let cases = [
        (Orientation::Portrait, 240, 320, 0x48u8),
        (Orientation::PortraitFlipped, 240, 320, 0x88),
        (Orientation::Landscape, 320, 240, 0x28),
        (Orientation::LandscapeFlipped, 320, 240, 0xe8),
    ];
    for (mode, w, h, byte) in cases {
        let mut d = handle();
        let ops = d.set_orientation(mode);
        assert_eq!(d.width(), w);
        assert_eq!(d.height(), h);
        assert_eq!(ops, framed(0x36, vec![byte]));
    }
}

#[test]
fn orientation_back_to_portrait() {
    let mut d = handle();
    d.set_orientation(Orientation::Landscape);
    d.set_orientation(Orientation::Portrait);
    assert_eq!((d.width(), d.height()), (240, 320));
}

#[test]
fn window_is_two_commands_big_endian() {
    let mut ops = Vec::new();
    Ili9341::set_window(&mut ops, 0x0102, 0x0304, 0x0506, 0x0708);
    assert_eq!(ops.len(), 12);
    assert_eq!(ops[2], Op::Write(vec![0x2a]));
    assert_eq!(ops[4], Op::Write(vec![0x01, 0x02, 0x05, 0x06]));
    assert_eq!(ops[8], Op::Write(vec![0x2b]));
    assert_eq!(ops[10], Op::Write(vec![0x03, 0x04, 0x07, 0x08]));
    assert_eq!(ops, window(0x0102, 0x0304, 0x0506, 0x0708));
}

#[test]
fn draw_raw_passes_bytes_verbatim() {
    let d = handle();
    let data = vec![0xde, 0xad, 0xbe, 0xef, 0x00];
    let ops = d.draw_raw(10, 20, 11, 20, &data);
    assert_eq!(ops, raw(10, 20, 11, 20, data));
    let writes = ops.iter().filter(|o| **o == Op::Write(vec![0x2c])).count();
    assert_eq!(writes, 1);
}

#[test]
fn draw_iter_sends_each_color_big_endian() {
    let d = handle();
    let ops = d.draw_iter(0, 0, 1, 0, &[0xf800, 0x07e0]);
    let mut expected = window(0, 0, 1, 0);
    expected.extend(vec![
        Op::Pin(Line::ChipSelect, false),
        Op::Pin(Line::DataCommand, false),
        Op::Write(vec![0x2c]),
        Op::Pin(Line::DataCommand, true),
        Op::Write(vec![0xf8, 0x00]),
        Op::Write(vec![0x07, 0xe0]),
        Op::Pin(Line::ChipSelect, true),
    ]);
    assert_eq!(ops, expected);
}

#[test]
fn command_frames_opcode_and_arguments() {
    let mut ops = Vec::new();
    Ili9341::command(&mut ops, Command::GammaSet, &[0x01]);
    assert_eq!(ops, framed(0x26, vec![0x01]));
    assert_eq!(Command::MemoryWrite.code(), 0x2c);
    assert_eq!(Command::DisplayOn.code(), 0x29);
}

#[test]
fn coalesces_contiguous_row() {
    let d = handle();
    let ops = d.draw(&[px(0, 0, 0x1234), px(1, 0, 0x5678), px(2, 0, 0x9abc)]);
    assert_eq!(
        ops,
        raw(0, 0, 2, 0, vec![0x12, 0x34, 0x56, 0x78, 0x9a, 0xbc])
    );
}

#[test]
fn gap_breaks_run() {
    let d = handle();
    let ops = d.draw(&[px(0, 0, 0xaaaa), px(5, 0, 0xbbbb)]);
    let mut expected = raw(0, 0, 0, 0, vec![0xaa, 0xaa]);
    expected.extend(raw(5, 0, 5, 0, vec![0xbb, 0xbb]));
    assert_eq!(ops, expected);
}

#[test]
fn row_change_breaks_run() {
    let d = handle();
    let ops = d.draw(&[px(3, 1, 0x0001), px(4, 2, 0x0002)]);
    let mut expected = raw(3, 1, 3, 1, vec![0x00, 0x01]);
    expected.extend(raw(4, 2, 4, 2, vec![0x00, 0x02]));
    assert_eq!(ops, expected);
}

#[test]
fn off_screen_pixels_are_dropped() {
    let d = handle();
    assert!(d.draw(&[px(240, 0, 0xffff)]).is_empty());
    assert!(d.draw(&[px(0, -1, 0xffff)]).is_empty());
    assert!(d.draw(&[px(-1, 5, 0xffff), px(0, 320, 0xffff)]).is_empty());
    let ops = d.draw(&[px(239, 319, 0x0102), px(240, 319, 0xffff)]);
    assert_eq!(ops, raw(239, 319, 239, 319, vec![0x01, 0x02]));
}

#[test]
fn off_screen_pixel_does_not_break_run() {
    let d = handle();
    let ops = d.draw(&[px(0, 0, 0x0101), px(0, -3, 0xffff), px(1, 0, 0x0202)]);
    assert_eq!(ops, raw(0, 0, 1, 0, vec![0x01, 0x01, 0x02, 0x02]));
}

#[test]
fn landscape_clips_to_turned_size() {
    let mut d = handle();
    d.set_orientation(Orientation::Landscape);
    assert_eq!(d.draw(&[px(300, 0, 1)]).len(), 12 + 6);
    assert!(d.draw(&[px(0, 240, 1)]).is_empty());
}

#[test]
fn long_run_is_split_at_buffer_capacity() {
    let d = handle();
    let pixels: Vec<Pixel> = (0..70).map(|i| px(10 + i, 7, i as u16)).collect();
    let ops = d.draw(&pixels);
    let per = RUN_BYTES / 2;
    assert_eq!(per, 32);
    let mut expected = Vec::new();
    let mut start = 0usize;
    while start < 70 {
        let end = usize::min(start + per, 70);
        let mut bytes = Vec::new();
        for i in start..end {
            bytes.extend_from_slice(&(i as u16).to_be_bytes());
        }
        expected.extend(raw(
            10 + start as u16,
            7,
            10 + end as u16 - 1,
            7,
            bytes,
        ));
        start = end;
    }
    assert_eq!(ops, expected);
    assert_eq!(ops.len(), 3 * 18);
}

#[test]
fn exactly_full_run_is_one_write() {
    let d = handle();
    let pixels: Vec<Pixel> = (0..32).map(|i| px(i, 0, 0)).collect();
    assert_eq!(d.draw(&pixels).len(), 18);
    let pixels: Vec<Pixel> = (0..33).map(|i| px(i, 0, 0)).collect();
    assert_eq!(d.draw(&pixels).len(), 36);
}

#[test]
fn drawing_twice_gives_same_writes() {
    let d = handle();
    let pixels = [px(5, 5, 1), px(6, 5, 2), px(0, 0, 3), px(9, 9, 4), px(10, 9, 5)];
    let first = d.draw(&pixels);
    let second = d.draw(&pixels);
    assert_eq!(first, second);
    assert_eq!(first.len(), 3 * 18);
}

#[test]
fn empty_stream_draws_nothing() {
    assert!(handle().draw(&[]).is_empty());
}

#[test]
fn init_starts_with_hard_reset_and_ends_with_display_on() {
    let (_, ops) = Ili9341::new();
    assert_eq!(
        ops[..6].to_vec(),
        vec![
            Op::Pin(Line::Reset, true),
            Op::DelayMs(200),
            Op::Pin(Line::Reset, false),
            Op::DelayMs(200),
            Op::Pin(Line::Reset, true),
            Op::DelayMs(200),
        ]
    );
    let mut software_reset = framed(0x01, vec![]);
    software_reset.push(Op::DelayMs(200));
    assert_eq!(ops[6..13].to_vec(), software_reset);
    let mut tail = framed(0x11, vec![]);
    tail.push(Op::DelayMs(120));
    tail.extend(framed(0x29, vec![]));
    assert_eq!(ops[ops.len() - 13..].to_vec(), tail);
    assert_eq!(ops.len(), 6 + 7 + 18 * 6 + 13);
    assert!(ops.contains(&Op::Write(vec![0x39, 0x2c, 0x00, 0x34, 0x02])));
}

#[test]
fn transaction_runs_whole_plan() {
    let (_, plan) = Ili9341::new();
    let n = plan.len();
    let mut t = Transaction::new(plan);
    let mut performed = 0usize;
    while t.pending().is_some() {
        let outcome: Result<(), Error<u8, u8>> = Ok(());
        assert!(t.record(outcome).is_ok());
        performed += 1;
    }
    assert_eq!(performed, n);
    assert_eq!(t.done_count(), n);
}

#[test]
fn failure_during_init_stops_and_surfaces_error() {
    let (_, plan) = Ili9341::new();
    let n = plan.len();
    for k in 0..n {
        let expected = match &plan[k] {
            Op::Write(_) => "spi",
            Op::Pin(..) => "pin",
            Op::DelayMs(_) => continue,
        };
        let mut t = Transaction::new(plan.clone());
        let mut performed = 0usize;
        let mut surfaced = None;
        while let Some(op) = t.pending() {
            let outcome: Result<(), Error<u8, u8>> = if performed == k {
                match op {
                    Op::Write(_) => Err(Error::Spi(7)),
                    _ => Err(Error::OutputPin(9)),
                }
            } else {
                Ok(())
            };
            performed += 1;
            if let Err(e) = t.record(outcome) {
                surfaced = Some(e);
            }
        }
        assert_eq!(performed, k + 1);
        assert_eq!(t.done_count(), k + 1);
        match (expected, surfaced) {
            ("spi", Some(Error::Spi(7))) => {}
            ("pin", Some(Error::OutputPin(9))) => {}
            other => panic!("unexpected outcome {:?}", other.1),
        }
    }
}

#[test]
fn empty_plan_is_finished_at_once() {
    let t = Transaction::new(Vec::new());
    assert!(t.pending().is_none());
    assert_eq!(t.done_count(), 0);
}
