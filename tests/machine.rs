use u8char::stream::U8CharStream;
use u8char::AsU8Chars;
use vtmachine::{State, VtEvent, VtIntermediates, VtMachine, VtParams};

fn collect_events(machine: &mut VtMachine, input: &str) -> Vec<VtEvent> {
    let mut ret = machine.write_str(input);
    ret.extend_from_slice(machine.write_end().as_slice());
    ret
}

fn collect_u8char_events(machine: &mut VtMachine, input: &str) -> Vec<VtEvent> {
    let mut ret = Vec::new();
    for c in input.u8chars() {
        ret.extend_from_slice(machine.write_u8char(c).as_slice());
    }
    ret.extend_from_slice(machine.write_end().as_slice());
    ret
}

fn prints(s: &str) -> Vec<VtEvent> {
    s.chars().map(VtEvent::Print).collect()
}

fn csi(cmd: char, params: &[u16]) -> VtEvent {
    VtEvent::DispatchCsi {
        cmd: cmd as u8,
        params: VtParams::from_slice(params),
        intermediates: VtIntermediates::new(),
    }
}

#[test]
fn literal() {
    let mut m = VtMachine::new();
    let got = collect_u8char_events(&mut m, "hello world\r\nboop");
    let mut want = prints("hello world");
    want.push(VtEvent::PrintEnd);
    want.push(VtEvent::ExecuteCtrl(b'\r'));
    want.push(VtEvent::ExecuteCtrl(b'\n'));
    want.extend(prints("boop"));
    want.push(VtEvent::PrintEnd);
    assert_eq!(got, want);
}

#[test]
fn format_csi() {
    let mut m = VtMachine::new();
    let got = collect_u8char_events(&mut m, "plain\x1b[1mbold\x1b[2;3pmore");
    let mut want = prints("plain");
    want.push(VtEvent::PrintEnd);
    want.push(csi('m', &[1]));
    want.extend(prints("bold"));
    want.push(VtEvent::PrintEnd);
    want.push(csi('p', &[2, 3]));
    want.extend(prints("more"));
    want.push(VtEvent::PrintEnd);
    assert_eq!(got, want);
}

#[test]
fn through_u8char_stream() {
    let mut m = VtMachine::new();
    let mut stream = U8CharStream::new();
    let mut got: Vec<VtEvent> = Vec::new();

    for c in stream.more(b"a\x1b[1m\xe2\x9d\x9e\x1b[0m\x9dc\xe2") {
        got.extend_from_slice(m.write_u8char(c).as_slice());
    }
    for c in stream.end() {
        got.extend_from_slice(m.write_u8char(c).as_slice());
    }
    got.extend_from_slice(m.write_end().as_slice());

    let want = vec![
        VtEvent::Print('a'),
        VtEvent::PrintEnd,
        csi('m', &[1]),
        VtEvent::Print('❞'),
        VtEvent::PrintEnd,
        csi('m', &[0]),
        VtEvent::Print('\u{FFFD}'),
        VtEvent::Print('c'),
        VtEvent::Print('\u{FFFD}'),
        VtEvent::PrintEnd,
    ];
    assert_eq!(got, want);
}

#[test]
fn write_str_matches_write_char() {
    let input = "plain\x1b[1mbold\x1b]0;title\u{9c}\x1bPq#0\x1b\\é\u{85}";
    let mut a = VtMachine::new();
    let mut b = VtMachine::new();
    let got = a.write_str(input);
    let mut want = Vec::new();
    for c in input.chars() {
        want.extend_from_slice(b.write_char(c).as_slice());
    }
    assert_eq!(got, want);
}

#[test]
fn clear_screen_then_text() {
    let mut m = VtMachine::new();
    let got = collect_events(&mut m, "\x1b[2J\x1b[1;1HHello!\r\n");
    let mut want = vec![csi('J', &[2]), csi('H', &[1, 1])];
    want.extend(prints("Hello!"));
    want.push(VtEvent::PrintEnd);
    want.push(VtEvent::ExecuteCtrl(b'\r'));
    want.push(VtEvent::ExecuteCtrl(b'\n'));
    assert_eq!(got, want);
}

#[test]
fn dcs_cancelled_by_can() {
    let mut m = VtMachine::new();
    let got = collect_events(&mut m, "\x1bPq...\x18");
    let want = vec![
        VtEvent::DcsStart {
            cmd: b'q',
            params: VtParams::new(),
            intermediates: VtIntermediates::new(),
        },
        VtEvent::DcsChar('.'),
        VtEvent::DcsChar('.'),
        VtEvent::DcsChar('.'),
        VtEvent::DcsEnd(0x18),
        VtEvent::ExecuteCtrl(0x18),
    ];
    assert_eq!(got, want);
    assert_eq!(m.state(), State::Literal);
}

#[test]
fn dcs_with_params_and_st() {
    let mut m = VtMachine::new();
    let got = collect_events(&mut m, "\x1bP1;2$qm\x1b\\");
    let want = vec![
        VtEvent::DcsStart {
            cmd: b'q',
            params: VtParams::from_slice(&[1, 2]),
            intermediates: VtIntermediates::from_slice(b"$"),
        },
        VtEvent::DcsChar('m'),
        VtEvent::DcsEnd(0x1b),
        VtEvent::DispatchEsc { cmd: b'\\', intermediates: VtIntermediates::new() },
    ];
    assert_eq!(got, want);
}

#[test]
fn osc_with_c1_controls() {
    let mut m = VtMachine::new();
    let got = collect_events(&mut m, "\u{9d}foo\u{9c}");
    let want = vec![
        VtEvent::OscStart(0x9d),
        VtEvent::OscChar('f'),
        VtEvent::OscChar('o'),
        VtEvent::OscChar('o'),
        VtEvent::OscEnd(0x9c),
    ];
    assert_eq!(got, want);
}

#[test]
fn osc_with_escape_introducer_and_terminator() {
    let mut m = VtMachine::new();
    let got = collect_events(&mut m, "\x1b]0;t\x1b\\");
    let want = vec![
        VtEvent::OscStart(b']'),
        VtEvent::OscChar('0'),
        VtEvent::OscChar(';'),
        VtEvent::OscChar('t'),
        VtEvent::OscEnd(0x1b),
        VtEvent::DispatchEsc { cmd: b'\\', intermediates: VtIntermediates::new() },
    ];
    assert_eq!(got, want);
}

#[test]
fn excess_separators_truncate_params() {
    let mut m = VtMachine::new();
    let got = collect_events(&mut m, "\x1b[;;;;;;;;;;;;;;;;;;;;1m");
    assert_eq!(got.len(), 1);
    let mut want_params = [0u16; 16];
    want_params[15] = 1;
    match got[0] {
        VtEvent::DispatchCsi { cmd, params, intermediates } => {
            assert_eq!(cmd, b'm');
            assert_eq!(params.len(), 16);
            assert_eq!(params.values(), &want_params[..]);
            assert_eq!(intermediates.len(), 0);
            assert!(!intermediates.has_overrun());
        }
        other => panic!("unexpected event {other:?}"),
    }
}

#[test]
fn param_digits_wrap_modulo_65536() {
    let mut m = VtMachine::new();
    let got = collect_events(&mut m, "\x1b[65536;70000;65535m");
    assert_eq!(got, vec![csi('m', &[0, 4464, 65535])]);
}

#[test]
fn leading_separator_starts_first_param() {
    let mut m = VtMachine::new();
    let got = collect_events(&mut m, "\x1b[;5H");
    assert_eq!(got, vec![csi('H', &[5])]);
}

#[test]
fn private_marker_and_intermediate_collected() {
    let mut m = VtMachine::new();
    let got = collect_events(&mut m, "\x1b[?25h\x1b[2 q");
    let want = vec![
        VtEvent::DispatchCsi {
            cmd: b'h',
            params: VtParams::from_slice(&[25]),
            intermediates: VtIntermediates::from_slice(b"?"),
        },
        VtEvent::DispatchCsi {
            cmd: b'q',
            params: VtParams::from_slice(&[2]),
            intermediates: VtIntermediates::from_slice(b" "),
        },
    ];
    assert_eq!(got, want);
}

#[test]
fn escape_intermediates_overrun() {
    let mut m = VtMachine::new();
    let got = collect_events(&mut m, "\x1b !#A");
    assert_eq!(got.len(), 1);
    match got[0] {
        VtEvent::DispatchEsc { cmd, intermediates } => {
            assert_eq!(cmd, b'A');
            assert_eq!(intermediates.chars(), b" !");
            assert_eq!(intermediates.len(), 2);
            assert!(intermediates.has_overrun());
        }
        other => panic!("unexpected event {other:?}"),
    }
}

#[test]
fn malformed_csi_is_ignored() {
    let mut m = VtMachine::new();
    let got = collect_events(&mut m, "\x1b[1:2mok");
    let mut want = prints("ok");
    want.push(VtEvent::PrintEnd);
    assert_eq!(got, want);
}

#[test]
fn c1_control_ends_print_run() {
    let mut m = VtMachine::new();
    let got = collect_events(&mut m, "ab\u{85}\u{9b}3A");
    let want = vec![
        VtEvent::Print('a'),
        VtEvent::Print('b'),
        VtEvent::PrintEnd,
        VtEvent::ExecuteCtrl(0x85),
        csi('A', &[3]),
    ];
    assert_eq!(got, want);
}

#[test]
fn non_ascii_prints_in_literal() {
    let mut m = VtMachine::new();
    let got = collect_events(&mut m, "é\u{a0}😀");
    let mut want = prints("é\u{a0}😀");
    want.push(VtEvent::PrintEnd);
    assert_eq!(got, want);
}

#[test]
fn error_resets_to_literal() {
    let mut m = VtMachine::new();
    let got = collect_events(&mut m, "x\x1b[1é\x1b[mz");
    let want = vec![
        VtEvent::Print('x'),
        VtEvent::PrintEnd,
        VtEvent::Error('é'),
        csi('m', &[]),
        VtEvent::Print('z'),
        VtEvent::PrintEnd,
    ];
    assert_eq!(got, want);
}

#[test]
fn error_state_and_buffers_after_error() {
    let mut m = VtMachine::new();
    m.write_str("\x1b[12;3");
    assert_eq!(m.state(), State::CtrlParam);
    let evs = m.write_char('€');
    assert_eq!(evs.as_slice(), &[VtEvent::Error('€')]);
    assert_eq!(m.state(), State::Literal);
    // a device control string started by the C1 introducer carries the
    // buffers as the error left them: empty
    let evs = m.write_str("\u{90}p");
    assert_eq!(
        evs,
        vec![VtEvent::DcsStart {
            cmd: b'p',
            params: VtParams::new(),
            intermediates: VtIntermediates::new(),
        }]
    );
}

#[test]
fn dcs_ended_by_non_ascii_reports_utf8_first_byte() {
    let mut m = VtMachine::new();
    let got = collect_events(&mut m, "\x1bPqab\u{e9}");
    let want = vec![
        VtEvent::DcsStart {
            cmd: b'q',
            params: VtParams::new(),
            intermediates: VtIntermediates::new(),
        },
        VtEvent::DcsChar('a'),
        VtEvent::DcsChar('b'),
        VtEvent::DcsEnd(0xc3),
        VtEvent::Error('\u{e9}'),
    ];
    assert_eq!(got, want);
}

#[test]
fn osc_ended_by_non_ascii_reports_utf8_first_byte() {
    let mut m = VtMachine::new();
    let got = collect_events(&mut m, "\x1b]x😀\u{20ac}");
    let want = vec![
        VtEvent::OscStart(b']'),
        VtEvent::OscChar('x'),
        VtEvent::OscEnd(0xf0),
        VtEvent::Error('😀'),
        VtEvent::Print('\u{20ac}'),
        VtEvent::PrintEnd,
    ];
    assert_eq!(got, want);
}

#[test]
fn universal_osc_inside_osc_restarts_it() {
    let mut m = VtMachine::new();
    let got = collect_events(&mut m, "\u{9d}a\u{9d}b\x07\u{9c}");
    let want = vec![
        VtEvent::OscStart(0x9d),
        VtEvent::OscChar('a'),
        VtEvent::OscEnd(0x9d),
        VtEvent::OscStart(0x9d),
        VtEvent::OscChar('b'),
        VtEvent::OscEnd(0x9c),
    ];
    assert_eq!(got, want);
}

#[test]
fn ignore_until_string_terminator() {
    let mut m = VtMachine::new();
    let got = collect_events(&mut m, "\x1b_secret\u{9c}ok");
    let mut want = prints("ok");
    want.push(VtEvent::PrintEnd);
    assert_eq!(got, want);
}

#[test]
fn write_end_mid_sequence_starts_afresh() {
    let mut m = VtMachine::new();
    assert!(m.write_str("\x1b[12").is_empty());
    assert!(m.write_end().is_empty());
    assert_eq!(m.state(), State::Literal);
    assert_eq!(collect_events(&mut m, "5m"), {
        let mut w = prints("5m");
        w.push(VtEvent::PrintEnd);
        w
    });
}

#[test]
fn write_end_is_idempotent() {
    let mut m = VtMachine::new();
    assert!(m.write_end().is_empty());
    m.write_str("hi");
    let first = m.write_end();
    assert_eq!(first.as_slice(), &[VtEvent::PrintEnd]);
    let second = m.write_end();
    assert!(second.is_empty());
    assert_eq!(second.len(), 0);
    assert_eq!(m.state(), State::Literal);
}

#[test]
fn events_accessors() {
    let mut m = VtMachine::new();
    m.write_char('a');
    let evs = m.write_char('\u{9d}');
    assert_eq!(evs.len(), 2);
    assert_eq!(evs.get(0), Some(VtEvent::PrintEnd));
    assert_eq!(evs.get(1), Some(VtEvent::OscStart(0x9d)));
    assert_eq!(evs.get(2), None);
}

struct Recorder {
    log: Vec<String>,
}

impl vtmachine::VtHandler for Recorder {
    fn print(&mut self, c: char) {
        self.log.push(format!("print {c}"));
    }

    fn print_end(&mut self) {
        self.log.push("print_end".to_string());
    }

    fn execute_ctrl(&mut self, c: u8) {
        self.log.push(format!("execute {c}"));
    }

    fn dispatch_csi(&mut self, cmd: u8, params: &VtParams, intermediates: &VtIntermediates) {
        self.log.push(format!(
            "csi {} {:?} {:?}",
            cmd as char,
            params.values(),
            intermediates.chars()
        ));
    }

    fn osc_start(&mut self, c: u8) {
        self.log.push(format!("osc_start {c}"));
    }

    fn osc_char(&mut self, c: char) {
        self.log.push(format!("osc_char {c}"));
    }

    fn osc_end(&mut self, c: u8) {
        self.log.push(format!("osc_end {c}"));
    }
}

#[test]
fn handler_receives_events_in_order() {
    let mut m = VtMachine::new();
    let mut r = Recorder { log: Vec::new() };
    for c in "ab\x1b[1;2Hc\n\u{9d}x\u{9c}\x1bP$q\u{9c}d".chars() {
        m.write_char_to(c, &mut r);
    }
    m.write_end_to(&mut r);
    let want = vec![
        "print a",
        "print b",
        "print_end",
        "csi H [1, 2] []",
        "print c",
        "print_end",
        "execute 10",
        "osc_start 157",
        "osc_char x",
        "osc_end 156",
        "print d",
        "print_end",
    ];
    assert_eq!(r.log, want);
}
