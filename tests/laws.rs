use vtmachine::{VtEvent, VtMachine};

fn stream(input: &str) -> Vec<VtEvent> {
    let mut m = VtMachine::new();
    let mut ret = m.write_str(input);
    ret.extend_from_slice(m.write_end().as_slice());
    ret
}

const MIXED: &str = "ab\x1b[1mc\r\x1bPq12\x1b\\d\u{9d}osc\u{9c}e\x1b[1é\u{85}f\x1b]x\x18gh";

fn is_print(e: &VtEvent) -> bool {
    matches!(e, VtEvent::Print(_))
}

#[test]
fn every_print_run_ends_once() {
    let es = stream(MIXED);
    assert!(!es.is_empty());
    assert!(!is_print(es.last().unwrap()));
    for i in 0..es.len() {
        if is_print(&es[i]) {
            assert!(i + 1 < es.len());
            assert!(is_print(&es[i + 1]) || es[i + 1] == VtEvent::PrintEnd);
        }
        if es[i] == VtEvent::PrintEnd {
            assert!(i > 0 && is_print(&es[i - 1]));
        }
    }
    let runs = es.windows(2).filter(|w| is_print(&w[0]) && !is_print(&w[1])).count();
    let ends = es.iter().filter(|e| **e == VtEvent::PrintEnd).count();
    assert_eq!(runs, 6);
    assert_eq!(ends, 6);
}

#[test]
fn no_dispatch_directly_after_print() {
    let es = stream(MIXED);
    for i in 1..es.len() {
        let dispatch = matches!(
            es[i],
            VtEvent::DispatchCsi { .. }
                | VtEvent::DispatchEsc { .. }
                | VtEvent::DcsStart { .. }
                | VtEvent::OscStart(_)
                | VtEvent::Error(_)
                | VtEvent::ExecuteCtrl(_)
        );
        if dispatch {
            assert!(!is_print(&es[i - 1]));
        }
    }
}

#[test]
fn control_strings_are_bracketed() {
    let es = stream(MIXED);
    let mut open_dcs = false;
    let mut open_osc = false;
    let mut dcs_seen = 0;
    let mut osc_seen = 0;
    for e in &es {
        match e {
            VtEvent::DcsStart { .. } => {
                assert!(!open_dcs);
                open_dcs = true;
                dcs_seen += 1;
            }
            VtEvent::DcsChar(_) => assert!(open_dcs),
            VtEvent::DcsEnd(_) => {
                assert!(open_dcs);
                open_dcs = false;
            }
            VtEvent::OscStart(_) => {
                assert!(!open_osc);
                open_osc = true;
                osc_seen += 1;
            }
            VtEvent::OscChar(_) => assert!(open_osc),
            VtEvent::OscEnd(_) => {
                assert!(open_osc);
                open_osc = false;
            }
            _ => {
                assert!(!open_dcs && !open_osc);
            }
        }
    }
    assert_eq!(dcs_seen, 1);
    assert_eq!(osc_seen, 2);
    assert!(!open_dcs && !open_osc);
}

#[test]
fn unterminated_dcs_at_end_of_stream() {
    let es = stream("\x1bPqab");
    assert_eq!(es.len(), 3);
    assert!(matches!(es[0], VtEvent::DcsStart { cmd: b'q', .. }));
    assert_eq!(es[1], VtEvent::DcsChar('a'));
    assert_eq!(es[2], VtEvent::DcsChar('b'));
}

#[test]
fn buffers_stay_bounded() {
    let mut input = String::from("\x1b[");
    for i in 0..40 {
        input.push_str(&format!("{i};"));
    }
    input.push_str("!\"#$%m");
    let es = stream(&input);
    assert_eq!(es.len(), 1);
    match es[0] {
        VtEvent::DispatchCsi { params, intermediates, .. } => {
            assert_eq!(params.len(), 16);
            let want: Vec<u16> = (0..15).collect();
            assert_eq!(&params.values()[..15], &want[..]);
            assert_eq!(intermediates.chars(), b"!\"");
            assert!(intermediates.has_overrun());
        }
        other => panic!("unexpected event {other:?}"),
    }
}
