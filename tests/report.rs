use arm_dcc::{render_report, FailurePayload, FaultReporter, Location, Phase, Strategy, Writer};

fn host_text(w: &mut Writer) -> String {
    let bytes: Vec<u8> = w.take_pending().iter().map(|x| *x as u8).collect();
    String::from_utf8(bytes).unwrap()
}

fn hello_location() -> Location {
    Location { file: String::from("src/hello.rs"), line: 4, column: 4 }
}

#[test]
fn report_with_location() {
    let mut w = Writer::new(Strategy::Direct);
    render_report(&mut w, &FailurePayload::Text(String::from("Oops")), &Some(hello_location()));
    assert_eq!(host_text(&mut w), "panicked at 'Oops', src/hello.rs:4:4\n");
}

#[test]
fn report_without_location() {
    let mut w = Writer::new(Strategy::Direct);
    render_report(&mut w, &FailurePayload::Text(String::from("Oops")), &None);
    assert_eq!(host_text(&mut w), "panicked at 'Oops'\n");
}

#[test]
fn report_of_non_text_payload() {
    let mut w = Writer::new(Strategy::Direct);
    render_report(&mut w, &FailurePayload::Opaque, &None);
    assert_eq!(host_text(&mut w), "panicked at 'dyn Any'\n");
    render_report(&mut w, &FailurePayload::Opaque, &Some(hello_location()));
    assert_eq!(host_text(&mut w), "panicked at 'dyn Any', src/hello.rs:4:4\n");
}

#[test]
fn report_numbers_in_decimal() {
    let mut w = Writer::new(Strategy::Direct);
    let loc = Location { file: String::from("a.rs"), line: 0, column: u32::MAX };
    render_report(&mut w, &FailurePayload::Text(String::new()), &Some(loc));
    assert_eq!(host_text(&mut w), "panicked at '', a.rs:0:4294967295\n");
    let loc = Location { file: String::from("lib.rs"), line: 1203, column: 10 };
    render_report(&mut w, &FailurePayload::Text(String::from("x")), &Some(loc));
    assert_eq!(host_text(&mut w), "panicked at 'x', lib.rs:1203:10\n");
}

#[test]
fn report_on_disabled_channel_sends_nothing() {
    let mut w = Writer::new(Strategy::Disabled);
    render_report(&mut w, &FailurePayload::Text(String::from("Oops")), &Some(hello_location()));
    assert!(w.take_pending().is_empty());
}

#[test]
fn reporter_captures_text_or_marker() {
    let mut w = Writer::new(Strategy::Direct);
    let mut r = FaultReporter::capture(None, None);
    r.step(&mut w);
    assert_eq!(host_text(&mut w), "panicked at 'dyn Any'\n");
    let mut r = FaultReporter::capture(Some("Oops"), Some(hello_location()));
    r.step(&mut w);
    assert_eq!(host_text(&mut w), "panicked at 'Oops', src/hello.rs:4:4\n");
}

#[test]
fn reporter_writes_once_then_halts_silently() {
    let mut w = Writer::new(Strategy::Direct);
    let mut r = FaultReporter::capture(Some("Oops"), None);
    assert_eq!(r.current_phase(), Phase::Rendering);
    r.step(&mut w);
    assert_eq!(r.current_phase(), Phase::Halting);
    assert_eq!(host_text(&mut w), "panicked at 'Oops'\n");
    for _ in 0..100 {
        r.step(&mut w);
        assert_eq!(r.current_phase(), Phase::Halting);
    }
    assert!(w.take_pending().is_empty());
}
