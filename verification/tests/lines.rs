use amux::agent::lines::{read_line, Handed, Pump, PumpStep};

#[test]
fn lines_end_in_a_line_feed() {
    assert_eq!(read_line(b"a\n".to_vec()), Some(b"a".to_vec()));
    assert_eq!(read_line(b"a\r\n".to_vec()), Some(b"a".to_vec()));
    assert_eq!(read_line(b"a\r".to_vec()), Some(b"a\r".to_vec()));
    assert_eq!(read_line(b"a".to_vec()), Some(b"a".to_vec()));
    assert_eq!(read_line(b"\r\n".to_vec()), None);
    assert_eq!(read_line(b"\n".to_vec()), None);
}

#[test]
fn dropped_lines_are_reported_now_and_then() {
    let mut pump = Pump::new();
    assert_eq!(pump.handed(Handed::Taken), PumpStep::Next);
    assert_eq!(pump.dropped, 0);
    assert_eq!(pump.handed(Handed::Full), PumpStep::Report);
    for _ in 2..256 {
        assert_eq!(pump.handed(Handed::Full), PumpStep::Next);
    }
    assert_eq!(pump.handed(Handed::Full), PumpStep::Report);
    assert_eq!(pump.dropped, 256);
    assert_eq!(pump.handed(Handed::Closed), PumpStep::Stop);
}
