//! Tests of the transaction executor against the deterministic fake port.

use lr1120::engine::Lr1120;
use lr1120::fake::FakePort;
use lr1120::Lr1120Error;

const CAP: usize = 256;
const BUDGET: u32 = 100;

fn driver(busy_polls: u32, rx_script: Vec<u8>) -> Lr1120<FakePort> {
    Lr1120::new(FakePort::new(busy_polls, rx_script), CAP, BUDGET)
}

#[test]
fn write_sends_request_bytes() {
    let mut dev = driver(0, Vec::new());
    dev.write(&[0x01, 0x0E]).unwrap();
    assert_eq!(dev.port.tx_log, vec![0x01, 0x0E]);
    assert_eq!(dev.port.selects, 1);
    assert_eq!(dev.port.releases, 1);
    assert_eq!(dev.port.transfers, 1);
    assert_eq!(dev.port.polls_made, 0);
    assert!(!dev.port.is_selected);
}

#[test]
fn write_over_capacity_is_rejected_without_bus_activity() {
    let mut dev = Lr1120::new(FakePort::new(0, Vec::new()), 4, BUDGET);
    let r = dev.write(&[0, 1, 2, 3, 4]);
    assert_eq!(r, Err(Lr1120Error::CmdErr));
    assert_eq!(dev.port.transfers, 0);
    assert_eq!(dev.port.selects, 0);
}

#[test]
fn write_then_read_polls_before_reading() {
    // The fake readiness source stays busy for 3 polls; the executor must
    // sample it at least that often before the read phase.
    let busy = 3;
    let mut script = vec![0xAA, 0xBB];  // shadow bytes during the write phase
    script.extend_from_slice(&[0x04, 0x12, 0x34]);  // the response
    let mut dev = driver(busy, script);
    let rsp = dev.write_then_read(&[0x01, 0x01], 3, 10).unwrap();
    assert_eq!(rsp, vec![0x04, 0x12, 0x34]);
    // Busy polls plus the final ready poll.
    assert_eq!(dev.port.polls_made, busy + 1);
    // Write phase and read phase, each framed by chip-select.
    assert_eq!(dev.port.transfers, 2);
    assert_eq!(dev.port.selects, 2);
    assert_eq!(dev.port.releases, 2);
    assert!(!dev.port.is_selected);
    // The read phase pumps zero probe bytes.
    assert_eq!(dev.port.tx_log, vec![0x01, 0x01, 0x00, 0x00, 0x00]);
}

#[test]
fn short_timeout_yields_timeout_not_data() {
    // The budget is shorter than the fake source's busy duration: the
    // executor must report a timeout and never read response bytes.
    let mut dev = driver(5, vec![0; 16]);
    let r = dev.write_then_read(&[0x01, 0x01], 3, 3);
    assert_eq!(r, Err(Lr1120Error::Timeout));
    assert_eq!(dev.port.polls_made, 3);
    // Only the write phase touched the bus.
    assert_eq!(dev.port.transfers, 1);
    assert!(!dev.port.is_selected);
}

#[test]
fn never_ready_times_out_after_exact_budget() {
    // A readiness source that never becomes ready: the timeout error comes
    // after exactly the caller-supplied budget, and chip-select ends
    // released.
    let mut dev = driver(u32::MAX, vec![0; 8]);
    let r = dev.write_then_read(&[0x01, 0x01], 2, 7);
    assert_eq!(r, Err(Lr1120Error::Timeout));
    assert_eq!(dev.port.polls_made, 7);
    assert!(!dev.port.is_selected);
}

#[test]
fn wait_ready_zero_budget_times_out_without_polling() {
    let mut dev = driver(0, Vec::new());
    assert_eq!(dev.wait_ready(0), Err(Lr1120Error::Timeout));
    assert_eq!(dev.port.polls_made, 0);
}

#[test]
fn wait_ready_counts_busy_polls() {
    let mut dev = driver(4, Vec::new());
    assert_eq!(dev.wait_ready(10), Ok(()));
    assert_eq!(dev.port.polls_made, 5);
}

#[test]
fn write_checked_param_error_stops_bus_activity() {
    // The chip acknowledges the request with a ParamError status: the
    // invalid-parameter error is returned and no further bus activity
    // follows the status read.
    let mut script = vec![0x00, 0x00];  // shadow bytes of the write phase
    script.extend_from_slice(&[0x02, 0x00]);  // status word: outcome PErr
    let mut dev = driver(0, script);
    let r = dev.write_checked(&[0x01, 0x0E], 10);
    assert_eq!(r, Err(Lr1120Error::CmdErr));
    assert_eq!(dev.port.transfers, 2);
    assert_eq!(dev.port.selects, 2);
    assert_eq!(dev.port.releases, 2);
    assert!(!dev.port.is_selected);
}

#[test]
fn write_checked_ok_and_fail_statuses() {
    let mut script = vec![0x00, 0x00];
    script.extend_from_slice(&[0x04, 0x00]);  // outcome Okay
    let mut dev = driver(0, script);
    assert_eq!(dev.write_checked(&[0x01, 0x0E], 10), Ok(()));

    let mut script = vec![0x00, 0x00];
    script.extend_from_slice(&[0x00, 0x00]);  // outcome Fail
    let mut dev = driver(0, script);
    assert_eq!(dev.write_checked(&[0x01, 0x0E], 10), Err(Lr1120Error::CmdFail));

    let mut script = vec![0x00, 0x00];
    script.extend_from_slice(&[0x08, 0x00]);  // outcome outside the encoding
    let mut dev = driver(0, script);
    assert_eq!(dev.write_checked(&[0x01, 0x0E], 10), Err(Lr1120Error::Unknown));
}

#[test]
fn transport_error_is_spi() {
    let mut dev = driver(0, Vec::new());
    dev.port.fail_transfers = true;
    assert_eq!(dev.write(&[0x01, 0x0E]), Err(Lr1120Error::Spi));
    assert!(!dev.port.is_selected);
}

#[test]
fn pin_errors() {
    let mut dev = driver(0, Vec::new());
    dev.port.fail_selects = true;
    assert_eq!(dev.write(&[0x01, 0x0E]), Err(Lr1120Error::Pin));

    let mut dev = driver(0, Vec::new());
    dev.port.fail_polls = true;
    assert_eq!(dev.wait_ready(5), Err(Lr1120Error::Pin));
}

#[test]
fn write_with_trailing_payload_concatenates() {
    let mut dev = driver(0, Vec::new());
    dev.write_with_trailing_payload(&[0x01, 0x09], &[0xDE, 0xAD, 0xBE]).unwrap();
    assert_eq!(dev.port.tx_log, vec![0x01, 0x09, 0xDE, 0xAD, 0xBE]);
    assert_eq!(dev.port.transfers, 1);
}

#[test]
fn write_with_trailing_payload_over_capacity() {
    let mut dev = Lr1120::new(FakePort::new(0, Vec::new()), 4, BUDGET);
    let r = dev.write_with_trailing_payload(&[0x01, 0x09], &[1, 2, 3]);
    assert_eq!(r, Err(Lr1120Error::CmdErr));
    assert_eq!(dev.port.transfers, 0);
}

#[test]
fn read_response_returns_scripted_bytes() {
    let mut dev = driver(2, vec![0x04, 0x55, 0x66]);
    let rsp = dev.read_response(3, 10).unwrap();
    assert_eq!(rsp, vec![0x04, 0x55, 0x66]);
    assert_eq!(dev.port.polls_made, 3);
    assert_eq!(dev.port.transfers, 1);
}

#[test]
fn read_checked_validates_leading_status() {
    let mut script = vec![0x00, 0x00];
    script.extend_from_slice(&[0x00, 0x12]);  // leading status byte: Fail
    let mut dev = driver(0, script);
    let r = dev.read_checked(&[0x01, 0x01], 2, 10);
    assert_eq!(r, Err(Lr1120Error::CmdFail));
}

#[test]
fn read_streaming_assembles_chunks() {
    // 5 data bytes in chunks of at most 2: three transactions, each with
    // its own leading status byte (Okay short form = 0x04).
    let mut script: Vec<u8> = Vec::new();
    script.extend_from_slice(&[0, 0, 0, 0]);  // shadow of request 1 (4 bytes)
    script.extend_from_slice(&[0x04, 0x10, 0x11]);  // status + chunk 1
    script.extend_from_slice(&[0, 0, 0, 0]);
    script.extend_from_slice(&[0x04, 0x12, 0x13]);  // status + chunk 2
    script.extend_from_slice(&[0, 0, 0, 0]);
    script.extend_from_slice(&[0x04, 0x14]);  // status + final short chunk
    let mut dev = driver(0, script);
    let (data, err) = dev.read_streaming(&[0x01, 0x0A], 0, 5, 2, 10);
    assert!(err.is_none());
    assert_eq!(data, vec![0x10, 0x11, 0x12, 0x13, 0x14]);
    // Each chunk is an independent write-then-read.
    assert_eq!(dev.port.transfers, 6);
    // Chunk requests carry the advancing index and the chunk length.
    assert_eq!(
        dev.port.tx_log,
        vec![
            0x01, 0x0A, 0, 2, 0, 0, 0,  // request (index 0, len 2), probe
            0x01, 0x0A, 2, 2, 0, 0, 0,  // request (index 2, len 2), probe
            0x01, 0x0A, 4, 1, 0, 0,     // request (index 4, len 1), probe
        ]
    );
}

#[test]
fn read_streaming_aborts_on_bad_status() {
    let mut script: Vec<u8> = Vec::new();
    script.extend_from_slice(&[0, 0, 0, 0]);
    script.extend_from_slice(&[0x04, 0x10, 0x11]);  // first chunk fine
    script.extend_from_slice(&[0, 0, 0, 0]);
    script.extend_from_slice(&[0x00, 0x12, 0x13]);  // second chunk: Fail
    let mut dev = driver(0, script);
    let (data, err) = dev.read_streaming(&[0x01, 0x0A], 0, 6, 2, 10);
    assert_eq!(err, Some(Lr1120Error::CmdFail));
    assert_eq!(data, vec![0x10, 0x11]);
}

#[test]
fn capacity_is_fixed_at_construction() {
    let dev = Lr1120::new(FakePort::new(0, Vec::new()), 42, BUDGET);
    assert_eq!(dev.capacity(), 42);
}
