use ruspiro_push::Action;
use ruspiro_push::Arch;
use ruspiro_push::Driver;
use ruspiro_push::Event;
use ruspiro_push::Phase;
use ruspiro_push::ReadOutcome;
use ruspiro_push::State;
use ruspiro_push::TransferError;
use ruspiro_push::run_simulated;

const ACK: ReadOutcome = ReadOutcome::Bytes { b0: 0x41, b1: 0x43, b2: 0x4B };

#[test]
fn driver_walks_happy_path() {
    let payload: Vec<u8> = vec![9u8; 300];
    let mut d = Driver::new(payload, Arch::AArch32);
    assert_eq!(d.state, State::Configure);
    assert_eq!(d.current_action(), Action::Configure);

    assert_eq!(d.step(Event::ConfigureOk), Action::DrainGarbage);
    assert_eq!(d.step(Event::Drained), Action::SetReadTimeout { millis: 10000 });
    assert_eq!(d.step(Event::TimeoutSetOk), Action::WriteToken);
    assert_eq!(d.step(Event::WriteOk), Action::ReadAck);
    assert_eq!(d.step(Event::AckBytes { b0: 0x41, b1: 0x43, b2: 0x4B }), Action::WriteHeader);
    assert_eq!(d.step(Event::WriteOk), Action::ReadAck);
    assert_eq!(d.step(Event::AckBytes { b0: 0x41, b1: 0x43, b2: 0x4B }), Action::WriteChunk { index: 0 });
    assert_eq!(d.step(Event::WriteOk), Action::WriteChunk { index: 1 });
    assert_eq!(d.step(Event::WriteOk), Action::ReadAck);
    assert_eq!(d.step(Event::AckBytes { b0: 0x41, b1: 0x43, b2: 0x4B }), Action::EnterMirror);
    assert_eq!(d.state, State::Complete);
}

#[test]
fn driver_rejected_settings_abort() {
    let mut d = Driver::new(vec![1u8, 2, 3], Arch::AArch64);
    assert_eq!(d.step(Event::ConfigureFailed), Action::Abort);
    assert_eq!(d.state, State::Failed { error: TransferError::PortConfig });
}

#[test]
fn driver_timeout_setting_failure_aborts() {
    let mut d = Driver::new(vec![1u8], Arch::AArch64);
    d.step(Event::ConfigureOk);
    d.step(Event::Drained);
    assert_eq!(d.step(Event::TimeoutSetFailed), Action::Abort);
    assert_eq!(d.state, State::Failed { error: TransferError::Io });
}

#[test]
fn driver_write_failure_aborts() {
    let mut d = Driver::new(vec![1u8], Arch::AArch64);
    d.step(Event::ConfigureOk);
    d.step(Event::Drained);
    d.step(Event::TimeoutSetOk);
    assert_eq!(d.step(Event::WriteFailed), Action::Abort);
    assert_eq!(d.state, State::Failed { error: TransferError::Io });
}

#[test]
fn end_to_end_ten_bytes_aarch64() {
    let payload: Vec<u8> = vec![1, 2, 3, 4, 5, 6, 7, 8, 9, 10];
    let t = run_simulated(payload, Arch::AArch64, ACK, ACK, ACK);
    assert_eq!(t.outcome, Ok(()));
    assert_eq!(
        t.writes,
        vec![
            b"DEADBEEF".to_vec(),
            vec![0x0A, 0x00, 0x00, 0x00, 0x40],
            vec![1, 2, 3, 4, 5, 6, 7, 8, 9, 10],
        ]
    );
}

#[test]
fn acknowledged_everywhere_completes() {
    let payload: Vec<u8> = (0..1000u32).map(|i| (i % 256) as u8).collect();
    let t = run_simulated(payload.clone(), Arch::AArch32, ACK, ACK, ACK);
    assert_eq!(t.outcome, Ok(()));
    // token, header, and ceil(1000 / 256) = 4 chunks
    assert_eq!(t.writes.len(), 6);
    let rebuilt: Vec<u8> = t.writes[2..].concat();
    assert_eq!(rebuilt, payload);
}

#[test]
fn empty_payload_sends_no_chunks() {
    let t = run_simulated(Vec::new(), Arch::AArch32, ACK, ACK, ACK);
    assert_eq!(t.outcome, Ok(()));
    assert_eq!(t.writes, vec![b"DEADBEEF".to_vec(), vec![0x00, 0x00, 0x00, 0x00, 0x20]]);
}

#[test]
fn rejected_token_sends_nothing_more() {
    let bad = ReadOutcome::Bytes { b0: 1, b1: 2, b2: 3 };
    let t = run_simulated(vec![5u8; 100], Arch::AArch64, bad, ACK, ACK);
    assert_eq!(
        t.outcome,
        Err(TransferError::Protocol { phase: Phase::Token, got: (1, 2, 3) })
    );
    assert_eq!(t.writes, vec![b"DEADBEEF".to_vec()]);
}

#[test]
fn silent_target_times_out_after_token() {
    let t = run_simulated(vec![5u8; 100], Arch::AArch64, ReadOutcome::TimedOut, ACK, ACK);
    assert_eq!(t.outcome, Err(TransferError::Timeout));
    assert_eq!(t.writes, vec![b"DEADBEEF".to_vec()]);
}

#[test]
fn read_failure_after_token_is_io_error() {
    let t = run_simulated(vec![5u8; 100], Arch::AArch64, ReadOutcome::Failed, ACK, ACK);
    assert_eq!(t.outcome, Err(TransferError::Io));
    assert_eq!(t.writes, vec![b"DEADBEEF".to_vec()]);
}

#[test]
fn rejected_header_sends_no_payload() {
    let bad = ReadOutcome::Bytes { b0: 0x4E, b1: 0x41, b2: 0x4B };
    let t = run_simulated(vec![7u8; 10], Arch::AArch32, ACK, bad, ACK);
    assert_eq!(
        t.outcome,
        Err(TransferError::Protocol { phase: Phase::Header, got: (0x4E, 0x41, 0x4B) })
    );
    assert_eq!(t.writes, vec![b"DEADBEEF".to_vec(), vec![0x0A, 0x00, 0x00, 0x00, 0x20]]);
}

#[test]
fn rejected_payload_fails_after_full_send() {
    let bad = ReadOutcome::Bytes { b0: 0, b1: 0, b2: 0 };
    let t = run_simulated(vec![7u8; 10], Arch::AArch32, ACK, ACK, bad);
    assert_eq!(
        t.outcome,
        Err(TransferError::Protocol { phase: Phase::Payload, got: (0, 0, 0) })
    );
    assert_eq!(t.writes.len(), 3);
}

#[test]
fn timeout_waiting_for_header_ack() {
    let t = run_simulated(vec![7u8; 10], Arch::AArch32, ACK, ReadOutcome::TimedOut, ACK);
    assert_eq!(t.outcome, Err(TransferError::Timeout));
    assert_eq!(t.writes.len(), 2);
}
