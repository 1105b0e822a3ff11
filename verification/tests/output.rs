use amidi::error::Error;
use amidi::output::{OutputPort, SEND_NOW};
use amidi::portmidi::PmError;

#[test]
fn failed_open_leaves_no_channel() {
    let r = OutputPort::new(3, PmError::HostError, 7);
    assert_eq!(r.unwrap_err(), Error::Native(PmError::HostError));
}

#[test]
fn failed_open_carries_the_status() {
    let r = OutputPort::new(0, PmError::InvalidDeviceId, 0);
    assert_eq!(r.unwrap_err(), Error::Native(PmError::InvalidDeviceId));
}

#[test]
fn open_owns_id_and_handle() {
    let port = OutputPort::new(2, PmError::NoError, 42).unwrap();
    assert_eq!(port.device_id(), 2);
    assert_eq!(port.close(), 42);
}

#[test]
fn open_then_close_releases_exactly_once() {
    let mut released: Vec<usize> = Vec::new();
    let port = OutputPort::new(1, PmError::NoError, 42).unwrap();
    released.push(port.close());
    assert_eq!(released, vec![42]);
}

#[test]
fn send_empty_payload_forwarded_unchanged() {
    let port = OutputPort::new(1, PmError::NoError, 9).unwrap();
    let req = port.send_sysex_msg(&[]);
    assert_eq!(req.stream, 9);
    assert_eq!(req.when, SEND_NOW);
    assert!(req.msg.is_empty());
    assert_eq!(port.send_outcome(PmError::NoError), Ok(()));
}

#[test]
fn send_sysex_success_then_overflow_keeps_channel_open() {
    let payload = [0xf0, 0x00, 0x01, 0xf7];
    let port = OutputPort::new(0, PmError::NoError, 5).unwrap();

    let req = port.send_sysex_msg(&payload);
    assert_eq!(req.msg, payload.to_vec());
    assert_eq!(req.stream, 5);
    assert_eq!(port.send_outcome(PmError::NoError), Ok(()));

    assert_eq!(
        port.send_outcome(PmError::BufferOverflow),
        Err(Error::Native(PmError::BufferOverflow))
    );

    let again = port.send_sysex_msg(&payload);
    assert_eq!(again.msg, payload.to_vec());
    assert_eq!(port.send_outcome(PmError::NoError), Ok(()));
}
