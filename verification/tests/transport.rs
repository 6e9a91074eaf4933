use agronet_backend::ledger_flex::transport::{
    frame_apdu, is_ledger_device, read_error, ApduReader, ReadStep, LEDGER_CHANNEL, LEDGER_VENDOR_ID,
    TAG_APDU,
};
use agronet_backend::ledger_flex::error::LedgerError;

#[test]
fn test_ledger_constants() {
    assert_eq!(LEDGER_VENDOR_ID, 0x2c97);
    assert_eq!(LEDGER_CHANNEL, 0x0101);
    assert_eq!(TAG_APDU, 0x05);
}

fn read_back(packets: &[Vec<u8>]) -> Result<Vec<u8>, LedgerError> {
    let mut reader = ApduReader::new();
    for packet in packets {
        match reader.feed(packet, packet.len()) {
            ReadStep::Continue(r) => reader = r,
            ReadStep::Complete(v) => return Ok(v),
            ReadStep::Failed(e) => return Err(e),
        }
    }
    panic!("incomplete")
}

#[test]
fn framing_layout() {
    let cmd: Vec<u8> = (0..100).map(|i| i as u8).collect();
    let packets = frame_apdu(&cmd);
    assert_eq!(packets.len(), 2);
    assert!(packets.iter().all(|p| p.len() == 64));
    assert_eq!(&packets[0][..7], &[0x01, 0x01, 0x05, 0x00, 0x00, 0x00, 100]);
    assert_eq!(&packets[0][7..], &cmd[..57]);
    assert_eq!(&packets[1][..5], &[0x01, 0x01, 0x05, 0x00, 0x01]);
    assert_eq!(&packets[1][5..48], &cmd[57..]);
    assert!(packets[1][48..].iter().all(|b| *b == 0));
    assert!(frame_apdu(&[]).is_empty());
}

#[test]
fn frame_then_read_roundtrip() {
    for len in [1usize, 56, 57, 58, 116, 117, 300, 1000] {
        let cmd: Vec<u8> = (0..len).map(|i| (i * 7) as u8).collect();
        assert_eq!(read_back(&frame_apdu(&cmd)).unwrap(), cmd);
    }
}

#[test]
fn reader_errors() {
    let packet = frame_apdu(&[1, 2, 3]).remove(0);
    match ApduReader::new().feed(&packet, 0) {
        ReadStep::Failed(e) => assert_eq!(e, LedgerError::Timeout),
        _ => panic!(),
    }
    let mut bad_channel = packet.clone();
    bad_channel[1] = 0x02;
    match ApduReader::new().feed(&bad_channel, 64) {
        ReadStep::Failed(e) => {
            assert_eq!(e, LedgerError::InvalidResponse("Invalid channel: 0x0102".to_string()))
        }
        _ => panic!(),
    }
    let mut bad_tag = packet.clone();
    bad_tag[2] = 0x0a;
    match ApduReader::new().feed(&bad_tag, 64) {
        ReadStep::Failed(e) => {
            assert_eq!(e, LedgerError::InvalidResponse("Invalid tag: 0x0a".to_string()))
        }
        _ => panic!(),
    }
    let mut bad_seq = packet.clone();
    bad_seq[4] = 3;
    match ApduReader::new().feed(&bad_seq, 64) {
        ReadStep::Failed(e) => assert_eq!(
            e,
            LedgerError::InvalidResponse("Invalid sequence: expected 0, got 3".to_string())
        ),
        _ => panic!(),
    }
}

#[test]
fn reader_respects_read_length() {
    let packet = frame_apdu(&[1, 2, 3, 4, 5, 6]).remove(0);
    let reader = ApduReader::new();
    assert!(reader.can_feed(&packet, 9));
    assert!(!reader.can_feed(&packet, 5));
    match reader.feed(&packet, 9) {
        ReadStep::Continue(r) => {
            let mut next = vec![0u8; 64];
            next[..5].copy_from_slice(&[0x01, 0x01, 0x05, 0x00, 0x01]);
            next[5..9].copy_from_slice(&[3, 4, 5, 6]);
            match r.feed(&next, 64) {
                ReadStep::Complete(v) => assert_eq!(v, vec![1, 2, 3, 4, 5, 6]),
                _ => panic!(),
            }
        }
        _ => panic!(),
    }
}

#[test]
fn device_selection() {
    assert!(is_ledger_device(0x2c97, 0x0008, 0xffa0));
    assert!(!is_ledger_device(0x2c97, 0x0002, 0xffa0));
    assert!(!is_ledger_device(0x2c97, 0x0004, 0x0001));
    assert!(!is_ledger_device(0x1234, 0x0004, 0xffa0));
}

#[test]
fn read_errors_name_timeouts() {
    assert_eq!(read_error("hidapi error: read timeout".to_string()), LedgerError::Timeout);
    assert_eq!(
        read_error("device disconnected".to_string()),
        LedgerError::CommunicationError("device disconnected".to_string())
    );
    assert_eq!(
        read_error("TIMEOUT".to_string()),
        LedgerError::CommunicationError("TIMEOUT".to_string())
    );
}
