use agronet_backend::ledger_flex::commands::{parse_derivation_path, INS_SIGN_MESSAGE, INS_SIGN_TRANSACTION};
use agronet_backend::ledger_flex::error::LedgerError;
use agronet_backend::ledger_flex::signer::{
    address_from_reply, chunk_data, parse_signature, public_key_from_reply, public_key_request,
    SignStep, SigningSession,
};

#[test]
fn test_chunk_data() {
    let data = vec![1, 2, 3, 4, 5, 6, 7, 8, 9, 10];
    let chunks = chunk_data(&data, 3);

    assert_eq!(chunks.len(), 4);
    assert_eq!(chunks[0], vec![1, 2, 3]);
    assert_eq!(chunks[1], vec![4, 5, 6]);
    assert_eq!(chunks[2], vec![7, 8, 9]);
    assert_eq!(chunks[3], vec![10]);
}

#[test]
fn test_parse_signature() {
    let mut sig_data = vec![0u8; 65];
    sig_data[0] = 27; // v
    sig_data[1] = 0xff; // first byte of r
    sig_data[33] = 0xaa; // first byte of s

    let (v, r, s) = parse_signature(&sig_data).unwrap();

    assert_eq!(v, 27);
    assert_eq!(r[0], 0xff);
    assert_eq!(s[0], 0xaa);
}

#[test]
fn parse_signature_wrong_length() {
    assert_eq!(
        parse_signature(&[1, 2, 3]),
        Err(LedgerError::InvalidResponse(
            "Invalid signature length: expected 65, got 3".to_string()
        ))
    );
}

#[test]
fn chunks_concatenate_back() {
    let data: Vec<u8> = (0..=255).collect();
    let chunks = chunk_data(&data, 150);
    assert_eq!(chunks.len(), 2);
    assert_eq!(chunks[0].len(), 150);
    assert_eq!(chunks.concat(), data);
    assert!(chunk_data(&[], 5).is_empty());
    assert!(chunk_data(&[], 0).is_empty());
    assert_eq!(chunk_data(&[1, 2, 3], 3), vec![vec![1, 2, 3]]);
}

fn ok_reply(data: &[u8]) -> Vec<u8> {
    let mut v = data.to_vec();
    v.push(0x90);
    v.push(0x00);
    v
}

#[test]
fn signing_session_sends_chunks_and_returns_signature() {
    let tx: Vec<u8> = (0..200).map(|i| i as u8).collect();
    let path = "m/44'/60'/0'/0/0";
    let session = SigningSession::for_transaction(&tx, path).unwrap();
    let first = session.current_command();
    let mut payload = parse_derivation_path(path).unwrap();
    payload.extend_from_slice(&tx);
    assert_eq!(first[0], 0xe0);
    assert_eq!(first[1], INS_SIGN_TRANSACTION);
    assert_eq!(first[2], 0x00);
    assert_eq!(first[4], 150);
    assert_eq!(&first[5..], &payload[..150]);
    let (session, second) = match session.on_reply(&ok_reply(&[])) {
        SignStep::Send(s, cmd) => (s, cmd),
        _ => panic!("expected a second chunk"),
    };
    assert_eq!(second[2], 0x80);
    assert_eq!(&second[5..], &payload[150..]);
    match session.on_reply(&ok_reply(&[9, 9, 9])) {
        SignStep::Done(sig) => assert_eq!(sig, vec![9, 9, 9]),
        _ => panic!("expected the signature"),
    }
}

#[test]
fn signing_session_failures() {
    let session = SigningSession::for_message(b"hello", "m/0").unwrap();
    let cmd = session.current_command();
    assert_eq!(cmd[1], INS_SIGN_MESSAGE);
    assert_eq!(&cmd[5..], &[1, 0, 0, 0, 0, 0, 0, 0, 5, b'h', b'e', b'l', b'l', b'o']);
    match session.on_reply(&[0x69, 0x85]) {
        SignStep::Failed(e) => assert_eq!(e, LedgerError::UserRejected),
        _ => panic!("expected a rejection"),
    }
    let session = SigningSession::for_message(b"hello", "m/0").unwrap();
    match session.on_reply(&[0x69]) {
        SignStep::Failed(e) => {
            assert_eq!(e, LedgerError::InvalidResponse("Response too short".to_string()))
        }
        _ => panic!("expected a failure"),
    }
    assert!(SigningSession::for_transaction(b"x", "m/a").is_err());
}

fn key_reply(address: &[u8]) -> Vec<u8> {
    let mut data = vec![65u8];
    data.extend((0..65).map(|i| i as u8));
    data.push(address.len() as u8);
    data.extend_from_slice(address);
    ok_reply(&data)
}

#[test]
fn address_and_key_from_reply() {
    let reply = key_reply(b"abcdef");
    assert_eq!(address_from_reply(&reply).unwrap(), "0xabcdef");
    assert_eq!(address_from_reply(&key_reply(b"0x12")).unwrap(), "0x12");
    assert_eq!(public_key_from_reply(&reply).unwrap().len(), 65);
    let bad = key_reply(&[0xff, 0xfe]);
    match address_from_reply(&bad) {
        Err(LedgerError::InvalidResponse(m)) => assert!(m.starts_with("Invalid address encoding: ")),
        other => panic!("unexpected {:?}", other),
    }
    let request = public_key_request("m/1").unwrap();
    assert_eq!(request, vec![0xe0, 0x02, 0x00, 0x00, 5, 1, 0, 0, 0, 1]);
}
