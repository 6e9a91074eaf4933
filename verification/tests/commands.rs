use agronet_backend::ledger_flex::commands::{
    get_public_key_command, parse_derivation_path, parse_public_key_response, ApduCommand,
    ApduResponse, CLA, INS_GET_PUBLIC_KEY, SW_OK,
};
use agronet_backend::ledger_flex::error::LedgerError;

#[test]
fn test_parse_derivation_path() {
    let path = "m/44'/60'/0'/0/0";
    let result = parse_derivation_path(path).unwrap();

    // Should have: 1 byte for count + 5 * 4 bytes for components = 21 bytes
    assert_eq!(result.len(), 21);
    assert_eq!(result[0], 5); // 5 components
}

#[test]
fn test_apdu_command_serialization() {
    let cmd = ApduCommand::new(INS_GET_PUBLIC_KEY, 0x00, 0x00, vec![0x01, 0x02]);
    let bytes = cmd.to_bytes();

    assert_eq!(bytes[0], CLA);
    assert_eq!(bytes[1], INS_GET_PUBLIC_KEY);
    assert_eq!(bytes[2], 0x00);
    assert_eq!(bytes[3], 0x00);
    assert_eq!(bytes[4], 2); // data length
    assert_eq!(bytes[5], 0x01);
    assert_eq!(bytes[6], 0x02);
}

#[test]
fn test_apdu_response_parsing() {
    let bytes = vec![0x01, 0x02, 0x03, 0x90, 0x00];
    let response = ApduResponse::from_bytes(&bytes).unwrap();

    assert_eq!(response.data, vec![0x01, 0x02, 0x03]);
    assert_eq!(response.status, SW_OK);
    assert!(response.is_success());
}

#[test]
fn derivation_path_exact_bytes() {
    let bytes = parse_derivation_path("m/44'/60'/0'/0/0").unwrap();
    assert_eq!(
        bytes,
        vec![
            5, 0x80, 0, 0, 44, 0x80, 0, 0, 60, 0x80, 0, 0, 0, 0, 0, 0, 0, 0, 0, 0, 0
        ]
    );
}

#[test]
fn derivation_path_without_prefix_and_repeated_prefix() {
    assert_eq!(parse_derivation_path("1/2").unwrap(), vec![2, 0, 0, 0, 1, 0, 0, 0, 2]);
    assert_eq!(parse_derivation_path("m/m/7").unwrap(), vec![1, 0, 0, 0, 7]);
    assert_eq!(parse_derivation_path("+4294967295").unwrap(), vec![1, 0xff, 0xff, 0xff, 0xff]);
}

#[test]
fn derivation_path_errors() {
    assert_eq!(
        parse_derivation_path("m/1/2/3/4/5/6/7/8/9/10/11"),
        Err(LedgerError::InvalidPath("Path must have 1-10 components".to_string()))
    );
    assert_eq!(
        parse_derivation_path("m/44'/abc'/0"),
        Err(LedgerError::InvalidPath("Invalid number: abc".to_string()))
    );
    assert_eq!(
        parse_derivation_path("m/4294967296"),
        Err(LedgerError::InvalidPath("Invalid number: 4294967296".to_string()))
    );
    assert_eq!(
        parse_derivation_path("m/1//2"),
        Err(LedgerError::InvalidPath("Invalid number: ".to_string()))
    );
    assert_eq!(
        parse_derivation_path("m/-1"),
        Err(LedgerError::InvalidPath("Invalid number: -1".to_string()))
    );
}

#[test]
fn command_length_byte_wraps() {
    let cmd = ApduCommand::new(0x04, 0x80, 0x00, vec![7u8; 300]);
    let bytes = cmd.to_bytes();
    assert_eq!(bytes.len(), 305);
    assert_eq!(bytes[4], (300 % 256) as u8);
}

#[test]
fn response_too_short_and_statuses() {
    assert_eq!(
        ApduResponse::from_bytes(&[0x90]).unwrap_err(),
        LedgerError::InvalidResponse("Response too short".to_string())
    );
    let check = |status: u16| ApduResponse { data: vec![], status }.check_status();
    assert_eq!(check(0x9000), Ok(()));
    assert_eq!(check(0x6985), Err(LedgerError::UserRejected));
    assert_eq!(check(0x6982), Err(LedgerError::DeviceLocked));
    assert_eq!(
        check(0x6a80),
        Err(LedgerError::InvalidResponse("Incorrect data sent to device".to_string()))
    );
    assert_eq!(check(0x6d00), Err(LedgerError::InvalidStatusCode(0x6d00)));
}

#[test]
fn response_roundtrip() {
    let resp = ApduResponse::from_bytes(&[0xaa, 0xbb, 0x6a, 0x80]).unwrap();
    assert_eq!(resp.data, vec![0xaa, 0xbb]);
    assert_eq!(resp.status, 0x6a80);
    let empty = ApduResponse::from_bytes(&[0x90, 0x00]).unwrap();
    assert!(empty.data.is_empty());
    assert!(empty.is_success());
}

#[test]
fn public_key_command() {
    let cmd = get_public_key_command("m/44'/60'/0'/0/0", true).unwrap();
    assert_eq!(cmd.cla, CLA);
    assert_eq!(cmd.ins, INS_GET_PUBLIC_KEY);
    assert_eq!(cmd.p1, 1);
    assert_eq!(cmd.p2, 0);
    assert_eq!(cmd.data, parse_derivation_path("m/44'/60'/0'/0/0").unwrap());
    assert!(get_public_key_command("m/x", false).is_err());
}

fn key_response(address: &[u8]) -> ApduResponse {
    let mut data = vec![65u8];
    data.extend((0..65).map(|i| i as u8));
    data.push(address.len() as u8);
    data.extend_from_slice(address);
    ApduResponse { data, status: SW_OK }
}

#[test]
fn public_key_response_parsing() {
    let resp = key_response(b"abcd");
    let (pk, addr) = parse_public_key_response(&resp).unwrap();
    assert_eq!(pk, (0..65).map(|i| i as u8).collect::<Vec<u8>>());
    assert_eq!(addr, b"abcd".to_vec());

    let short = ApduResponse { data: vec![65u8; 10], status: SW_OK };
    assert_eq!(
        parse_public_key_response(&short),
        Err(LedgerError::InvalidResponse("Public key response too short".to_string()))
    );
    let mut bad_len = key_response(b"ab");
    bad_len.data[0] = 33;
    assert_eq!(
        parse_public_key_response(&bad_len),
        Err(LedgerError::InvalidResponse("Invalid public key length: 33".to_string()))
    );
    let mut missing = key_response(b"ab");
    missing.data[66] = 9;
    assert_eq!(
        parse_public_key_response(&missing),
        Err(LedgerError::InvalidResponse("Address data missing".to_string()))
    );
    let rejected = ApduResponse { data: vec![], status: 0x6985 };
    assert_eq!(parse_public_key_response(&rejected), Err(LedgerError::UserRejected));
}

#[test]
fn error_messages() {
    assert_eq!(LedgerError::InvalidStatusCode(0x6d00).message(), "Invalid status code: 0x6d00");
    assert_eq!(LedgerError::InvalidStatusCode(0x1).message(), "Invalid status code: 0x0001");
    assert_eq!(
        LedgerError::InvalidPath("x".to_string()).message(),
        "Invalid derivation path: x"
    );
    assert_eq!(LedgerError::Timeout.message(), "Timeout waiting for user confirmation");
    assert_eq!(LedgerError::DeviceNotFound.message(), "Ledger device not found or not connected");
}
