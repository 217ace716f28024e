use grok_build::wire::{
    config_dest_stays_in_home, decode_request, decode_response, dest_is_user_config_at,
    encode_request, encode_response, precheck_user_config_write, tokens_match, WireErrorKind,
};

const TOKEN: [u8; 32] = [7u8; 32];

#[test]
fn request_roundtrip_reads_back_what_was_written() {
    let mut frame = encode_request("/home/u/.grok/config.toml", "a = 1\n", &TOKEN).ok().unwrap();
    let n = frame.len();
    frame.extend_from_slice(b"trailing");
    let (dest, content, used) = decode_request(&frame, &TOKEN).ok().unwrap();
    assert_eq!(dest, "/home/u/.grok/config.toml");
    assert_eq!(content, "a = 1\n");
    assert_eq!(used, n);
}

#[test]
fn request_with_another_token_is_refused() {
    let frame = encode_request("/d", "x", &TOKEN).ok().unwrap();
    let other = [8u8; 32];
    let err = decode_request(&frame, &other).err().unwrap();
    assert_eq!(err.kind, WireErrorKind::PermissionDenied);
    assert_eq!(err.message, "privileged writer: bad token");
}

#[test]
fn request_errors_name_the_failure() {
    let long = "d".repeat(4097);
    let err = encode_request(&long, "x", &TOKEN).err().unwrap();
    assert_eq!(err.message, "privileged writer: dest too long");
    let frame = encode_request("/d", "x", &TOKEN).ok().unwrap();
    let err = decode_request(&frame[..10], &TOKEN).err().unwrap();
    assert_eq!(err.kind, WireErrorKind::UnexpectedEof);
    let mut bad = frame.clone();
    bad[0] ^= 1;
    let err = decode_request(&bad, &TOKEN).err().unwrap();
    assert_eq!(err.message, "privileged writer: bad magic");
}

#[test]
fn response_roundtrip() {
    let ok = encode_response(&Ok(()));
    assert!(matches!(decode_response(&ok), Ok(Ok(()))));
    let err = encode_response(&Err("disk full".to_string()));
    assert!(matches!(decode_response(&err), Ok(Err(ref m)) if m == "disk full"));
    let empty = encode_response(&Err(String::new()));
    assert!(matches!(decode_response(&empty), Ok(Err(ref m)) if m == "privileged writer failed"));
}

#[test]
fn tokens_compare_by_content_and_length() {
    assert!(tokens_match(&[1, 2, 3], &[1, 2, 3]));
    assert!(!tokens_match(&[1, 2, 3], &[1, 2, 4]));
    assert!(!tokens_match(&[1, 2], &[1, 2, 3]));
}

#[test]
fn write_policy_accepts_only_the_user_config_inside_home() {
    assert!(dest_is_user_config_at("/home/u/.grok", "/home/u/.grok/config.toml", &None));
    assert!(dest_is_user_config_at("/home/u/.grok", "/home/u/.grok//config.toml", &None));
    assert!(!dest_is_user_config_at("/home/u/.grok", "/etc/passwd", &None));
    assert!(dest_is_user_config_at(
        "/home/u/.grok",
        "/home/u/dotfiles/config.toml",
        &Some("/home/u/dotfiles/config.toml".into())
    ));
    let err = precheck_user_config_write(false, 1).err().unwrap();
    assert_eq!(err.message, "privileged writer: dest is not user config.toml");
    let err = precheck_user_config_write(true, 8 * 1024 * 1024 + 1).err().unwrap();
    assert_eq!(err.kind, WireErrorKind::InvalidInput);
    assert!(precheck_user_config_write(true, 10).is_ok());
    assert!(config_dest_stays_in_home(&Some("/home/u/.grok".into()), &Some("/home/u/.grok/sub".into())).is_ok());
    let err = config_dest_stays_in_home(&Some("/home/u/.grok".into()), &Some("/etc".into()))
        .err()
        .unwrap();
    assert_eq!(err.message, "privileged writer: config symlink escapes grok home");
    assert!(config_dest_stays_in_home(&None, &Some("/x".into())).is_err());
}
