use upx_tools::decode::{
    first_line, get_upx_version, is_decodable, version_line, RawOutput, VersionProbe,
};

#[test]
fn gbk_bytes_become_text() {
    // "中文" and "压缩" in GBK
    let raw = RawOutput {
        stdout: vec![0xd6, 0xd0, 0xce, 0xc4],
        stderr: vec![b'a', 0xd1, 0xb9, 0xcb, 0xf5, b'\n'],
        success: false,
    };
    assert!(raw.is_decodable());
    let text = raw.decode();
    assert_eq!(text.decoded_stdout, "中文");
    assert_eq!(text.decoded_stderr, "a压缩\n");
    assert!(!text.exit_success);
}

#[test]
fn decoding_agrees_with_the_decoder() {
    let samples: Vec<Vec<u8>> = vec![
        vec![],
        b"plain ascii\r\n".to_vec(),
        vec![0xd6, 0xd0, 0xce, 0xc4, 0x20, 0x80, 0xff, 0x81],
        vec![0xef, 0xbb, 0xbf, 0xe4, 0xb8, 0xad],
        vec![0xff, 0xfe, 0x2d, 0x4e],
        vec![0x81, 0x30, 0x81, 0x30],
    ];
    for bytes in samples {
        let expected = encoding_rs::GBK.decode(&bytes).0.into_owned();
        let raw = RawOutput { stdout: bytes.clone(), stderr: vec![], success: true };
        let text = raw.decode();
        assert_eq!(text.decoded_stdout, expected);
        assert_eq!(text.decoded_stderr, "");
        assert!(text.exit_success);
    }
}

#[test]
fn invalid_bytes_are_replaced() {
    let raw = RawOutput { stdout: vec![b'a', 0xff, b'b'], stderr: vec![], success: true };
    assert_eq!(raw.decode().decoded_stdout, "a\u{fffd}b");
}

#[test]
fn short_streams_are_decodable() {
    assert!(is_decodable(&[]));
    assert!(is_decodable(&[0u8; 4096]));
}

#[test]
fn first_lines() {
    assert_eq!(first_line(""), None);
    assert_eq!(first_line("\n"), Some("".to_string()));
    assert_eq!(first_line("a"), Some("a".to_string()));
    assert_eq!(first_line("a\r"), Some("a\r".to_string()));
    assert_eq!(first_line("a\r\nb"), Some("a".to_string()));
    assert_eq!(first_line("上\nb\n"), Some("上".to_string()));
    for s in ["", "\n", "\r\n", "x\ry\r\nz", "\r", "only"] {
        assert_eq!(first_line(s), s.lines().next().map(|l| l.to_string()), "for {:?}", s);
    }
}

#[test]
fn version_is_the_first_line() {
    assert_eq!(version_line("upx 4.2.2\nUCL data compression library"), Ok("upx 4.2.2".to_string()));
    assert_eq!(version_line(""), Err("无法获取UPX版本".to_string()));
    assert_eq!(
        get_upx_version(&VersionProbe::Printed(b"upx 4.2.2\r\nmore\r\n".to_vec())),
        Ok("upx 4.2.2".to_string())
    );
    assert_eq!(
        get_upx_version(&VersionProbe::Printed(vec![0xd6, 0xd0, 0xce, 0xc4, b'\n', b'x'])),
        Ok("中文".to_string())
    );
    assert_eq!(get_upx_version(&VersionProbe::Printed(vec![])), Err("无法获取UPX版本".to_string()));
}

#[test]
fn version_without_a_packer() {
    assert_eq!(get_upx_version(&VersionProbe::NoTool), Err("未找到 UPX 工具！".to_string()));
    assert_eq!(get_upx_version(&VersionProbe::NotStarted), Err("UPX未找到".to_string()));
}
