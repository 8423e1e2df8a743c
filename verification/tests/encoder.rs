use fvideo::probe::{parse_measurement, trigger_due, ProbeError, GO_CMD, WARM_UP};
use fvideo::text::NumberFault;
use fvideo::x264::{
    encode_reply, headers_reply, open_reply, param_reply, plane_size, scale_from_csp,
    setup_x264_params, setup_x264_params_bg, setup_x264_params_bg_crf, setup_x264_params_crf,
    Colorspace, ColorspaceScale, Encoded, EncoderSetup, Preset, RateControl,
};
use fvideo::{Crf, NalData};

#[test]
fn encoder_settings() {
    assert_eq!(
        setup_x264_params(3840, 2160, 24),
        EncoderSetup {
            preset: Preset::Superfast,
            zerolatency: true,
            cli_defaults: true,
            width: 3840,
            height: 2160,
            keyint: Some(i32::MAX),
            no_scenecut: true,
            rate: RateControl::Qp(24),
        }
    );
    assert_eq!(
        setup_x264_params_bg(512, 288, 33),
        EncoderSetup {
            preset: Preset::Faster,
            zerolatency: true,
            cli_defaults: false,
            width: 512,
            height: 288,
            keyint: Some(i32::MAX),
            no_scenecut: true,
            rate: RateControl::Qp(33),
        }
    );
    let crf = Crf { milli: 23_500 };
    assert_eq!(
        setup_x264_params_crf(160, 160, crf),
        EncoderSetup {
            preset: Preset::Veryfast,
            zerolatency: true,
            cli_defaults: true,
            width: 160,
            height: 160,
            keyint: None,
            no_scenecut: false,
            rate: RateControl::Crf(crf),
        }
    );
    assert_eq!(
        setup_x264_params_bg_crf(512, 288, crf),
        EncoderSetup {
            preset: Preset::Faster,
            zerolatency: true,
            cli_defaults: false,
            width: 512,
            height: 288,
            keyint: None,
            no_scenecut: false,
            rate: RateControl::Crf(crf),
        }
    );
    assert_eq!(Preset::Superfast.name(), "superfast");
    assert_eq!(Preset::Veryfast.name(), "veryfast");
    assert_eq!(Preset::Faster.name(), "faster");
}

#[test]
fn encoder_replies() {
    assert_eq!(param_reply(0), Ok(()));
    assert_eq!(param_reply(-1), Err("Invalid Argument"));
    assert_eq!(param_reply(1), Err("Unexpected"));
    assert_eq!(param_reply(-2), Err("Unexpected"));
    assert_eq!(encode_reply(-1, 3), Err("Error encoding"));
    assert_eq!(encode_reply(0, 3), Ok(Encoded::Units(3)));
    assert_eq!(encode_reply(1200, 1), Ok(Encoded::Units(1)));
    assert_eq!(encode_reply(0, 0), Ok(Encoded::Delayed));
    assert_eq!(encode_reply(5, -1), Ok(Encoded::Delayed));
}

#[test]
fn nal_data_joins_the_payloads() {
    let data = NalData::from_nals(&vec![vec![0, 0, 1, 0x67], vec![], vec![0, 0, 1, 0x68, 9]]);
    assert_eq!(data.as_bytes(), &[0, 0, 1, 0x67, 0, 0, 1, 0x68, 9]);
    assert_eq!(NalData::from_nals(&vec![]).as_bytes(), &[] as &[u8]);
}

#[test]
fn probe_measurement() {
    let mut buf = vec![0u8; 32];
    buf[..7].copy_from_slice(b"12345\r\n");
    assert_eq!(parse_measurement(&buf).unwrap(), 12345);
    assert_eq!(parse_measurement(b"7").unwrap(), 7);
    assert_eq!(parse_measurement(b"\0\0 \t42\n \0").unwrap(), 42);
    assert_eq!(parse_measurement(b"+42").unwrap(), 42);
    assert_eq!(parse_measurement(b"18446744073709551615").unwrap(), u64::MAX);
    assert!(matches!(
        parse_measurement(b"18446744073709551616"),
        Err(ProbeError::ParseIntError(NumberFault::PosOverflow))
    ));
    assert!(matches!(
        parse_measurement(&[0u8; 32]),
        Err(ProbeError::ParseIntError(NumberFault::Empty))
    ));
    assert!(matches!(parse_measurement(b""), Err(ProbeError::ParseIntError(NumberFault::Empty))));
    assert!(matches!(
        parse_measurement(b" \0 12"),
        Err(ProbeError::ParseIntError(NumberFault::InvalidDigit))
    ));
    assert!(matches!(
        parse_measurement(b"12 us"),
        Err(ProbeError::ParseIntError(NumberFault::InvalidDigit))
    ));
    assert!(matches!(
        parse_measurement(b"-3"),
        Err(ProbeError::ParseIntError(NumberFault::InvalidDigit))
    ));
    assert!(matches!(parse_measurement(b"12\xff"), Err(ProbeError::Utf8Error(_))));
}

#[test]
fn probe_measurement_agrees_with_std() {
    for answer in [
        &b"12345\r\n\0\0\0"[..],
        b"\0\x0012\0",
        b"\0 \0",
        b"1\x002",
        b" +5 ",
        b"\xc2\xa07\xc2\xa0",
        b"99999999999999999999999",
        b"12a",
    ] {
        let expect = std::str::from_utf8(answer)
            .unwrap()
            .trim_matches(char::from(0))
            .trim()
            .parse::<u64>()
            .ok();
        assert_eq!(parse_measurement(answer).ok(), expect, "{:?}", answer);
    }
}

#[test]
fn probe_fires_once_after_the_warm_up() {
    assert_eq!(GO_CMD, "g");
    assert!(!trigger_due(false, 0));
    assert!(!trigger_due(false, WARM_UP));
    assert!(trigger_due(false, WARM_UP + 1));
    assert!(!trigger_due(true, WARM_UP + 1));
    assert!(!trigger_due(true, u64::MAX));
}

#[test]
fn colourspace_plane_sizes() {
    assert_eq!(
        scale_from_csp(Colorspace::I420),
        ColorspaceScale { w: [256 * 1, 256 / 2, 256 / 2], h: [256 * 1, 256 / 2, 256 / 2] }
    );
    assert_eq!(scale_from_csp(Colorspace::YV12), scale_from_csp(Colorspace::I420));
    assert_eq!(
        scale_from_csp(Colorspace::NV12),
        ColorspaceScale { w: [256 * 1, 256 * 1, 0], h: [256 * 1, 256 / 2, 0] }
    );
    assert_eq!(scale_from_csp(Colorspace::NV21), scale_from_csp(Colorspace::NV12));
    assert_eq!(
        scale_from_csp(Colorspace::I422),
        ColorspaceScale { w: [256 * 1, 256 / 2, 256 / 2], h: [256 * 1, 256 * 1, 256 * 1] }
    );
    assert_eq!(scale_from_csp(Colorspace::YV16), scale_from_csp(Colorspace::I422));
    assert_eq!(
        scale_from_csp(Colorspace::NV16),
        ColorspaceScale { w: [256 * 1, 256 * 1, 0], h: [256 * 1, 256 * 1, 0] }
    );
    assert_eq!(
        scale_from_csp(Colorspace::I444),
        ColorspaceScale { w: [256 * 1, 256 * 1, 256 * 1], h: [256 * 1, 256 * 1, 256 * 1] }
    );
    assert_eq!(scale_from_csp(Colorspace::YV24), scale_from_csp(Colorspace::I444));
    assert_eq!(
        scale_from_csp(Colorspace::BGR),
        ColorspaceScale { w: [256 * 3, 0, 0], h: [256 * 1, 0, 0] }
    );
    assert_eq!(
        scale_from_csp(Colorspace::BGRA),
        ColorspaceScale { w: [256 * 4, 0, 0], h: [256 * 1, 0, 0] }
    );
    assert_eq!(scale_from_csp(Colorspace::RGB), scale_from_csp(Colorspace::BGR));

    assert_eq!(plane_size(Colorspace::I420, 0, 640, 480, false), Some(640 * 480));
    assert_eq!(plane_size(Colorspace::I420, 1, 640, 480, false), Some(320 * 240));
    assert_eq!(plane_size(Colorspace::I420, 2, 640, 480, false), Some(320 * 240));
    assert_eq!(plane_size(Colorspace::I420, 3, 640, 480, false), None);
    assert_eq!(plane_size(Colorspace::I420, 1, 640, 480, true), Some(320 * 2 * 240));
    assert_eq!(plane_size(Colorspace::NV12, 1, 640, 480, false), Some(640 * 240));
    assert_eq!(plane_size(Colorspace::NV12, 2, 640, 480, false), Some(0));
    assert_eq!(plane_size(Colorspace::BGRA, 0, 640, 480, false), Some(640 * 4 * 480));
    assert_eq!(plane_size(Colorspace::I422, 2, 7, 3, false), Some(9));
    // each division rounds down in turn
    assert_eq!(plane_size(Colorspace::I420, 1, 5, 3, false), Some(3));
    assert_eq!(
        plane_size(Colorspace::BGRA, 0, u32::MAX, u32::MAX, true),
        usize::try_from(u32::MAX as u128 * 8 * u32::MAX as u128).ok()
    );
    assert_eq!(open_reply(true), Ok(()));
    assert_eq!(open_reply(false), Err("Out of Memory"));
    assert_eq!(headers_reply(0), Ok(()));
    assert_eq!(headers_reply(120), Ok(()));
    assert_eq!(headers_reply(-1), Err("Encoding Headers Failed"));
}
