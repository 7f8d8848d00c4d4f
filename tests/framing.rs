use testeq_rs::error::Error;
use testeq_rs::model::{Manufacturer, ModelInfo, RigolFamily, SiglentFamily};
use testeq_rs::scpi::{parse_uri, scpi_command, ScpiTarget};
use testeq_rs::waveform::{
    block_digit_count, block_length, decode_sample_codes, sample_bytes, sample_windows,
    split_block, WaveDescData,
};

#[test]
fn command_gets_crlf() {
    assert_eq!(scpi_command(b"*IDN?"), b"*IDN?\r\n".to_vec());
    assert_eq!(scpi_command(b""), b"\r\n".to_vec());
}

#[test]
fn block_header_parse() {
    let mut input = b"#3346".to_vec();
    let payload: Vec<u8> = (0..346u32).map(|i| (i % 256) as u8).collect();
    input.extend_from_slice(&payload);
    assert_eq!(block_digit_count(&input[..2]).unwrap(), 3);
    assert_eq!(block_length(&input[2..5]).unwrap(), 346);
    let (got, rest) = split_block(&input).unwrap();
    assert_eq!(got, payload);
    assert!(rest.is_empty());
}

#[test]
fn block_keeps_trailing_bytes() {
    let (got, rest) = split_block(b"#15hello\n").unwrap();
    assert_eq!(got, b"hello".to_vec());
    assert_eq!(rest, b"\n".to_vec());
}

#[test]
fn malformed_blocks_are_bad_responses() {
    assert!(matches!(block_digit_count(b"#0"), Err(Error::BadResponse(_))));
    assert!(matches!(block_digit_count(b"x3"), Err(Error::BadResponse(_))));
    assert!(matches!(block_digit_count(b"#"), Err(Error::BadResponse(_))));
    assert!(matches!(block_length(b"3a6"), Err(Error::BadResponse(_))));
    assert!(matches!(block_length(b"1234567890"), Err(Error::BadResponse(_))));
    assert!(matches!(split_block(b"#3346abc"), Err(Error::BadResponse(_))));
    assert!(matches!(split_block(b"#31"), Err(Error::BadResponse(_))));
    assert_eq!(block_length(b"999999999").unwrap(), 999_999_999);
}

fn wavedesc_bytes() -> Vec<u8> {
    let mut d = vec![0u8; 346];
    d[..8].copy_from_slice(b"WAVEDESC");
    d[32..34].copy_from_slice(&1u16.to_le_bytes());
    d[116..120].copy_from_slice(&1000u32.to_le_bytes());
    d[156..160].copy_from_slice(&0.01f32.to_le_bytes());
    d[164..168].copy_from_slice(&25.0f32.to_le_bytes());
    d[176..180].copy_from_slice(&1e-9f32.to_le_bytes());
    d[180..188].copy_from_slice(&(-2.5f64).to_le_bytes());
    d[328..332].copy_from_slice(&1.0f32.to_le_bytes());
    d[344..346].copy_from_slice(&3u16.to_le_bytes());
    d
}

#[test]
fn wavedesc_fields_at_offsets() {
    let w = WaveDescData::from_bytes(&wavedesc_bytes()).unwrap();
    assert_eq!(&w.descriptor[..8], b"WAVEDESC");
    assert_eq!(w.comm_type, 1);
    assert_eq!(w.n_points, 1000);
    assert_eq!(f32::from_bits(w.vert_gain_bits), 0.01);
    assert_eq!(f32::from_bits(w.code_per_div_bits), 25.0);
    assert_eq!(f32::from_bits(w.horiz_interval_bits), 1e-9);
    assert_eq!(f64::from_bits(w.horiz_offset_bits), -2.5);
    assert_eq!(f32::from_bits(w.attenuation_bits), 1.0);
    assert_eq!(w.source, 3);
}

#[test]
fn wavedesc_wrong_length_is_bad_response() {
    assert!(matches!(WaveDescData::from_bytes(&[0u8; 345]), Err(Error::BadResponse(_))));
    assert!(matches!(WaveDescData::from_bytes(&[0u8; 347]), Err(Error::BadResponse(_))));
    assert!(matches!(WaveDescData::from_bytes(&[]), Err(Error::BadResponse(_))));
}

#[test]
fn waveform_sample_decode() {
    assert_eq!(decode_sample_codes(1, &[0x01, 0x00, 0xff, 0xff]), vec![1, -1]);
    assert_eq!(decode_sample_codes(1, &[0x00, 0x01, 0xff, 0xff]), vec![256, -1]);
    let scale = (1.0f64 * 0.01f32 as f64) / 25.0f32 as f64;
    let values: Vec<f64> = decode_sample_codes(1, &[0x01, 0x00, 0xff, 0xff])
        .into_iter()
        .map(|c| c as f64 * scale - 0.0)
        .collect();
    assert!((values[0] - 4.0e-4).abs() < 1e-9);
    assert!((values[1] + 4.0e-4).abs() < 1e-9);
}

#[test]
fn byte_samples_are_signed() {
    assert_eq!(decode_sample_codes(0, &[0x00, 0x7f, 0x80, 0xff]), vec![0, 127, -128, -1]);
    assert_eq!(sample_bytes(0, 10), 10);
    assert_eq!(sample_bytes(1, 10), 20);
}

#[test]
fn windows_of_twenty_thousand() {
    assert_eq!(sample_windows(45000), vec![20000, 20000, 5000]);
    assert_eq!(sample_windows(20000), vec![20000]);
    assert!(sample_windows(0).is_empty());
}

#[test]
fn uri_schemes() {
    match parse_uri("vxi11://10.0.0.5").unwrap() {
        ScpiTarget::Vxi11(a) => assert_eq!(a, "10.0.0.5:111"),
        other => panic!("unexpected {other:?}"),
    }
    match parse_uri("vxi11://10.0.0.5:2000").unwrap() {
        ScpiTarget::Vxi11(a) => assert_eq!(a, "10.0.0.5:2000"),
        other => panic!("unexpected {other:?}"),
    }
    match parse_uri("tcp://scope.lan:5025").unwrap() {
        ScpiTarget::Tcp(a) => assert_eq!(a, "scope.lan:5025"),
        other => panic!("unexpected {other:?}"),
    }
    match parse_uri("serial:/dev/ttyUSB0").unwrap() {
        ScpiTarget::Serial { path, baud } => {
            assert_eq!(path, "/dev/ttyUSB0");
            assert_eq!(baud, 9600);
        }
        other => panic!("unexpected {other:?}"),
    }
    match parse_uri("serial:/dev/ttyUSB0?baud=115200").unwrap() {
        ScpiTarget::Serial { path, baud } => {
            assert_eq!(path, "/dev/ttyUSB0");
            assert_eq!(baud, 115200);
        }
        other => panic!("unexpected {other:?}"),
    }
}

#[test]
fn bad_uris_are_invalid_arguments() {
    for uri in [
        "http://x",
        "serial:/dev/tty?speed=9600",
        "serial:/dev/tty?baud",
        "serial:/dev/tty?baud=fast",
        "serial:/dev/tty?baud=0",
        "serial:/dev/tty?baud=9600&",
    ] {
        assert!(matches!(parse_uri(uri), Err(Error::InvalidArgument(_))), "{uri}");
    }
}

#[test]
fn idn_parse_rigol() {
    let m = ModelInfo::from_idn("RIGOL TECHNOLOGIES,DP832,DP8C1234,00.01.14").unwrap();
    assert_eq!(m.manufacturer, "RIGOL TECHNOLOGIES");
    assert_eq!(m.model, "DP832");
    assert_eq!(m.serial.as_deref(), Some("DP8C1234"));
    assert_eq!(m.version.as_deref(), Some("00.01.14"));
    assert_eq!(m.man_family, Manufacturer::Rigol(RigolFamily::DP800));
}

#[test]
fn idn_parse_siglent_and_unknown() {
    let m = ModelInfo::from_idn("Siglent Technologies,SDS3104X").unwrap();
    assert_eq!(m.man_family, Manufacturer::Siglent(SiglentFamily::SDS3000X));
    assert_eq!(m.serial, None);
    assert_eq!(m.version, None);
    let m = ModelInfo::from_idn("Acme,Box 9,1").unwrap();
    assert_eq!(m.man_family, Manufacturer::Unknown);
    assert_eq!(m.serial.as_deref(), Some("1"));
    let m = ModelInfo::from_idn("Rigol,XYZ").unwrap();
    assert_eq!(m.man_family, Manufacturer::Rigol(RigolFamily::Unknown));
}

#[test]
fn idn_needs_two_fields() {
    assert!(matches!(ModelInfo::from_idn("RIGOL"), Err(Error::Unspecified(_))));
    assert!(matches!(ModelInfo::from_idn(""), Err(Error::Unspecified(_))));
}

#[test]
fn families_from_lowercase_fields() {
    assert_eq!(
        Manufacturer::from_lowercase("siglent", "ssa3021x plus"),
        Manufacturer::Siglent(SiglentFamily::SSA3000XPlus)
    );
    assert_eq!(RigolFamily::from_lowercase("ds1202z"), RigolFamily::DS1200);
    assert_eq!(RigolFamily::from_lowercase("dp2031"), RigolFamily::DP2000);
    assert_eq!(RigolFamily::from_lowercase("DS1202Z"), RigolFamily::Unknown);
    assert_eq!(SiglentFamily::from_lowercase("sdm4055a"), SiglentFamily::SDM4000A);
    assert_eq!(SiglentFamily::from_lowercase("sdg3102x"), SiglentFamily::SDG3000X);
    assert_eq!(Manufacturer::from_lowercase("keysight", "dp832"), Manufacturer::Unknown);
}
