use testeq_rs::equipment::{
    equipment_kind, rigol_psu_details, siglent_dmm_mode_from_reply, siglent_memory_depths, ChannelLimits,
    EquipmentKind, MultimeterMode, MultimeterTrigSource, ScpiPsuModel, ScpiPsuProto, TriggerMode,
    Unit,
};
use testeq_rs::error::Error;
use testeq_rs::model::{KeysightFamily, Manufacturer, ModelInfo, RigolFamily, SiglentFamily};
use testeq_rs::stream::{finish_exact_read, UntilReader};

#[test]
fn driver_selection() {
    assert_eq!(
        equipment_kind(&Manufacturer::Rigol(RigolFamily::DP800)).unwrap(),
        EquipmentKind::PowerSupply
    );
    assert_eq!(
        equipment_kind(&Manufacturer::Siglent(SiglentFamily::SDS3000X)).unwrap(),
        EquipmentKind::Oscilloscope
    );
    assert_eq!(
        equipment_kind(&Manufacturer::Siglent(SiglentFamily::SSA3000XPlus)).unwrap(),
        EquipmentKind::SpectrumAnalyzer
    );
    assert_eq!(
        equipment_kind(&Manufacturer::Keysight(KeysightFamily::_6800)).unwrap(),
        EquipmentKind::AcSource
    );
    assert!(matches!(
        equipment_kind(&Manufacturer::Rigol(RigolFamily::DS1200)),
        Err(Error::NotSupported(_))
    ));
    assert!(matches!(equipment_kind(&Manufacturer::Unknown), Err(Error::NotSupported(_))));
}

#[test]
fn unit_symbols() {
    assert_eq!(Unit::Voltage.unit_abbrev(), "V");
    assert_eq!(Unit::Resistance.unit_abbrev(), "Ω");
    assert_eq!(Unit::Temperature.unit_abbrev(), "°C");
    assert_eq!(Unit::Unitless.unit_abbrev(), "");
}

#[test]
fn multimeter_mode_names() {
    assert_eq!(MultimeterMode::from_str("res4w").unwrap(), MultimeterMode::Resistance4W);
    assert_eq!(MultimeterMode::from_str("dcv").unwrap(), MultimeterMode::DcVoltage);
    assert_eq!(MultimeterMode::Inductance.name(), "ind");
    assert_eq!(MultimeterMode::Diode.unit(), Unit::Voltage);
    assert_eq!(MultimeterMode::Continuity.unit(), Unit::Resistance);
    assert!(matches!(MultimeterMode::from_str("volts"), Err(Error::InvalidArgument(_))));
}

#[test]
fn scope_trigger_mode_words() {
    assert_eq!(TriggerMode::from_siglent_reply("NORMal").unwrap(), TriggerMode::Normal);
    assert_eq!(TriggerMode::Single.siglent_word(), "SING");
    assert!(matches!(TriggerMode::from_siglent_reply("STOP"), Err(Error::BadResponse(_))));
}

#[test]
fn scope_memory_depths() {
    let one = siglent_memory_depths(SiglentFamily::SDS3000X, 1);
    assert_eq!(one.len(), 12);
    assert_eq!(one[11], 400_000_000);
    let two = siglent_memory_depths(SiglentFamily::SDS3000X, 2);
    assert_eq!(two.first(), Some(&1_000));
    assert_eq!(two.len(), 11);
    assert!(siglent_memory_depths(SiglentFamily::SDM4000A, 1).is_empty());
}

#[test]
fn psu_model_table() {
    let m = ModelInfo::from_idn("RIGOL TECHNOLOGIES,DP832A,DP8B,00.01").unwrap();
    let psu = ScpiPsuModel::from_model(&m).unwrap();
    assert_eq!(psu, ScpiPsuModel::RigolDP832);
    assert_eq!(psu.get_proto(), ScpiPsuProto::Rigol);
    let ch = psu.channel_details();
    assert_eq!(ch.len(), 3);
    assert_eq!(ch[2], ChannelLimits { min_mv: 0, max_mv: 5000, max_ma: 3000 });

    let m = ModelInfo::from_idn("Rigol,DP932E").unwrap();
    assert_eq!(ScpiPsuModel::from_model(&m).unwrap(), ScpiPsuModel::RigolDP932E);
    let d = ScpiPsuModel::RigolDP831.channel_details();
    assert_eq!(d[2], ChannelLimits { min_mv: -30000, max_mv: 0, max_ma: 2000 });

    let m = ModelInfo::from_idn("Siglent Technologies,SPD3303X-E,X,1").unwrap();
    let psu = ScpiPsuModel::from_model(&m).unwrap();
    assert_eq!(psu, ScpiPsuModel::SiglentSPD3303);
    assert_eq!(psu.get_proto(), ScpiPsuProto::Siglent);
    assert_eq!(psu.channel_details()[0].max_ma, 3200);

    let m = ModelInfo::from_idn("Rigol,DS1202Z").unwrap();
    assert!(matches!(ScpiPsuModel::from_model(&m), Err(Error::NotSupported(_))));
    let m = ModelInfo::from_idn("Acme,DP832").unwrap();
    assert!(matches!(ScpiPsuModel::from_model(&m), Err(Error::NotSupported(_))));
}

#[test]
fn timed_out_raw_read_returns_nothing() {
    assert!(matches!(finish_exact_read(4, None), Err(Error::Timeout(_))));
    assert_eq!(finish_exact_read(2, Some(vec![1, 2])).unwrap(), vec![1, 2]);
    assert!(matches!(finish_exact_read(3, Some(vec![1])), Err(Error::IoError(_))));
}

#[test]
fn read_until_terminator() {
    let mut r = UntilReader::new(b'\n');
    for b in b"ab" {
        r.on_byte(*b);
        assert!(!r.done);
    }
    r.on_byte(b'\n');
    assert!(r.done);
    assert_eq!(r.data, b"ab\n".to_vec());
}

#[test]
fn read_until_without_terminator_times_out() {
    let mut r = UntilReader::new(b'#');
    for b in b"no hash here" {
        r.on_byte(*b);
        assert!(!r.done);
    }
    assert!(matches!(r.timed_out(), Error::Timeout(_)));
}

#[test]
fn multimeter_trigger_sources() {
    assert_eq!(MultimeterTrigSource::from_str("imm").unwrap(), MultimeterTrigSource::Immediate);
    assert_eq!(MultimeterTrigSource::from_str("bus").unwrap(), MultimeterTrigSource::Bus);
    assert_eq!(MultimeterTrigSource::from_str("ext").unwrap(), MultimeterTrigSource::External(0));
    assert_eq!(MultimeterTrigSource::from_str("ext3").unwrap(), MultimeterTrigSource::External(3));
    assert!(matches!(MultimeterTrigSource::from_str("ext256"), Err(Error::InvalidArgument(_))));
    assert!(matches!(MultimeterTrigSource::from_str("extx"), Err(Error::InvalidArgument(_))));
    assert!(matches!(MultimeterTrigSource::from_str("now"), Err(Error::InvalidArgument(_))));
}

#[test]
fn siglent_dmm_mode_replies() {
    assert_eq!(
        siglent_dmm_mode_from_reply("VOLT:AC 2.000000E+00,1.000000E-06").unwrap(),
        MultimeterMode::AcVoltage
    );
    assert_eq!(siglent_dmm_mode_from_reply("FRES").unwrap(), MultimeterMode::Resistance4W);
    assert!(matches!(siglent_dmm_mode_from_reply("VOLTAGE 1"), Err(Error::BadResponse(_))));
    assert!(matches!(siglent_dmm_mode_from_reply(""), Err(Error::BadResponse(_))));
}

#[test]
fn rigol_psu_channel_table() {
    let m = ModelInfo::from_idn("RIGOL TECHNOLOGIES,DP832,X,1").unwrap();
    let d = rigol_psu_details(&m);
    assert_eq!(d.len(), 3);
    assert_eq!(d[2], ChannelLimits { min_mv: 0, max_mv: 5500, max_ma: 3300 });
    let m = ModelInfo::from_idn("RIGOL TECHNOLOGIES,DP832A,X,1").unwrap();
    assert!(rigol_psu_details(&m).is_empty());
}
