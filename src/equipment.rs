//! Instrument classes and the vendor tables that select and configure a
//! driver: which class an identity belongs to, the channel limits of known
//! power supplies, multimeter modes and oscilloscope settings.
use vstd::prelude::*;

use crate::error::Error;
use crate::model::{KeysightFamily, Manufacturer, ModelInfo, RigolFamily, SiglentFamily};
use crate::text::{dec_u32, parse_u32, split_once, split_once_at, starts_with, str_eq, strip_prefix};

verus! {

/// Instrument classes that a driver exists for.
#[derive(Clone, Copy, Debug, PartialEq, Eq, Structural)]
pub enum EquipmentKind {
    AcSource,
    PowerSupply,
    Multimeter,
    Oscilloscope,
    SpectrumAnalyzer,
}

/// The class of driver for a manufacturer and family, if there is one.
pub open spec fn kind_of(m: Manufacturer) -> Option<EquipmentKind> {
    match m {
        Manufacturer::Keysight(KeysightFamily::_6800) => Some(EquipmentKind::AcSource),
        Manufacturer::Rigol(RigolFamily::DP800) => Some(EquipmentKind::PowerSupply),
        Manufacturer::Rigol(RigolFamily::DP2000) => Some(EquipmentKind::PowerSupply),
        Manufacturer::Siglent(SiglentFamily::SDM4000A) => Some(EquipmentKind::Multimeter),
        Manufacturer::Siglent(SiglentFamily::SDS3000X) => Some(EquipmentKind::Oscilloscope),
        Manufacturer::Siglent(SiglentFamily::SSA3000XPlus) => Some(
            EquipmentKind::SpectrumAnalyzer,
        ),
        _ => None,
    }
}

/// The class of driver that handles an identified instrument; an instrument
/// without a driver is not supported.
pub fn equipment_kind(m: &Manufacturer) -> (r: Result<EquipmentKind, Error>)
    ensures
        match kind_of(*m) {
            Some(k) => r == Ok::<EquipmentKind, Error>(k),
            None => r matches Err(Error::NotSupported(_)),
        },
{
    match m {
        Manufacturer::Keysight(KeysightFamily::_6800) => Ok(EquipmentKind::AcSource),
        Manufacturer::Rigol(RigolFamily::DP800) => Ok(EquipmentKind::PowerSupply),
        Manufacturer::Rigol(RigolFamily::DP2000) => Ok(EquipmentKind::PowerSupply),
        Manufacturer::Siglent(SiglentFamily::SDM4000A) => Ok(EquipmentKind::Multimeter),
        Manufacturer::Siglent(SiglentFamily::SDS3000X) => Ok(EquipmentKind::Oscilloscope),
        Manufacturer::Siglent(SiglentFamily::SSA3000XPlus) => Ok(EquipmentKind::SpectrumAnalyzer),
        _ => Err(Error::not_supported("No driver matching this instrument")),
    }
}

/// Physical unit of a reading.
#[derive(Clone, Copy, Debug, PartialEq, Eq, Structural)]
pub enum Unit {
    /// Unitless
    Unitless,
    /// Voltage - volts
    Voltage,
    /// Current - amps
    Current,
    /// Resistance - ohms
    Resistance,
    /// Temperature - degrees celsius
    Temperature,
    /// Frequency - hertz
    Frequency,
    /// Period - seconds
    Period,
    /// Capacitance - farads
    Capacitance,
    /// Inductance - henries
    Inductance,
}

/// Symbol of a unit.
pub open spec fn unit_symbol(u: Unit) -> Seq<char> {
    match u {
        Unit::Unitless => ""@,
        Unit::Voltage => "V"@,
        Unit::Current => "A"@,
        Unit::Resistance => "Ω"@,
        Unit::Temperature => "°C"@,
        Unit::Frequency => "Hz"@,
        Unit::Period => "s"@,
        Unit::Capacitance => "F"@,
        Unit::Inductance => "H"@,
    }
}

impl Unit {
    /// Symbol of this unit.
    pub fn unit_abbrev(&self) -> (r: &'static str)
        ensures
            r@ == unit_symbol(*self),
    {
        match self {
            Unit::Unitless => "",
            Unit::Voltage => "V",
            Unit::Current => "A",
            Unit::Resistance => "Ω",
            Unit::Temperature => "°C",
            Unit::Frequency => "Hz",
            Unit::Period => "s",
            Unit::Capacitance => "F",
            Unit::Inductance => "H",
        }
    }
}

/// Empty description of a multimeter.
#[derive(Clone, Copy, Debug, PartialEq, Eq, Structural)]
pub struct MultimeterDetails {}

/// Measurement modes of a multimeter.
#[derive(Clone, Copy, Debug, PartialEq, Eq, Structural)]
pub enum MultimeterMode {
    DcVoltage,
    AcVoltage,
    DcCurrent,
    AcCurrent,
    Resistance,
    Resistance4W,
    Continuity,
    Diode,
    Temperature,
    Frequency,
    Period,
    Capacitance,
    Inductance,
}

/// Short name of a multimeter mode.
pub open spec fn mode_name(m: MultimeterMode) -> Seq<char> {
    match m {
        MultimeterMode::DcVoltage => "dcv"@,
        MultimeterMode::AcVoltage => "acv"@,
        MultimeterMode::DcCurrent => "dci"@,
        MultimeterMode::AcCurrent => "aci"@,
        MultimeterMode::Resistance => "res"@,
        MultimeterMode::Resistance4W => "res4w"@,
        MultimeterMode::Continuity => "cont"@,
        MultimeterMode::Diode => "diode"@,
        MultimeterMode::Temperature => "temp"@,
        MultimeterMode::Frequency => "freq"@,
        MultimeterMode::Period => "per"@,
        MultimeterMode::Capacitance => "cap"@,
        MultimeterMode::Inductance => "ind"@,
    }
}

/// Unit of the readings taken in a multimeter mode.
pub open spec fn mode_unit(m: MultimeterMode) -> Unit {
    match m {
        MultimeterMode::DcVoltage | MultimeterMode::AcVoltage | MultimeterMode::Diode => Unit::Voltage,
        MultimeterMode::DcCurrent | MultimeterMode::AcCurrent => Unit::Current,
        MultimeterMode::Resistance
        | MultimeterMode::Resistance4W
        | MultimeterMode::Continuity => Unit::Resistance,
        MultimeterMode::Temperature => Unit::Temperature,
        MultimeterMode::Frequency => Unit::Frequency,
        MultimeterMode::Period => Unit::Period,
        MultimeterMode::Capacitance => Unit::Capacitance,
        MultimeterMode::Inductance => Unit::Inductance,
    }
}

impl MultimeterMode {
    /// Short name of this mode.
    pub fn name(&self) -> (r: &'static str)
        ensures
            r@ == mode_name(*self),
    {
        match self {
            MultimeterMode::DcVoltage => "dcv",
            MultimeterMode::AcVoltage => "acv",
            MultimeterMode::DcCurrent => "dci",
            MultimeterMode::AcCurrent => "aci",
            MultimeterMode::Resistance => "res",
            MultimeterMode::Resistance4W => "res4w",
            MultimeterMode::Continuity => "cont",
            MultimeterMode::Diode => "diode",
            MultimeterMode::Temperature => "temp",
            MultimeterMode::Frequency => "freq",
            MultimeterMode::Period => "per",
            MultimeterMode::Capacitance => "cap",
            MultimeterMode::Inductance => "ind",
        }
    }

    /// The mode with short name `s`; any other text is an invalid argument.
    pub fn from_str(s: &str) -> (r: Result<Self, Error>)
        ensures
            (exists|m: MultimeterMode| mode_name(m) == s@) ==> (r matches Ok(m) && mode_name(m)
                == s@),
            !(exists|m: MultimeterMode| mode_name(m) == s@) ==> (r matches Err(
                Error::InvalidArgument(_),
            )),
    {
        let modes = [
            MultimeterMode::DcVoltage,
            MultimeterMode::AcVoltage,
            MultimeterMode::DcCurrent,
            MultimeterMode::AcCurrent,
            MultimeterMode::Resistance,
            MultimeterMode::Resistance4W,
            MultimeterMode::Continuity,
            MultimeterMode::Diode,
            MultimeterMode::Temperature,
            MultimeterMode::Frequency,
            MultimeterMode::Period,
            MultimeterMode::Capacitance,
            MultimeterMode::Inductance,
        ];
        let mut i: usize = 0;
        while i < 13
            invariant
                0 <= i <= 13,
                modes@.len() == 13,
                forall|m: MultimeterMode| #![auto] modes@.contains(m),
                forall|k: int| 0 <= k < i ==> mode_name(#[trigger] modes@[k]) != s@,
            decreases 13 - i,
        {
            let m = modes[i];
            if str_eq(m.name(), s) {
                return Ok(m);
            }
            i += 1;
        }
        assert forall|m: MultimeterMode| mode_name(m) != s@ by {
            assert(modes@.contains(m));
        }
        Err(Error::invalid_argument("Not a valid multimeter mode string"))
    }

    /// Unit of the readings taken in this mode.
    pub fn unit(&self) -> (r: Unit)
        ensures
            r == mode_unit(*self),
    {
        match self {
            MultimeterMode::DcVoltage | MultimeterMode::AcVoltage | MultimeterMode::Diode => {
                Unit::Voltage
            },
            MultimeterMode::DcCurrent | MultimeterMode::AcCurrent => Unit::Current,
            MultimeterMode::Resistance
            | MultimeterMode::Resistance4W
            | MultimeterMode::Continuity => Unit::Resistance,
            MultimeterMode::Temperature => Unit::Temperature,
            MultimeterMode::Frequency => Unit::Frequency,
            MultimeterMode::Period => Unit::Period,
            MultimeterMode::Capacitance => Unit::Capacitance,
            MultimeterMode::Inductance => Unit::Inductance,
        }
    }
}

/// The text before the first space, or all of it.
pub open spec fn first_word(s: Seq<char>) -> Seq<char> {
    match split_once(s, ' ') {
        Some((w, _)) => w,
        None => s,
    }
}

/// The mode that a Siglent multimeter's `CONF?` reply names by its first
/// word, if it is one of the modes the meter reports.
pub open spec fn siglent_dmm_mode(word: Seq<char>) -> Option<MultimeterMode> {
    if word == "VOLT"@ {
        Some(MultimeterMode::DcVoltage)
    } else if word == "VOLT:AC"@ {
        Some(MultimeterMode::AcVoltage)
    } else if word == "CURR"@ {
        Some(MultimeterMode::DcCurrent)
    } else if word == "CURR:AC"@ {
        Some(MultimeterMode::AcCurrent)
    } else if word == "CONT"@ {
        Some(MultimeterMode::Continuity)
    } else if word == "DIOD"@ {
        Some(MultimeterMode::Diode)
    } else if word == "FREQ"@ {
        Some(MultimeterMode::Frequency)
    } else if word == "PER"@ {
        Some(MultimeterMode::Period)
    } else if word == "TEMP"@ {
        Some(MultimeterMode::Temperature)
    } else if word == "RES"@ {
        Some(MultimeterMode::Resistance)
    } else if word == "FRES"@ {
        Some(MultimeterMode::Resistance4W)
    } else if word == "CAP"@ {
        Some(MultimeterMode::Capacitance)
    } else {
        None
    }
}

/// The mode that a Siglent multimeter reports in reply to `CONF?`; an
/// unknown mode is a bad response.
pub fn siglent_dmm_mode_from_reply(reply: &str) -> (r: Result<MultimeterMode, Error>)
    ensures
        match siglent_dmm_mode(first_word(reply@)) {
            Some(m) => r == Ok::<MultimeterMode, Error>(m),
            None => r matches Err(Error::BadResponse(_)),
        },
{
    let word = match split_once_at(reply, ' ') {
        Some((w, _)) => w,
        None => reply.to_owned(),
    };
    let w = word.as_str();
    if str_eq(w, "VOLT") {
        Ok(MultimeterMode::DcVoltage)
    } else if str_eq(w, "VOLT:AC") {
        Ok(MultimeterMode::AcVoltage)
    } else if str_eq(w, "CURR") {
        Ok(MultimeterMode::DcCurrent)
    } else if str_eq(w, "CURR:AC") {
        Ok(MultimeterMode::AcCurrent)
    } else if str_eq(w, "CONT") {
        Ok(MultimeterMode::Continuity)
    } else if str_eq(w, "DIOD") {
        Ok(MultimeterMode::Diode)
    } else if str_eq(w, "FREQ") {
        Ok(MultimeterMode::Frequency)
    } else if str_eq(w, "PER") {
        Ok(MultimeterMode::Period)
    } else if str_eq(w, "TEMP") {
        Ok(MultimeterMode::Temperature)
    } else if str_eq(w, "RES") {
        Ok(MultimeterMode::Resistance)
    } else if str_eq(w, "FRES") {
        Ok(MultimeterMode::Resistance4W)
    } else if str_eq(w, "CAP") {
        Ok(MultimeterMode::Capacitance)
    } else {
        Err(Error::bad_response("Unknown multimeter mode"))
    }
}

/// Trigger sources of a multimeter.
#[derive(Clone, Copy, Debug, PartialEq, Eq, Structural)]
pub enum MultimeterTrigSource {
    /// Always trigger immediately
    Immediate,
    /// Trigger on bus command
    Bus,
    /// Trigger from external trigger input
    External(u8),
}

/// The trigger source that a short name gives: `imm`, `bus`, `ext` (input
/// 0) or `ext` followed by an input number that fits in a byte.
pub open spec fn trig_source_of(s: Seq<char>) -> Option<MultimeterTrigSource> {
    if s == "imm"@ {
        Some(MultimeterTrigSource::Immediate)
    } else if s == "bus"@ {
        Some(MultimeterTrigSource::Bus)
    } else if s == "ext"@ {
        Some(MultimeterTrigSource::External(0))
    } else if "ext"@.is_prefix_of(s) {
        match dec_u32(s.skip("ext"@.len() as int)) {
            Some(n) => if n <= 255 {
                Some(MultimeterTrigSource::External(n as u8))
            } else {
                None
            },
            None => None,
        }
    } else {
        None
    }
}

impl MultimeterTrigSource {
    /// The trigger source with short name `s`; any other text is an invalid
    /// argument.
    pub fn from_str(s: &str) -> (r: Result<Self, Error>)
        ensures
            match trig_source_of(s@) {
                Some(t) => r == Ok::<MultimeterTrigSource, Error>(t),
                None => r matches Err(Error::InvalidArgument(_)),
            },
    {
        if str_eq(s, "imm") {
            return Ok(MultimeterTrigSource::Immediate);
        }
        if str_eq(s, "bus") {
            return Ok(MultimeterTrigSource::Bus);
        }
        if str_eq(s, "ext") {
            return Ok(MultimeterTrigSource::External(0));
        }
        match strip_prefix(s, "ext") {
            Some(num) => match parse_u32(num.as_str()) {
                Some(n) => if n <= 255 {
                    Ok(MultimeterTrigSource::External(n as u8))
                } else {
                    Err(Error::invalid_argument("Suffix cannot be parsed as u8"))
                },
                None => Err(Error::invalid_argument("Suffix cannot be parsed as u8")),
            },
            None => Err(Error::invalid_argument("Not a valid trigger source string")),
        }
    }
}

/// Oscilloscope trigger modes.
#[derive(Clone, Copy, Debug, PartialEq, Eq, Structural)]
pub enum TriggerMode {
    Auto,
    Normal,
    Single,
}

/// Trigger mode that a Siglent oscilloscope reports, if the reply names one.
pub open spec fn siglent_trigger_mode(reply: Seq<char>) -> Option<TriggerMode> {
    if reply == "AUTO"@ {
        Some(TriggerMode::Auto)
    } else if reply == "NORMal"@ {
        Some(TriggerMode::Normal)
    } else if reply == "SINGle"@ {
        Some(TriggerMode::Single)
    } else {
        None
    }
}

impl TriggerMode {
    /// The mode that a Siglent oscilloscope reports; an unknown reply is a
    /// bad response.
    pub fn from_siglent_reply(reply: &str) -> (r: Result<Self, Error>)
        ensures
            match siglent_trigger_mode(reply@) {
                Some(m) => r == Ok::<TriggerMode, Error>(m),
                None => r matches Err(Error::BadResponse(_)),
            },
    {
        if str_eq(reply, "AUTO") {
            Ok(TriggerMode::Auto)
        } else if str_eq(reply, "NORMal") {
            Ok(TriggerMode::Normal)
        } else if str_eq(reply, "SINGle") {
            Ok(TriggerMode::Single)
        } else {
            Err(Error::bad_response("Unknown trigger mode response"))
        }
    }

    /// The word that sets this mode on a Siglent oscilloscope.
    pub fn siglent_word(&self) -> (r: &'static str)
        ensures
            r@ == match *self {
                TriggerMode::Auto => "AUTO"@,
                TriggerMode::Normal => "NORM"@,
                TriggerMode::Single => "SING"@,
            },
    {
        match self {
            TriggerMode::Auto => "AUTO",
            TriggerMode::Normal => "NORM",
            TriggerMode::Single => "SING",
        }
    }
}

/// Kinds of oscilloscope trigger.
#[derive(Clone, Copy, Debug, PartialEq, Eq, Structural)]
pub enum TriggerType {
    Edge,
    Slope,
    Pulse,
    Video,
    Window,
    Interval,
    Dropout,
    Runt,
    Pattern,
    Qualified,
    NthEdge,
    Delay,
    SetupHold,
    Decode(TriggerDecodeProtocol),
}

/// Serial protocols an oscilloscope can trigger on.
#[derive(Clone, Copy, Debug, PartialEq, Eq, Structural)]
pub enum TriggerDecodeProtocol {
    I2C,
    Spi,
    Uart,
    Can,
    Lin,
    FlexRay,
    CanFd,
    I2S,
    Sent,
}

/// Trigger input coupling.
#[derive(Clone, Copy, Debug, PartialEq, Eq, Structural)]
pub enum TriggerCoupling {
    Dc,
    Ac,
    HfReject,
    LfReject,
}

/// Trigger edges.
#[derive(Clone, Copy, Debug, PartialEq, Eq, Structural)]
pub enum TriggerEdge {
    Rising,
    Falling,
    Alternating,
}

/// Trigger sources of an oscilloscope.
#[derive(Clone, Copy, Debug, PartialEq, Eq, Structural)]
pub enum TriggerSource {
    Analog(u8),
    Digital(u8),
    External(u8),
    ExternalDiv(u8, u8),
    Line,
}

/// Memory depths an SDS3000X offers with one or no channel enabled.
pub open spec fn sds3000x_depths_single() -> Seq<u64> {
    seq![
        2_000,
        10_000,
        20_000,
        100_000,
        200_000,
        1_000_000,
        2_000_000,
        10_000_000,
        20_000_000,
        100_000_000,
        200_000_000,
        400_000_000,
    ]
}

/// Memory depths an SDS3000X offers with two or more channels enabled.
pub open spec fn sds3000x_depths_multi() -> Seq<u64> {
    seq![
        1_000,
        5_000,
        10_000,
        50_000,
        100_000,
        500_000,
        1_000_000,
        5_000_000,
        10_000_000,
        50_000_000,
        100_000_000,
    ]
}

fn push_all(out: &mut Vec<u64>, items: &[u64])
    ensures
        final(out)@ == old(out)@ + items@,
{
    out.extend_from_slice(items);
}

/// Memory depths that a Siglent oscilloscope of `family` offers with
/// `n_chan` channels enabled; none for families without a table.
pub fn siglent_memory_depths(family: SiglentFamily, n_chan: u8) -> (r: Vec<u64>)
    ensures
        r@ == (if family == SiglentFamily::SDS3000X {
            if n_chan <= 1 {
                sds3000x_depths_single()
            } else {
                sds3000x_depths_multi()
            }
        } else {
            Seq::<u64>::empty()
        }),
{
    let mut out: Vec<u64> = Vec::new();
    match family {
        SiglentFamily::SDS3000X => {
            if n_chan <= 1 {
                let t: [u64; 12] = [
                    2_000,
                    10_000,
                    20_000,
                    100_000,
                    200_000,
                    1_000_000,
                    2_000_000,
                    10_000_000,
                    20_000_000,
                    100_000_000,
                    200_000_000,
                    400_000_000,
                ];
                push_all(&mut out, &t);
                assert(out@ =~= sds3000x_depths_single());
            } else {
                let t: [u64; 11] = [
                    1_000,
                    5_000,
                    10_000,
                    50_000,
                    100_000,
                    500_000,
                    1_000_000,
                    5_000_000,
                    10_000_000,
                    50_000_000,
                    100_000_000,
                ];
                push_all(&mut out, &t);
                assert(out@ =~= sds3000x_depths_multi());
            }
        },
        _ => {
            assert(out@ =~= Seq::<u64>::empty());
        },
    }
    out
}

/// Command dialects of SCPI power supplies.
#[derive(Clone, Copy, Debug, PartialEq, Eq, Structural)]
pub enum ScpiPsuProto {
    Rigol,
    Siglent,
}

/// Power supply models with known channel limits.
#[derive(Clone, Copy, Debug, PartialEq, Eq, Structural)]
pub enum ScpiPsuModel {
    RigolDP711,
    RigolDP712,
    RigolDP811,
    RigolDP813,
    RigolDP821,
    RigolDP822,
    RigolDP831,
    RigolDP832,
    RigolDP932,
    RigolDP932E,
    RigolDP2031,
    SiglentSPD1168X,
    SiglentSPD1305X,
    SiglentSPD3303,
    SiglentSPD4121X,
    SiglentSPD4306X,
    SiglentSPD4323X,
}

/// Limits of one power supply channel, in millivolts and milliamps.
#[derive(Clone, Copy, Debug, PartialEq, Eq, Structural)]
pub struct ChannelLimits {
    pub min_mv: i32,
    pub max_mv: i32,
    pub max_ma: u32,
}

/// The model that a model string names, for a manufacturer of SCPI power
/// supplies: the first prefix in the table that the string starts with.
pub open spec fn psu_model_of(man: Manufacturer, model: Seq<char>) -> Option<ScpiPsuModel> {
    match man {
        Manufacturer::Rigol(_) => if "DP711"@.is_prefix_of(model) {
            Some(ScpiPsuModel::RigolDP711)
        } else if "DP712"@.is_prefix_of(model) {
            Some(ScpiPsuModel::RigolDP712)
        } else if "DP811"@.is_prefix_of(model) {
            Some(ScpiPsuModel::RigolDP811)
        } else if "DP813"@.is_prefix_of(model) {
            Some(ScpiPsuModel::RigolDP813)
        } else if "DP821"@.is_prefix_of(model) {
            Some(ScpiPsuModel::RigolDP821)
        } else if "DP822"@.is_prefix_of(model) {
            Some(ScpiPsuModel::RigolDP822)
        } else if "DP831"@.is_prefix_of(model) {
            Some(ScpiPsuModel::RigolDP831)
        } else if "DP832"@.is_prefix_of(model) {
            Some(ScpiPsuModel::RigolDP832)
        } else if "DP932E"@.is_prefix_of(model) {
            Some(ScpiPsuModel::RigolDP932E)
        } else if "DP932"@.is_prefix_of(model) {
            Some(ScpiPsuModel::RigolDP932)
        } else if "DP2031"@.is_prefix_of(model) {
            Some(ScpiPsuModel::RigolDP2031)
        } else {
            None
        },
        Manufacturer::Siglent(_) => if "SPD1168"@.is_prefix_of(model) {
            Some(ScpiPsuModel::SiglentSPD1168X)
        } else if "SPD1305"@.is_prefix_of(model) {
            Some(ScpiPsuModel::SiglentSPD1305X)
        } else if "SPD3303"@.is_prefix_of(model) {
            Some(ScpiPsuModel::SiglentSPD3303)
        } else if "SPD4121"@.is_prefix_of(model) {
            Some(ScpiPsuModel::SiglentSPD4121X)
        } else if "SPD4306"@.is_prefix_of(model) {
            Some(ScpiPsuModel::SiglentSPD4306X)
        } else if "SPD4323"@.is_prefix_of(model) {
            Some(ScpiPsuModel::SiglentSPD4323X)
        } else {
            None
        },
        _ => None,
    }
}

/// Limits of a channel.
pub open spec fn lim(min_mv: i32, max_mv: i32, max_ma: u32) -> ChannelLimits {
    ChannelLimits { min_mv, max_mv, max_ma }
}

/// The channels of a power supply model and their limits.
pub open spec fn psu_channels(m: ScpiPsuModel) -> Seq<ChannelLimits> {
    match m {
        ScpiPsuModel::RigolDP711 => seq![lim(0, 30000, 5000)],
        ScpiPsuModel::RigolDP712 => seq![lim(0, 50000, 5000)],
        ScpiPsuModel::RigolDP811 => seq![lim(0, 40000, 10000)],
        ScpiPsuModel::RigolDP813 => seq![lim(0, 20000, 20000)],
        ScpiPsuModel::RigolDP821 => seq![lim(0, 60000, 1000), lim(0, 8000, 10000)],
        ScpiPsuModel::RigolDP822 => seq![lim(0, 20000, 5000), lim(0, 5000, 16000)],
        ScpiPsuModel::RigolDP831 => seq![
            lim(0, 8000, 5000),
            lim(0, 30000, 2000),
            lim(-30000i32, 0, 2000),
        ],
        ScpiPsuModel::RigolDP832 => seq![
            lim(0, 30000, 3000),
            lim(0, 30000, 3000),
            lim(0, 5000, 3000),
        ],
        ScpiPsuModel::RigolDP932 => seq![
            lim(0, 32000, 3000),
            lim(0, 32000, 3000),
            lim(0, 6000, 3000),
        ],
        ScpiPsuModel::RigolDP932E => seq![
            lim(0, 30000, 3000),
            lim(0, 30000, 3000),
            lim(0, 6000, 3000),
        ],
        ScpiPsuModel::RigolDP2031 => seq![
            lim(0, 32000, 3000),
            lim(0, 32000, 3000),
            lim(0, 6000, 5000),
        ],
        ScpiPsuModel::SiglentSPD1168X => seq![lim(0, 16000, 8000)],
        ScpiPsuModel::SiglentSPD1305X => seq![lim(0, 30000, 5000)],
        ScpiPsuModel::SiglentSPD3303 => seq![
            lim(0, 32000, 3200),
            lim(0, 32000, 3200),
            lim(0, 0, 3200),
        ],
        ScpiPsuModel::SiglentSPD4121X => seq![
            lim(0, 15000, 1500),
            lim(0, 12000, 10000),
            lim(0, 12000, 10000),
            lim(0, 15000, 1500),
        ],
        ScpiPsuModel::SiglentSPD4306X => seq![
            lim(0, 15000, 1500),
            lim(0, 30000, 6000),
            lim(0, 30000, 6000),
            lim(0, 15000, 1500),
        ],
        ScpiPsuModel::SiglentSPD4323X => seq![
            lim(0, 6000, 3200),
            lim(0, 32000, 3200),
            lim(0, 32000, 3200),
            lim(0, 6000, 3200),
        ],
    }
}

/// The command dialect of a power supply model.
pub open spec fn psu_proto(m: ScpiPsuModel) -> ScpiPsuProto {
    match m {
        ScpiPsuModel::SiglentSPD1168X
        | ScpiPsuModel::SiglentSPD1305X
        | ScpiPsuModel::SiglentSPD3303
        | ScpiPsuModel::SiglentSPD4121X
        | ScpiPsuModel::SiglentSPD4306X
        | ScpiPsuModel::SiglentSPD4323X => ScpiPsuProto::Siglent,
        _ => ScpiPsuProto::Rigol,
    }
}

fn limits_of(t: &[(i32, i32, u32)]) -> (r: Vec<ChannelLimits>)
    ensures
        r@.len() == t@.len(),
        forall|i: int| 0 <= i < t@.len() ==> #[trigger] r@[i] == lim(t@[i].0, t@[i].1, t@[i].2),
{
    let mut out: Vec<ChannelLimits> = Vec::new();
    let mut i: usize = 0;
    while i < t.len()
        invariant
            i <= t@.len(),
            out@.len() == i,
            forall|k: int| 0 <= k < i ==> #[trigger] out@[k] == lim(t@[k].0, t@[k].1, t@[k].2),
        decreases t@.len() - i,
    {
        let (a, b, c) = t[i];
        out.push(ChannelLimits { min_mv: a, max_mv: b, max_ma: c });
        i += 1;
    }
    out
}

/// Channel limits of a Rigol power supply driven by its own dialect, by
/// exact model name: only the DP832 is known.
pub open spec fn rigol_psu_channels(model: Seq<char>) -> Seq<ChannelLimits> {
    if model == "DP832"@ {
        seq![lim(0, 33000, 3300), lim(0, 33000, 3300), lim(0, 5500, 3300)]
    } else {
        Seq::empty()
    }
}

/// Channel limits of an identified Rigol power supply; none for a model
/// without an entry.
pub fn rigol_psu_details(model: &ModelInfo) -> (r: Vec<ChannelLimits>)
    ensures
        r@ == rigol_psu_channels(model.model@),
{
    if str_eq(model.model.as_str(), "DP832") {
        let r = limits_of(&[(0, 33000, 3300), (0, 33000, 3300), (0, 5500, 3300)]);
        assert(r@ =~= rigol_psu_channels(model.model@));
        r
    } else {
        let r: Vec<ChannelLimits> = Vec::new();
        assert(r@ =~= rigol_psu_channels(model.model@));
        r
    }
}

impl ScpiPsuModel {
    /// The model of an identified power supply. A manufacturer or model
    /// without an entry is not supported.
    pub fn from_model(model: &ModelInfo) -> (r: Result<Self, Error>)
        ensures
            match psu_model_of(model.man_family, model.model@) {
                Some(m) => r == Ok::<ScpiPsuModel, Error>(m),
                None => r matches Err(Error::NotSupported(_)),
            },
    {
        let mdl = model.model.as_str();
        let res = match model.man_family {
            Manufacturer::Rigol(_) => {
                if starts_with(mdl, "DP711") {
                    Some(ScpiPsuModel::RigolDP711)
                } else if starts_with(mdl, "DP712") {
                    Some(ScpiPsuModel::RigolDP712)
                } else if starts_with(mdl, "DP811") {
                    Some(ScpiPsuModel::RigolDP811)
                } else if starts_with(mdl, "DP813") {
                    Some(ScpiPsuModel::RigolDP813)
                } else if starts_with(mdl, "DP821") {
                    Some(ScpiPsuModel::RigolDP821)
                } else if starts_with(mdl, "DP822") {
                    Some(ScpiPsuModel::RigolDP822)
                } else if starts_with(mdl, "DP831") {
                    Some(ScpiPsuModel::RigolDP831)
                } else if starts_with(mdl, "DP832") {
                    Some(ScpiPsuModel::RigolDP832)
                } else if starts_with(mdl, "DP932E") {
                    Some(ScpiPsuModel::RigolDP932E)
                } else if starts_with(mdl, "DP932") {
                    Some(ScpiPsuModel::RigolDP932)
                } else if starts_with(mdl, "DP2031") {
                    Some(ScpiPsuModel::RigolDP2031)
                } else {
                    None
                }
            },
            Manufacturer::Siglent(_) => {
                if starts_with(mdl, "SPD1168") {
                    Some(ScpiPsuModel::SiglentSPD1168X)
                } else if starts_with(mdl, "SPD1305") {
                    Some(ScpiPsuModel::SiglentSPD1305X)
                } else if starts_with(mdl, "SPD3303") {
                    Some(ScpiPsuModel::SiglentSPD3303)
                } else if starts_with(mdl, "SPD4121") {
                    Some(ScpiPsuModel::SiglentSPD4121X)
                } else if starts_with(mdl, "SPD4306") {
                    Some(ScpiPsuModel::SiglentSPD4306X)
                } else if starts_with(mdl, "SPD4323") {
                    Some(ScpiPsuModel::SiglentSPD4323X)
                } else {
                    None
                }
            },
            _ => None,
        };
        match res {
            Some(m) => Ok(m),
            None => Err(Error::not_supported("Power supply model not supported")),
        }
    }

    /// The command dialect of this model.
    pub fn get_proto(&self) -> (r: ScpiPsuProto)
        ensures
            r == psu_proto(*self),
    {
        match self {
            ScpiPsuModel::SiglentSPD1168X
            | ScpiPsuModel::SiglentSPD1305X
            | ScpiPsuModel::SiglentSPD3303
            | ScpiPsuModel::SiglentSPD4121X
            | ScpiPsuModel::SiglentSPD4306X
            | ScpiPsuModel::SiglentSPD4323X => ScpiPsuProto::Siglent,
            _ => ScpiPsuProto::Rigol,
        }
    }

    /// The channels of this model and their limits.
    pub fn channel_details(&self) -> (r: Vec<ChannelLimits>)
        ensures
            r@ == psu_channels(*self),
    {
        let r = match self {
            ScpiPsuModel::RigolDP711 => limits_of(&[(0, 30000, 5000)]),
            ScpiPsuModel::RigolDP712 => limits_of(&[(0, 50000, 5000)]),
            ScpiPsuModel::RigolDP811 => limits_of(&[(0, 40000, 10000)]),
            ScpiPsuModel::RigolDP813 => limits_of(&[(0, 20000, 20000)]),
            ScpiPsuModel::RigolDP821 => limits_of(&[(0, 60000, 1000), (0, 8000, 10000)]),
            ScpiPsuModel::RigolDP822 => limits_of(&[(0, 20000, 5000), (0, 5000, 16000)]),
            ScpiPsuModel::RigolDP831 => limits_of(
                &[(0, 8000, 5000), (0, 30000, 2000), (-30000, 0, 2000)],
            ),
            ScpiPsuModel::RigolDP832 => limits_of(
                &[(0, 30000, 3000), (0, 30000, 3000), (0, 5000, 3000)],
            ),
            ScpiPsuModel::RigolDP932 => limits_of(
                &[(0, 32000, 3000), (0, 32000, 3000), (0, 6000, 3000)],
            ),
            ScpiPsuModel::RigolDP932E => limits_of(
                &[(0, 30000, 3000), (0, 30000, 3000), (0, 6000, 3000)],
            ),
            ScpiPsuModel::RigolDP2031 => limits_of(
                &[(0, 32000, 3000), (0, 32000, 3000), (0, 6000, 5000)],
            ),
            ScpiPsuModel::SiglentSPD1168X => limits_of(&[(0, 16000, 8000)]),
            ScpiPsuModel::SiglentSPD1305X => limits_of(&[(0, 30000, 5000)]),
            ScpiPsuModel::SiglentSPD3303 => limits_of(
                &[(0, 32000, 3200), (0, 32000, 3200), (0, 0, 3200)],
            ),
            ScpiPsuModel::SiglentSPD4121X => limits_of(
                &[(0, 15000, 1500), (0, 12000, 10000), (0, 12000, 10000), (0, 15000, 1500)],
            ),
            ScpiPsuModel::SiglentSPD4306X => limits_of(
                &[(0, 15000, 1500), (0, 30000, 6000), (0, 30000, 6000), (0, 15000, 1500)],
            ),
            ScpiPsuModel::SiglentSPD4323X => limits_of(
                &[(0, 6000, 3200), (0, 32000, 3200), (0, 32000, 3200), (0, 6000, 3200)],
            ),
        };
        assert(r@ =~= psu_channels(*self));
        r
    }
}

} // verus!
