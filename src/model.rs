//! Instrument identity, as reported by `*IDN?`.
use vstd::prelude::*;

use crate::error::Error;
use crate::text::{contains, has_infix, lower_of, lowercase, split_chars, split_on};

verus! {

/// Identity of an instrument.
#[derive(Clone, Debug)]
pub struct ModelInfo {
    /// Manufacturer and family
    pub man_family: Manufacturer,
    /// Manufacturer string
    pub manufacturer: String,
    /// Model string
    pub model: String,
    /// Serial number
    pub serial: Option<String>,
    /// Version number (as reported by *IDN?)
    pub version: Option<String>,
}

/// The text of an optional string.
pub open spec fn opt_text(s: Option<String>) -> Option<Seq<char>> {
    match s {
        Some(t) => Some(t@),
        None => None,
    }
}

/// Field `i` of a split response, if there is one.
pub open spec fn field_at(f: Seq<Seq<char>>, i: int) -> Option<Seq<char>> {
    if i < f.len() {
        Some(f[i])
    } else {
        None
    }
}

impl ModelInfo {
    /// Parses an `*IDN?` response: comma-separated manufacturer, model and
    /// optionally serial number and version. Fewer than two fields is an
    /// error. The manufacturer and model choose the family.
    pub fn from_idn(idn: &str) -> (r: Result<Self, Error>)
        ensures
            ({
                let f = split_chars(idn@, ',');
                &&& f.len() < 2 ==> (r matches Err(Error::Unspecified(_)))
                &&& f.len() >= 2 ==> (r matches Ok(m) && m.manufacturer@ == f[0] && m.model@ == f[1]
                    && opt_text(m.serial) == field_at(f, 2) && opt_text(m.version) == field_at(f, 3)
                    && m.man_family == manufacturer_of(lower_of(f[0]), lower_of(f[1])))
            }),
    {
        let fields = split_on(idn, ',');
        let ghost f = split_chars(idn@, ',');
        assert(fields@.len() == f.len());
        if fields.len() < 2 {
            return Err(Error::unspecified("Invalid *IDN? response"));
        }
        assert(fields@[0]@ == f[0] && fields@[1]@ == f[1]);
        let man_family = match Manufacturer::from_idn(fields.as_slice()) {
            Ok(m) => m,
            Err(e) => return Err(e),
        };
        let serial = if fields.len() > 2 {
            assert(fields@[2]@ == f[2]);
            Some(fields[2].clone())
        } else {
            None
        };
        let version = if fields.len() > 3 {
            assert(fields@[3]@ == f[3]);
            Some(fields[3].clone())
        } else {
            None
        };
        Ok(
            ModelInfo {
                man_family,
                manufacturer: fields[0].clone(),
                model: fields[1].clone(),
                serial,
                version,
            },
        )
    }
}

/// Manufacturer, with the family of the instrument.
#[derive(Clone, Copy, Debug, PartialEq, Eq, Structural)]
pub enum Manufacturer {
    /// Unknown manufacturer
    Unknown,
    /// LeCroy, also includes Teledyne Lecroy
    LeCroy(LecroyFamily),
    /// Rigol
    Rigol(RigolFamily),
    /// Siglent
    Siglent(SiglentFamily),
    /// Spirent
    Spirent(SpirentFamily),
    /// Keysight, also includes Agilent and HP
    Keysight(KeysightFamily),
}

/// The manufacturer named by a lowercase manufacturer field, with the family
/// that the lowercase model field names.
pub open spec fn manufacturer_of(man: Seq<char>, model: Seq<char>) -> Manufacturer {
    if has_infix(man, "rigol"@) {
        Manufacturer::Rigol(rigol_family(model))
    } else if has_infix(man, "siglent"@) {
        Manufacturer::Siglent(siglent_family(model))
    } else {
        Manufacturer::Unknown
    }
}

impl Manufacturer {
    /// The manufacturer and family of an identity split into fields (at
    /// least two), compared without regard to case.
    pub fn from_idn(idn: &[String]) -> (r: Result<Self, Error>)
        requires
            idn@.len() >= 2,
        ensures
            r == Ok::<Manufacturer, Error>(manufacturer_of(lower_of(idn@[0]@), lower_of(idn@[1]@))),
    {
        let man = lowercase(idn[0].as_str());
        if contains(man.as_str(), "rigol") {
            match RigolFamily::from_idn(idn) {
                Ok(f) => Ok(Manufacturer::Rigol(f)),
                Err(e) => Err(e),
            }
        } else if contains(man.as_str(), "siglent") {
            match SiglentFamily::from_idn(idn) {
                Ok(f) => Ok(Manufacturer::Siglent(f)),
                Err(e) => Err(e),
            }
        } else {
            Ok(Manufacturer::Unknown)
        }
    }

    /// The manufacturer named by a manufacturer field that is already
    /// lowercase, with the family named by a lowercase model field.
    pub fn from_lowercase(man: &str, model: &str) -> (r: Self)
        ensures
            r == manufacturer_of(man@, model@),
    {
        if contains(man, "rigol") {
            Manufacturer::Rigol(RigolFamily::from_lowercase(model))
        } else if contains(man, "siglent") {
            Manufacturer::Siglent(SiglentFamily::from_lowercase(model))
        } else {
            Manufacturer::Unknown
        }
    }
}

#[derive(Clone, Copy, Debug, PartialEq, Eq, Structural)]
pub enum LecroyFamily {
    /// Lecroy WavePro 7000 series oscilloscope
    WavePro7000,
}

#[derive(Clone, Copy, Debug, PartialEq, Eq, Structural)]
pub enum RigolFamily {
    Unknown,
    /// Rigol DS1200 series oscilloscope
    DS1200,
    /// Rigol DP800 series power supply
    DP800,
    /// Rigol DP2000 series power supply
    DP2000,
}

/// The Rigol family that a lowercase model field names.
pub open spec fn rigol_family(model: Seq<char>) -> RigolFamily {
    if has_infix(model, "ds12"@) {
        RigolFamily::DS1200
    } else if has_infix(model, "dp8"@) {
        RigolFamily::DP800
    } else if has_infix(model, "dp2"@) {
        RigolFamily::DP2000
    } else {
        RigolFamily::Unknown
    }
}

impl RigolFamily {
    /// The family of an identity split into fields (at least two), from its
    /// model field compared without regard to case.
    pub fn from_idn(idn: &[String]) -> (r: Result<Self, Error>)
        requires
            idn@.len() >= 2,
        ensures
            r == Ok::<RigolFamily, Error>(rigol_family(lower_of(idn@[1]@))),
    {
        let model = lowercase(idn[1].as_str());
        Ok(RigolFamily::from_lowercase(model.as_str()))
    }

    /// The family that a lowercase model field names.
    pub fn from_lowercase(model: &str) -> (r: Self)
        ensures
            r == rigol_family(model@),
    {
        if contains(model, "ds12") {
            RigolFamily::DS1200
        } else if contains(model, "dp8") {
            RigolFamily::DP800
        } else if contains(model, "dp2") {
            RigolFamily::DP2000
        } else {
            RigolFamily::Unknown
        }
    }
}

#[derive(Clone, Copy, Debug, PartialEq, Eq, Structural)]
pub enum SiglentFamily {
    Unknown,
    /// Siglent SDS3000X series oscilloscope
    SDS3000X,
    /// Siglent SSA3000X Plus series spectrum analyzer
    SSA3000XPlus,
    /// Siglent SDM4000A series multimeter
    SDM4000A,
    /// Siglent SDG3000X series function generator
    SDG3000X,
}

/// The Siglent family that a lowercase model field names.
pub open spec fn siglent_family(model: Seq<char>) -> SiglentFamily {
    if has_infix(model, "sds3"@) {
        SiglentFamily::SDS3000X
    } else if has_infix(model, "ssa3"@) {
        SiglentFamily::SSA3000XPlus
    } else if has_infix(model, "sdm4"@) {
        SiglentFamily::SDM4000A
    } else if has_infix(model, "sdg3"@) {
        SiglentFamily::SDG3000X
    } else {
        SiglentFamily::Unknown
    }
}

impl SiglentFamily {
    /// The family of an identity split into fields (at least two), from its
    /// model field compared without regard to case.
    pub fn from_idn(idn: &[String]) -> (r: Result<Self, Error>)
        requires
            idn@.len() >= 2,
        ensures
            r == Ok::<SiglentFamily, Error>(siglent_family(lower_of(idn@[1]@))),
    {
        let model = lowercase(idn[1].as_str());
        Ok(SiglentFamily::from_lowercase(model.as_str()))
    }

    /// The family that a lowercase model field names.
    pub fn from_lowercase(model: &str) -> (r: Self)
        ensures
            r == siglent_family(model@),
    {
        if contains(model, "sds3") {
            SiglentFamily::SDS3000X
        } else if contains(model, "ssa3") {
            SiglentFamily::SSA3000XPlus
        } else if contains(model, "sdm4") {
            SiglentFamily::SDM4000A
        } else if contains(model, "sdg3") {
            SiglentFamily::SDG3000X
        } else {
            SiglentFamily::Unknown
        }
    }
}

#[derive(Clone, Copy, Debug, PartialEq, Eq, Structural)]
pub enum SpirentFamily {
    /// Spirent GSS6300 Multi-GNSS generator
    GSS6300,
}

#[derive(Clone, Copy, Debug, PartialEq, Eq, Structural)]
pub enum KeysightFamily {
    /// Agilent 86130A bit error rate tester
    _86130A,
    /// HP/Agilent/Keysight 6800-series AC source/analyzer
    _6800,
}

} // verus!
