//! The three public operations of the engine: validity check, checksum
//! verification, and full decoding into a [`VinInfo`].

use vstd::prelude::*;

use crate::checksum::ChecksumOutcome;
use crate::checksum::expected_of;
use crate::checksum::outcome_of;
use crate::checksum::verify;
use crate::vin::VINError;
use crate::vin::normalize;
use crate::vin::valid_vin;
use crate::vin::validate;
use crate::vin::validation_error;
use crate::wmi::country_of;
use crate::wmi::lookup;
use crate::wmi::manufacturer_of;
use crate::wmi::opt_str_view;
use crate::wmi::region_of_match;

verus! {

/// What a VIN decodes to: the normalized number, the country, region and
/// manufacturer its World Manufacturer Identifier encodes (absent where the
/// registry does not know the prefix), and the checksum outcome.
#[derive(Debug)]
pub struct VinInfo {
    /// The normalized (uppercase) VIN.
    pub vin: String,
    /// Country of the manufacturer, from the first two characters.
    pub country: Option<String>,
    /// Name of the manufacturer, from the first three characters.
    pub manufacturer: Option<String>,
    /// Region of the manufacturer, from the matched registry record; absent
    /// where no prefix is registered.
    pub region: Option<String>,
    /// Whether the check digit agrees with the computed one.
    pub checksum: ChecksumOutcome,
}

impl VinInfo {
    /// Whether the checksum outcome reports agreement.
    pub fn valid_checksum(&self) -> (r: bool)
        ensures
            r == (self.checksum is Valid),
    {
        self.checksum.is_valid()
    }
}

/// Checks that the input is structurally a VIN: exactly 17 characters, all
/// from the permitted alphabet after case normalization. Does not look at
/// the check digit. Length is checked before the alphabet, so a short input
/// reports its length, never spurious character errors.
pub fn check_validity(vin: &str) -> (r: Result<(), VINError>)
    ensures
        r is Ok <==> valid_vin(normalize(vin@)),
        match r {
            Ok(_) => true,
            Err(e) => validation_error(vin@, e),
        },
{
    match validate(vin) {
        Ok(_) => Ok(()),
        Err(e) => Err(e),
    }
}

/// Checks structure as [`check_validity`] does and then the check digit:
/// succeeds exactly on well-formed VINs whose check-digit slot carries the
/// computed check character. Errors keep the fixed precedence: length, then
/// alphabet, then checksum.
pub fn verify_checksum(vin: &str) -> (r: Result<(), VINError>)
    ensures
        r is Ok <==> (valid_vin(normalize(vin@)) && normalize(vin@)[8] == expected_of(
            normalize(vin@),
        )),
        match r {
            Ok(_) => true,
            Err(VINError::ChecksumError { expected, received }) => valid_vin(normalize(vin@))
                && expected == expected_of(normalize(vin@)) && received == normalize(vin@)[8]
                && received != expected,
            Err(e) => validation_error(vin@, e),
        },
{
    let v = match validate(vin) {
        Ok(v) => v,
        Err(e) => return Err(e),
    };
    match verify(&v) {
        ChecksumOutcome::Valid => Ok(()),
        ChecksumOutcome::Mismatch { expected, received } => Err(
            VINError::ChecksumError { expected, received },
        ),
    }
}

/// Decodes a VIN: validates it, records the checksum outcome, and looks the
/// prefix up in the registry. Succeeds exactly on structurally valid inputs;
/// a checksum mismatch is reported inside the result, not as an error, so an
/// info query stays informative for a VIN with a bad check digit.
pub fn get_info(vin: &str) -> (r: Result<VinInfo, VINError>)
    ensures
        r is Ok <==> valid_vin(normalize(vin@)),
        match r {
            Ok(info) => {
                let norm = normalize(vin@);
                &&& info.vin@ == norm
                &&& opt_str_view(info.country) == country_of(norm[0], norm[1])
                &&& opt_str_view(info.manufacturer) == manufacturer_of(norm[0], norm[1], norm[2])
                &&& opt_str_view(info.region) == region_of_match(norm[0], norm[1], norm[2])
                &&& info.checksum == outcome_of(norm)
            },
            Err(e) => validation_error(vin@, e),
        },
{
    let v = match validate(vin) {
        Ok(v) => v,
        Err(e) => return Err(e),
    };
    let m = lookup(&v);
    let checksum = verify(&v);
    Ok(
        VinInfo {
            vin: v.to_vin_string(),
            country: m.country,
            manufacturer: m.manufacturer,
            region: m.region,
            checksum,
        },
    )
}

} // verus!
