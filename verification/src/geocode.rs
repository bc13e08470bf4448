//! The typed response model, its decode rules, and the geocoding client.

use vstd::prelude::*;
use vstd::string::StringExecFns;

use crate::error::DecodeError;
use crate::error::Error;
use crate::error::DecodeErrorV;
use crate::json::JsonModel;
use crate::json::jget;
use crate::json::jval;
use crate::json::jv_get;
use crate::json::jv_as_str;
use crate::json::jv_as_bool;
use crate::json::jv_num_text;
use crate::json::jv_arr_len;
use crate::json::jv_arr_get;
use crate::json::json_of;
use crate::json::parse_json;

verus! {

// ---------------------------------------------------------------------------
// Typed response model
// ---------------------------------------------------------------------------

/// Status and messages, present in every response envelope.
#[derive(Debug, PartialEq)]
pub struct Info {
    /// The service's status code, taken verbatim from its status-code space.
    pub status_code: u32,
    /// Human-readable messages describing the status; may be empty.
    pub messages: Vec<String>,
}

/// Mathematical view of an `Info`.
#[verifier::ext_equal]
pub ghost struct InfoV {
    pub status_code: u32,
    pub messages: Seq<Seq<char>>,
}

impl View for Info {
    type V = InfoV;

    open spec fn view(&self) -> InfoV {
        InfoV { status_code: self.status_code, messages: self.messages.deep_view() }
    }
}

/// Echo of the effective request options; purely informational.
#[derive(Debug, PartialEq, Eq, Structural, Clone, Copy)]
pub struct Options {
    pub max_results: u32,
    pub thumb_maps: bool,
    pub ignore_lat_lng_input: bool,
}

/// A coordinate pair, held as the decimal texts the service wrote for it.
/// This layer performs no range validation and no numeric interpretation.
#[derive(Debug, PartialEq, Clone)]
pub struct LatLng {
    pub lat: String,
    pub lng: String,
}

/// Mathematical view of a `LatLng`.
#[verifier::ext_equal]
pub ghost struct LatLngV {
    pub lat: Seq<char>,
    pub lng: Seq<char>,
}

impl View for LatLng {
    type V = LatLngV;

    open spec fn view(&self) -> LatLngV {
        LatLngV { lat: self.lat@, lng: self.lng@ }
    }
}

/// The original address string as submitted (forward geocoding only).
#[derive(Debug, PartialEq, Clone)]
pub struct ProvidedLocation {
    pub location: String,
}

impl View for ProvidedLocation {
    type V = Seq<char>;

    open spec fn view(&self) -> Seq<char> {
        self.location@
    }
}

/// Type of a location; decoded from the single-character codes
/// `"s"` (stop) and `"v"` (via). Any other code is a hard decode error.
#[derive(Debug, PartialEq, Eq, Structural, Clone, Copy)]
pub enum LocationType {
    Stop,
    Via,
}

/// Side of the street an address point lies on; decoded from the
/// single-character codes `"l"`, `"r"`, `"m"` and `"n"`. Any other code
/// is a hard decode error.
#[derive(Debug, PartialEq, Eq, Structural, Clone, Copy)]
pub enum SideOfStreet {
    Left,
    Right,
    Mixed,
    /// The service's "none" code, `"n"`.
    NoSide,
}

/// One candidate address match.
#[derive(Debug, PartialEq, Clone)]
pub struct Location {
    /// Street address.
    pub street: String,
    /// Neighborhood name.
    pub admin_area_6: String,
    /// City name.
    pub admin_area_5: String,
    /// County name.
    pub admin_area_4: String,
    /// State name.
    pub admin_area_3: String,
    /// Country name. Decoded from its own wire key `adminArea1`: sharing
    /// the county's wire key would leave one of the two fields never
    /// populated from real data.
    pub admin_area_1: String,
    /// Type of location.
    pub location_type: LocationType,
    /// Whether the location is a drag point; relevant only to
    /// route-dragging calls.
    pub drag_point: bool,
    /// A coordinate pair suited to showing the address as a point of
    /// interest.
    pub display_lat_lng: LatLng,
    /// Side of the street.
    pub side_of_street: SideOfStreet,
    /// Free-form quality indicator.
    pub geocode_quality_code: String,
    /// Free-form quality indicator.
    pub geocode_quality: String,
    /// Identifies the closest road to the address for routing purposes.
    pub link_id: String,
}

/// Mathematical view of a `Location`.
#[verifier::ext_equal]
pub ghost struct LocationV {
    pub street: Seq<char>,
    pub admin_area_6: Seq<char>,
    pub admin_area_5: Seq<char>,
    pub admin_area_4: Seq<char>,
    pub admin_area_3: Seq<char>,
    pub admin_area_1: Seq<char>,
    pub location_type: LocationType,
    pub drag_point: bool,
    pub display_lat_lng: LatLngV,
    pub side_of_street: SideOfStreet,
    pub geocode_quality_code: Seq<char>,
    pub geocode_quality: Seq<char>,
    pub link_id: Seq<char>,
}

impl View for Location {
    type V = LocationV;

    open spec fn view(&self) -> LocationV {
        LocationV {
            street: self.street@,
            admin_area_6: self.admin_area_6@,
            admin_area_5: self.admin_area_5@,
            admin_area_4: self.admin_area_4@,
            admin_area_3: self.admin_area_3@,
            admin_area_1: self.admin_area_1@,
            location_type: self.location_type,
            drag_point: self.drag_point,
            display_lat_lng: self.display_lat_lng@,
            side_of_street: self.side_of_street,
            geocode_quality_code: self.geocode_quality_code@,
            geocode_quality: self.geocode_quality@,
            link_id: self.link_id@,
        }
    }
}

impl DeepView for Location {
    type V = LocationV;

    open spec fn deep_view(&self) -> LocationV {
        self.view()
    }
}

/// One result group of a forward geocode: the submitted address echoed
/// back, with the candidate matches in the service's relevance order.
#[derive(Debug, PartialEq, Clone)]
pub struct GeocodeResult {
    pub provided_location: ProvidedLocation,
    pub locations: Vec<Location>,
}

/// Mathematical view of a `GeocodeResult`.
#[verifier::ext_equal]
pub ghost struct GeocodeResultV {
    pub provided_location: Seq<char>,
    pub locations: Seq<LocationV>,
}

impl View for GeocodeResult {
    type V = GeocodeResultV;

    open spec fn view(&self) -> GeocodeResultV {
        GeocodeResultV {
            provided_location: self.provided_location@,
            locations: self.locations.deep_view(),
        }
    }
}

impl DeepView for GeocodeResult {
    type V = GeocodeResultV;

    open spec fn deep_view(&self) -> GeocodeResultV {
        self.view()
    }
}

/// One result group of a reverse geocode: the submitted coordinate echoed
/// back, with the candidate matches in the service's relevance order.
#[derive(Debug, PartialEq, Clone)]
pub struct ReverseGeocodeResult {
    pub provided_location: LatLng,
    pub locations: Vec<Location>,
}

/// Mathematical view of a `ReverseGeocodeResult`.
#[verifier::ext_equal]
pub ghost struct ReverseGeocodeResultV {
    pub provided_location: LatLngV,
    pub locations: Seq<LocationV>,
}

impl View for ReverseGeocodeResult {
    type V = ReverseGeocodeResultV;

    open spec fn view(&self) -> ReverseGeocodeResultV {
        ReverseGeocodeResultV {
            provided_location: self.provided_location@,
            locations: self.locations.deep_view(),
        }
    }
}

impl DeepView for ReverseGeocodeResult {
    type V = ReverseGeocodeResultV;

    open spec fn deep_view(&self) -> ReverseGeocodeResultV {
        self.view()
    }
}

/// A decoded forward-geocode response: envelope, echoed options, and the
/// result groups in the order the service sent them.
#[derive(Debug, PartialEq)]
pub struct GeocodeResponse {
    pub info: Info,
    pub options: Options,
    pub results: Vec<GeocodeResult>,
}

/// Mathematical view of a `GeocodeResponse`.
#[verifier::ext_equal]
pub ghost struct GeocodeResponseV {
    pub info: InfoV,
    pub options: Options,
    pub results: Seq<GeocodeResultV>,
}

impl View for GeocodeResponse {
    type V = GeocodeResponseV;

    open spec fn view(&self) -> GeocodeResponseV {
        GeocodeResponseV { info: self.info@, options: self.options, results: self.results.deep_view() }
    }
}

/// A decoded reverse-geocode response.
#[derive(Debug, PartialEq)]
pub struct ReverseGeocodeResponse {
    pub info: Info,
    pub options: Options,
    pub results: Vec<ReverseGeocodeResult>,
}

/// Mathematical view of a `ReverseGeocodeResponse`.
#[verifier::ext_equal]
pub ghost struct ReverseGeocodeResponseV {
    pub info: InfoV,
    pub options: Options,
    pub results: Seq<ReverseGeocodeResultV>,
}

impl View for ReverseGeocodeResponse {
    type V = ReverseGeocodeResponseV;

    open spec fn view(&self) -> ReverseGeocodeResponseV {
        ReverseGeocodeResponseV {
            info: self.info@,
            options: self.options,
            results: self.results.deep_view(),
        }
    }
}

// ---------------------------------------------------------------------------
// Decode rules for the closed-set single-letter codes
// ---------------------------------------------------------------------------

/// The total decode mapping for location-type codes: exactly `"s"` and
/// `"v"` are accepted; every other text is an unknown-code error naming
/// that text.
pub open spec fn location_type_of_code(t: Seq<char>) -> Result<LocationType, DecodeErrorV> {
    if t == "s"@ {
        Ok(LocationType::Stop)
    } else if t == "v"@ {
        Ok(LocationType::Via)
    } else {
        Err(DecodeErrorV::UnknownCode(t))
    }
}

/// The total decode mapping for side-of-street codes: exactly `"l"`,
/// `"r"`, `"m"` and `"n"` are accepted; every other text is an
/// unknown-code error naming that text.
pub open spec fn side_of_street_of_code(t: Seq<char>) -> Result<SideOfStreet, DecodeErrorV> {
    if t == "l"@ {
        Ok(SideOfStreet::Left)
    } else if t == "r"@ {
        Ok(SideOfStreet::Right)
    } else if t == "m"@ {
        Ok(SideOfStreet::Mixed)
    } else if t == "n"@ {
        Ok(SideOfStreet::NoSide)
    } else {
        Err(DecodeErrorV::UnknownCode(t))
    }
}

// ---------------------------------------------------------------------------
// Decimal texts for unsigned integer fields
// ---------------------------------------------------------------------------

/// Whether a character is a decimal digit.
pub open spec fn is_digit_char(c: char) -> bool {
    '0' as int <= c as int && c as int <= '9' as int
}

/// The value of a digit character; zero for any other character, which
/// keeps `digits_val` total and monotone under extension.
pub open spec fn digit_val(c: char) -> nat {
    if is_digit_char(c) {
        (c as int - '0' as int) as nat
    } else {
        0
    }
}

/// The number a digit text denotes, most significant digit first.
pub open spec fn digits_val(t: Seq<char>) -> nat
    decreases t.len(),
{
    if t.len() == 0 {
        0
    } else {
        digits_val(t.drop_last()) * 10 + digit_val(t.last())
    }
}

/// Whether every character of a text is a decimal digit.
pub open spec fn all_digits(t: Seq<char>) -> bool {
    forall|i: int| 0 <= i < t.len() ==> is_digit_char(#[trigger] t[i])
}

/// The texts that denote a `u32`: nonempty, digits only, value in range.
pub open spec fn is_u32_text(t: Seq<char>) -> bool {
    t.len() > 0 && all_digits(t) && digits_val(t) <= u32::MAX
}

/// Extending a digit text never shrinks its value.
proof fn lemma_digits_val_take_monotone(t: Seq<char>, i: int, j: int)
    requires
        0 <= i <= j <= t.len(),
    ensures
        digits_val(t.take(i)) <= digits_val(t.take(j)),
    decreases j - i,
{
    if i < j {
        lemma_digits_val_take_monotone(t, i, j - 1);
        assert(t.take(j).drop_last() =~= t.take(j - 1));
        assert(digits_val(t.take(j)) == digits_val(t.take(j - 1)) * 10 + digit_val(
            t.take(j).last(),
        ));
    }
}

/// Reads a `u32` from its decimal text: succeeds exactly on the texts
/// that `is_u32_text` admits, and returns the denoted value.
pub fn parse_u32_text(s: &str) -> (r: Option<u32>)
    ensures
        r is Some <==> is_u32_text(s@),
        r matches Some(u) ==> u as nat == digits_val(s@),
{
    let n = s.unicode_len();
    if n == 0 {
        return None;
    }
    let mut i: usize = 0;
    let mut acc: u64 = 0;
    while i < n
        invariant
            0 <= i <= n,
            n as nat == s@.len(),
            all_digits(s@.take(i as int)),
            acc as nat == digits_val(s@.take(i as int)),
            acc <= u32::MAX as u64,
        decreases n - i,
    {
        let c = s.get_char(i);
        let cu = c as u32;
        if cu < 48 || cu > 57 {
            proof {
                assert(!is_digit_char(s@[i as int]));
                assert(!all_digits(s@));
            }
            return None;
        }
        let d = (cu - 48) as u64;
        let next = acc * 10 + d;
        proof {
            assert(s@.take(i as int + 1).drop_last() =~= s@.take(i as int));
            assert(s@.take(i as int + 1).last() == s@[i as int]);
            assert(digits_val(s@.take(i as int + 1)) == digits_val(s@.take(i as int)) * 10
                + digit_val(s@[i as int]));
            assert forall|k: int| 0 <= k < i as int + 1 implies is_digit_char(
                #[trigger] s@.take(i as int + 1)[k],
            ) by {
                assert(s@.take(i as int + 1)[k] == s@.take(i as int + 1)[k]);
                if k < i as int {
                    assert(s@.take(i as int)[k] == s@[k]);
                }
            }
        }
        if next > 4294967295u64 {
            proof {
                lemma_digits_val_take_monotone(s@, i as int + 1, s@.len() as int);
                assert(s@.take(s@.len() as int) =~= s@);
            }
            return None;
        }
        acc = next;
        i = i + 1;
    }
    proof {
        assert(s@.take(n as int) =~= s@);
    }
    Some(acc as u32)
}

// ---------------------------------------------------------------------------
// Structural field decoding
// ---------------------------------------------------------------------------

/// Decodes a required string field: the key must be present and hold a
/// JSON string; anything else is a field error naming the key.
pub open spec fn dec_str_field(j: JsonModel, k: Seq<char>) -> Result<Seq<char>, DecodeErrorV> {
    match jget(j, k) {
        Some(JsonModel::Str(t)) => Ok(t),
        _ => Err(DecodeErrorV::Field(k)),
    }
}

/// Decodes a required boolean field.
pub open spec fn dec_bool_field(j: JsonModel, k: Seq<char>) -> Result<bool, DecodeErrorV> {
    match jget(j, k) {
        Some(JsonModel::Bool(b)) => Ok(b),
        _ => Err(DecodeErrorV::Field(k)),
    }
}

/// Decodes a required number field, kept as its decimal text.
pub open spec fn dec_num_field(j: JsonModel, k: Seq<char>) -> Result<Seq<char>, DecodeErrorV> {
    match jget(j, k) {
        Some(JsonModel::Num(t)) => Ok(t),
        _ => Err(DecodeErrorV::Field(k)),
    }
}

/// Decodes a required `u32` field: the key must hold a JSON number whose
/// text is a plain decimal in `u32` range.
pub open spec fn dec_u32_field(j: JsonModel, k: Seq<char>) -> Result<u32, DecodeErrorV> {
    match jget(j, k) {
        Some(JsonModel::Num(t)) => if is_u32_text(t) {
            Ok(digits_val(t) as u32)
        } else {
            Err(DecodeErrorV::Field(k))
        },
        _ => Err(DecodeErrorV::Field(k)),
    }
}

fn get_field_str(v: &serde_json::Value, key: &str) -> (r: Result<String, DecodeError>)
    ensures
        (match dec_str_field(jval(*v), key@) {
            Ok(t) => r matches Ok(s) && s@ == t,
            Err(e) => r matches Err(d) && d@ == e,
        }),
{
    match jv_get(v, key) {
        Some(w) => match jv_as_str(w) {
            Some(s) => Ok(s),
            None => Err(DecodeError::Field(key.to_owned())),
        },
        None => Err(DecodeError::Field(key.to_owned())),
    }
}

fn get_field_bool(v: &serde_json::Value, key: &str) -> (r: Result<bool, DecodeError>)
    ensures
        (match dec_bool_field(jval(*v), key@) {
            Ok(b) => r == Ok::<bool, DecodeError>(b),
            Err(e) => r matches Err(d) && d@ == e,
        }),
{
    match jv_get(v, key) {
        Some(w) => match jv_as_bool(w) {
            Some(b) => Ok(b),
            None => Err(DecodeError::Field(key.to_owned())),
        },
        None => Err(DecodeError::Field(key.to_owned())),
    }
}

fn get_field_num_text(v: &serde_json::Value, key: &str) -> (r: Result<String, DecodeError>)
    ensures
        (match dec_num_field(jval(*v), key@) {
            Ok(t) => r matches Ok(s) && s@ == t,
            Err(e) => r matches Err(d) && d@ == e,
        }),
{
    match jv_get(v, key) {
        Some(w) => match jv_num_text(w) {
            Some(s) => Ok(s),
            None => Err(DecodeError::Field(key.to_owned())),
        },
        None => Err(DecodeError::Field(key.to_owned())),
    }
}

fn get_field_u32(v: &serde_json::Value, key: &str) -> (r: Result<u32, DecodeError>)
    ensures
        (match dec_u32_field(jval(*v), key@) {
            Ok(u) => r == Ok::<u32, DecodeError>(u),
            Err(e) => r matches Err(d) && d@ == e,
        }),
{
    match jv_get(v, key) {
        Some(w) => match jv_num_text(w) {
            Some(t) => match parse_u32_text(t.as_str()) {
                Some(u) => Ok(u),
                None => Err(DecodeError::Field(key.to_owned())),
            },
            None => Err(DecodeError::Field(key.to_owned())),
        },
        None => Err(DecodeError::Field(key.to_owned())),
    }
}

// ---------------------------------------------------------------------------
// Decoding the composite records
// ---------------------------------------------------------------------------

/// Decodes a coordinate pair object: `lat` and `lng` number fields.
pub open spec fn dec_lat_lng(j: JsonModel) -> Result<LatLngV, DecodeErrorV> {
    match dec_num_field(j, "lat"@) {
        Err(e) => Err(e),
        Ok(lat) => match dec_num_field(j, "lng"@) {
            Err(e) => Err(e),
            Ok(lng) => Ok(LatLngV { lat, lng }),
        },
    }
}

/// Decodes one candidate address match, field by field under its wire
/// names; the first offending field decides the error.
pub open spec fn dec_location(j: JsonModel) -> Result<LocationV, DecodeErrorV> {
    match dec_str_field(j, "street"@) {
        Err(e) => Err(e),
        Ok(street) => match dec_str_field(j, "adminArea6"@) {
            Err(e) => Err(e),
            Ok(admin_area_6) => match dec_str_field(j, "adminArea5"@) {
                Err(e) => Err(e),
                Ok(admin_area_5) => match dec_str_field(j, "adminArea4"@) {
                    Err(e) => Err(e),
                    Ok(admin_area_4) => match dec_str_field(j, "adminArea3"@) {
                        Err(e) => Err(e),
                        Ok(admin_area_3) => match dec_str_field(j, "adminArea1"@) {
                            Err(e) => Err(e),
                            Ok(admin_area_1) => match dec_str_field(j, "type"@) {
                                Err(e) => Err(e),
                                Ok(type_code) => match location_type_of_code(type_code) {
                                    Err(e) => Err(e),
                                    Ok(location_type) => match dec_bool_field(j, "dragPoint"@) {
                                        Err(e) => Err(e),
                                        Ok(drag_point) => match jget(j, "displayLatLng"@) {
                                            None => Err(DecodeErrorV::Field("displayLatLng"@)),
                                            Some(jl) => match dec_lat_lng(jl) {
                                                Err(e) => Err(e),
                                                Ok(display_lat_lng) => match dec_str_field(
                                                    j,
                                                    "sideOfStreet"@,
                                                ) {
                                                    Err(e) => Err(e),
                                                    Ok(side_code) => match side_of_street_of_code(
                                                        side_code,
                                                    ) {
                                                        Err(e) => Err(e),
                                                        Ok(side_of_street) => match dec_str_field(
                                                            j,
                                                            "geocodeQualityCode"@,
                                                        ) {
                                                            Err(e) => Err(e),
                                                            Ok(
                                                                geocode_quality_code,
                                                            ) => match dec_str_field(
                                                                j,
                                                                "geocodeQuality"@,
                                                            ) {
                                                                Err(e) => Err(e),
                                                                Ok(
                                                                    geocode_quality,
                                                                ) => match dec_str_field(
                                                                    j,
                                                                    "linkId"@,
                                                                ) {
                                                                    Err(e) => Err(e),
                                                                    Ok(link_id) => Ok(
                                                                        LocationV {
                                                                            street,
                                                                            admin_area_6,
                                                                            admin_area_5,
                                                                            admin_area_4,
                                                                            admin_area_3,
                                                                            admin_area_1,
                                                                            location_type,
                                                                            drag_point,
                                                                            display_lat_lng,
                                                                            side_of_street,
                                                                            geocode_quality_code,
                                                                            geocode_quality,
                                                                            link_id,
                                                                        },
                                                                    ),
                                                                },
                                                            },
                                                        },
                                                    },
                                                },
                                            },
                                        },
                                    },
                                },
                            },
                        },
                    },
                },
            },
        },
    }
}

/// Reads a location-type code and applies the closed decode table.
pub fn location_type_from_code(code: &str) -> (r: Result<LocationType, DecodeError>)
    ensures
        (match location_type_of_code(code@) {
            Ok(t) => r == Ok::<LocationType, DecodeError>(t),
            Err(e) => r matches Err(d) && d@ == e,
        }),
{
    proof {
        reveal_strlit("s");
        reveal_strlit("v");
    }
    if code.unicode_len() == 1 {
        let c = code.get_char(0);
        proof {
            assert(code@ =~= seq![code@[0]]);
        }
        if c == 's' {
            proof {
                assert(code@ =~= "s"@);
            }
            return Ok(LocationType::Stop);
        }
        if c == 'v' {
            proof {
                assert(code@ =~= "v"@);
            }
            return Ok(LocationType::Via);
        }
    }
    Err(DecodeError::UnknownCode(code.to_owned()))
}

/// Reads a side-of-street code and applies the closed decode table.
pub fn side_of_street_from_code(code: &str) -> (r: Result<SideOfStreet, DecodeError>)
    ensures
        (match side_of_street_of_code(code@) {
            Ok(t) => r == Ok::<SideOfStreet, DecodeError>(t),
            Err(e) => r matches Err(d) && d@ == e,
        }),
{
    proof {
        reveal_strlit("l");
        reveal_strlit("r");
        reveal_strlit("m");
        reveal_strlit("n");
    }
    if code.unicode_len() == 1 {
        let c = code.get_char(0);
        proof {
            assert(code@ =~= seq![code@[0]]);
        }
        if c == 'l' {
            proof {
                assert(code@ =~= "l"@);
            }
            return Ok(SideOfStreet::Left);
        }
        if c == 'r' {
            proof {
                assert(code@ =~= "r"@);
            }
            return Ok(SideOfStreet::Right);
        }
        if c == 'm' {
            proof {
                assert(code@ =~= "m"@);
            }
            return Ok(SideOfStreet::Mixed);
        }
        if c == 'n' {
            proof {
                assert(code@ =~= "n"@);
            }
            return Ok(SideOfStreet::NoSide);
        }
    }
    Err(DecodeError::UnknownCode(code.to_owned()))
}

/// Decodes a coordinate pair object.
pub fn decode_lat_lng(v: &serde_json::Value) -> (r: Result<LatLng, DecodeError>)
    ensures
        (match dec_lat_lng(jval(*v)) {
            Ok(lv) => r matches Ok(l) && l@ == lv,
            Err(e) => r matches Err(d) && d@ == e,
        }),
{
    let lat = match get_field_num_text(v, "lat") {
        Ok(t) => t,
        Err(e) => return Err(e),
    };
    let lng = match get_field_num_text(v, "lng") {
        Ok(t) => t,
        Err(e) => return Err(e),
    };
    Ok(LatLng { lat, lng })
}

/// Decodes one candidate address match.
pub fn decode_location(v: &serde_json::Value) -> (r: Result<Location, DecodeError>)
    ensures
        (match dec_location(jval(*v)) {
            Ok(lv) => r matches Ok(l) && l@ == lv,
            Err(e) => r matches Err(d) && d@ == e,
        }),
{
    let street = match get_field_str(v, "street") {
        Ok(s) => s,
        Err(e) => return Err(e),
    };
    let admin_area_6 = match get_field_str(v, "adminArea6") {
        Ok(s) => s,
        Err(e) => return Err(e),
    };
    let admin_area_5 = match get_field_str(v, "adminArea5") {
        Ok(s) => s,
        Err(e) => return Err(e),
    };
    let admin_area_4 = match get_field_str(v, "adminArea4") {
        Ok(s) => s,
        Err(e) => return Err(e),
    };
    let admin_area_3 = match get_field_str(v, "adminArea3") {
        Ok(s) => s,
        Err(e) => return Err(e),
    };
    let admin_area_1 = match get_field_str(v, "adminArea1") {
        Ok(s) => s,
        Err(e) => return Err(e),
    };
    let type_code = match get_field_str(v, "type") {
        Ok(s) => s,
        Err(e) => return Err(e),
    };
    let location_type = match location_type_from_code(type_code.as_str()) {
        Ok(t) => t,
        Err(e) => return Err(e),
    };
    let drag_point = match get_field_bool(v, "dragPoint") {
        Ok(b) => b,
        Err(e) => return Err(e),
    };
    let display_lat_lng = match jv_get(v, "displayLatLng") {
        Some(w) => match decode_lat_lng(w) {
            Ok(l) => l,
            Err(e) => return Err(e),
        },
        None => return Err(DecodeError::Field("displayLatLng".to_owned())),
    };
    let side_code = match get_field_str(v, "sideOfStreet") {
        Ok(s) => s,
        Err(e) => return Err(e),
    };
    let side_of_street = match side_of_street_from_code(side_code.as_str()) {
        Ok(t) => t,
        Err(e) => return Err(e),
    };
    let geocode_quality_code = match get_field_str(v, "geocodeQualityCode") {
        Ok(s) => s,
        Err(e) => return Err(e),
    };
    let geocode_quality = match get_field_str(v, "geocodeQuality") {
        Ok(s) => s,
        Err(e) => return Err(e),
    };
    let link_id = match get_field_str(v, "linkId") {
        Ok(s) => s,
        Err(e) => return Err(e),
    };
    Ok(
        Location {
            street,
            admin_area_6,
            admin_area_5,
            admin_area_4,
            admin_area_3,
            admin_area_1,
            location_type,
            drag_point,
            display_lat_lng,
            side_of_street,
            geocode_quality_code,
            geocode_quality,
            link_id,
        },
    )
}

/// Decodes the envelope's message array: every element must be a JSON
/// string; the elements' order is kept.
pub open spec fn dec_messages(items: Seq<JsonModel>) -> Result<Seq<Seq<char>>, DecodeErrorV>
    decreases items.len(),
{
    if items.len() == 0 {
        Ok(Seq::empty())
    } else {
        match items[0] {
            JsonModel::Str(t) => match dec_messages(items.drop_first()) {
                Err(e) => Err(e),
                Ok(rest) => Ok(seq![t] + rest),
            },
            _ => Err(DecodeErrorV::Field("messages"@)),
        }
    }
}

/// Decodes the response envelope: status code and messages.
pub open spec fn dec_info(j: JsonModel) -> Result<InfoV, DecodeErrorV> {
    match dec_u32_field(j, "status_code"@) {
        Err(e) => Err(e),
        Ok(status_code) => match jget(j, "messages"@) {
            Some(JsonModel::Arr(items)) => match dec_messages(items) {
                Err(e) => Err(e),
                Ok(messages) => Ok(InfoV { status_code, messages }),
            },
            _ => Err(DecodeErrorV::Field("messages"@)),
        },
    }
}

/// Decodes the echoed request options under their wire names.
pub open spec fn dec_options(j: JsonModel) -> Result<Options, DecodeErrorV> {
    match dec_u32_field(j, "maxResults"@) {
        Err(e) => Err(e),
        Ok(max_results) => match dec_bool_field(j, "thumbMaps"@) {
            Err(e) => Err(e),
            Ok(thumb_maps) => match dec_bool_field(j, "ignoreLatLngInput"@) {
                Err(e) => Err(e),
                Ok(ignore_lat_lng_input) => Ok(
                    Options { max_results, thumb_maps, ignore_lat_lng_input },
                ),
            },
        },
    }
}

fn decode_string_array(v: &serde_json::Value) -> (r: Result<Vec<String>, DecodeError>)
    ensures
        (match jval(*v) {
            JsonModel::Arr(items) => match dec_messages(items) {
                Ok(ms) => r matches Ok(out) && out.deep_view() == ms,
                Err(e) => r matches Err(d) && d@ == e,
            },
            _ => r matches Err(d) && d@ == DecodeErrorV::Field("messages"@),
        }),
{
    let n = match jv_arr_len(v) {
        Some(n) => n,
        None => return Err(DecodeError::Field("messages".to_owned())),
    };
    let ghost items = jval(*v)->Arr_0;
    let mut out: Vec<String> = Vec::new();
    let mut i: usize = 0;
    proof {
        assert(items.skip(0) =~= items);
        assert(out.deep_view() =~= Seq::<Seq<char>>::empty());
        if let Ok(rest) = dec_messages(items) {
            assert(out.deep_view() + rest =~= rest);
        }
    }
    while i < n
        invariant
            jval(*v) matches JsonModel::Arr(its) && its == items,
            n as nat == items.len(),
            i <= n,
            dec_messages(items) == (match dec_messages(items.skip(i as int)) {
                Ok(rest) => Ok::<Seq<Seq<char>>, DecodeErrorV>(out.deep_view() + rest),
                Err(e) => Err::<Seq<Seq<char>>, DecodeErrorV>(e),
            }),
        decreases n - i,
    {
        let w = match jv_arr_get(v, i) {
            Some(w) => w,
            None => vstd::pervasive::unreached(),
        };
        proof {
            assert(items.skip(i as int)[0] == items[i as int]);
            assert(items.skip(i as int).drop_first() =~= items.skip(i as int + 1));
        }
        match jv_as_str(w) {
            Some(s) => {
                let ghost prior = out.deep_view();
                out.push(s);
                proof {
                    assert(out.deep_view() =~= prior.push(s@));
                    if let Ok(rest) = dec_messages(items.skip(i as int + 1)) {
                        assert(prior + (seq![s@] + rest) =~= prior.push(s@) + rest);
                    }
                }
            },
            None => {
                return Err(DecodeError::Field("messages".to_owned()));
            },
        }
        i = i + 1;
    }
    proof {
        assert(items.skip(n as int) =~= Seq::<JsonModel>::empty());
        assert(out.deep_view() + Seq::<Seq<char>>::empty() =~= out.deep_view());
    }
    Ok(out)
}

/// Decodes the response envelope.
pub fn decode_info(v: &serde_json::Value) -> (r: Result<Info, DecodeError>)
    ensures
        (match dec_info(jval(*v)) {
            Ok(iv) => r matches Ok(info) && info@ == iv,
            Err(e) => r matches Err(d) && d@ == e,
        }),
{
    let status_code = match get_field_u32(v, "status_code") {
        Ok(u) => u,
        Err(e) => return Err(e),
    };
    let messages = match jv_get(v, "messages") {
        Some(w) => match decode_string_array(w) {
            Ok(ms) => ms,
            Err(e) => return Err(e),
        },
        None => return Err(DecodeError::Field("messages".to_owned())),
    };
    Ok(Info { status_code, messages })
}

/// Decodes the echoed request options.
pub fn decode_options(v: &serde_json::Value) -> (r: Result<Options, DecodeError>)
    ensures
        (match dec_options(jval(*v)) {
            Ok(ov) => r == Ok::<Options, DecodeError>(ov),
            Err(e) => r matches Err(d) && d@ == e,
        }),
{
    let max_results = match get_field_u32(v, "maxResults") {
        Ok(u) => u,
        Err(e) => return Err(e),
    };
    let thumb_maps = match get_field_bool(v, "thumbMaps") {
        Ok(b) => b,
        Err(e) => return Err(e),
    };
    let ignore_lat_lng_input = match get_field_bool(v, "ignoreLatLngInput") {
        Ok(b) => b,
        Err(e) => return Err(e),
    };
    Ok(Options { max_results, thumb_maps, ignore_lat_lng_input })
}

/// Decodes an array of candidate address matches, keeping their order.
pub open spec fn dec_location_seq(items: Seq<JsonModel>) -> Result<Seq<LocationV>, DecodeErrorV>
    decreases items.len(),
{
    if items.len() == 0 {
        Ok(Seq::empty())
    } else {
        match dec_location(items[0]) {
            Err(e) => Err(e),
            Ok(l0) => match dec_location_seq(items.drop_first()) {
                Err(e) => Err(e),
                Ok(rest) => Ok(seq![l0] + rest),
            },
        }
    }
}

fn decode_location_array(v: &serde_json::Value) -> (r: Result<Vec<Location>, DecodeError>)
    ensures
        (match jval(*v) {
            JsonModel::Arr(items) => match dec_location_seq(items) {
                Ok(ls) => r matches Ok(out) && out.deep_view() == ls,
                Err(e) => r matches Err(d) && d@ == e,
            },
            _ => r matches Err(d) && d@ == DecodeErrorV::Field("locations"@),
        }),
{
    let n = match jv_arr_len(v) {
        Some(n) => n,
        None => return Err(DecodeError::Field("locations".to_owned())),
    };
    let ghost items = jval(*v)->Arr_0;
    let mut out: Vec<Location> = Vec::new();
    let mut i: usize = 0;
    proof {
        assert(items.skip(0) =~= items);
        assert(out.deep_view() =~= Seq::<LocationV>::empty());
        if let Ok(rest) = dec_location_seq(items) {
            assert(out.deep_view() + rest =~= rest);
        }
    }
    while i < n
        invariant
            jval(*v) matches JsonModel::Arr(its) && its == items,
            n as nat == items.len(),
            i <= n,
            dec_location_seq(items) == (match dec_location_seq(items.skip(i as int)) {
                Ok(rest) => Ok::<Seq<LocationV>, DecodeErrorV>(out.deep_view() + rest),
                Err(e) => Err::<Seq<LocationV>, DecodeErrorV>(e),
            }),
        decreases n - i,
    {
        let w = match jv_arr_get(v, i) {
            Some(w) => w,
            None => vstd::pervasive::unreached(),
        };
        proof {
            assert(items.skip(i as int)[0] == items[i as int]);
            assert(items.skip(i as int).drop_first() =~= items.skip(i as int + 1));
        }
        match decode_location(w) {
            Ok(l) => {
                let ghost prior = out.deep_view();
                let ghost lv = l@;
                out.push(l);
                proof {
                    assert(out.deep_view() =~= prior.push(lv));
                    if let Ok(rest) = dec_location_seq(items.skip(i as int + 1)) {
                        assert(prior + (seq![lv] + rest) =~= prior.push(lv) + rest);
                    }
                }
            },
            Err(e) => {
                return Err(e);
            },
        }
        i = i + 1;
    }
    proof {
        assert(items.skip(n as int) =~= Seq::<JsonModel>::empty());
        assert(out.deep_view() + Seq::<LocationV>::empty() =~= out.deep_view());
    }
    Ok(out)
}

/// Decodes one forward-geocode result group: the echoed address and the
/// candidate matches.
pub open spec fn dec_geocode_result(j: JsonModel) -> Result<GeocodeResultV, DecodeErrorV> {
    match jget(j, "providedLocation"@) {
        None => Err(DecodeErrorV::Field("providedLocation"@)),
        Some(jp) => match dec_str_field(jp, "location"@) {
            Err(e) => Err(e),
            Ok(provided_location) => match jget(j, "locations"@) {
                Some(JsonModel::Arr(items)) => match dec_location_seq(items) {
                    Err(e) => Err(e),
                    Ok(locations) => Ok(GeocodeResultV { provided_location, locations }),
                },
                _ => Err(DecodeErrorV::Field("locations"@)),
            },
        },
    }
}

/// Decodes one reverse-geocode result group: the echoed coordinate and
/// the candidate matches.
pub open spec fn dec_reverse_result(j: JsonModel) -> Result<ReverseGeocodeResultV, DecodeErrorV> {
    match jget(j, "providedLocation"@) {
        None => Err(DecodeErrorV::Field("providedLocation"@)),
        Some(jp) => match dec_lat_lng(jp) {
            Err(e) => Err(e),
            Ok(provided_location) => match jget(j, "locations"@) {
                Some(JsonModel::Arr(items)) => match dec_location_seq(items) {
                    Err(e) => Err(e),
                    Ok(locations) => Ok(ReverseGeocodeResultV { provided_location, locations }),
                },
                _ => Err(DecodeErrorV::Field("locations"@)),
            },
        },
    }
}

/// Decodes one forward-geocode result group.
pub fn decode_geocode_result(v: &serde_json::Value) -> (r: Result<GeocodeResult, DecodeError>)
    ensures
        (match dec_geocode_result(jval(*v)) {
            Ok(gv) => r matches Ok(g) && g@ == gv,
            Err(e) => r matches Err(d) && d@ == e,
        }),
{
    let provided = match jv_get(v, "providedLocation") {
        Some(w) => match get_field_str(w, "location") {
            Ok(s) => s,
            Err(e) => return Err(e),
        },
        None => return Err(DecodeError::Field("providedLocation".to_owned())),
    };
    let locations = match jv_get(v, "locations") {
        Some(w) => match decode_location_array(w) {
            Ok(ls) => ls,
            Err(e) => return Err(e),
        },
        None => return Err(DecodeError::Field("locations".to_owned())),
    };
    Ok(GeocodeResult { provided_location: ProvidedLocation { location: provided }, locations })
}

/// Decodes one reverse-geocode result group.
pub fn decode_reverse_result(v: &serde_json::Value) -> (r: Result<
    ReverseGeocodeResult,
    DecodeError,
>)
    ensures
        (match dec_reverse_result(jval(*v)) {
            Ok(gv) => r matches Ok(g) && g@ == gv,
            Err(e) => r matches Err(d) && d@ == e,
        }),
{
    let provided = match jv_get(v, "providedLocation") {
        Some(w) => match decode_lat_lng(w) {
            Ok(l) => l,
            Err(e) => return Err(e),
        },
        None => return Err(DecodeError::Field("providedLocation".to_owned())),
    };
    let locations = match jv_get(v, "locations") {
        Some(w) => match decode_location_array(w) {
            Ok(ls) => ls,
            Err(e) => return Err(e),
        },
        None => return Err(DecodeError::Field("locations".to_owned())),
    };
    Ok(ReverseGeocodeResult { provided_location: provided, locations })
}

/// Decodes the ordered result groups of a forward geocode.
pub open spec fn dec_geocode_result_seq(items: Seq<JsonModel>) -> Result<
    Seq<GeocodeResultV>,
    DecodeErrorV,
>
    decreases items.len(),
{
    if items.len() == 0 {
        Ok(Seq::empty())
    } else {
        match dec_geocode_result(items[0]) {
            Err(e) => Err(e),
            Ok(r0) => match dec_geocode_result_seq(items.drop_first()) {
                Err(e) => Err(e),
                Ok(rest) => Ok(seq![r0] + rest),
            },
        }
    }
}

/// Decodes the ordered result groups of a reverse geocode.
pub open spec fn dec_reverse_result_seq(items: Seq<JsonModel>) -> Result<
    Seq<ReverseGeocodeResultV>,
    DecodeErrorV,
>
    decreases items.len(),
{
    if items.len() == 0 {
        Ok(Seq::empty())
    } else {
        match dec_reverse_result(items[0]) {
            Err(e) => Err(e),
            Ok(r0) => match dec_reverse_result_seq(items.drop_first()) {
                Err(e) => Err(e),
                Ok(rest) => Ok(seq![r0] + rest),
            },
        }
    }
}

fn decode_geocode_result_array(v: &serde_json::Value) -> (r: Result<
    Vec<GeocodeResult>,
    DecodeError,
>)
    ensures
        (match jval(*v) {
            JsonModel::Arr(items) => match dec_geocode_result_seq(items) {
                Ok(rs) => r matches Ok(out) && out.deep_view() == rs,
                Err(e) => r matches Err(d) && d@ == e,
            },
            _ => r matches Err(d) && d@ == DecodeErrorV::Field("results"@),
        }),
{
    let n = match jv_arr_len(v) {
        Some(n) => n,
        None => return Err(DecodeError::Field("results".to_owned())),
    };
    let ghost items = jval(*v)->Arr_0;
    let mut out: Vec<GeocodeResult> = Vec::new();
    let mut i: usize = 0;
    proof {
        assert(items.skip(0) =~= items);
        assert(out.deep_view() =~= Seq::<GeocodeResultV>::empty());
        if let Ok(rest) = dec_geocode_result_seq(items) {
            assert(out.deep_view() + rest =~= rest);
        }
    }
    while i < n
        invariant
            jval(*v) matches JsonModel::Arr(its) && its == items,
            n as nat == items.len(),
            i <= n,
            dec_geocode_result_seq(items) == (match dec_geocode_result_seq(
                items.skip(i as int),
            ) {
                Ok(rest) => Ok::<Seq<GeocodeResultV>, DecodeErrorV>(out.deep_view() + rest),
                Err(e) => Err::<Seq<GeocodeResultV>, DecodeErrorV>(e),
            }),
        decreases n - i,
    {
        let w = match jv_arr_get(v, i) {
            Some(w) => w,
            None => vstd::pervasive::unreached(),
        };
        proof {
            assert(items.skip(i as int)[0] == items[i as int]);
            assert(items.skip(i as int).drop_first() =~= items.skip(i as int + 1));
        }
        match decode_geocode_result(w) {
            Ok(g) => {
                let ghost prior = out.deep_view();
                let ghost gv = g@;
                out.push(g);
                proof {
                    assert(out.deep_view() =~= prior.push(gv));
                    if let Ok(rest) = dec_geocode_result_seq(items.skip(i as int + 1)) {
                        assert(prior + (seq![gv] + rest) =~= prior.push(gv) + rest);
                    }
                }
            },
            Err(e) => {
                return Err(e);
            },
        }
        i = i + 1;
    }
    proof {
        assert(items.skip(n as int) =~= Seq::<JsonModel>::empty());
        assert(out.deep_view() + Seq::<GeocodeResultV>::empty() =~= out.deep_view());
    }
    Ok(out)
}

fn decode_reverse_result_array(v: &serde_json::Value) -> (r: Result<
    Vec<ReverseGeocodeResult>,
    DecodeError,
>)
    ensures
        (match jval(*v) {
            JsonModel::Arr(items) => match dec_reverse_result_seq(items) {
                Ok(rs) => r matches Ok(out) && out.deep_view() == rs,
                Err(e) => r matches Err(d) && d@ == e,
            },
            _ => r matches Err(d) && d@ == DecodeErrorV::Field("results"@),
        }),
{
    let n = match jv_arr_len(v) {
        Some(n) => n,
        None => return Err(DecodeError::Field("results".to_owned())),
    };
    let ghost items = jval(*v)->Arr_0;
    let mut out: Vec<ReverseGeocodeResult> = Vec::new();
    let mut i: usize = 0;
    proof {
        assert(items.skip(0) =~= items);
        assert(out.deep_view() =~= Seq::<ReverseGeocodeResultV>::empty());
        if let Ok(rest) = dec_reverse_result_seq(items) {
            assert(out.deep_view() + rest =~= rest);
        }
    }
    while i < n
        invariant
            jval(*v) matches JsonModel::Arr(its) && its == items,
            n as nat == items.len(),
            i <= n,
            dec_reverse_result_seq(items) == (match dec_reverse_result_seq(
                items.skip(i as int),
            ) {
                Ok(rest) => Ok::<Seq<ReverseGeocodeResultV>, DecodeErrorV>(out.deep_view() + rest),
                Err(e) => Err::<Seq<ReverseGeocodeResultV>, DecodeErrorV>(e),
            }),
        decreases n - i,
    {
        let w = match jv_arr_get(v, i) {
            Some(w) => w,
            None => vstd::pervasive::unreached(),
        };
        proof {
            assert(items.skip(i as int)[0] == items[i as int]);
            assert(items.skip(i as int).drop_first() =~= items.skip(i as int + 1));
        }
        match decode_reverse_result(w) {
            Ok(g) => {
                let ghost prior = out.deep_view();
                let ghost gv = g@;
                out.push(g);
                proof {
                    assert(out.deep_view() =~= prior.push(gv));
                    if let Ok(rest) = dec_reverse_result_seq(items.skip(i as int + 1)) {
                        assert(prior + (seq![gv] + rest) =~= prior.push(gv) + rest);
                    }
                }
            },
            Err(e) => {
                return Err(e);
            },
        }
        i = i + 1;
    }
    proof {
        assert(items.skip(n as int) =~= Seq::<JsonModel>::empty());
        assert(out.deep_view() + Seq::<ReverseGeocodeResultV>::empty() =~= out.deep_view());
    }
    Ok(out)
}

// ---------------------------------------------------------------------------
// Decoding whole responses
// ---------------------------------------------------------------------------

/// Decodes a forward-geocode response: envelope, options, results.
pub open spec fn dec_geocode_response(j: JsonModel) -> Result<GeocodeResponseV, DecodeErrorV> {
    match jget(j, "info"@) {
        None => Err(DecodeErrorV::Field("info"@)),
        Some(ji) => match dec_info(ji) {
            Err(e) => Err(e),
            Ok(info) => match jget(j, "options"@) {
                None => Err(DecodeErrorV::Field("options"@)),
                Some(jo) => match dec_options(jo) {
                    Err(e) => Err(e),
                    Ok(options) => match jget(j, "results"@) {
                        Some(JsonModel::Arr(items)) => match dec_geocode_result_seq(items) {
                            Err(e) => Err(e),
                            Ok(results) => Ok(GeocodeResponseV { info, options, results }),
                        },
                        _ => Err(DecodeErrorV::Field("results"@)),
                    },
                },
            },
        },
    }
}

/// Decodes a reverse-geocode response: envelope, options, results.
pub open spec fn dec_reverse_response(j: JsonModel) -> Result<
    ReverseGeocodeResponseV,
    DecodeErrorV,
> {
    match jget(j, "info"@) {
        None => Err(DecodeErrorV::Field("info"@)),
        Some(ji) => match dec_info(ji) {
            Err(e) => Err(e),
            Ok(info) => match jget(j, "options"@) {
                None => Err(DecodeErrorV::Field("options"@)),
                Some(jo) => match dec_options(jo) {
                    Err(e) => Err(e),
                    Ok(options) => match jget(j, "results"@) {
                        Some(JsonModel::Arr(items)) => match dec_reverse_result_seq(items) {
                            Err(e) => Err(e),
                            Ok(results) => Ok(ReverseGeocodeResponseV { info, options, results }),
                        },
                        _ => Err(DecodeErrorV::Field("results"@)),
                    },
                },
            },
        },
    }
}

/// What decoding a forward-geocode body yields: a syntax error where the
/// text is not JSON, otherwise the structural decode of its tree.
pub open spec fn dec_geocode_body(s: Seq<char>) -> Result<GeocodeResponseV, DecodeErrorV> {
    match json_of(s) {
        None => Err(DecodeErrorV::Syntax),
        Some(j) => dec_geocode_response(j),
    }
}

/// What decoding a reverse-geocode body yields.
pub open spec fn dec_reverse_body(s: Seq<char>) -> Result<ReverseGeocodeResponseV, DecodeErrorV> {
    match json_of(s) {
        None => Err(DecodeErrorV::Syntax),
        Some(j) => dec_reverse_response(j),
    }
}

fn decode_geocode_value(v: &serde_json::Value) -> (r: Result<GeocodeResponse, DecodeError>)
    ensures
        (match dec_geocode_response(jval(*v)) {
            Ok(rv) => r matches Ok(resp) && resp@ == rv,
            Err(e) => r matches Err(d) && d@ == e,
        }),
{
    let info = match jv_get(v, "info") {
        Some(w) => match decode_info(w) {
            Ok(i) => i,
            Err(e) => return Err(e),
        },
        None => return Err(DecodeError::Field("info".to_owned())),
    };
    let options = match jv_get(v, "options") {
        Some(w) => match decode_options(w) {
            Ok(o) => o,
            Err(e) => return Err(e),
        },
        None => return Err(DecodeError::Field("options".to_owned())),
    };
    let results = match jv_get(v, "results") {
        Some(w) => match decode_geocode_result_array(w) {
            Ok(rs) => rs,
            Err(e) => return Err(e),
        },
        None => return Err(DecodeError::Field("results".to_owned())),
    };
    Ok(GeocodeResponse { info, options, results })
}

fn decode_reverse_value(v: &serde_json::Value) -> (r: Result<ReverseGeocodeResponse, DecodeError>)
    ensures
        (match dec_reverse_response(jval(*v)) {
            Ok(rv) => r matches Ok(resp) && resp@ == rv,
            Err(e) => r matches Err(d) && d@ == e,
        }),
{
    let info = match jv_get(v, "info") {
        Some(w) => match decode_info(w) {
            Ok(i) => i,
            Err(e) => return Err(e),
        },
        None => return Err(DecodeError::Field("info".to_owned())),
    };
    let options = match jv_get(v, "options") {
        Some(w) => match decode_options(w) {
            Ok(o) => o,
            Err(e) => return Err(e),
        },
        None => return Err(DecodeError::Field("options".to_owned())),
    };
    let results = match jv_get(v, "results") {
        Some(w) => match decode_reverse_result_array(w) {
            Ok(rs) => rs,
            Err(e) => return Err(e),
        },
        None => return Err(DecodeError::Field("results".to_owned())),
    };
    Ok(ReverseGeocodeResponse { info, options, results })
}

/// Decodes a forward-geocode response body, exactly as `dec_geocode_body`
/// describes.
pub fn decode_geocode_body(body: &str) -> (r: Result<GeocodeResponse, DecodeError>)
    ensures
        (match dec_geocode_body(body@) {
            Ok(rv) => r matches Ok(resp) && resp@ == rv,
            Err(e) => r matches Err(d) && d@ == e,
        }),
{
    match parse_json(body) {
        None => Err(DecodeError::Syntax),
        Some(v) => decode_geocode_value(&v),
    }
}

/// Decodes a reverse-geocode response body, exactly as `dec_reverse_body`
/// describes.
pub fn decode_reverse_body(body: &str) -> (r: Result<ReverseGeocodeResponse, DecodeError>)
    ensures
        (match dec_reverse_body(body@) {
            Ok(rv) => r matches Ok(resp) && resp@ == rv,
            Err(e) => r matches Err(d) && d@ == e,
        }),
{
    match parse_json(body) {
        None => Err(DecodeError::Syntax),
        Some(v) => decode_reverse_value(&v),
    }
}

// ---------------------------------------------------------------------------
// Laws of the decoder
// ---------------------------------------------------------------------------

/// An empty `results` array decodes successfully to the empty ordered
/// sequence, never to an error.
pub proof fn lemma_empty_results_decode_to_empty_sequence()
    ensures
        dec_geocode_result_seq(Seq::empty()) == Ok::<Seq<GeocodeResultV>, DecodeErrorV>(
            Seq::<GeocodeResultV>::empty(),
        ),
        dec_reverse_result_seq(Seq::empty()) == Ok::<Seq<ReverseGeocodeResultV>, DecodeErrorV>(
            Seq::<ReverseGeocodeResultV>::empty(),
        ),
{
}

/// A decoded `results` sequence preserves the wire order: it has one
/// entry per array element, and the entry at each index is exactly the
/// decode of the element at that index.
pub proof fn lemma_geocode_results_preserve_order(items: Seq<JsonModel>)
    requires
        dec_geocode_result_seq(items) is Ok,
    ensures
        dec_geocode_result_seq(items)->Ok_0.len() == items.len(),
        forall|i: int|
            0 <= i < items.len() ==> dec_geocode_result(#[trigger] items[i]) is Ok
                && dec_geocode_result_seq(items)->Ok_0[i] == dec_geocode_result(items[i])->Ok_0,
    decreases items.len(),
{
    if items.len() > 0 {
        lemma_geocode_results_preserve_order(items.drop_first());
        let rest = dec_geocode_result_seq(items.drop_first())->Ok_0;
        let r0 = dec_geocode_result(items[0])->Ok_0;
        assert(dec_geocode_result_seq(items)->Ok_0 =~= seq![r0] + rest);
        assert forall|i: int| 0 <= i < items.len() implies dec_geocode_result(
            #[trigger] items[i],
        ) is Ok && dec_geocode_result_seq(items)->Ok_0[i] == dec_geocode_result(
            items[i],
        )->Ok_0 by {
            if i > 0 {
                assert(items.drop_first()[i - 1] == items[i]);
            }
        }
    }
}

/// The same, for the result groups of a reverse geocode.
pub proof fn lemma_reverse_results_preserve_order(items: Seq<JsonModel>)
    requires
        dec_reverse_result_seq(items) is Ok,
    ensures
        dec_reverse_result_seq(items)->Ok_0.len() == items.len(),
        forall|i: int|
            0 <= i < items.len() ==> dec_reverse_result(#[trigger] items[i]) is Ok
                && dec_reverse_result_seq(items)->Ok_0[i] == dec_reverse_result(items[i])->Ok_0,
    decreases items.len(),
{
    if items.len() > 0 {
        lemma_reverse_results_preserve_order(items.drop_first());
        let rest = dec_reverse_result_seq(items.drop_first())->Ok_0;
        let r0 = dec_reverse_result(items[0])->Ok_0;
        assert(dec_reverse_result_seq(items)->Ok_0 =~= seq![r0] + rest);
        assert forall|i: int| 0 <= i < items.len() implies dec_reverse_result(
            #[trigger] items[i],
        ) is Ok && dec_reverse_result_seq(items)->Ok_0[i] == dec_reverse_result(
            items[i],
        )->Ok_0 by {
            if i > 0 {
                assert(items.drop_first()[i - 1] == items[i]);
            }
        }
    }
}

/// A candidate match decodes only when every required field is present:
/// a missing field is always a decode error, never a silently defaulted
/// value.
pub proof fn lemma_location_decodes_only_with_all_fields(j: JsonModel)
    requires
        dec_location(j) is Ok,
    ensures
        jget(j, "street"@) is Some,
        jget(j, "adminArea6"@) is Some,
        jget(j, "adminArea5"@) is Some,
        jget(j, "adminArea4"@) is Some,
        jget(j, "adminArea3"@) is Some,
        jget(j, "adminArea1"@) is Some,
        jget(j, "type"@) is Some,
        jget(j, "dragPoint"@) is Some,
        jget(j, "displayLatLng"@) is Some,
        jget(j, "sideOfStreet"@) is Some,
        jget(j, "geocodeQualityCode"@) is Some,
        jget(j, "geocodeQuality"@) is Some,
        jget(j, "linkId"@) is Some,
{
}

// ---------------------------------------------------------------------------
// The geocoding client
// ---------------------------------------------------------------------------

/// The HTTP-sending capability the client depends on: deliver a GET
/// request to a URL with the given query parameters and hand back the
/// response body, or a description of the transport failure. Any
/// non-success outcome (unreachable endpoint, non-2xx status) is a
/// transport failure.
pub trait Transport {
    fn send(&self, url: &str, query: &Vec<(String, String)>) -> Result<String, String>;
}

/// The URL of the forward-geocoding endpoint.
pub fn geocode_url() -> (u: &'static str)
    ensures
        u@ == "http://www.mapquestapi.com/geocoding/v1/address"@,
{
    "http://www.mapquestapi.com/geocoding/v1/address"
}

/// The URL of the reverse-geocoding endpoint.
pub fn reverse_geocode_url() -> (u: &'static str)
    ensures
        u@ == "http://www.mapquestapi.com/geocoding/v1/reverse"@,
{
    "http://www.mapquestapi.com/geocoding/v1/reverse"
}

/// The query parameters of a forward geocode: the API key, and the
/// address passed through verbatim.
pub fn geocode_query(api_key: &str, address: &str) -> (q: Vec<(String, String)>)
    ensures
        q@.len() == 2,
        q@[0].0@ == "key"@,
        q@[0].1@ == api_key@,
        q@[1].0@ == "location"@,
        q@[1].1@ == address@,
{
    let mut q: Vec<(String, String)> = Vec::new();
    q.push(("key".to_owned(), api_key.to_owned()));
    q.push(("location".to_owned(), address.to_owned()));
    q
}

/// The query parameters of a reverse geocode: the API key, and the
/// coordinate texts joined by a comma with no surrounding whitespace.
pub fn reverse_geocode_query(api_key: &str, lat: &str, lng: &str) -> (q: Vec<(String, String)>)
    ensures
        q@.len() == 2,
        q@[0].0@ == "key"@,
        q@[0].1@ == api_key@,
        q@[1].0@ == "location"@,
        q@[1].1@ == lat@ + ","@ + lng@,
{
    let location = lat.to_owned().concat(",").concat(lng);
    let mut q: Vec<(String, String)> = Vec::new();
    q.push(("key".to_owned(), api_key.to_owned()));
    q.push(("location".to_owned(), location));
    q
}

/// The geocoding client: an API key and a transport capability. It holds
/// no other state, so one instance may serve any number of calls.
pub struct Client<T> {
    pub api_key: String,
    pub transport: T,
}

impl<T: Transport> Client<T> {
    /// Creates a client. Stores the key as given: no validation, no
    /// network contact, no error path.
    pub fn new(api_key: String, transport: T) -> (c: Client<T>)
        ensures
            c.api_key@ == api_key@,
            c.transport == transport,
    {
        Client { api_key, transport }
    }

    /// Forward geocoding: finds candidate coordinates for an address.
    ///
    /// Sends one GET request to the address endpoint with the key and the
    /// verbatim address, and decodes the body that comes back: whatever
    /// the transport returned, the outcome is exactly the decode of some
    /// body, or the transport's own failure.
    pub fn geocode(&self, address: &str) -> (r: Result<GeocodeResponse, Error>)
        ensures
            r matches Ok(resp) ==> exists|body: Seq<char>|
                #[trigger] dec_geocode_body(body) == Ok::<GeocodeResponseV, DecodeErrorV>(resp@),
            r matches Err(Error::Decode(d)) ==> exists|body: Seq<char>|
                #[trigger] dec_geocode_body(body) == Err::<GeocodeResponseV, DecodeErrorV>(d@),
    {
        let query = geocode_query(self.api_key.as_str(), address);
        match self.transport.send(geocode_url(), &query) {
            Err(m) => Err(Error::Transport(m)),
            Ok(body) => match decode_geocode_body(body.as_str()) {
                Ok(resp) => {
                    proof {
                        assert(dec_geocode_body(body@) == Ok::<GeocodeResponseV, DecodeErrorV>(
                            resp@,
                        ));
                    }
                    Ok(resp)
                },
                Err(d) => {
                    proof {
                        assert(dec_geocode_body(body@) == Err::<GeocodeResponseV, DecodeErrorV>(
                            d@,
                        ));
                    }
                    Err(Error::Decode(d))
                },
            },
        }
    }

    /// Reverse geocoding: finds the nearest known addresses for a
    /// coordinate pair, given as decimal texts.
    ///
    /// Sends one GET request to the reverse endpoint with the key and
    /// `location` equal to the two texts joined by a comma, and decodes
    /// the body that comes back.
    pub fn reverse_geocode(&self, lat: &str, lng: &str) -> (r: Result<
        ReverseGeocodeResponse,
        Error,
    >)
        ensures
            r matches Ok(resp) ==> exists|body: Seq<char>|
                #[trigger] dec_reverse_body(body) == Ok::<ReverseGeocodeResponseV, DecodeErrorV>(
                    resp@,
                ),
            r matches Err(Error::Decode(d)) ==> exists|body: Seq<char>|
                #[trigger] dec_reverse_body(body) == Err::<ReverseGeocodeResponseV, DecodeErrorV>(
                    d@,
                ),
    {
        let query = reverse_geocode_query(self.api_key.as_str(), lat, lng);
        match self.transport.send(reverse_geocode_url(), &query) {
            Err(m) => Err(Error::Transport(m)),
            Ok(body) => match decode_reverse_body(body.as_str()) {
                Ok(resp) => {
                    proof {
                        assert(dec_reverse_body(body@) == Ok::<
                            ReverseGeocodeResponseV,
                            DecodeErrorV,
                        >(resp@));
                    }
                    Ok(resp)
                },
                Err(d) => {
                    proof {
                        assert(dec_reverse_body(body@) == Err::<
                            ReverseGeocodeResponseV,
                            DecodeErrorV,
                        >(d@));
                    }
                    Err(Error::Decode(d))
                },
            },
        }
    }
}

} // verus!
