//! Radar site metadata.
use vstd::prelude::*;
use vstd::utf8::{decode_utf8, valid_utf8};

verus! {

/// The text that lossy UTF-8 decoding gives for bytes: valid sequences
/// decoded, each maximal invalid part replaced by U+FFFD.
pub uninterp spec fn utf8_lossy_text(bytes: Seq<u8>) -> Seq<char>;

/// Decodes bytes as UTF-8, replacing invalid sequences, with
/// `String::from_utf8_lossy`. The claims: the text depends on the bytes
/// alone (it is named, not described), and valid UTF-8 is decoded as it
/// stands, as the documentation promises. Where the replacement characters
/// fall in invalid input is left to the name.
#[verifier::external_body]
fn utf8_lossy(bytes: &[u8]) -> (r: String)
    ensures
        r@ == utf8_lossy_text(bytes@),
        valid_utf8(bytes@) ==> r@ == decode_utf8(bytes@),
{
    String::from_utf8_lossy(bytes).into_owned()
}

/// A radar site's metadata: identifier, location and heights.
///
/// Latitude and longitude are kept as the IEEE-754 bit patterns of `f32`
/// degrees.
#[derive(Debug, Clone, PartialEq, Eq)]
pub struct Site {
    identifier: [u8; 4],
    latitude_bits: u32,
    longitude_bits: u32,
    height_meters: i16,
    tower_height_meters: u16,
}

impl Site {
    /// The four identifier bytes.
    pub closed spec fn spec_identifier(self) -> Seq<u8> {
        self.identifier@
    }

    /// Bit pattern of the latitude.
    pub closed spec fn spec_latitude_bits(self) -> u32 {
        self.latitude_bits
    }

    /// Bit pattern of the longitude.
    pub closed spec fn spec_longitude_bits(self) -> u32 {
        self.longitude_bits
    }

    /// Height above sea level in metres.
    pub closed spec fn spec_height_meters(self) -> i16 {
        self.height_meters
    }

    /// Height of the tower above ground in metres.
    pub closed spec fn spec_tower_height_meters(self) -> u16 {
        self.tower_height_meters
    }

    /// Creates site metadata; latitude and longitude are `f32` bit patterns.
    pub fn new(
        identifier: [u8; 4],
        latitude_bits: u32,
        longitude_bits: u32,
        height_meters: i16,
        tower_height_meters: u16,
    ) -> (r: Self)
        ensures
            r.spec_identifier() == identifier@,
            r.spec_latitude_bits() == latitude_bits,
            r.spec_longitude_bits() == longitude_bits,
            r.spec_height_meters() == height_meters,
            r.spec_tower_height_meters() == tower_height_meters,
    {
        Site { identifier, latitude_bits, longitude_bits, height_meters, tower_height_meters }
    }

    /// The four-letter ICAO identifier of the site.
    pub fn identifier(&self) -> (r: &[u8; 4])
        ensures
            r@ == self.spec_identifier(),
    {
        &self.identifier
    }

    /// The identifier as a string (invalid UTF-8 is replaced).
    pub fn identifier_string(&self) -> (r: String)
        ensures
            r@ == utf8_lossy_text(self.spec_identifier()),
            valid_utf8(self.spec_identifier()) ==> r@ == decode_utf8(self.spec_identifier()),
    {
        utf8_lossy(self.identifier.as_slice())
    }

    /// Bit pattern of the latitude in degrees.
    pub fn latitude_bits(&self) -> (r: u32)
        ensures
            r == self.spec_latitude_bits(),
    {
        self.latitude_bits
    }

    /// Bit pattern of the longitude in degrees.
    pub fn longitude_bits(&self) -> (r: u32)
        ensures
            r == self.spec_longitude_bits(),
    {
        self.longitude_bits
    }

    /// The height of the site above sea level in metres.
    pub fn height_meters(&self) -> (r: i16)
        ensures
            r == self.spec_height_meters(),
    {
        self.height_meters
    }

    /// The height of the radar tower above ground in metres.
    pub fn tower_height_meters(&self) -> (r: u16)
        ensures
            r == self.spec_tower_height_meters(),
    {
        self.tower_height_meters
    }
}

} // verus!
