//! Registry of the operational NEXRAD WSR-88D radar sites of the United
//! States and its territories.
use vstd::prelude::*;
use vstd::string::{StrSliceExecFns, StringExecFns, StringSliceAdditionalSpecFns};
use crate::model::meta::site::Site;

verus! {

/// Metadata of a NEXRAD radar site in the registry.
///
/// Latitude and longitude are the IEEE-754 bit patterns of `f32` degrees.
#[derive(Debug, Clone, Copy, PartialEq, Eq)]
pub struct SiteEntry {
    /// Four-letter ICAO identifier (e.g., "KTLX").
    pub id: &'static str,
    /// City or location name (e.g., "Oklahoma City").
    pub city: &'static str,
    /// Two-letter state/territory abbreviation (e.g., "OK").
    pub state: &'static str,
    /// Bit pattern of the `f32` latitude in degrees.
    pub latitude_bits: u32,
    /// Bit pattern of the `f32` longitude in degrees.
    pub longitude_bits: u32,
    /// Elevation above sea level in metres.
    pub elevation_meters: i16,
}

/// The identifier bytes of a site: the first four bytes of its identifier,
/// padded with zeros.
pub open spec fn identifier_bytes(id: Seq<u8>) -> Seq<u8> {
    Seq::new(4, |i: int| if i < id.len() { id[i] } else { 0u8 })
}

impl SiteEntry {
    /// The one-line summary of an entry: `id (city, state)`.
    pub open spec fn summary_text(self) -> Seq<char> {
        self.id@ + " ("@ + self.city@ + ", "@ + self.state@ + ")"@
    }

    /// Creates a [`Site`] from this registry entry: the identifier's first
    /// four bytes (zero padded), the location and elevation, and no tower
    /// height.
    pub fn to_site(&self) -> (r: Site)
        ensures
            r.spec_identifier() == identifier_bytes(self.id.spec_bytes()),
            r.spec_latitude_bits() == self.latitude_bits,
            r.spec_longitude_bits() == self.longitude_bits,
            r.spec_height_meters() == self.elevation_meters,
            r.spec_tower_height_meters() == 0,
    {
        let bytes = self.id.as_bytes();
        let mut id = [0u8; 4];
        let mut i: usize = 0;
        while i < 4
            invariant
                i <= 4,
                bytes@ == self.id.spec_bytes(),
                forall|k: int| 0 <= k < i ==> id[k] == identifier_bytes(bytes@)[k],
                forall|k: int| i <= k < 4 ==> id[k] == 0,
            decreases 4 - i,
        {
            if i < bytes.len() {
                id[i] = bytes[i];
            }
            i = i + 1;
        }
        assert(id@ =~= identifier_bytes(bytes@));
        Site::new(id, self.latitude_bits, self.longitude_bits, self.elevation_meters, 0)
    }

    /// The one-line summary of the entry, as `summary_text` describes it.
    pub fn to_summary_string(&self) -> (r: String)
        ensures
            r@ == self.summary_text(),
    {
        let mut s = String::from_str(self.id);
        s.append(" (");
        s.append(self.city);
        s.append(", ");
        s.append(self.state);
        s.append(")");
        s
    }
}

/// The uppercase form of a string under the Unicode case mapping, as
/// `str::to_uppercase` computes it.
pub uninterp spec fn unicode_uppercase(s: Seq<char>) -> Seq<char>;

/// Whether every character is ASCII.
pub open spec fn is_ascii_text(s: Seq<char>) -> bool {
    forall|i: int| 0 <= i < s.len() ==> (#[trigger] s[i] as u32) < 128
}

/// The uppercase of an ASCII character: `a` to `z` become `A` to `Z`, every
/// other character stays.
pub open spec fn ascii_uppercase_char(c: char) -> char {
    if 'a' <= c && c <= 'z' {
        ((c as u32) - 32) as char
    } else {
        c
    }
}

/// The uppercase of ASCII text, character by character.
pub open spec fn ascii_uppercase_text(s: Seq<char>) -> Seq<char> {
    s.map_values(|c: char| ascii_uppercase_char(c))
}

/// Maps a string to uppercase with `str::to_uppercase`. Claimed: the result
/// is the Unicode uppercase of the argument, a function of its characters
/// alone; for ASCII text, the Unicode mapping takes `a` to `z` to `A` to `Z`
/// and keeps every other character. The mapping of other characters (some
/// of which become several) is not stated.
#[verifier::external_body]
fn to_uppercase(s: &str) -> (r: String)
    ensures
        r@ == unicode_uppercase(s@),
        is_ascii_text(s@) ==> r@ == ascii_uppercase_text(s@),
{
    s.to_uppercase()
}

/// Whether two strings hold the same characters.
fn same_text(a: &str, b: &str) -> (r: bool)
    ensures
        r == (a@ == b@),
{
    let n = a.unicode_len();
    if n != b.unicode_len() {
        return false;
    }
    let mut i: usize = 0;
    while i < n
        invariant
            n == a@.len(),
            n == b@.len(),
            i <= n,
            forall|k: int| 0 <= k < i ==> a@[k] == b@[k],
        decreases n - i,
    {
        if a.get_char(i) != b.get_char(i) {
            return false;
        }
        i = i + 1;
    }
    assert(a@ =~= b@);
    true
}

/// The entry of the first site in `sites` whose identifier is `id`, if any.
pub open spec fn first_with_id(sites: Seq<SiteEntry>, id: Seq<char>) -> Option<SiteEntry>
    decreases sites.len(),
{
    if sites.len() == 0 {
        None
    } else if sites[0].id@ == id {
        Some(sites[0])
    } else {
        first_with_id(sites.drop_first(), id)
    }
}

/// Finds the first site whose identifier is exactly `id`.
pub fn find_site(sites: &[SiteEntry], id: &str) -> (r: Option<SiteEntry>)
    ensures
        r == first_with_id(sites@, id@),
{
    let mut i: usize = 0;
    assert(sites@.skip(0) =~= sites@);
    while i < sites.len()
        invariant
            i <= sites@.len(),
            first_with_id(sites@, id@) == first_with_id(sites@.skip(i as int), id@),
        decreases sites@.len() - i,
    {
        let e = sites[i];
        if same_text(e.id, id) {
            return Some(e);
        }
        assert(sites@.skip(i as int).drop_first() =~= sites@.skip(i + 1));
        i = i + 1;
    }
    None
}

/// Looks up a NEXRAD radar site by its ICAO identifier, ignoring case: the
/// identifier is mapped to uppercase and matched exactly.
pub fn site_by_id(id: &str) -> (r: Option<SiteEntry>)
    ensures
        r == first_with_id(site_table(), unicode_uppercase(id@)),
        is_ascii_text(id@) ==> r == first_with_id(site_table(), ascii_uppercase_text(id@)),
{
    let upper = to_uppercase(id);
    let table = sites();
    find_site(table.as_slice(), upper.as_str())
}

/// Site lookup ignores case: two ASCII identifiers that differ only in the
/// case of their letters find the same site.
pub proof fn lemma_site_lookup_ignores_case(a: Seq<char>, b: Seq<char>)
    requires
        is_ascii_text(a),
        is_ascii_text(b),
        a.len() == b.len(),
        forall|i: int| 0 <= i < a.len() ==> ascii_uppercase_char(#[trigger] a[i]) == ascii_uppercase_char(b[i]),
    ensures
        first_with_id(site_table(), ascii_uppercase_text(a)) == first_with_id(
            site_table(),
            ascii_uppercase_text(b),
        ),
{
    assert(ascii_uppercase_text(a) =~= ascii_uppercase_text(b));
}

/// All NEXRAD radar sites of the registry.
///
/// Coordinates and elevations are approximate, from NOAA Radar Operations
/// Center and NWS documentation.
pub fn sites() -> (r: Vec<SiteEntry>)
    ensures
        r@ == site_table(),
{
    vec![
        // Alabama
        // 33.1722, -86.7698
        SiteEntry {
            id: "KBMX",
            city: "Birmingham",
            state: "AL",
            latitude_bits: 0x4204b055,
            longitude_bits: 0xc2ad8a23,
            elevation_meters: 197,
        },
        // 31.4606, -85.4592
        SiteEntry {
            id: "KEOX",
            city: "Fort Rucker",
            state: "AL",
            latitude_bits: 0x41fbaf4f,
            longitude_bits: 0xc2aaeb1c,
            elevation_meters: 132,
        },
        // 34.9306, -86.0833
        SiteEntry {
            id: "KHTX",
            city: "Huntsville",
            state: "AL",
            latitude_bits: 0x420bb8ef,
            longitude_bits: 0xc2ac2aa6,
            elevation_meters: 536,
        },
        // 30.6794, -88.2397
        SiteEntry {
            id: "KMOB",
            city: "Mobile",
            state: "AL",
            latitude_bits: 0x41f56f69,
            longitude_bits: 0xc2b07aba,
            elevation_meters: 63,
        },
        // 32.5367, -85.7897
        SiteEntry {
            id: "KMXX",
            city: "Maxwell AFB",
            state: "AL",
            latitude_bits: 0x42022595,
            longitude_bits: 0xc2ab9454,
            elevation_meters: 122,
        },
        // Alaska
        // 60.7919, -161.8764
        SiteEntry {
            id: "KABC",
            city: "Bethel",
            state: "AK",
            latitude_bits: 0x42732ae8,
            longitude_bits: 0xc321e05c,
            elevation_meters: 48,
        },
        // 36.9839, -77.0072
        SiteEntry {
            id: "KAKQ",
            city: "Wakefield",
            state: "VA",
            latitude_bits: 0x4213ef83,
            longitude_bits: 0xc29a03b0,
            elevation_meters: 34,
        },
        // 44.9072, -84.7197
        SiteEntry {
            id: "KAPX",
            city: "Gaylord",
            state: "MI",
            latitude_bits: 0x4233a0f9,
            longitude_bits: 0xc2a9707d,
            elevation_meters: 446,
        },
        // 56.8525, -135.5294
        SiteEntry {
            id: "KACG",
            city: "Sitka",
            state: "AK",
            latitude_bits: 0x426368f6,
            longitude_bits: 0xc3078787,
            elevation_meters: 63,
        },
        // 59.4614, -146.3031
        SiteEntry {
            id: "KAIH",
            city: "Middleton Island",
            state: "AK",
            latitude_bits: 0x426dd879,
            longitude_bits: 0xc3124d98,
            elevation_meters: 20,
        },
        // 58.6794, -156.6297
        SiteEntry {
            id: "KAKC",
            city: "King Salmon",
            state: "AK",
            latitude_bits: 0x426ab7b5,
            longitude_bits: 0xc31ca134,
            elevation_meters: 19,
        },
        // 60.7919, -161.8764
        SiteEntry {
            id: "PABC",
            city: "Bethel",
            state: "AK",
            latitude_bits: 0x42732ae8,
            longitude_bits: 0xc321e05c,
            elevation_meters: 48,
        },
        // 56.8525, -135.5294
        SiteEntry {
            id: "PACG",
            city: "Sitka",
            state: "AK",
            latitude_bits: 0x426368f6,
            longitude_bits: 0xc3078787,
            elevation_meters: 63,
        },
        // 64.5114, -165.295
        SiteEntry {
            id: "PAEC",
            city: "Nome",
            state: "AK",
            latitude_bits: 0x428105d6,
            longitude_bits: 0xc3254b85,
            elevation_meters: 16,
        },
        // 60.7258, -151.3514
        SiteEntry {
            id: "PAHG",
            city: "Anchorage",
            state: "AK",
            latitude_bits: 0x4272e738,
            longitude_bits: 0xc31759f5,
            elevation_meters: 74,
        },
        // 59.4614, -146.3031
        SiteEntry {
            id: "PAIH",
            city: "Middleton Island",
            state: "AK",
            latitude_bits: 0x426dd879,
            longitude_bits: 0xc3124d98,
            elevation_meters: 20,
        },
        // 58.6794, -156.6297
        SiteEntry {
            id: "PAKC",
            city: "King Salmon",
            state: "AK",
            latitude_bits: 0x426ab7b5,
            longitude_bits: 0xc31ca134,
            elevation_meters: 19,
        },
        // Arizona
        // 31.8939, -110.6303
        SiteEntry {
            id: "KEMX",
            city: "Tucson",
            state: "AZ",
            latitude_bits: 0x41ff26b5,
            longitude_bits: 0xc2dd42b7,
            elevation_meters: 1586,
        },
        // 34.5744, -111.1983
        SiteEntry {
            id: "KFSX",
            city: "Flagstaff",
            state: "AZ",
            latitude_bits: 0x420a4c30,
            longitude_bits: 0xc2de6588,
            elevation_meters: 2261,
        },
        // 33.2892, -111.67
        SiteEntry {
            id: "KIWA",
            city: "Phoenix",
            state: "AZ",
            latitude_bits: 0x42052824,
            longitude_bits: 0xc2df570a,
            elevation_meters: 413,
        },
        // 32.4953, -114.6567
        SiteEntry {
            id: "KYUX",
            city: "Yuma",
            state: "AZ",
            latitude_bits: 0x4201fb30,
            longitude_bits: 0xc2e5503b,
            elevation_meters: 53,
        },
        // Arkansas
        // 34.8364, -92.2622
        SiteEntry {
            id: "KLZK",
            city: "Little Rock",
            state: "AR",
            latitude_bits: 0x420b5879,
            longitude_bits: 0xc2b8863f,
            elevation_meters: 173,
        },
        // 35.2906, -94.3619
        SiteEntry {
            id: "KSRX",
            city: "Fort Smith",
            state: "AR",
            latitude_bits: 0x420d2993,
            longitude_bits: 0xc2bcb94b,
            elevation_meters: 195,
        },
        // California
        // 39.4961, -121.6317
        SiteEntry {
            id: "KBBX",
            city: "Beale AFB",
            state: "CA",
            latitude_bits: 0x421dfc02,
            longitude_bits: 0xc2f3436e,
            elevation_meters: 53,
        },
        // 35.0978, -117.5608
        SiteEntry {
            id: "KEYX",
            city: "Edwards AFB",
            state: "CA",
            latitude_bits: 0x420c6426,
            longitude_bits: 0xc2eb1f21,
            elevation_meters: 840,
        },
        // 36.3142, -119.6322
        SiteEntry {
            id: "KHNX",
            city: "Hanford",
            state: "CA",
            latitude_bits: 0x421141be,
            longitude_bits: 0xc2ef43b0,
            elevation_meters: 74,
        },
        // 37.1553, -121.8983
        SiteEntry {
            id: "KMUX",
            city: "San Francisco",
            state: "CA",
            latitude_bits: 0x42149f07,
            longitude_bits: 0xc2f3cbee,
            elevation_meters: 1057,
        },
        // 32.9189, -117.0419
        SiteEntry {
            id: "KNKX",
            city: "San Diego",
            state: "CA",
            latitude_bits: 0x4203acf4,
            longitude_bits: 0xc2ea1574,
            elevation_meters: 291,
        },
        // 33.8178, -117.6358
        SiteEntry {
            id: "KSOX",
            city: "Santa Ana Mountains",
            state: "CA",
            latitude_bits: 0x4207456d,
            longitude_bits: 0xc2eb4588,
            elevation_meters: 923,
        },
        // 34.8383, -120.3978
        SiteEntry {
            id: "KVBX",
            city: "Vandenberg AFB",
            state: "CA",
            latitude_bits: 0x420b5a6b,
            longitude_bits: 0xc2f0cbac,
            elevation_meters: 373,
        },
        // 34.4114, -119.1794
        SiteEntry {
            id: "KVTX",
            city: "Los Angeles",
            state: "CA",
            latitude_bits: 0x4209a546,
            longitude_bits: 0xc2ee5bda,
            elevation_meters: 831,
        },
        // 38.5011, -121.6778
        SiteEntry {
            id: "KDAX",
            city: "Sacramento",
            state: "CA",
            latitude_bits: 0x421a0120,
            longitude_bits: 0xc2f35b09,
            elevation_meters: 9,
        },
        // Colorado
        // 39.7867, -104.5458
        SiteEntry {
            id: "KFTG",
            city: "Denver",
            state: "CO",
            latitude_bits: 0x421f2595,
            longitude_bits: 0xc2d11773,
            elevation_meters: 1675,
        },
        // 39.0622, -108.2139
        SiteEntry {
            id: "KGJX",
            city: "Grand Junction",
            state: "CO",
            latitude_bits: 0x421c3fb1,
            longitude_bits: 0xc2d86d84,
            elevation_meters: 3045,
        },
        // 38.4594, -104.1817
        SiteEntry {
            id: "KPUX",
            city: "Pueblo",
            state: "CO",
            latitude_bits: 0x4219d66d,
            longitude_bits: 0xc2d05d08,
            elevation_meters: 1600,
        },
        // Connecticut / New England
        // 40.8656, -72.8639
        SiteEntry {
            id: "KOKX",
            city: "Upton",
            state: "NY",
            latitude_bits: 0x42237660,
            longitude_bits: 0xc291ba51,
            elevation_meters: 26,
        },
        // Florida
        // 25.6111, -80.4128
        SiteEntry {
            id: "KAMX",
            city: "Miami",
            state: "FL",
            latitude_bits: 0x41cce388,
            longitude_bits: 0xc2a0d35b,
            elevation_meters: 4,
        },
        // 30.5644, -85.9214
        SiteEntry {
            id: "KEVX",
            city: "Eglin AFB",
            state: "FL",
            latitude_bits: 0x41f483e4,
            longitude_bits: 0xc2abd7c2,
            elevation_meters: 43,
        },
        // 30.4847, -81.7019
        SiteEntry {
            id: "KJAX",
            city: "Jacksonville",
            state: "FL",
            latitude_bits: 0x41f3e0aa,
            longitude_bits: 0xc2a3675f,
            elevation_meters: 10,
        },
        // 28.1133, -80.6542
        SiteEntry {
            id: "KMLB",
            city: "Melbourne",
            state: "FL",
            latitude_bits: 0x41e0e80a,
            longitude_bits: 0xc2a14ef3,
            elevation_meters: 11,
        },
        // 27.7056, -82.4017
        SiteEntry {
            id: "KTBW",
            city: "Tampa Bay",
            state: "FL",
            latitude_bits: 0x41dda512,
            longitude_bits: 0xc2a4cdac,
            elevation_meters: 13,
        },
        // 30.3975, -84.3289
        SiteEntry {
            id: "KTLH",
            city: "Tallahassee",
            state: "FL",
            latitude_bits: 0x41f32e14,
            longitude_bits: 0xc2a8a866,
            elevation_meters: 19,
        },
        // 24.5975, -81.7031
        SiteEntry {
            id: "KBYX",
            city: "Key West",
            state: "FL",
            latitude_bits: 0x41c4c7ae,
            longitude_bits: 0xc2a367fd,
            elevation_meters: 3,
        },
        // Georgia
        // 33.3636, -84.5658
        SiteEntry {
            id: "KFFC",
            city: "Atlanta",
            state: "GA",
            latitude_bits: 0x42057454,
            longitude_bits: 0xc2a921b1,
            elevation_meters: 262,
        },
        // 32.6756, -83.3511
        SiteEntry {
            id: "KJGX",
            city: "Robins AFB",
            state: "GA",
            latitude_bits: 0x4202b3d0,
            longitude_bits: 0xc2a6b3c3,
            elevation_meters: 159,
        },
        // 30.8900, -83.0019
        SiteEntry {
            id: "KVAX",
            city: "Moody AFB",
            state: "GA",
            latitude_bits: 0x41f71eb8,
            longitude_bits: 0xc2a600f9,
            elevation_meters: 54,
        },
        // Hawaii
        // 21.8939, -159.5522
        SiteEntry {
            id: "PHKI",
            city: "South Kauai",
            state: "HI",
            latitude_bits: 0x41af26b5,
            longitude_bits: 0xc31f8d5d,
            elevation_meters: 55,
        },
        // 20.1253, -155.7781
        SiteEntry {
            id: "PHKM",
            city: "Kamuela",
            state: "HI",
            latitude_bits: 0x41a1009d,
            longitude_bits: 0xc31bc732,
            elevation_meters: 1161,
        },
        // 21.1328, -157.1803
        SiteEntry {
            id: "PHMO",
            city: "Molokai",
            state: "HI",
            latitude_bits: 0x41a90ff9,
            longitude_bits: 0xc31d2e28,
            elevation_meters: 416,
        },
        // 19.0950, -155.5689
        SiteEntry {
            id: "PHWA",
            city: "South Shore",
            state: "HI",
            latitude_bits: 0x4198c28f,
            longitude_bits: 0xc31b91a3,
            elevation_meters: 421,
        },
        // Idaho
        // 43.4908, -116.2358
        SiteEntry {
            id: "KCBX",
            city: "Boise",
            state: "ID",
            latitude_bits: 0x422df694,
            longitude_bits: 0xc2e878bb,
            elevation_meters: 933,
        },
        // 43.1058, -112.6861
        SiteEntry {
            id: "KSFX",
            city: "Pocatello",
            state: "ID",
            latitude_bits: 0x422c6c57,
            longitude_bits: 0xc2e15f48,
            elevation_meters: 1364,
        },
        // Illinois
        // 40.1506, -89.3369
        SiteEntry {
            id: "KILX",
            city: "Lincoln",
            state: "IL",
            latitude_bits: 0x42209a37,
            longitude_bits: 0xc2b2ac7e,
            elevation_meters: 177,
        },
        // 41.6044, -88.0847
        SiteEntry {
            id: "KLOT",
            city: "Chicago",
            state: "IL",
            latitude_bits: 0x42266ae8,
            longitude_bits: 0xc2b02b5e,
            elevation_meters: 202,
        },
        // Indiana
        // 39.7075, -86.2803
        SiteEntry {
            id: "KIND",
            city: "Indianapolis",
            state: "IN",
            latitude_bits: 0x421ed47b,
            longitude_bits: 0xc2ac8f83,
            elevation_meters: 241,
        },
        // 41.3586, -85.7000
        SiteEntry {
            id: "KIWX",
            city: "Fort Wayne",
            state: "IN",
            latitude_bits: 0x42256f35,
            longitude_bits: 0xc2ab6666,
            elevation_meters: 293,
        },
        // 38.2603, -87.7247
        SiteEntry {
            id: "KVWX",
            city: "Evansville",
            state: "IN",
            latitude_bits: 0x42190a8c,
            longitude_bits: 0xc2af730c,
            elevation_meters: 155,
        },
        // Iowa
        // 41.7311, -93.7228
        SiteEntry {
            id: "KDMX",
            city: "Des Moines",
            state: "IA",
            latitude_bits: 0x4226eca5,
            longitude_bits: 0xc2bb7213,
            elevation_meters: 299,
        },
        // 41.6117, -90.5808
        SiteEntry {
            id: "KDVN",
            city: "Davenport",
            state: "IA",
            latitude_bits: 0x42267261,
            longitude_bits: 0xc2b5295f,
            elevation_meters: 230,
        },
        // Kansas
        // 37.7608, -99.9689
        SiteEntry {
            id: "KDDC",
            city: "Dodge City",
            state: "KS",
            latitude_bits: 0x42170b0f,
            longitude_bits: 0xc2c7f014,
            elevation_meters: 790,
        },
        // 39.3669, -101.7003
        SiteEntry {
            id: "KGLD",
            city: "Goodland",
            state: "KS",
            latitude_bits: 0x421d77b5,
            longitude_bits: 0xc2cb668e,
            elevation_meters: 1113,
        },
        // 37.6544, -97.4428
        SiteEntry {
            id: "KICT",
            city: "Wichita",
            state: "KS",
            latitude_bits: 0x42169e1b,
            longitude_bits: 0xc2c2e2b7,
            elevation_meters: 407,
        },
        // 38.9969, -96.2325
        SiteEntry {
            id: "KTWX",
            city: "Topeka",
            state: "KS",
            latitude_bits: 0x421bfcd3,
            longitude_bits: 0xc2c0770a,
            elevation_meters: 417,
        },
        // Kentucky
        // 36.7369, -87.2850
        SiteEntry {
            id: "KHPX",
            city: "Fort Campbell",
            state: "KY",
            latitude_bits: 0x4212f296,
            longitude_bits: 0xc2ae91ec,
            elevation_meters: 177,
        },
        // 37.5908, -83.3131
        SiteEntry {
            id: "KJKL",
            city: "Jackson",
            state: "KY",
            latitude_bits: 0x42165cfb,
            longitude_bits: 0xc2a6a04f,
            elevation_meters: 415,
        },
        // 37.9753, -85.9439
        SiteEntry {
            id: "KLVX",
            city: "Louisville",
            state: "KY",
            latitude_bits: 0x4217e6b5,
            longitude_bits: 0xc2abe347,
            elevation_meters: 219,
        },
        // 37.0683, -88.7722
        SiteEntry {
            id: "KPAH",
            city: "Paducah",
            state: "KY",
            latitude_bits: 0x421445f0,
            longitude_bits: 0xc2b18b5e,
            elevation_meters: 119,
        },
        // Louisiana
        // 29.4719, -95.0792
        SiteEntry {
            id: "KHGX",
            city: "Houston",
            state: "TX",
            latitude_bits: 0x41ebc674,
            longitude_bits: 0xc2be288d,
            elevation_meters: 5,
        },
        // 30.1253, -93.2158
        SiteEntry {
            id: "KLCH",
            city: "Lake Charles",
            state: "LA",
            latitude_bits: 0x41f1009d,
            longitude_bits: 0xc2ba6e7d,
            elevation_meters: 4,
        },
        // 30.3367, -89.8256
        SiteEntry {
            id: "KLIX",
            city: "New Orleans",
            state: "LA",
            latitude_bits: 0x41f2b190,
            longitude_bits: 0xc2b3a6b5,
            elevation_meters: 7,
        },
        // 31.1556, -92.9756
        SiteEntry {
            id: "KPOE",
            city: "Fort Polk",
            state: "LA",
            latitude_bits: 0x41f93eab,
            longitude_bits: 0xc2b9f382,
            elevation_meters: 124,
        },
        // 32.4508, -93.8411
        SiteEntry {
            id: "KSHV",
            city: "Shreveport",
            state: "LA",
            latitude_bits: 0x4201cd9f,
            longitude_bits: 0xc2bbaea5,
            elevation_meters: 83,
        },
        // Maine
        // 46.0392, -67.8067
        SiteEntry {
            id: "KCBW",
            city: "Caribou",
            state: "ME",
            latitude_bits: 0x42382824,
            longitude_bits: 0xc2879d08,
            elevation_meters: 227,
        },
        // 43.8914, -70.2567
        SiteEntry {
            id: "KGYX",
            city: "Portland",
            state: "ME",
            latitude_bits: 0x422f90cb,
            longitude_bits: 0xc28c836e,
            elevation_meters: 125,
        },
        // Maryland
        // 38.9753, -77.4778
        SiteEntry {
            id: "KLWX",
            city: "Sterling",
            state: "VA",
            latitude_bits: 0x421be6b5,
            longitude_bits: 0xc29af4a2,
            elevation_meters: 83,
        },
        // Massachusetts
        // 41.9558, -71.1369
        SiteEntry {
            id: "KBOX",
            city: "Boston",
            state: "MA",
            latitude_bits: 0x4227d2bd,
            longitude_bits: 0xc28e4618,
            elevation_meters: 36,
        },
        // Michigan
        // 42.6997, -83.4717
        SiteEntry {
            id: "KDTX",
            city: "Detroit",
            state: "MI",
            latitude_bits: 0x422acc7e,
            longitude_bits: 0xc2a6f183,
            elevation_meters: 327,
        },
        // 42.8939, -85.5447
        SiteEntry {
            id: "KGRR",
            city: "Grand Rapids",
            state: "MI",
            latitude_bits: 0x422b935b,
            longitude_bits: 0xc2ab16e3,
            elevation_meters: 237,
        },
        // 46.5314, -87.5486
        SiteEntry {
            id: "KMQT",
            city: "Marquette",
            state: "MI",
            latitude_bits: 0x423a2027,
            longitude_bits: 0xc2af18e2,
            elevation_meters: 430,
        },
        // Minnesota
        // 46.8369, -92.2097
        SiteEntry {
            id: "KDLH",
            city: "Duluth",
            state: "MN",
            latitude_bits: 0x423b58fc,
            longitude_bits: 0xc2b86b5e,
            elevation_meters: 435,
        },
        // 44.8489, -93.5653
        SiteEntry {
            id: "KMPX",
            city: "Minneapolis",
            state: "MN",
            latitude_bits: 0x42336546,
            longitude_bits: 0xc2bb216f,
            elevation_meters: 288,
        },
        // Mississippi
        // 32.2800, -89.9844
        SiteEntry {
            id: "KDGX",
            city: "Brandon",
            state: "MS",
            latitude_bits: 0x42011eb8,
            longitude_bits: 0xc2b3f803,
            elevation_meters: 149,
        },
        // 33.8967, -88.3289
        SiteEntry {
            id: "KGWX",
            city: "Columbus AFB",
            state: "MS",
            latitude_bits: 0x42079639,
            longitude_bits: 0xc2b0a866,
            elevation_meters: 145,
        },
        // Missouri
        // 38.8103, -94.2644
        SiteEntry {
            id: "KEAX",
            city: "Kansas City",
            state: "MO",
            latitude_bits: 0x421b3dbf,
            longitude_bits: 0xc2bc875f,
            elevation_meters: 303,
        },
        // 38.6986, -90.6828
        SiteEntry {
            id: "KLSX",
            city: "St. Louis",
            state: "MO",
            latitude_bits: 0x421acb5e,
            longitude_bits: 0xc2b55d98,
            elevation_meters: 185,
        },
        // 37.2353, -93.4006
        SiteEntry {
            id: "KSGF",
            city: "Springfield",
            state: "MO",
            latitude_bits: 0x4214f0f2,
            longitude_bits: 0xc2bacd1b,
            elevation_meters: 390,
        },
        // Montana
        // 45.8536, -108.6069
        SiteEntry {
            id: "KBLX",
            city: "Billings",
            state: "MT",
            latitude_bits: 0x42376a16,
            longitude_bits: 0xc2d936bc,
            elevation_meters: 1097,
        },
        // 48.2064, -106.6253
        SiteEntry {
            id: "KGGW",
            city: "Glasgow",
            state: "MT",
            latitude_bits: 0x4240d35b,
            longitude_bits: 0xc2d54027,
            elevation_meters: 694,
        },
        // 47.0411, -113.9864
        SiteEntry {
            id: "KMSX",
            city: "Missoula",
            state: "MT",
            latitude_bits: 0x423c2a16,
            longitude_bits: 0xc2e3f909,
            elevation_meters: 2394,
        },
        // 47.4597, -111.3853
        SiteEntry {
            id: "KTFX",
            city: "Great Falls",
            state: "MT",
            latitude_bits: 0x423dd6bc,
            longitude_bits: 0xc2dec546,
            elevation_meters: 1132,
        },
        // Nebraska
        // 41.9578, -100.5761
        SiteEntry {
            id: "KLNX",
            city: "North Platte",
            state: "NE",
            latitude_bits: 0x4227d4ca,
            longitude_bits: 0xc2c926f7,
            elevation_meters: 906,
        },
        // 41.3203, -96.3667
        SiteEntry {
            id: "KOAX",
            city: "Omaha",
            state: "NE",
            latitude_bits: 0x422547fd,
            longitude_bits: 0xc2c0bbc0,
            elevation_meters: 350,
        },
        // 40.3208, -98.4419
        SiteEntry {
            id: "KUEX",
            city: "Hastings",
            state: "NE",
            latitude_bits: 0x42214880,
            longitude_bits: 0xc2c4e241,
            elevation_meters: 602,
        },
        // Nevada
        // 40.7400, -116.8025
        SiteEntry {
            id: "KLRX",
            city: "Elko",
            state: "NV",
            latitude_bits: 0x4222f5c3,
            longitude_bits: 0xc2e99ae1,
            elevation_meters: 2056,
        },
        // 35.7011, -114.8914
        SiteEntry {
            id: "KESX",
            city: "Las Vegas",
            state: "NV",
            latitude_bits: 0x420ecded,
            longitude_bits: 0xc2e5c866,
            elevation_meters: 1483,
        },
        // 39.7542, -119.4622
        SiteEntry {
            id: "KRGX",
            city: "Reno",
            state: "NV",
            latitude_bits: 0x421f044d,
            longitude_bits: 0xc2eeeca5,
            elevation_meters: 2530,
        },
        // New Mexico
        // 35.1497, -106.8239
        SiteEntry {
            id: "KABX",
            city: "Albuquerque",
            state: "NM",
            latitude_bits: 0x420c994b,
            longitude_bits: 0xc2d5a5d6,
            elevation_meters: 1789,
        },
        // 34.6350, -103.6297
        SiteEntry {
            id: "KFDX",
            city: "Cannon AFB",
            state: "NM",
            latitude_bits: 0x420a8a3d,
            longitude_bits: 0xc2cf4268,
            elevation_meters: 1417,
        },
        // 33.0769, -106.12
        SiteEntry {
            id: "KHDX",
            city: "Holloman AFB",
            state: "NM",
            latitude_bits: 0x42044ebf,
            longitude_bits: 0xc2d43d71,
            elevation_meters: 1287,
        },
        // New York
        // 42.1997, -75.9847
        SiteEntry {
            id: "KBGM",
            city: "Binghamton",
            state: "NY",
            latitude_bits: 0x4228cc7e,
            longitude_bits: 0xc297f82b,
            elevation_meters: 490,
        },
        // 42.9486, -78.7369
        SiteEntry {
            id: "KBUF",
            city: "Buffalo",
            state: "NY",
            latitude_bits: 0x422bcb5e,
            longitude_bits: 0xc29d794b,
            elevation_meters: 211,
        },
        // 42.5864, -74.0639
        SiteEntry {
            id: "KENX",
            city: "Albany",
            state: "NY",
            latitude_bits: 0x422a5879,
            longitude_bits: 0xc29420b8,
            elevation_meters: 557,
        },
        // 43.7558, -75.6800
        SiteEntry {
            id: "KTYX",
            city: "Montague",
            state: "NY",
            latitude_bits: 0x422f05f0,
            longitude_bits: 0xc2975c29,
            elevation_meters: 562,
        },
        // North Carolina
        // 34.7761, -76.8764
        SiteEntry {
            id: "KMHX",
            city: "Morehead City",
            state: "NC",
            latitude_bits: 0x420b1aba,
            longitude_bits: 0xc299c0b8,
            elevation_meters: 9,
        },
        // 35.6656, -78.4903
        SiteEntry {
            id: "KRAX",
            city: "Raleigh",
            state: "NC",
            latitude_bits: 0x420ea993,
            longitude_bits: 0xc29cfb09,
            elevation_meters: 106,
        },
        // 33.9892, -78.4292
        SiteEntry {
            id: "KLTX",
            city: "Wilmington",
            state: "NC",
            latitude_bits: 0x4207f4f1,
            longitude_bits: 0xc29cdbc0,
            elevation_meters: 19,
        },
        // North Dakota
        // 46.7708, -100.7603
        SiteEntry {
            id: "KBIS",
            city: "Bismarck",
            state: "ND",
            latitude_bits: 0x423b154d,
            longitude_bits: 0xc2c98546,
            elevation_meters: 505,
        },
        // 47.5281, -97.3256
        SiteEntry {
            id: "KMVX",
            city: "Fargo",
            state: "ND",
            latitude_bits: 0x423e1cc6,
            longitude_bits: 0xc2c2a6b5,
            elevation_meters: 301,
        },
        // 48.3925, -100.8644
        SiteEntry {
            id: "KMBX",
            city: "Minot AFB",
            state: "ND",
            latitude_bits: 0x424191ec,
            longitude_bits: 0xc2c9ba93,
            elevation_meters: 455,
        },
        // Ohio
        // 41.4131, -81.8597
        SiteEntry {
            id: "KCLE",
            city: "Cleveland",
            state: "OH",
            latitude_bits: 0x4225a704,
            longitude_bits: 0xc2a3b82b,
            elevation_meters: 233,
        },
        // 39.4203, -83.8217
        SiteEntry {
            id: "KILN",
            city: "Wilmington",
            state: "OH",
            latitude_bits: 0x421dae63,
            longitude_bits: 0xc2a7a4b6,
            elevation_meters: 322,
        },
        // Oklahoma
        // 34.3622, -98.9764
        SiteEntry {
            id: "KFDR",
            city: "Frederick",
            state: "OK",
            latitude_bits: 0x420972e5,
            longitude_bits: 0xc2c5f3eb,
            elevation_meters: 386,
        },
        // 36.1750, -95.5647
        SiteEntry {
            id: "KINX",
            city: "Tulsa",
            state: "OK",
            latitude_bits: 0x4210b333,
            longitude_bits: 0xc2bf2120,
            elevation_meters: 204,
        },
        // 35.3331, -97.2778
        SiteEntry {
            id: "KTLX",
            city: "Oklahoma City",
            state: "OK",
            latitude_bits: 0x420d5518,
            longitude_bits: 0xc2c28e3c,
            elevation_meters: 370,
        },
        // 36.7406, -98.1278
        SiteEntry {
            id: "KVNX",
            city: "Vance AFB",
            state: "OK",
            latitude_bits: 0x4212f660,
            longitude_bits: 0xc2c4416f,
            elevation_meters: 369,
        },
        // Oregon
        // 42.0811, -122.7167
        SiteEntry {
            id: "KMAX",
            city: "Medford",
            state: "OR",
            latitude_bits: 0x4228530c,
            longitude_bits: 0xc2f56ef3,
            elevation_meters: 2290,
        },
        // 45.6906, -118.8528
        SiteEntry {
            id: "KPDT",
            city: "Pendleton",
            state: "OR",
            latitude_bits: 0x4236c32d,
            longitude_bits: 0xc2edb4a2,
            elevation_meters: 462,
        },
        // 45.7150, -122.9653
        SiteEntry {
            id: "KRTX",
            city: "Portland",
            state: "OR",
            latitude_bits: 0x4236dc29,
            longitude_bits: 0xc2f5ee3c,
            elevation_meters: 479,
        },
        // Pennsylvania
        // 40.9231, -78.0039
        SiteEntry {
            id: "KCCX",
            city: "State College",
            state: "PA",
            latitude_bits: 0x4223b141,
            longitude_bits: 0xc29c01ff,
            elevation_meters: 733,
        },
        // 39.9469, -74.4108
        SiteEntry {
            id: "KDIX",
            city: "Philadelphia",
            state: "PA",
            latitude_bits: 0x421fc9a0,
            longitude_bits: 0xc294d254,
            elevation_meters: 45,
        },
        // 40.5317, -80.0183
        SiteEntry {
            id: "KPBZ",
            city: "Pittsburgh",
            state: "PA",
            latitude_bits: 0x42222076,
            longitude_bits: 0xc2a0095f,
            elevation_meters: 361,
        },
        // Puerto Rico
        // 18.1156, -66.0781
        SiteEntry {
            id: "TJUA",
            city: "San Juan",
            state: "PR",
            latitude_bits: 0x4190ecc0,
            longitude_bits: 0xc28427fd,
            elevation_meters: 867,
        },
        // South Carolina
        // 33.9486, -81.1186
        SiteEntry {
            id: "KCAE",
            city: "Columbia",
            state: "SC",
            latitude_bits: 0x4207cb5e,
            longitude_bits: 0xc2a23cb9,
            elevation_meters: 70,
        },
        // 32.6556, -81.0425
        SiteEntry {
            id: "KCLX",
            city: "Charleston",
            state: "SC",
            latitude_bits: 0x42029f56,
            longitude_bits: 0xc2a215c3,
            elevation_meters: 30,
        },
        // 34.8833, -82.2200
        SiteEntry {
            id: "KGSP",
            city: "Greenville",
            state: "SC",
            latitude_bits: 0x420b8880,
            longitude_bits: 0xc2a470a4,
            elevation_meters: 296,
        },
        // South Dakota
        // 45.4558, -98.4131
        SiteEntry {
            id: "KABR",
            city: "Aberdeen",
            state: "SD",
            latitude_bits: 0x4235d2bd,
            longitude_bits: 0xc2c4d382,
            elevation_meters: 397,
        },
        // 44.1250, -102.8297
        SiteEntry {
            id: "KUDX",
            city: "Rapid City",
            state: "SD",
            latitude_bits: 0x42308000,
            longitude_bits: 0xc2cda8ce,
            elevation_meters: 919,
        },
        // 43.5878, -96.7289
        SiteEntry {
            id: "KFSD",
            city: "Sioux Falls",
            state: "SD",
            latitude_bits: 0x422e59e8,
            longitude_bits: 0xc2c17532,
            elevation_meters: 436,
        },
        // Tennessee
        // 36.1686, -83.4017
        SiteEntry {
            id: "KMRX",
            city: "Knoxville",
            state: "TN",
            latitude_bits: 0x4210aca5,
            longitude_bits: 0xc2a6cdac,
            elevation_meters: 408,
        },
        // 35.3447, -89.8733
        SiteEntry {
            id: "KNQA",
            city: "Memphis",
            state: "TN",
            latitude_bits: 0x420d60f9,
            longitude_bits: 0xc2b3bf21,
            elevation_meters: 86,
        },
        // 36.2472, -86.5625
        SiteEntry {
            id: "KOHX",
            city: "Nashville",
            state: "TN",
            latitude_bits: 0x4210fd22,
            longitude_bits: 0xc2ad2000,
            elevation_meters: 176,
        },
        // Texas
        // 35.2333, -101.7092
        SiteEntry {
            id: "KAMA",
            city: "Amarillo",
            state: "TX",
            latitude_bits: 0x420ceee6,
            longitude_bits: 0xc2cb6b1c,
            elevation_meters: 1093,
        },
        // 25.9158, -97.4189
        SiteEntry {
            id: "KBRO",
            city: "Brownsville",
            state: "TX",
            latitude_bits: 0x41cf538f,
            longitude_bits: 0xc2c2d67a,
            elevation_meters: 7,
        },
        // 27.7842, -97.5111
        SiteEntry {
            id: "KCRP",
            city: "Corpus Christi",
            state: "TX",
            latitude_bits: 0x41de460b,
            longitude_bits: 0xc2c305af,
            elevation_meters: 14,
        },
        // 29.2722, -100.2803
        SiteEntry {
            id: "KDFX",
            city: "Laughlin AFB",
            state: "TX",
            latitude_bits: 0x41ea2d77,
            longitude_bits: 0xc2c88f83,
            elevation_meters: 345,
        },
        // 32.5386, -99.2544
        SiteEntry {
            id: "KDYX",
            city: "Dyess AFB",
            state: "TX",
            latitude_bits: 0x42022787,
            longitude_bits: 0xc2c68241,
            elevation_meters: 463,
        },
        // 31.8731, -106.6978
        SiteEntry {
            id: "KEPZ",
            city: "El Paso",
            state: "TX",
            latitude_bits: 0x41fefc1c,
            longitude_bits: 0xc2d56546,
            elevation_meters: 1251,
        },
        // 29.7039, -98.0286
        SiteEntry {
            id: "KEWX",
            city: "San Antonio",
            state: "TX",
            latitude_bits: 0x41eda196,
            longitude_bits: 0xc2c40ea5,
            elevation_meters: 193,
        },
        // 32.5731, -97.3031
        SiteEntry {
            id: "KFWS",
            city: "Dallas/Fort Worth",
            state: "TX",
            latitude_bits: 0x42024adb,
            longitude_bits: 0xc2c29b30,
            elevation_meters: 208,
        },
        // 30.7217, -97.3828
        SiteEntry {
            id: "KGRK",
            city: "Fort Hood",
            state: "TX",
            latitude_bits: 0x41f5c60b,
            longitude_bits: 0xc2c2c3fe,
            elevation_meters: 164,
        },
        // 33.6542, -101.8142
        SiteEntry {
            id: "KLBB",
            city: "Lubbock",
            state: "TX",
            latitude_bits: 0x42069de7,
            longitude_bits: 0xc2cba0df,
            elevation_meters: 993,
        },
        // 31.9433, -102.1892
        SiteEntry {
            id: "KMAF",
            city: "Midland/Odessa",
            state: "TX",
            latitude_bits: 0x41ff8be1,
            longitude_bits: 0xc2cc60df,
            elevation_meters: 874,
        },
        // 31.3714, -100.4925
        SiteEntry {
            id: "KSJT",
            city: "San Angelo",
            state: "TX",
            latitude_bits: 0x41faf8a1,
            longitude_bits: 0xc2c8fc29,
            elevation_meters: 576,
        },
        // Utah
        // 37.5911, -112.8622
        SiteEntry {
            id: "KICX",
            city: "Cedar City",
            state: "UT",
            latitude_bits: 0x42165d49,
            longitude_bits: 0xc2e1b972,
            elevation_meters: 3231,
        },
        // 41.2628, -112.4478
        SiteEntry {
            id: "KMTX",
            city: "Salt Lake City",
            state: "UT",
            latitude_bits: 0x42250d1b,
            longitude_bits: 0xc2e0e546,
            elevation_meters: 1969,
        },
        // Vermont
        // 44.5111, -73.1667
        SiteEntry {
            id: "KCXX",
            city: "Burlington",
            state: "VT",
            latitude_bits: 0x42320b5e,
            longitude_bits: 0xc292555a,
            elevation_meters: 97,
        },
        // Virginia
        // 37.0242, -80.2744
        SiteEntry {
            id: "KFCX",
            city: "Roanoke",
            state: "VA",
            latitude_bits: 0x421418c8,
            longitude_bits: 0xc2a08c7e,
            elevation_meters: 874,
        },
        // Washington
        // 48.1944, -122.4958
        SiteEntry {
            id: "KATX",
            city: "Seattle",
            state: "WA",
            latitude_bits: 0x4240c711,
            longitude_bits: 0xc2f4fdd9,
            elevation_meters: 151,
        },
        // 47.6806, -117.6267
        SiteEntry {
            id: "KOTX",
            city: "Spokane",
            state: "WA",
            latitude_bits: 0x423eb8ef,
            longitude_bits: 0xc2eb40df,
            elevation_meters: 728,
        },
        // West Virginia
        // 38.3111, -81.7231
        SiteEntry {
            id: "KRLX",
            city: "Charleston",
            state: "WV",
            latitude_bits: 0x42193e91,
            longitude_bits: 0xc2a3723a,
            elevation_meters: 329,
        },
        // Wisconsin
        // 43.8228, -91.1911
        SiteEntry {
            id: "KARX",
            city: "La Crosse",
            state: "WI",
            latitude_bits: 0x422f4a8c,
            longitude_bits: 0xc2b661d8,
            elevation_meters: 389,
        },
        // 44.4986, -88.1111
        SiteEntry {
            id: "KGRB",
            city: "Green Bay",
            state: "WI",
            latitude_bits: 0x4231fe91,
            longitude_bits: 0xc2b038e2,
            elevation_meters: 208,
        },
        // 42.9678, -88.5506
        SiteEntry {
            id: "KMKX",
            city: "Milwaukee",
            state: "WI",
            latitude_bits: 0x422bdf07,
            longitude_bits: 0xc2b119e8,
            elevation_meters: 292,
        },
        // Wyoming
        // 41.1519, -104.8061
        SiteEntry {
            id: "KCYS",
            city: "Cheyenne",
            state: "WY",
            latitude_bits: 0x42249b8c,
            longitude_bits: 0xc2d19cb9,
            elevation_meters: 1868,
        },
        // 43.0661, -108.4772
        SiteEntry {
            id: "KRIW",
            city: "Riverton",
            state: "WY",
            latitude_bits: 0x422c43b0,
            longitude_bits: 0xc2d8f454,
            elevation_meters: 1697,
        },
        // Guam
        // 13.4544, 144.8111
        SiteEntry {
            id: "PGUA",
            city: "Andersen AFB",
            state: "GU",
            latitude_bits: 0x41574539,
            longitude_bits: 0x4310cfa4,
            elevation_meters: 78,
        },
        // DoD/CONUS
        // 40.9231, -78.0039
        SiteEntry {
            id: "KCCX",
            city: "State College",
            state: "PA",
            latitude_bits: 0x4223b141,
            longitude_bits: 0xc29c01ff,
            elevation_meters: 733,
        },
    ]
}

/// The registry's sites, in the order `sites` returns them.
pub open spec fn site_table() -> Seq<SiteEntry> {
    seq![
        // Alabama
        // 33.1722, -86.7698
        SiteEntry {
            id: "KBMX",
            city: "Birmingham",
            state: "AL",
            latitude_bits: 0x4204b055,
            longitude_bits: 0xc2ad8a23,
            elevation_meters: 197,
        },
        // 31.4606, -85.4592
        SiteEntry {
            id: "KEOX",
            city: "Fort Rucker",
            state: "AL",
            latitude_bits: 0x41fbaf4f,
            longitude_bits: 0xc2aaeb1c,
            elevation_meters: 132,
        },
        // 34.9306, -86.0833
        SiteEntry {
            id: "KHTX",
            city: "Huntsville",
            state: "AL",
            latitude_bits: 0x420bb8ef,
            longitude_bits: 0xc2ac2aa6,
            elevation_meters: 536,
        },
        // 30.6794, -88.2397
        SiteEntry {
            id: "KMOB",
            city: "Mobile",
            state: "AL",
            latitude_bits: 0x41f56f69,
            longitude_bits: 0xc2b07aba,
            elevation_meters: 63,
        },
        // 32.5367, -85.7897
        SiteEntry {
            id: "KMXX",
            city: "Maxwell AFB",
            state: "AL",
            latitude_bits: 0x42022595,
            longitude_bits: 0xc2ab9454,
            elevation_meters: 122,
        },
        // Alaska
        // 60.7919, -161.8764
        SiteEntry {
            id: "KABC",
            city: "Bethel",
            state: "AK",
            latitude_bits: 0x42732ae8,
            longitude_bits: 0xc321e05c,
            elevation_meters: 48,
        },
        // 36.9839, -77.0072
        SiteEntry {
            id: "KAKQ",
            city: "Wakefield",
            state: "VA",
            latitude_bits: 0x4213ef83,
            longitude_bits: 0xc29a03b0,
            elevation_meters: 34,
        },
        // 44.9072, -84.7197
        SiteEntry {
            id: "KAPX",
            city: "Gaylord",
            state: "MI",
            latitude_bits: 0x4233a0f9,
            longitude_bits: 0xc2a9707d,
            elevation_meters: 446,
        },
        // 56.8525, -135.5294
        SiteEntry {
            id: "KACG",
            city: "Sitka",
            state: "AK",
            latitude_bits: 0x426368f6,
            longitude_bits: 0xc3078787,
            elevation_meters: 63,
        },
        // 59.4614, -146.3031
        SiteEntry {
            id: "KAIH",
            city: "Middleton Island",
            state: "AK",
            latitude_bits: 0x426dd879,
            longitude_bits: 0xc3124d98,
            elevation_meters: 20,
        },
        // 58.6794, -156.6297
        SiteEntry {
            id: "KAKC",
            city: "King Salmon",
            state: "AK",
            latitude_bits: 0x426ab7b5,
            longitude_bits: 0xc31ca134,
            elevation_meters: 19,
        },
        // 60.7919, -161.8764
        SiteEntry {
            id: "PABC",
            city: "Bethel",
            state: "AK",
            latitude_bits: 0x42732ae8,
            longitude_bits: 0xc321e05c,
            elevation_meters: 48,
        },
        // 56.8525, -135.5294
        SiteEntry {
            id: "PACG",
            city: "Sitka",
            state: "AK",
            latitude_bits: 0x426368f6,
            longitude_bits: 0xc3078787,
            elevation_meters: 63,
        },
        // 64.5114, -165.295
        SiteEntry {
            id: "PAEC",
            city: "Nome",
            state: "AK",
            latitude_bits: 0x428105d6,
            longitude_bits: 0xc3254b85,
            elevation_meters: 16,
        },
        // 60.7258, -151.3514
        SiteEntry {
            id: "PAHG",
            city: "Anchorage",
            state: "AK",
            latitude_bits: 0x4272e738,
            longitude_bits: 0xc31759f5,
            elevation_meters: 74,
        },
        // 59.4614, -146.3031
        SiteEntry {
            id: "PAIH",
            city: "Middleton Island",
            state: "AK",
            latitude_bits: 0x426dd879,
            longitude_bits: 0xc3124d98,
            elevation_meters: 20,
        },
        // 58.6794, -156.6297
        SiteEntry {
            id: "PAKC",
            city: "King Salmon",
            state: "AK",
            latitude_bits: 0x426ab7b5,
            longitude_bits: 0xc31ca134,
            elevation_meters: 19,
        },
        // Arizona
        // 31.8939, -110.6303
        SiteEntry {
            id: "KEMX",
            city: "Tucson",
            state: "AZ",
            latitude_bits: 0x41ff26b5,
            longitude_bits: 0xc2dd42b7,
            elevation_meters: 1586,
        },
        // 34.5744, -111.1983
        SiteEntry {
            id: "KFSX",
            city: "Flagstaff",
            state: "AZ",
            latitude_bits: 0x420a4c30,
            longitude_bits: 0xc2de6588,
            elevation_meters: 2261,
        },
        // 33.2892, -111.67
        SiteEntry {
            id: "KIWA",
            city: "Phoenix",
            state: "AZ",
            latitude_bits: 0x42052824,
            longitude_bits: 0xc2df570a,
            elevation_meters: 413,
        },
        // 32.4953, -114.6567
        SiteEntry {
            id: "KYUX",
            city: "Yuma",
            state: "AZ",
            latitude_bits: 0x4201fb30,
            longitude_bits: 0xc2e5503b,
            elevation_meters: 53,
        },
        // Arkansas
        // 34.8364, -92.2622
        SiteEntry {
            id: "KLZK",
            city: "Little Rock",
            state: "AR",
            latitude_bits: 0x420b5879,
            longitude_bits: 0xc2b8863f,
            elevation_meters: 173,
        },
        // 35.2906, -94.3619
        SiteEntry {
            id: "KSRX",
            city: "Fort Smith",
            state: "AR",
            latitude_bits: 0x420d2993,
            longitude_bits: 0xc2bcb94b,
            elevation_meters: 195,
        },
        // California
        // 39.4961, -121.6317
        SiteEntry {
            id: "KBBX",
            city: "Beale AFB",
            state: "CA",
            latitude_bits: 0x421dfc02,
            longitude_bits: 0xc2f3436e,
            elevation_meters: 53,
        },
        // 35.0978, -117.5608
        SiteEntry {
            id: "KEYX",
            city: "Edwards AFB",
            state: "CA",
            latitude_bits: 0x420c6426,
            longitude_bits: 0xc2eb1f21,
            elevation_meters: 840,
        },
        // 36.3142, -119.6322
        SiteEntry {
            id: "KHNX",
            city: "Hanford",
            state: "CA",
            latitude_bits: 0x421141be,
            longitude_bits: 0xc2ef43b0,
            elevation_meters: 74,
        },
        // 37.1553, -121.8983
        SiteEntry {
            id: "KMUX",
            city: "San Francisco",
            state: "CA",
            latitude_bits: 0x42149f07,
            longitude_bits: 0xc2f3cbee,
            elevation_meters: 1057,
        },
        // 32.9189, -117.0419
        SiteEntry {
            id: "KNKX",
            city: "San Diego",
            state: "CA",
            latitude_bits: 0x4203acf4,
            longitude_bits: 0xc2ea1574,
            elevation_meters: 291,
        },
        // 33.8178, -117.6358
        SiteEntry {
            id: "KSOX",
            city: "Santa Ana Mountains",
            state: "CA",
            latitude_bits: 0x4207456d,
            longitude_bits: 0xc2eb4588,
            elevation_meters: 923,
        },
        // 34.8383, -120.3978
        SiteEntry {
            id: "KVBX",
            city: "Vandenberg AFB",
            state: "CA",
            latitude_bits: 0x420b5a6b,
            longitude_bits: 0xc2f0cbac,
            elevation_meters: 373,
        },
        // 34.4114, -119.1794
        SiteEntry {
            id: "KVTX",
            city: "Los Angeles",
            state: "CA",
            latitude_bits: 0x4209a546,
            longitude_bits: 0xc2ee5bda,
            elevation_meters: 831,
        },
        // 38.5011, -121.6778
        SiteEntry {
            id: "KDAX",
            city: "Sacramento",
            state: "CA",
            latitude_bits: 0x421a0120,
            longitude_bits: 0xc2f35b09,
            elevation_meters: 9,
        },
        // Colorado
        // 39.7867, -104.5458
        SiteEntry {
            id: "KFTG",
            city: "Denver",
            state: "CO",
            latitude_bits: 0x421f2595,
            longitude_bits: 0xc2d11773,
            elevation_meters: 1675,
        },
        // 39.0622, -108.2139
        SiteEntry {
            id: "KGJX",
            city: "Grand Junction",
            state: "CO",
            latitude_bits: 0x421c3fb1,
            longitude_bits: 0xc2d86d84,
            elevation_meters: 3045,
        },
        // 38.4594, -104.1817
        SiteEntry {
            id: "KPUX",
            city: "Pueblo",
            state: "CO",
            latitude_bits: 0x4219d66d,
            longitude_bits: 0xc2d05d08,
            elevation_meters: 1600,
        },
        // Connecticut / New England
        // 40.8656, -72.8639
        SiteEntry {
            id: "KOKX",
            city: "Upton",
            state: "NY",
            latitude_bits: 0x42237660,
            longitude_bits: 0xc291ba51,
            elevation_meters: 26,
        },
        // Florida
        // 25.6111, -80.4128
        SiteEntry {
            id: "KAMX",
            city: "Miami",
            state: "FL",
            latitude_bits: 0x41cce388,
            longitude_bits: 0xc2a0d35b,
            elevation_meters: 4,
        },
        // 30.5644, -85.9214
        SiteEntry {
            id: "KEVX",
            city: "Eglin AFB",
            state: "FL",
            latitude_bits: 0x41f483e4,
            longitude_bits: 0xc2abd7c2,
            elevation_meters: 43,
        },
        // 30.4847, -81.7019
        SiteEntry {
            id: "KJAX",
            city: "Jacksonville",
            state: "FL",
            latitude_bits: 0x41f3e0aa,
            longitude_bits: 0xc2a3675f,
            elevation_meters: 10,
        },
        // 28.1133, -80.6542
        SiteEntry {
            id: "KMLB",
            city: "Melbourne",
            state: "FL",
            latitude_bits: 0x41e0e80a,
            longitude_bits: 0xc2a14ef3,
            elevation_meters: 11,
        },
        // 27.7056, -82.4017
        SiteEntry {
            id: "KTBW",
            city: "Tampa Bay",
            state: "FL",
            latitude_bits: 0x41dda512,
            longitude_bits: 0xc2a4cdac,
            elevation_meters: 13,
        },
        // 30.3975, -84.3289
        SiteEntry {
            id: "KTLH",
            city: "Tallahassee",
            state: "FL",
            latitude_bits: 0x41f32e14,
            longitude_bits: 0xc2a8a866,
            elevation_meters: 19,
        },
        // 24.5975, -81.7031
        SiteEntry {
            id: "KBYX",
            city: "Key West",
            state: "FL",
            latitude_bits: 0x41c4c7ae,
            longitude_bits: 0xc2a367fd,
            elevation_meters: 3,
        },
        // Georgia
        // 33.3636, -84.5658
        SiteEntry {
            id: "KFFC",
            city: "Atlanta",
            state: "GA",
            latitude_bits: 0x42057454,
            longitude_bits: 0xc2a921b1,
            elevation_meters: 262,
        },
        // 32.6756, -83.3511
        SiteEntry {
            id: "KJGX",
            city: "Robins AFB",
            state: "GA",
            latitude_bits: 0x4202b3d0,
            longitude_bits: 0xc2a6b3c3,
            elevation_meters: 159,
        },
        // 30.8900, -83.0019
        SiteEntry {
            id: "KVAX",
            city: "Moody AFB",
            state: "GA",
            latitude_bits: 0x41f71eb8,
            longitude_bits: 0xc2a600f9,
            elevation_meters: 54,
        },
        // Hawaii
        // 21.8939, -159.5522
        SiteEntry {
            id: "PHKI",
            city: "South Kauai",
            state: "HI",
            latitude_bits: 0x41af26b5,
            longitude_bits: 0xc31f8d5d,
            elevation_meters: 55,
        },
        // 20.1253, -155.7781
        SiteEntry {
            id: "PHKM",
            city: "Kamuela",
            state: "HI",
            latitude_bits: 0x41a1009d,
            longitude_bits: 0xc31bc732,
            elevation_meters: 1161,
        },
        // 21.1328, -157.1803
        SiteEntry {
            id: "PHMO",
            city: "Molokai",
            state: "HI",
            latitude_bits: 0x41a90ff9,
            longitude_bits: 0xc31d2e28,
            elevation_meters: 416,
        },
        // 19.0950, -155.5689
        SiteEntry {
            id: "PHWA",
            city: "South Shore",
            state: "HI",
            latitude_bits: 0x4198c28f,
            longitude_bits: 0xc31b91a3,
            elevation_meters: 421,
        },
        // Idaho
        // 43.4908, -116.2358
        SiteEntry {
            id: "KCBX",
            city: "Boise",
            state: "ID",
            latitude_bits: 0x422df694,
            longitude_bits: 0xc2e878bb,
            elevation_meters: 933,
        },
        // 43.1058, -112.6861
        SiteEntry {
            id: "KSFX",
            city: "Pocatello",
            state: "ID",
            latitude_bits: 0x422c6c57,
            longitude_bits: 0xc2e15f48,
            elevation_meters: 1364,
        },
        // Illinois
        // 40.1506, -89.3369
        SiteEntry {
            id: "KILX",
            city: "Lincoln",
            state: "IL",
            latitude_bits: 0x42209a37,
            longitude_bits: 0xc2b2ac7e,
            elevation_meters: 177,
        },
        // 41.6044, -88.0847
        SiteEntry {
            id: "KLOT",
            city: "Chicago",
            state: "IL",
            latitude_bits: 0x42266ae8,
            longitude_bits: 0xc2b02b5e,
            elevation_meters: 202,
        },
        // Indiana
        // 39.7075, -86.2803
        SiteEntry {
            id: "KIND",
            city: "Indianapolis",
            state: "IN",
            latitude_bits: 0x421ed47b,
            longitude_bits: 0xc2ac8f83,
            elevation_meters: 241,
        },
        // 41.3586, -85.7000
        SiteEntry {
            id: "KIWX",
            city: "Fort Wayne",
            state: "IN",
            latitude_bits: 0x42256f35,
            longitude_bits: 0xc2ab6666,
            elevation_meters: 293,
        },
        // 38.2603, -87.7247
        SiteEntry {
            id: "KVWX",
            city: "Evansville",
            state: "IN",
            latitude_bits: 0x42190a8c,
            longitude_bits: 0xc2af730c,
            elevation_meters: 155,
        },
        // Iowa
        // 41.7311, -93.7228
        SiteEntry {
            id: "KDMX",
            city: "Des Moines",
            state: "IA",
            latitude_bits: 0x4226eca5,
            longitude_bits: 0xc2bb7213,
            elevation_meters: 299,
        },
        // 41.6117, -90.5808
        SiteEntry {
            id: "KDVN",
            city: "Davenport",
            state: "IA",
            latitude_bits: 0x42267261,
            longitude_bits: 0xc2b5295f,
            elevation_meters: 230,
        },
        // Kansas
        // 37.7608, -99.9689
        SiteEntry {
            id: "KDDC",
            city: "Dodge City",
            state: "KS",
            latitude_bits: 0x42170b0f,
            longitude_bits: 0xc2c7f014,
            elevation_meters: 790,
        },
        // 39.3669, -101.7003
        SiteEntry {
            id: "KGLD",
            city: "Goodland",
            state: "KS",
            latitude_bits: 0x421d77b5,
            longitude_bits: 0xc2cb668e,
            elevation_meters: 1113,
        },
        // 37.6544, -97.4428
        SiteEntry {
            id: "KICT",
            city: "Wichita",
            state: "KS",
            latitude_bits: 0x42169e1b,
            longitude_bits: 0xc2c2e2b7,
            elevation_meters: 407,
        },
        // 38.9969, -96.2325
        SiteEntry {
            id: "KTWX",
            city: "Topeka",
            state: "KS",
            latitude_bits: 0x421bfcd3,
            longitude_bits: 0xc2c0770a,
            elevation_meters: 417,
        },
        // Kentucky
        // 36.7369, -87.2850
        SiteEntry {
            id: "KHPX",
            city: "Fort Campbell",
            state: "KY",
            latitude_bits: 0x4212f296,
            longitude_bits: 0xc2ae91ec,
            elevation_meters: 177,
        },
        // 37.5908, -83.3131
        SiteEntry {
            id: "KJKL",
            city: "Jackson",
            state: "KY",
            latitude_bits: 0x42165cfb,
            longitude_bits: 0xc2a6a04f,
            elevation_meters: 415,
        },
        // 37.9753, -85.9439
        SiteEntry {
            id: "KLVX",
            city: "Louisville",
            state: "KY",
            latitude_bits: 0x4217e6b5,
            longitude_bits: 0xc2abe347,
            elevation_meters: 219,
        },
        // 37.0683, -88.7722
        SiteEntry {
            id: "KPAH",
            city: "Paducah",
            state: "KY",
            latitude_bits: 0x421445f0,
            longitude_bits: 0xc2b18b5e,
            elevation_meters: 119,
        },
        // Louisiana
        // 29.4719, -95.0792
        SiteEntry {
            id: "KHGX",
            city: "Houston",
            state: "TX",
            latitude_bits: 0x41ebc674,
            longitude_bits: 0xc2be288d,
            elevation_meters: 5,
        },
        // 30.1253, -93.2158
        SiteEntry {
            id: "KLCH",
            city: "Lake Charles",
            state: "LA",
            latitude_bits: 0x41f1009d,
            longitude_bits: 0xc2ba6e7d,
            elevation_meters: 4,
        },
        // 30.3367, -89.8256
        SiteEntry {
            id: "KLIX",
            city: "New Orleans",
            state: "LA",
            latitude_bits: 0x41f2b190,
            longitude_bits: 0xc2b3a6b5,
            elevation_meters: 7,
        },
        // 31.1556, -92.9756
        SiteEntry {
            id: "KPOE",
            city: "Fort Polk",
            state: "LA",
            latitude_bits: 0x41f93eab,
            longitude_bits: 0xc2b9f382,
            elevation_meters: 124,
        },
        // 32.4508, -93.8411
        SiteEntry {
            id: "KSHV",
            city: "Shreveport",
            state: "LA",
            latitude_bits: 0x4201cd9f,
            longitude_bits: 0xc2bbaea5,
            elevation_meters: 83,
        },
        // Maine
        // 46.0392, -67.8067
        SiteEntry {
            id: "KCBW",
            city: "Caribou",
            state: "ME",
            latitude_bits: 0x42382824,
            longitude_bits: 0xc2879d08,
            elevation_meters: 227,
        },
        // 43.8914, -70.2567
        SiteEntry {
            id: "KGYX",
            city: "Portland",
            state: "ME",
            latitude_bits: 0x422f90cb,
            longitude_bits: 0xc28c836e,
            elevation_meters: 125,
        },
        // Maryland
        // 38.9753, -77.4778
        SiteEntry {
            id: "KLWX",
            city: "Sterling",
            state: "VA",
            latitude_bits: 0x421be6b5,
            longitude_bits: 0xc29af4a2,
            elevation_meters: 83,
        },
        // Massachusetts
        // 41.9558, -71.1369
        SiteEntry {
            id: "KBOX",
            city: "Boston",
            state: "MA",
            latitude_bits: 0x4227d2bd,
            longitude_bits: 0xc28e4618,
            elevation_meters: 36,
        },
        // Michigan
        // 42.6997, -83.4717
        SiteEntry {
            id: "KDTX",
            city: "Detroit",
            state: "MI",
            latitude_bits: 0x422acc7e,
            longitude_bits: 0xc2a6f183,
            elevation_meters: 327,
        },
        // 42.8939, -85.5447
        SiteEntry {
            id: "KGRR",
            city: "Grand Rapids",
            state: "MI",
            latitude_bits: 0x422b935b,
            longitude_bits: 0xc2ab16e3,
            elevation_meters: 237,
        },
        // 46.5314, -87.5486
        SiteEntry {
            id: "KMQT",
            city: "Marquette",
            state: "MI",
            latitude_bits: 0x423a2027,
            longitude_bits: 0xc2af18e2,
            elevation_meters: 430,
        },
        // Minnesota
        // 46.8369, -92.2097
        SiteEntry {
            id: "KDLH",
            city: "Duluth",
            state: "MN",
            latitude_bits: 0x423b58fc,
            longitude_bits: 0xc2b86b5e,
            elevation_meters: 435,
        },
        // 44.8489, -93.5653
        SiteEntry {
            id: "KMPX",
            city: "Minneapolis",
            state: "MN",
            latitude_bits: 0x42336546,
            longitude_bits: 0xc2bb216f,
            elevation_meters: 288,
        },
        // Mississippi
        // 32.2800, -89.9844
        SiteEntry {
            id: "KDGX",
            city: "Brandon",
            state: "MS",
            latitude_bits: 0x42011eb8,
            longitude_bits: 0xc2b3f803,
            elevation_meters: 149,
        },
        // 33.8967, -88.3289
        SiteEntry {
            id: "KGWX",
            city: "Columbus AFB",
            state: "MS",
            latitude_bits: 0x42079639,
            longitude_bits: 0xc2b0a866,
            elevation_meters: 145,
        },
        // Missouri
        // 38.8103, -94.2644
        SiteEntry {
            id: "KEAX",
            city: "Kansas City",
            state: "MO",
            latitude_bits: 0x421b3dbf,
            longitude_bits: 0xc2bc875f,
            elevation_meters: 303,
        },
        // 38.6986, -90.6828
        SiteEntry {
            id: "KLSX",
            city: "St. Louis",
            state: "MO",
            latitude_bits: 0x421acb5e,
            longitude_bits: 0xc2b55d98,
            elevation_meters: 185,
        },
        // 37.2353, -93.4006
        SiteEntry {
            id: "KSGF",
            city: "Springfield",
            state: "MO",
            latitude_bits: 0x4214f0f2,
            longitude_bits: 0xc2bacd1b,
            elevation_meters: 390,
        },
        // Montana
        // 45.8536, -108.6069
        SiteEntry {
            id: "KBLX",
            city: "Billings",
            state: "MT",
            latitude_bits: 0x42376a16,
            longitude_bits: 0xc2d936bc,
            elevation_meters: 1097,
        },
        // 48.2064, -106.6253
        SiteEntry {
            id: "KGGW",
            city: "Glasgow",
            state: "MT",
            latitude_bits: 0x4240d35b,
            longitude_bits: 0xc2d54027,
            elevation_meters: 694,
        },
        // 47.0411, -113.9864
        SiteEntry {
            id: "KMSX",
            city: "Missoula",
            state: "MT",
            latitude_bits: 0x423c2a16,
            longitude_bits: 0xc2e3f909,
            elevation_meters: 2394,
        },
        // 47.4597, -111.3853
        SiteEntry {
            id: "KTFX",
            city: "Great Falls",
            state: "MT",
            latitude_bits: 0x423dd6bc,
            longitude_bits: 0xc2dec546,
            elevation_meters: 1132,
        },
        // Nebraska
        // 41.9578, -100.5761
        SiteEntry {
            id: "KLNX",
            city: "North Platte",
            state: "NE",
            latitude_bits: 0x4227d4ca,
            longitude_bits: 0xc2c926f7,
            elevation_meters: 906,
        },
        // 41.3203, -96.3667
        SiteEntry {
            id: "KOAX",
            city: "Omaha",
            state: "NE",
            latitude_bits: 0x422547fd,
            longitude_bits: 0xc2c0bbc0,
            elevation_meters: 350,
        },
        // 40.3208, -98.4419
        SiteEntry {
            id: "KUEX",
            city: "Hastings",
            state: "NE",
            latitude_bits: 0x42214880,
            longitude_bits: 0xc2c4e241,
            elevation_meters: 602,
        },
        // Nevada
        // 40.7400, -116.8025
        SiteEntry {
            id: "KLRX",
            city: "Elko",
            state: "NV",
            latitude_bits: 0x4222f5c3,
            longitude_bits: 0xc2e99ae1,
            elevation_meters: 2056,
        },
        // 35.7011, -114.8914
        SiteEntry {
            id: "KESX",
            city: "Las Vegas",
            state: "NV",
            latitude_bits: 0x420ecded,
            longitude_bits: 0xc2e5c866,
            elevation_meters: 1483,
        },
        // 39.7542, -119.4622
        SiteEntry {
            id: "KRGX",
            city: "Reno",
            state: "NV",
            latitude_bits: 0x421f044d,
            longitude_bits: 0xc2eeeca5,
            elevation_meters: 2530,
        },
        // New Mexico
        // 35.1497, -106.8239
        SiteEntry {
            id: "KABX",
            city: "Albuquerque",
            state: "NM",
            latitude_bits: 0x420c994b,
            longitude_bits: 0xc2d5a5d6,
            elevation_meters: 1789,
        },
        // 34.6350, -103.6297
        SiteEntry {
            id: "KFDX",
            city: "Cannon AFB",
            state: "NM",
            latitude_bits: 0x420a8a3d,
            longitude_bits: 0xc2cf4268,
            elevation_meters: 1417,
        },
        // 33.0769, -106.12
        SiteEntry {
            id: "KHDX",
            city: "Holloman AFB",
            state: "NM",
            latitude_bits: 0x42044ebf,
            longitude_bits: 0xc2d43d71,
            elevation_meters: 1287,
        },
        // New York
        // 42.1997, -75.9847
        SiteEntry {
            id: "KBGM",
            city: "Binghamton",
            state: "NY",
            latitude_bits: 0x4228cc7e,
            longitude_bits: 0xc297f82b,
            elevation_meters: 490,
        },
        // 42.9486, -78.7369
        SiteEntry {
            id: "KBUF",
            city: "Buffalo",
            state: "NY",
            latitude_bits: 0x422bcb5e,
            longitude_bits: 0xc29d794b,
            elevation_meters: 211,
        },
        // 42.5864, -74.0639
        SiteEntry {
            id: "KENX",
            city: "Albany",
            state: "NY",
            latitude_bits: 0x422a5879,
            longitude_bits: 0xc29420b8,
            elevation_meters: 557,
        },
        // 43.7558, -75.6800
        SiteEntry {
            id: "KTYX",
            city: "Montague",
            state: "NY",
            latitude_bits: 0x422f05f0,
            longitude_bits: 0xc2975c29,
            elevation_meters: 562,
        },
        // North Carolina
        // 34.7761, -76.8764
        SiteEntry {
            id: "KMHX",
            city: "Morehead City",
            state: "NC",
            latitude_bits: 0x420b1aba,
            longitude_bits: 0xc299c0b8,
            elevation_meters: 9,
        },
        // 35.6656, -78.4903
        SiteEntry {
            id: "KRAX",
            city: "Raleigh",
            state: "NC",
            latitude_bits: 0x420ea993,
            longitude_bits: 0xc29cfb09,
            elevation_meters: 106,
        },
        // 33.9892, -78.4292
        SiteEntry {
            id: "KLTX",
            city: "Wilmington",
            state: "NC",
            latitude_bits: 0x4207f4f1,
            longitude_bits: 0xc29cdbc0,
            elevation_meters: 19,
        },
        // North Dakota
        // 46.7708, -100.7603
        SiteEntry {
            id: "KBIS",
            city: "Bismarck",
            state: "ND",
            latitude_bits: 0x423b154d,
            longitude_bits: 0xc2c98546,
            elevation_meters: 505,
        },
        // 47.5281, -97.3256
        SiteEntry {
            id: "KMVX",
            city: "Fargo",
            state: "ND",
            latitude_bits: 0x423e1cc6,
            longitude_bits: 0xc2c2a6b5,
            elevation_meters: 301,
        },
        // 48.3925, -100.8644
        SiteEntry {
            id: "KMBX",
            city: "Minot AFB",
            state: "ND",
            latitude_bits: 0x424191ec,
            longitude_bits: 0xc2c9ba93,
            elevation_meters: 455,
        },
        // Ohio
        // 41.4131, -81.8597
        SiteEntry {
            id: "KCLE",
            city: "Cleveland",
            state: "OH",
            latitude_bits: 0x4225a704,
            longitude_bits: 0xc2a3b82b,
            elevation_meters: 233,
        },
        // 39.4203, -83.8217
        SiteEntry {
            id: "KILN",
            city: "Wilmington",
            state: "OH",
            latitude_bits: 0x421dae63,
            longitude_bits: 0xc2a7a4b6,
            elevation_meters: 322,
        },
        // Oklahoma
        // 34.3622, -98.9764
        SiteEntry {
            id: "KFDR",
            city: "Frederick",
            state: "OK",
            latitude_bits: 0x420972e5,
            longitude_bits: 0xc2c5f3eb,
            elevation_meters: 386,
        },
        // 36.1750, -95.5647
        SiteEntry {
            id: "KINX",
            city: "Tulsa",
            state: "OK",
            latitude_bits: 0x4210b333,
            longitude_bits: 0xc2bf2120,
            elevation_meters: 204,
        },
        // 35.3331, -97.2778
        SiteEntry {
            id: "KTLX",
            city: "Oklahoma City",
            state: "OK",
            latitude_bits: 0x420d5518,
            longitude_bits: 0xc2c28e3c,
            elevation_meters: 370,
        },
        // 36.7406, -98.1278
        SiteEntry {
            id: "KVNX",
            city: "Vance AFB",
            state: "OK",
            latitude_bits: 0x4212f660,
            longitude_bits: 0xc2c4416f,
            elevation_meters: 369,
        },
        // Oregon
        // 42.0811, -122.7167
        SiteEntry {
            id: "KMAX",
            city: "Medford",
            state: "OR",
            latitude_bits: 0x4228530c,
            longitude_bits: 0xc2f56ef3,
            elevation_meters: 2290,
        },
        // 45.6906, -118.8528
        SiteEntry {
            id: "KPDT",
            city: "Pendleton",
            state: "OR",
            latitude_bits: 0x4236c32d,
            longitude_bits: 0xc2edb4a2,
            elevation_meters: 462,
        },
        // 45.7150, -122.9653
        SiteEntry {
            id: "KRTX",
            city: "Portland",
            state: "OR",
            latitude_bits: 0x4236dc29,
            longitude_bits: 0xc2f5ee3c,
            elevation_meters: 479,
        },
        // Pennsylvania
        // 40.9231, -78.0039
        SiteEntry {
            id: "KCCX",
            city: "State College",
            state: "PA",
            latitude_bits: 0x4223b141,
            longitude_bits: 0xc29c01ff,
            elevation_meters: 733,
        },
        // 39.9469, -74.4108
        SiteEntry {
            id: "KDIX",
            city: "Philadelphia",
            state: "PA",
            latitude_bits: 0x421fc9a0,
            longitude_bits: 0xc294d254,
            elevation_meters: 45,
        },
        // 40.5317, -80.0183
        SiteEntry {
            id: "KPBZ",
            city: "Pittsburgh",
            state: "PA",
            latitude_bits: 0x42222076,
            longitude_bits: 0xc2a0095f,
            elevation_meters: 361,
        },
        // Puerto Rico
        // 18.1156, -66.0781
        SiteEntry {
            id: "TJUA",
            city: "San Juan",
            state: "PR",
            latitude_bits: 0x4190ecc0,
            longitude_bits: 0xc28427fd,
            elevation_meters: 867,
        },
        // South Carolina
        // 33.9486, -81.1186
        SiteEntry {
            id: "KCAE",
            city: "Columbia",
            state: "SC",
            latitude_bits: 0x4207cb5e,
            longitude_bits: 0xc2a23cb9,
            elevation_meters: 70,
        },
        // 32.6556, -81.0425
        SiteEntry {
            id: "KCLX",
            city: "Charleston",
            state: "SC",
            latitude_bits: 0x42029f56,
            longitude_bits: 0xc2a215c3,
            elevation_meters: 30,
        },
        // 34.8833, -82.2200
        SiteEntry {
            id: "KGSP",
            city: "Greenville",
            state: "SC",
            latitude_bits: 0x420b8880,
            longitude_bits: 0xc2a470a4,
            elevation_meters: 296,
        },
        // South Dakota
        // 45.4558, -98.4131
        SiteEntry {
            id: "KABR",
            city: "Aberdeen",
            state: "SD",
            latitude_bits: 0x4235d2bd,
            longitude_bits: 0xc2c4d382,
            elevation_meters: 397,
        },
        // 44.1250, -102.8297
        SiteEntry {
            id: "KUDX",
            city: "Rapid City",
            state: "SD",
            latitude_bits: 0x42308000,
            longitude_bits: 0xc2cda8ce,
            elevation_meters: 919,
        },
        // 43.5878, -96.7289
        SiteEntry {
            id: "KFSD",
            city: "Sioux Falls",
            state: "SD",
            latitude_bits: 0x422e59e8,
            longitude_bits: 0xc2c17532,
            elevation_meters: 436,
        },
        // Tennessee
        // 36.1686, -83.4017
        SiteEntry {
            id: "KMRX",
            city: "Knoxville",
            state: "TN",
            latitude_bits: 0x4210aca5,
            longitude_bits: 0xc2a6cdac,
            elevation_meters: 408,
        },
        // 35.3447, -89.8733
        SiteEntry {
            id: "KNQA",
            city: "Memphis",
            state: "TN",
            latitude_bits: 0x420d60f9,
            longitude_bits: 0xc2b3bf21,
            elevation_meters: 86,
        },
        // 36.2472, -86.5625
        SiteEntry {
            id: "KOHX",
            city: "Nashville",
            state: "TN",
            latitude_bits: 0x4210fd22,
            longitude_bits: 0xc2ad2000,
            elevation_meters: 176,
        },
        // Texas
        // 35.2333, -101.7092
        SiteEntry {
            id: "KAMA",
            city: "Amarillo",
            state: "TX",
            latitude_bits: 0x420ceee6,
            longitude_bits: 0xc2cb6b1c,
            elevation_meters: 1093,
        },
        // 25.9158, -97.4189
        SiteEntry {
            id: "KBRO",
            city: "Brownsville",
            state: "TX",
            latitude_bits: 0x41cf538f,
            longitude_bits: 0xc2c2d67a,
            elevation_meters: 7,
        },
        // 27.7842, -97.5111
        SiteEntry {
            id: "KCRP",
            city: "Corpus Christi",
            state: "TX",
            latitude_bits: 0x41de460b,
            longitude_bits: 0xc2c305af,
            elevation_meters: 14,
        },
        // 29.2722, -100.2803
        SiteEntry {
            id: "KDFX",
            city: "Laughlin AFB",
            state: "TX",
            latitude_bits: 0x41ea2d77,
            longitude_bits: 0xc2c88f83,
            elevation_meters: 345,
        },
        // 32.5386, -99.2544
        SiteEntry {
            id: "KDYX",
            city: "Dyess AFB",
            state: "TX",
            latitude_bits: 0x42022787,
            longitude_bits: 0xc2c68241,
            elevation_meters: 463,
        },
        // 31.8731, -106.6978
        SiteEntry {
            id: "KEPZ",
            city: "El Paso",
            state: "TX",
            latitude_bits: 0x41fefc1c,
            longitude_bits: 0xc2d56546,
            elevation_meters: 1251,
        },
        // 29.7039, -98.0286
        SiteEntry {
            id: "KEWX",
            city: "San Antonio",
            state: "TX",
            latitude_bits: 0x41eda196,
            longitude_bits: 0xc2c40ea5,
            elevation_meters: 193,
        },
        // 32.5731, -97.3031
        SiteEntry {
            id: "KFWS",
            city: "Dallas/Fort Worth",
            state: "TX",
            latitude_bits: 0x42024adb,
            longitude_bits: 0xc2c29b30,
            elevation_meters: 208,
        },
        // 30.7217, -97.3828
        SiteEntry {
            id: "KGRK",
            city: "Fort Hood",
            state: "TX",
            latitude_bits: 0x41f5c60b,
            longitude_bits: 0xc2c2c3fe,
            elevation_meters: 164,
        },
        // 33.6542, -101.8142
        SiteEntry {
            id: "KLBB",
            city: "Lubbock",
            state: "TX",
            latitude_bits: 0x42069de7,
            longitude_bits: 0xc2cba0df,
            elevation_meters: 993,
        },
        // 31.9433, -102.1892
        SiteEntry {
            id: "KMAF",
            city: "Midland/Odessa",
            state: "TX",
            latitude_bits: 0x41ff8be1,
            longitude_bits: 0xc2cc60df,
            elevation_meters: 874,
        },
        // 31.3714, -100.4925
        SiteEntry {
            id: "KSJT",
            city: "San Angelo",
            state: "TX",
            latitude_bits: 0x41faf8a1,
            longitude_bits: 0xc2c8fc29,
            elevation_meters: 576,
        },
        // Utah
        // 37.5911, -112.8622
        SiteEntry {
            id: "KICX",
            city: "Cedar City",
            state: "UT",
            latitude_bits: 0x42165d49,
            longitude_bits: 0xc2e1b972,
            elevation_meters: 3231,
        },
        // 41.2628, -112.4478
        SiteEntry {
            id: "KMTX",
            city: "Salt Lake City",
            state: "UT",
            latitude_bits: 0x42250d1b,
            longitude_bits: 0xc2e0e546,
            elevation_meters: 1969,
        },
        // Vermont
        // 44.5111, -73.1667
        SiteEntry {
            id: "KCXX",
            city: "Burlington",
            state: "VT",
            latitude_bits: 0x42320b5e,
            longitude_bits: 0xc292555a,
            elevation_meters: 97,
        },
        // Virginia
        // 37.0242, -80.2744
        SiteEntry {
            id: "KFCX",
            city: "Roanoke",
            state: "VA",
            latitude_bits: 0x421418c8,
            longitude_bits: 0xc2a08c7e,
            elevation_meters: 874,
        },
        // Washington
        // 48.1944, -122.4958
        SiteEntry {
            id: "KATX",
            city: "Seattle",
            state: "WA",
            latitude_bits: 0x4240c711,
            longitude_bits: 0xc2f4fdd9,
            elevation_meters: 151,
        },
        // 47.6806, -117.6267
        SiteEntry {
            id: "KOTX",
            city: "Spokane",
            state: "WA",
            latitude_bits: 0x423eb8ef,
            longitude_bits: 0xc2eb40df,
            elevation_meters: 728,
        },
        // West Virginia
        // 38.3111, -81.7231
        SiteEntry {
            id: "KRLX",
            city: "Charleston",
            state: "WV",
            latitude_bits: 0x42193e91,
            longitude_bits: 0xc2a3723a,
            elevation_meters: 329,
        },
        // Wisconsin
        // 43.8228, -91.1911
        SiteEntry {
            id: "KARX",
            city: "La Crosse",
            state: "WI",
            latitude_bits: 0x422f4a8c,
            longitude_bits: 0xc2b661d8,
            elevation_meters: 389,
        },
        // 44.4986, -88.1111
        SiteEntry {
            id: "KGRB",
            city: "Green Bay",
            state: "WI",
            latitude_bits: 0x4231fe91,
            longitude_bits: 0xc2b038e2,
            elevation_meters: 208,
        },
        // 42.9678, -88.5506
        SiteEntry {
            id: "KMKX",
            city: "Milwaukee",
            state: "WI",
            latitude_bits: 0x422bdf07,
            longitude_bits: 0xc2b119e8,
            elevation_meters: 292,
        },
        // Wyoming
        // 41.1519, -104.8061
        SiteEntry {
            id: "KCYS",
            city: "Cheyenne",
            state: "WY",
            latitude_bits: 0x42249b8c,
            longitude_bits: 0xc2d19cb9,
            elevation_meters: 1868,
        },
        // 43.0661, -108.4772
        SiteEntry {
            id: "KRIW",
            city: "Riverton",
            state: "WY",
            latitude_bits: 0x422c43b0,
            longitude_bits: 0xc2d8f454,
            elevation_meters: 1697,
        },
        // Guam
        // 13.4544, 144.8111
        SiteEntry {
            id: "PGUA",
            city: "Andersen AFB",
            state: "GU",
            latitude_bits: 0x41574539,
            longitude_bits: 0x4310cfa4,
            elevation_meters: 78,
        },
        // DoD/CONUS
        // 40.9231, -78.0039
        SiteEntry {
            id: "KCCX",
            city: "State College",
            state: "PA",
            latitude_bits: 0x4223b141,
            longitude_bits: 0xc29c01ff,
            elevation_meters: 733,
        },
    ]
}

} // verus!
