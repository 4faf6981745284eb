//! Lookup laws of the site registry: each listed identifier finds its site.
use vstd::prelude::*;
use crate::model::meta::registry::{SiteEntry, first_with_id, site_table};

verus! {

/// A four-character identifier as a number: its characters in base 128.
pub open spec fn id_code(id: Seq<char>) -> int {
    (id[0] as int) * 0x20_0000 + (id[1] as int) * 0x4000 + (id[2] as int) * 0x80 + (id[3] as int)
}

/// Looking up in two lists joined: the first list is searched first, then
/// the second.
pub broadcast proof fn lemma_first_with_id_concat(a: Seq<SiteEntry>, b: Seq<SiteEntry>, id: Seq<char>)
    ensures
        #[trigger] first_with_id(a + b, id) == (if first_with_id(a, id) is Some {
            first_with_id(a, id)
        } else {
            first_with_id(b, id)
        }),
    decreases a.len(),
{
    if a.len() == 0 {
        assert(a + b =~= b);
    } else {
        assert((a + b)[0] == a[0]);
        assert((a + b).drop_first() =~= a.drop_first() + b);
        lemma_first_with_id_concat(a.drop_first(), b, id);
    }
}

/// The registry as six consecutive parts of at most 30 sites.
pub open spec fn table_in_parts() -> Seq<SiteEntry> {
    let t = site_table();
    t.subrange(0, 30) + t.subrange(30, 60) + t.subrange(60, 90) + t.subrange(90, 120) + t.subrange(120, 150)
        + t.subrange(150, 157)
}

proof fn lemma_table_in_parts()
    ensures
        site_table() == table_in_parts(),
{
    assert(site_table() =~= table_in_parts());
}

/// The identifier codes of the registry's sites.
proof fn lemma_registry_id_codes()
    ensures
        id_code("KBMX"@) == 158377688,
        id_code("KEOX"@) == 158427096,
        id_code("KHTX"@) == 158476888,
        id_code("KMOB"@) == 158558146,
        id_code("KMXX"@) == 158559320,
        id_code("KABC"@) == 158359875,
        id_code("KAKQ"@) == 158361041,
        id_code("KAPX"@) == 158361688,
        id_code("KACG"@) == 158360007,
        id_code("KAIH"@) == 158360776,
        id_code("KAKC"@) == 158361027,
        id_code("PABC"@) == 168845635,
        id_code("PACG"@) == 168845767,
        id_code("PAEC"@) == 168846019,
        id_code("PAHG"@) == 168846407,
        id_code("PAIH"@) == 168846536,
        id_code("PAKC"@) == 168846787,
        id_code("KEMX"@) == 158426840,
        id_code("KFSX"@) == 158443992,
        id_code("KIWA"@) == 158493633,
        id_code("KYUX"@) == 158755544,
        id_code("KLZK"@) == 158543179,
        id_code("KSRX"@) == 158656856,
        id_code("KBBX"@) == 158376280,
        id_code("KEYX"@) == 158428376,
        id_code("KHNX"@) == 158476120,
        id_code("KMUX"@) == 158558936,
        id_code("KNKX"@) == 158574040,
        id_code("KSOX"@) == 158656472,
        id_code("KVBX"@) == 158703960,
        id_code("KVTX"@) == 158706264,
        id_code("KDAX"@) == 158408920,
        id_code("KFTG"@) == 158444103,
        id_code("KGJX"@) == 158459224,
        id_code("KPUX"@) == 158608088,
        id_code("KOKX"@) == 158590424,
        id_code("KAMX"@) == 158361304,
        id_code("KEVX"@) == 158427992,
        id_code("KJAX"@) == 158507224,
        id_code("KMLB"@) == 158557762,
        id_code("KTBW"@) == 158671191,
        id_code("KTLH"@) == 158672456,
        id_code("KBYX"@) == 158379224,
        id_code("KFFC"@) == 158442307,
        id_code("KJGX"@) == 158507992,
        id_code("KVAX"@) == 158703832,
        id_code("PHKI"@) == 168961481,
        id_code("PHKM"@) == 168961485,
        id_code("PHMO"@) == 168961743,
        id_code("PHWA"@) == 168963009,
        id_code("KCBX"@) == 158392664,
        id_code("KSFX"@) == 158655320,
        id_code("KILX"@) == 158492248,
        id_code("KLOT"@) == 158541780,
        id_code("KIND"@) == 158492484,
        id_code("KIWX"@) == 158493656,
        id_code("KVWX"@) == 158706648,
        id_code("KDMX"@) == 158410456,
        id_code("KDVN"@) == 158411598,
        id_code("KDDC"@) == 158409283,
        id_code("KGLD"@) == 158459460,
        id_code("KICT"@) == 158491092,
        id_code("KTWX"@) == 158673880,
        id_code("KHPX"@) == 158476376,
        id_code("KJKL"@) == 158508492,
        id_code("KLVX"@) == 158542680,
        id_code("KPAH"@) == 158605512,
        id_code("KHGX"@) == 158475224,
        id_code("KLCH"@) == 158540232,
        id_code("KLIX"@) == 158541016,
        id_code("KPOE"@) == 158607301,
        id_code("KSHV"@) == 158655574,
        id_code("KCBW"@) == 158392663,
        id_code("KGYX"@) == 158461144,
        id_code("KLWX"@) == 158542808,
        id_code("KBOX"@) == 158377944,
        id_code("KDTX"@) == 158411352,
        id_code("KGRR"@) == 158460242,
        id_code("KMQT"@) == 158558420,
        id_code("KDLH"@) == 158410312,
        id_code("KMPX"@) == 158558296,
        id_code("KDGX"@) == 158409688,
        id_code("KGWX"@) == 158460888,
        id_code("KEAX"@) == 158425304,
        id_code("KLSX"@) == 158542296,
        id_code("KSGF"@) == 158655430,
        id_code("KBLX"@) == 158377560,
        id_code("KGGW"@) == 158458839,
        id_code("KMSX"@) == 158558680,
        id_code("KTFX"@) == 158671704,
        id_code("KLNX"@) == 158541656,
        id_code("KOAX"@) == 158589144,
        id_code("KUEX"@) == 158687960,
        id_code("KLRX"@) == 158542168,
        id_code("KESX"@) == 158427608,
        id_code("KRGX"@) == 158639064,
        id_code("KABX"@) == 158359896,
        id_code("KFDX"@) == 158442072,
        id_code("KHDX"@) == 158474840,
        id_code("KBGM"@) == 158376909,
        id_code("KBUF"@) == 158378694,
        id_code("KENX"@) == 158426968,
        id_code("KTYX"@) == 158674136,
        id_code("KMHX"@) == 158557272,
        id_code("KRAX"@) == 158638296,
        id_code("KLTX"@) == 158542424,
        id_code("KBIS"@) == 158377171,
        id_code("KMVX"@) == 158559064,
        id_code("KMBX"@) == 158556504,
        id_code("KCLE"@) == 158393925,
        id_code("KILN"@) == 158492238,
        id_code("KFDR"@) == 158442066,
        id_code("KINX"@) == 158492504,
        id_code("KTLX"@) == 158672472,
        id_code("KVNX"@) == 158705496,
        id_code("KMAX"@) == 158556376,
        id_code("KPDT"@) == 158605908,
        id_code("KRTX"@) == 158640728,
        id_code("KCCX"@) == 158392792,
        id_code("KDIX"@) == 158409944,
        id_code("KPBZ"@) == 158605658,
        id_code("TJUA"@) == 177384129,
        id_code("KCAE"@) == 158392517,
        id_code("KCLX"@) == 158393944,
        id_code("KGSP"@) == 158460368,
        id_code("KABR"@) == 158359890,
        id_code("KUDX"@) == 158687832,
        id_code("KFSD"@) == 158443972,
        id_code("KMRX"@) == 158558552,
        id_code("KNQA"@) == 158574785,
        id_code("KOHX"@) == 158590040,
        id_code("KAMA"@) == 158361281,
        id_code("KBRO"@) == 158378319,
        id_code("KCRP"@) == 158394704,
        id_code("KDFX"@) == 158409560,
        id_code("KDYX"@) == 158411992,
        id_code("KEPZ"@) == 158427226,
        id_code("KEWX"@) == 158428120,
        id_code("KFWS"@) == 158444499,
        id_code("KGRK"@) == 158460235,
        id_code("KLBB"@) == 158540098,
        id_code("KMAF"@) == 158556358,
        id_code("KSJT"@) == 158655828,
        id_code("KICX"@) == 158491096,
        id_code("KMTX"@) == 158558808,
        id_code("KCXX"@) == 158395480,
        id_code("KFCX"@) == 158441944,
        id_code("KATX"@) == 158362200,
        id_code("KOTX"@) == 158591576,
        id_code("KRLX"@) == 158639704,
        id_code("KARX"@) == 158361944,
        id_code("KGRB"@) == 158460226,
        id_code("KMKX"@) == 158557656,
        id_code("KCYS"@) == 158395603,
        id_code("KRIW"@) == 158639319,
        id_code("PGUA"@) == 168946369,
{
    reveal_strlit("KBMX");
    reveal_strlit("KEOX");
    reveal_strlit("KHTX");
    reveal_strlit("KMOB");
    reveal_strlit("KMXX");
    reveal_strlit("KABC");
    reveal_strlit("KAKQ");
    reveal_strlit("KAPX");
    reveal_strlit("KACG");
    reveal_strlit("KAIH");
    reveal_strlit("KAKC");
    reveal_strlit("PABC");
    reveal_strlit("PACG");
    reveal_strlit("PAEC");
    reveal_strlit("PAHG");
    reveal_strlit("PAIH");
    reveal_strlit("PAKC");
    reveal_strlit("KEMX");
    reveal_strlit("KFSX");
    reveal_strlit("KIWA");
    reveal_strlit("KYUX");
    reveal_strlit("KLZK");
    reveal_strlit("KSRX");
    reveal_strlit("KBBX");
    reveal_strlit("KEYX");
    reveal_strlit("KHNX");
    reveal_strlit("KMUX");
    reveal_strlit("KNKX");
    reveal_strlit("KSOX");
    reveal_strlit("KVBX");
    reveal_strlit("KVTX");
    reveal_strlit("KDAX");
    reveal_strlit("KFTG");
    reveal_strlit("KGJX");
    reveal_strlit("KPUX");
    reveal_strlit("KOKX");
    reveal_strlit("KAMX");
    reveal_strlit("KEVX");
    reveal_strlit("KJAX");
    reveal_strlit("KMLB");
    reveal_strlit("KTBW");
    reveal_strlit("KTLH");
    reveal_strlit("KBYX");
    reveal_strlit("KFFC");
    reveal_strlit("KJGX");
    reveal_strlit("KVAX");
    reveal_strlit("PHKI");
    reveal_strlit("PHKM");
    reveal_strlit("PHMO");
    reveal_strlit("PHWA");
    reveal_strlit("KCBX");
    reveal_strlit("KSFX");
    reveal_strlit("KILX");
    reveal_strlit("KLOT");
    reveal_strlit("KIND");
    reveal_strlit("KIWX");
    reveal_strlit("KVWX");
    reveal_strlit("KDMX");
    reveal_strlit("KDVN");
    reveal_strlit("KDDC");
    reveal_strlit("KGLD");
    reveal_strlit("KICT");
    reveal_strlit("KTWX");
    reveal_strlit("KHPX");
    reveal_strlit("KJKL");
    reveal_strlit("KLVX");
    reveal_strlit("KPAH");
    reveal_strlit("KHGX");
    reveal_strlit("KLCH");
    reveal_strlit("KLIX");
    reveal_strlit("KPOE");
    reveal_strlit("KSHV");
    reveal_strlit("KCBW");
    reveal_strlit("KGYX");
    reveal_strlit("KLWX");
    reveal_strlit("KBOX");
    reveal_strlit("KDTX");
    reveal_strlit("KGRR");
    reveal_strlit("KMQT");
    reveal_strlit("KDLH");
    reveal_strlit("KMPX");
    reveal_strlit("KDGX");
    reveal_strlit("KGWX");
    reveal_strlit("KEAX");
    reveal_strlit("KLSX");
    reveal_strlit("KSGF");
    reveal_strlit("KBLX");
    reveal_strlit("KGGW");
    reveal_strlit("KMSX");
    reveal_strlit("KTFX");
    reveal_strlit("KLNX");
    reveal_strlit("KOAX");
    reveal_strlit("KUEX");
    reveal_strlit("KLRX");
    reveal_strlit("KESX");
    reveal_strlit("KRGX");
    reveal_strlit("KABX");
    reveal_strlit("KFDX");
    reveal_strlit("KHDX");
    reveal_strlit("KBGM");
    reveal_strlit("KBUF");
    reveal_strlit("KENX");
    reveal_strlit("KTYX");
    reveal_strlit("KMHX");
    reveal_strlit("KRAX");
    reveal_strlit("KLTX");
    reveal_strlit("KBIS");
    reveal_strlit("KMVX");
    reveal_strlit("KMBX");
    reveal_strlit("KCLE");
    reveal_strlit("KILN");
    reveal_strlit("KFDR");
    reveal_strlit("KINX");
    reveal_strlit("KTLX");
    reveal_strlit("KVNX");
    reveal_strlit("KMAX");
    reveal_strlit("KPDT");
    reveal_strlit("KRTX");
    reveal_strlit("KCCX");
    reveal_strlit("KDIX");
    reveal_strlit("KPBZ");
    reveal_strlit("TJUA");
    reveal_strlit("KCAE");
    reveal_strlit("KCLX");
    reveal_strlit("KGSP");
    reveal_strlit("KABR");
    reveal_strlit("KUDX");
    reveal_strlit("KFSD");
    reveal_strlit("KMRX");
    reveal_strlit("KNQA");
    reveal_strlit("KOHX");
    reveal_strlit("KAMA");
    reveal_strlit("KBRO");
    reveal_strlit("KCRP");
    reveal_strlit("KDFX");
    reveal_strlit("KDYX");
    reveal_strlit("KEPZ");
    reveal_strlit("KEWX");
    reveal_strlit("KFWS");
    reveal_strlit("KGRK");
    reveal_strlit("KLBB");
    reveal_strlit("KMAF");
    reveal_strlit("KSJT");
    reveal_strlit("KICX");
    reveal_strlit("KMTX");
    reveal_strlit("KCXX");
    reveal_strlit("KFCX");
    reveal_strlit("KATX");
    reveal_strlit("KOTX");
    reveal_strlit("KRLX");
    reveal_strlit("KARX");
    reveal_strlit("KGRB");
    reveal_strlit("KMKX");
    reveal_strlit("KCYS");
    reveal_strlit("KRIW");
    reveal_strlit("PGUA");
}

/// Lookups in sites 0 to 29 of the registry.
proof fn lemma_part_0_lookups_0()
    ensures
        first_with_id(site_table().subrange(0, 30), "KBMX"@) matches Some(e) && e.id@ == "KBMX"@ && e.city@ == "Birmingham"@ && e.state@ == "AL"@,
        first_with_id(site_table().subrange(0, 30), "KEOX"@) matches Some(e) && e.id@ == "KEOX"@ && e.city@ == "Fort Rucker"@ && e.state@ == "AL"@,
        first_with_id(site_table().subrange(0, 30), "KHTX"@) matches Some(e) && e.id@ == "KHTX"@ && e.city@ == "Huntsville"@ && e.state@ == "AL"@,
        first_with_id(site_table().subrange(0, 30), "KMOB"@) matches Some(e) && e.id@ == "KMOB"@ && e.city@ == "Mobile"@ && e.state@ == "AL"@,
        first_with_id(site_table().subrange(0, 30), "KMXX"@) matches Some(e) && e.id@ == "KMXX"@ && e.city@ == "Maxwell AFB"@ && e.state@ == "AL"@,
        first_with_id(site_table().subrange(0, 30), "KABC"@) matches Some(e) && e.id@ == "KABC"@ && e.city@ == "Bethel"@ && e.state@ == "AK"@,
        first_with_id(site_table().subrange(0, 30), "KAKQ"@) matches Some(e) && e.id@ == "KAKQ"@ && e.city@ == "Wakefield"@ && e.state@ == "VA"@,
        first_with_id(site_table().subrange(0, 30), "KAPX"@) matches Some(e) && e.id@ == "KAPX"@ && e.city@ == "Gaylord"@ && e.state@ == "MI"@,
        first_with_id(site_table().subrange(0, 30), "KACG"@) matches Some(e) && e.id@ == "KACG"@ && e.city@ == "Sitka"@ && e.state@ == "AK"@,
        first_with_id(site_table().subrange(0, 30), "KAIH"@) matches Some(e) && e.id@ == "KAIH"@ && e.city@ == "Middleton Island"@ && e.state@ == "AK"@,
        first_with_id(site_table().subrange(0, 30), "KAKC"@) matches Some(e) && e.id@ == "KAKC"@ && e.city@ == "King Salmon"@ && e.state@ == "AK"@,
        first_with_id(site_table().subrange(0, 30), "PABC"@) matches Some(e) && e.id@ == "PABC"@ && e.city@ == "Bethel"@ && e.state@ == "AK"@,
        first_with_id(site_table().subrange(0, 30), "PACG"@) matches Some(e) && e.id@ == "PACG"@ && e.city@ == "Sitka"@ && e.state@ == "AK"@,
        first_with_id(site_table().subrange(0, 30), "PAEC"@) matches Some(e) && e.id@ == "PAEC"@ && e.city@ == "Nome"@ && e.state@ == "AK"@,
        first_with_id(site_table().subrange(0, 30), "PAHG"@) matches Some(e) && e.id@ == "PAHG"@ && e.city@ == "Anchorage"@ && e.state@ == "AK"@,
        first_with_id(site_table().subrange(0, 30), "PAIH"@) matches Some(e) && e.id@ == "PAIH"@ && e.city@ == "Middleton Island"@ && e.state@ == "AK"@,
        first_with_id(site_table().subrange(0, 30), "PAKC"@) matches Some(e) && e.id@ == "PAKC"@ && e.city@ == "King Salmon"@ && e.state@ == "AK"@,
        first_with_id(site_table().subrange(0, 30), "KEMX"@) matches Some(e) && e.id@ == "KEMX"@ && e.city@ == "Tucson"@ && e.state@ == "AZ"@,
        first_with_id(site_table().subrange(0, 30), "KFSX"@) matches Some(e) && e.id@ == "KFSX"@ && e.city@ == "Flagstaff"@ && e.state@ == "AZ"@,
        first_with_id(site_table().subrange(0, 30), "KIWA"@) matches Some(e) && e.id@ == "KIWA"@ && e.city@ == "Phoenix"@ && e.state@ == "AZ"@,
        first_with_id(site_table().subrange(0, 30), "KYUX"@) matches Some(e) && e.id@ == "KYUX"@ && e.city@ == "Yuma"@ && e.state@ == "AZ"@,
        first_with_id(site_table().subrange(0, 30), "KLZK"@) matches Some(e) && e.id@ == "KLZK"@ && e.city@ == "Little Rock"@ && e.state@ == "AR"@,
        first_with_id(site_table().subrange(0, 30), "KSRX"@) matches Some(e) && e.id@ == "KSRX"@ && e.city@ == "Fort Smith"@ && e.state@ == "AR"@,
        first_with_id(site_table().subrange(0, 30), "KBBX"@) matches Some(e) && e.id@ == "KBBX"@ && e.city@ == "Beale AFB"@ && e.state@ == "CA"@,
        first_with_id(site_table().subrange(0, 30), "KEYX"@) matches Some(e) && e.id@ == "KEYX"@ && e.city@ == "Edwards AFB"@ && e.state@ == "CA"@,
        first_with_id(site_table().subrange(0, 30), "KHNX"@) matches Some(e) && e.id@ == "KHNX"@ && e.city@ == "Hanford"@ && e.state@ == "CA"@,
        first_with_id(site_table().subrange(0, 30), "KMUX"@) matches Some(e) && e.id@ == "KMUX"@ && e.city@ == "San Francisco"@ && e.state@ == "CA"@,
        first_with_id(site_table().subrange(0, 30), "KNKX"@) matches Some(e) && e.id@ == "KNKX"@ && e.city@ == "San Diego"@ && e.state@ == "CA"@,
        first_with_id(site_table().subrange(0, 30), "KSOX"@) matches Some(e) && e.id@ == "KSOX"@ && e.city@ == "Santa Ana Mountains"@ && e.state@ == "CA"@,
        first_with_id(site_table().subrange(0, 30), "KVBX"@) matches Some(e) && e.id@ == "KVBX"@ && e.city@ == "Vandenberg AFB"@ && e.state@ == "CA"@,
        first_with_id(site_table().subrange(0, 30), "KVTX"@) is None,
        first_with_id(site_table().subrange(0, 30), "KDAX"@) is None,
        first_with_id(site_table().subrange(0, 30), "KFTG"@) is None,
        first_with_id(site_table().subrange(0, 30), "KGJX"@) is None,
        first_with_id(site_table().subrange(0, 30), "KPUX"@) is None,
        first_with_id(site_table().subrange(0, 30), "KOKX"@) is None,
        first_with_id(site_table().subrange(0, 30), "KAMX"@) is None,
        first_with_id(site_table().subrange(0, 30), "KEVX"@) is None,
        first_with_id(site_table().subrange(0, 30), "KJAX"@) is None,
        first_with_id(site_table().subrange(0, 30), "KMLB"@) is None,
{
    reveal_with_fuel(first_with_id, 32);
    lemma_registry_id_codes();
}

/// Lookups in sites 0 to 29 of the registry.
proof fn lemma_part_0_lookups_1()
    ensures
        first_with_id(site_table().subrange(0, 30), "KTBW"@) is None,
        first_with_id(site_table().subrange(0, 30), "KTLH"@) is None,
        first_with_id(site_table().subrange(0, 30), "KBYX"@) is None,
        first_with_id(site_table().subrange(0, 30), "KFFC"@) is None,
        first_with_id(site_table().subrange(0, 30), "KJGX"@) is None,
        first_with_id(site_table().subrange(0, 30), "KVAX"@) is None,
        first_with_id(site_table().subrange(0, 30), "PHKI"@) is None,
        first_with_id(site_table().subrange(0, 30), "PHKM"@) is None,
        first_with_id(site_table().subrange(0, 30), "PHMO"@) is None,
        first_with_id(site_table().subrange(0, 30), "PHWA"@) is None,
        first_with_id(site_table().subrange(0, 30), "KCBX"@) is None,
        first_with_id(site_table().subrange(0, 30), "KSFX"@) is None,
        first_with_id(site_table().subrange(0, 30), "KILX"@) is None,
        first_with_id(site_table().subrange(0, 30), "KLOT"@) is None,
        first_with_id(site_table().subrange(0, 30), "KIND"@) is None,
        first_with_id(site_table().subrange(0, 30), "KIWX"@) is None,
        first_with_id(site_table().subrange(0, 30), "KVWX"@) is None,
        first_with_id(site_table().subrange(0, 30), "KDMX"@) is None,
        first_with_id(site_table().subrange(0, 30), "KDVN"@) is None,
        first_with_id(site_table().subrange(0, 30), "KDDC"@) is None,
        first_with_id(site_table().subrange(0, 30), "KGLD"@) is None,
        first_with_id(site_table().subrange(0, 30), "KICT"@) is None,
        first_with_id(site_table().subrange(0, 30), "KTWX"@) is None,
        first_with_id(site_table().subrange(0, 30), "KHPX"@) is None,
        first_with_id(site_table().subrange(0, 30), "KJKL"@) is None,
        first_with_id(site_table().subrange(0, 30), "KLVX"@) is None,
        first_with_id(site_table().subrange(0, 30), "KPAH"@) is None,
        first_with_id(site_table().subrange(0, 30), "KHGX"@) is None,
        first_with_id(site_table().subrange(0, 30), "KLCH"@) is None,
        first_with_id(site_table().subrange(0, 30), "KLIX"@) is None,
        first_with_id(site_table().subrange(0, 30), "KPOE"@) is None,
        first_with_id(site_table().subrange(0, 30), "KSHV"@) is None,
        first_with_id(site_table().subrange(0, 30), "KCBW"@) is None,
        first_with_id(site_table().subrange(0, 30), "KGYX"@) is None,
        first_with_id(site_table().subrange(0, 30), "KLWX"@) is None,
        first_with_id(site_table().subrange(0, 30), "KBOX"@) is None,
        first_with_id(site_table().subrange(0, 30), "KDTX"@) is None,
        first_with_id(site_table().subrange(0, 30), "KGRR"@) is None,
        first_with_id(site_table().subrange(0, 30), "KMQT"@) is None,
        first_with_id(site_table().subrange(0, 30), "KDLH"@) is None,
{
    reveal_with_fuel(first_with_id, 32);
    lemma_registry_id_codes();
}

/// Lookups in sites 0 to 29 of the registry.
proof fn lemma_part_0_lookups_2()
    ensures
        first_with_id(site_table().subrange(0, 30), "KMPX"@) is None,
        first_with_id(site_table().subrange(0, 30), "KDGX"@) is None,
        first_with_id(site_table().subrange(0, 30), "KGWX"@) is None,
        first_with_id(site_table().subrange(0, 30), "KEAX"@) is None,
        first_with_id(site_table().subrange(0, 30), "KLSX"@) is None,
        first_with_id(site_table().subrange(0, 30), "KSGF"@) is None,
        first_with_id(site_table().subrange(0, 30), "KBLX"@) is None,
        first_with_id(site_table().subrange(0, 30), "KGGW"@) is None,
        first_with_id(site_table().subrange(0, 30), "KMSX"@) is None,
        first_with_id(site_table().subrange(0, 30), "KTFX"@) is None,
        first_with_id(site_table().subrange(0, 30), "KLNX"@) is None,
        first_with_id(site_table().subrange(0, 30), "KOAX"@) is None,
        first_with_id(site_table().subrange(0, 30), "KUEX"@) is None,
        first_with_id(site_table().subrange(0, 30), "KLRX"@) is None,
        first_with_id(site_table().subrange(0, 30), "KESX"@) is None,
        first_with_id(site_table().subrange(0, 30), "KRGX"@) is None,
        first_with_id(site_table().subrange(0, 30), "KABX"@) is None,
        first_with_id(site_table().subrange(0, 30), "KFDX"@) is None,
        first_with_id(site_table().subrange(0, 30), "KHDX"@) is None,
        first_with_id(site_table().subrange(0, 30), "KBGM"@) is None,
        first_with_id(site_table().subrange(0, 30), "KBUF"@) is None,
        first_with_id(site_table().subrange(0, 30), "KENX"@) is None,
        first_with_id(site_table().subrange(0, 30), "KTYX"@) is None,
        first_with_id(site_table().subrange(0, 30), "KMHX"@) is None,
        first_with_id(site_table().subrange(0, 30), "KRAX"@) is None,
        first_with_id(site_table().subrange(0, 30), "KLTX"@) is None,
        first_with_id(site_table().subrange(0, 30), "KBIS"@) is None,
        first_with_id(site_table().subrange(0, 30), "KMVX"@) is None,
        first_with_id(site_table().subrange(0, 30), "KMBX"@) is None,
        first_with_id(site_table().subrange(0, 30), "KCLE"@) is None,
        first_with_id(site_table().subrange(0, 30), "KILN"@) is None,
        first_with_id(site_table().subrange(0, 30), "KFDR"@) is None,
        first_with_id(site_table().subrange(0, 30), "KINX"@) is None,
        first_with_id(site_table().subrange(0, 30), "KTLX"@) is None,
        first_with_id(site_table().subrange(0, 30), "KVNX"@) is None,
        first_with_id(site_table().subrange(0, 30), "KMAX"@) is None,
        first_with_id(site_table().subrange(0, 30), "KPDT"@) is None,
        first_with_id(site_table().subrange(0, 30), "KRTX"@) is None,
        first_with_id(site_table().subrange(0, 30), "KCCX"@) is None,
        first_with_id(site_table().subrange(0, 30), "KDIX"@) is None,
{
    reveal_with_fuel(first_with_id, 32);
    lemma_registry_id_codes();
}

/// Lookups in sites 0 to 29 of the registry.
proof fn lemma_part_0_lookups_3()
    ensures
        first_with_id(site_table().subrange(0, 30), "KPBZ"@) is None,
        first_with_id(site_table().subrange(0, 30), "TJUA"@) is None,
        first_with_id(site_table().subrange(0, 30), "KCAE"@) is None,
        first_with_id(site_table().subrange(0, 30), "KCLX"@) is None,
        first_with_id(site_table().subrange(0, 30), "KGSP"@) is None,
        first_with_id(site_table().subrange(0, 30), "KABR"@) is None,
        first_with_id(site_table().subrange(0, 30), "KUDX"@) is None,
        first_with_id(site_table().subrange(0, 30), "KFSD"@) is None,
        first_with_id(site_table().subrange(0, 30), "KMRX"@) is None,
        first_with_id(site_table().subrange(0, 30), "KNQA"@) is None,
        first_with_id(site_table().subrange(0, 30), "KOHX"@) is None,
        first_with_id(site_table().subrange(0, 30), "KAMA"@) is None,
        first_with_id(site_table().subrange(0, 30), "KBRO"@) is None,
        first_with_id(site_table().subrange(0, 30), "KCRP"@) is None,
        first_with_id(site_table().subrange(0, 30), "KDFX"@) is None,
        first_with_id(site_table().subrange(0, 30), "KDYX"@) is None,
        first_with_id(site_table().subrange(0, 30), "KEPZ"@) is None,
        first_with_id(site_table().subrange(0, 30), "KEWX"@) is None,
        first_with_id(site_table().subrange(0, 30), "KFWS"@) is None,
        first_with_id(site_table().subrange(0, 30), "KGRK"@) is None,
        first_with_id(site_table().subrange(0, 30), "KLBB"@) is None,
        first_with_id(site_table().subrange(0, 30), "KMAF"@) is None,
        first_with_id(site_table().subrange(0, 30), "KSJT"@) is None,
        first_with_id(site_table().subrange(0, 30), "KICX"@) is None,
        first_with_id(site_table().subrange(0, 30), "KMTX"@) is None,
        first_with_id(site_table().subrange(0, 30), "KCXX"@) is None,
        first_with_id(site_table().subrange(0, 30), "KFCX"@) is None,
        first_with_id(site_table().subrange(0, 30), "KATX"@) is None,
        first_with_id(site_table().subrange(0, 30), "KOTX"@) is None,
        first_with_id(site_table().subrange(0, 30), "KRLX"@) is None,
        first_with_id(site_table().subrange(0, 30), "KARX"@) is None,
        first_with_id(site_table().subrange(0, 30), "KGRB"@) is None,
        first_with_id(site_table().subrange(0, 30), "KMKX"@) is None,
        first_with_id(site_table().subrange(0, 30), "KCYS"@) is None,
        first_with_id(site_table().subrange(0, 30), "KRIW"@) is None,
        first_with_id(site_table().subrange(0, 30), "PGUA"@) is None,
{
    reveal_with_fuel(first_with_id, 32);
    lemma_registry_id_codes();
}

/// Lookups in sites 30 to 59 of the registry.
proof fn lemma_part_1_lookups_0()
    ensures
        first_with_id(site_table().subrange(30, 60), "KVTX"@) matches Some(e) && e.id@ == "KVTX"@ && e.city@ == "Los Angeles"@ && e.state@ == "CA"@,
        first_with_id(site_table().subrange(30, 60), "KDAX"@) matches Some(e) && e.id@ == "KDAX"@ && e.city@ == "Sacramento"@ && e.state@ == "CA"@,
        first_with_id(site_table().subrange(30, 60), "KFTG"@) matches Some(e) && e.id@ == "KFTG"@ && e.city@ == "Denver"@ && e.state@ == "CO"@,
        first_with_id(site_table().subrange(30, 60), "KGJX"@) matches Some(e) && e.id@ == "KGJX"@ && e.city@ == "Grand Junction"@ && e.state@ == "CO"@,
        first_with_id(site_table().subrange(30, 60), "KPUX"@) matches Some(e) && e.id@ == "KPUX"@ && e.city@ == "Pueblo"@ && e.state@ == "CO"@,
        first_with_id(site_table().subrange(30, 60), "KOKX"@) matches Some(e) && e.id@ == "KOKX"@ && e.city@ == "Upton"@ && e.state@ == "NY"@,
        first_with_id(site_table().subrange(30, 60), "KAMX"@) matches Some(e) && e.id@ == "KAMX"@ && e.city@ == "Miami"@ && e.state@ == "FL"@,
        first_with_id(site_table().subrange(30, 60), "KEVX"@) matches Some(e) && e.id@ == "KEVX"@ && e.city@ == "Eglin AFB"@ && e.state@ == "FL"@,
        first_with_id(site_table().subrange(30, 60), "KJAX"@) matches Some(e) && e.id@ == "KJAX"@ && e.city@ == "Jacksonville"@ && e.state@ == "FL"@,
        first_with_id(site_table().subrange(30, 60), "KMLB"@) matches Some(e) && e.id@ == "KMLB"@ && e.city@ == "Melbourne"@ && e.state@ == "FL"@,
        first_with_id(site_table().subrange(30, 60), "KTBW"@) matches Some(e) && e.id@ == "KTBW"@ && e.city@ == "Tampa Bay"@ && e.state@ == "FL"@,
        first_with_id(site_table().subrange(30, 60), "KTLH"@) matches Some(e) && e.id@ == "KTLH"@ && e.city@ == "Tallahassee"@ && e.state@ == "FL"@,
        first_with_id(site_table().subrange(30, 60), "KBYX"@) matches Some(e) && e.id@ == "KBYX"@ && e.city@ == "Key West"@ && e.state@ == "FL"@,
        first_with_id(site_table().subrange(30, 60), "KFFC"@) matches Some(e) && e.id@ == "KFFC"@ && e.city@ == "Atlanta"@ && e.state@ == "GA"@,
        first_with_id(site_table().subrange(30, 60), "KJGX"@) matches Some(e) && e.id@ == "KJGX"@ && e.city@ == "Robins AFB"@ && e.state@ == "GA"@,
        first_with_id(site_table().subrange(30, 60), "KVAX"@) matches Some(e) && e.id@ == "KVAX"@ && e.city@ == "Moody AFB"@ && e.state@ == "GA"@,
        first_with_id(site_table().subrange(30, 60), "PHKI"@) matches Some(e) && e.id@ == "PHKI"@ && e.city@ == "South Kauai"@ && e.state@ == "HI"@,
        first_with_id(site_table().subrange(30, 60), "PHKM"@) matches Some(e) && e.id@ == "PHKM"@ && e.city@ == "Kamuela"@ && e.state@ == "HI"@,
        first_with_id(site_table().subrange(30, 60), "PHMO"@) matches Some(e) && e.id@ == "PHMO"@ && e.city@ == "Molokai"@ && e.state@ == "HI"@,
        first_with_id(site_table().subrange(30, 60), "PHWA"@) matches Some(e) && e.id@ == "PHWA"@ && e.city@ == "South Shore"@ && e.state@ == "HI"@,
        first_with_id(site_table().subrange(30, 60), "KCBX"@) matches Some(e) && e.id@ == "KCBX"@ && e.city@ == "Boise"@ && e.state@ == "ID"@,
        first_with_id(site_table().subrange(30, 60), "KSFX"@) matches Some(e) && e.id@ == "KSFX"@ && e.city@ == "Pocatello"@ && e.state@ == "ID"@,
        first_with_id(site_table().subrange(30, 60), "KILX"@) matches Some(e) && e.id@ == "KILX"@ && e.city@ == "Lincoln"@ && e.state@ == "IL"@,
        first_with_id(site_table().subrange(30, 60), "KLOT"@) matches Some(e) && e.id@ == "KLOT"@ && e.city@ == "Chicago"@ && e.state@ == "IL"@,
        first_with_id(site_table().subrange(30, 60), "KIND"@) matches Some(e) && e.id@ == "KIND"@ && e.city@ == "Indianapolis"@ && e.state@ == "IN"@,
        first_with_id(site_table().subrange(30, 60), "KIWX"@) matches Some(e) && e.id@ == "KIWX"@ && e.city@ == "Fort Wayne"@ && e.state@ == "IN"@,
        first_with_id(site_table().subrange(30, 60), "KVWX"@) matches Some(e) && e.id@ == "KVWX"@ && e.city@ == "Evansville"@ && e.state@ == "IN"@,
        first_with_id(site_table().subrange(30, 60), "KDMX"@) matches Some(e) && e.id@ == "KDMX"@ && e.city@ == "Des Moines"@ && e.state@ == "IA"@,
        first_with_id(site_table().subrange(30, 60), "KDVN"@) matches Some(e) && e.id@ == "KDVN"@ && e.city@ == "Davenport"@ && e.state@ == "IA"@,
        first_with_id(site_table().subrange(30, 60), "KDDC"@) matches Some(e) && e.id@ == "KDDC"@ && e.city@ == "Dodge City"@ && e.state@ == "KS"@,
        first_with_id(site_table().subrange(30, 60), "KGLD"@) is None,
        first_with_id(site_table().subrange(30, 60), "KICT"@) is None,
        first_with_id(site_table().subrange(30, 60), "KTWX"@) is None,
        first_with_id(site_table().subrange(30, 60), "KHPX"@) is None,
        first_with_id(site_table().subrange(30, 60), "KJKL"@) is None,
        first_with_id(site_table().subrange(30, 60), "KLVX"@) is None,
        first_with_id(site_table().subrange(30, 60), "KPAH"@) is None,
        first_with_id(site_table().subrange(30, 60), "KHGX"@) is None,
        first_with_id(site_table().subrange(30, 60), "KLCH"@) is None,
        first_with_id(site_table().subrange(30, 60), "KLIX"@) is None,
{
    reveal_with_fuel(first_with_id, 32);
    lemma_registry_id_codes();
}

/// Lookups in sites 30 to 59 of the registry.
proof fn lemma_part_1_lookups_1()
    ensures
        first_with_id(site_table().subrange(30, 60), "KPOE"@) is None,
        first_with_id(site_table().subrange(30, 60), "KSHV"@) is None,
        first_with_id(site_table().subrange(30, 60), "KCBW"@) is None,
        first_with_id(site_table().subrange(30, 60), "KGYX"@) is None,
        first_with_id(site_table().subrange(30, 60), "KLWX"@) is None,
        first_with_id(site_table().subrange(30, 60), "KBOX"@) is None,
        first_with_id(site_table().subrange(30, 60), "KDTX"@) is None,
        first_with_id(site_table().subrange(30, 60), "KGRR"@) is None,
        first_with_id(site_table().subrange(30, 60), "KMQT"@) is None,
        first_with_id(site_table().subrange(30, 60), "KDLH"@) is None,
        first_with_id(site_table().subrange(30, 60), "KMPX"@) is None,
        first_with_id(site_table().subrange(30, 60), "KDGX"@) is None,
        first_with_id(site_table().subrange(30, 60), "KGWX"@) is None,
        first_with_id(site_table().subrange(30, 60), "KEAX"@) is None,
        first_with_id(site_table().subrange(30, 60), "KLSX"@) is None,
        first_with_id(site_table().subrange(30, 60), "KSGF"@) is None,
        first_with_id(site_table().subrange(30, 60), "KBLX"@) is None,
        first_with_id(site_table().subrange(30, 60), "KGGW"@) is None,
        first_with_id(site_table().subrange(30, 60), "KMSX"@) is None,
        first_with_id(site_table().subrange(30, 60), "KTFX"@) is None,
        first_with_id(site_table().subrange(30, 60), "KLNX"@) is None,
        first_with_id(site_table().subrange(30, 60), "KOAX"@) is None,
        first_with_id(site_table().subrange(30, 60), "KUEX"@) is None,
        first_with_id(site_table().subrange(30, 60), "KLRX"@) is None,
        first_with_id(site_table().subrange(30, 60), "KESX"@) is None,
        first_with_id(site_table().subrange(30, 60), "KRGX"@) is None,
        first_with_id(site_table().subrange(30, 60), "KABX"@) is None,
        first_with_id(site_table().subrange(30, 60), "KFDX"@) is None,
        first_with_id(site_table().subrange(30, 60), "KHDX"@) is None,
        first_with_id(site_table().subrange(30, 60), "KBGM"@) is None,
        first_with_id(site_table().subrange(30, 60), "KBUF"@) is None,
        first_with_id(site_table().subrange(30, 60), "KENX"@) is None,
        first_with_id(site_table().subrange(30, 60), "KTYX"@) is None,
        first_with_id(site_table().subrange(30, 60), "KMHX"@) is None,
        first_with_id(site_table().subrange(30, 60), "KRAX"@) is None,
        first_with_id(site_table().subrange(30, 60), "KLTX"@) is None,
        first_with_id(site_table().subrange(30, 60), "KBIS"@) is None,
        first_with_id(site_table().subrange(30, 60), "KMVX"@) is None,
        first_with_id(site_table().subrange(30, 60), "KMBX"@) is None,
        first_with_id(site_table().subrange(30, 60), "KCLE"@) is None,
{
    reveal_with_fuel(first_with_id, 32);
    lemma_registry_id_codes();
}

/// Lookups in sites 30 to 59 of the registry.
proof fn lemma_part_1_lookups_2()
    ensures
        first_with_id(site_table().subrange(30, 60), "KILN"@) is None,
        first_with_id(site_table().subrange(30, 60), "KFDR"@) is None,
        first_with_id(site_table().subrange(30, 60), "KINX"@) is None,
        first_with_id(site_table().subrange(30, 60), "KTLX"@) is None,
        first_with_id(site_table().subrange(30, 60), "KVNX"@) is None,
        first_with_id(site_table().subrange(30, 60), "KMAX"@) is None,
        first_with_id(site_table().subrange(30, 60), "KPDT"@) is None,
        first_with_id(site_table().subrange(30, 60), "KRTX"@) is None,
        first_with_id(site_table().subrange(30, 60), "KCCX"@) is None,
        first_with_id(site_table().subrange(30, 60), "KDIX"@) is None,
        first_with_id(site_table().subrange(30, 60), "KPBZ"@) is None,
        first_with_id(site_table().subrange(30, 60), "TJUA"@) is None,
        first_with_id(site_table().subrange(30, 60), "KCAE"@) is None,
        first_with_id(site_table().subrange(30, 60), "KCLX"@) is None,
        first_with_id(site_table().subrange(30, 60), "KGSP"@) is None,
        first_with_id(site_table().subrange(30, 60), "KABR"@) is None,
        first_with_id(site_table().subrange(30, 60), "KUDX"@) is None,
        first_with_id(site_table().subrange(30, 60), "KFSD"@) is None,
        first_with_id(site_table().subrange(30, 60), "KMRX"@) is None,
        first_with_id(site_table().subrange(30, 60), "KNQA"@) is None,
        first_with_id(site_table().subrange(30, 60), "KOHX"@) is None,
        first_with_id(site_table().subrange(30, 60), "KAMA"@) is None,
        first_with_id(site_table().subrange(30, 60), "KBRO"@) is None,
        first_with_id(site_table().subrange(30, 60), "KCRP"@) is None,
        first_with_id(site_table().subrange(30, 60), "KDFX"@) is None,
        first_with_id(site_table().subrange(30, 60), "KDYX"@) is None,
        first_with_id(site_table().subrange(30, 60), "KEPZ"@) is None,
        first_with_id(site_table().subrange(30, 60), "KEWX"@) is None,
        first_with_id(site_table().subrange(30, 60), "KFWS"@) is None,
        first_with_id(site_table().subrange(30, 60), "KGRK"@) is None,
        first_with_id(site_table().subrange(30, 60), "KLBB"@) is None,
        first_with_id(site_table().subrange(30, 60), "KMAF"@) is None,
        first_with_id(site_table().subrange(30, 60), "KSJT"@) is None,
        first_with_id(site_table().subrange(30, 60), "KICX"@) is None,
        first_with_id(site_table().subrange(30, 60), "KMTX"@) is None,
        first_with_id(site_table().subrange(30, 60), "KCXX"@) is None,
        first_with_id(site_table().subrange(30, 60), "KFCX"@) is None,
        first_with_id(site_table().subrange(30, 60), "KATX"@) is None,
        first_with_id(site_table().subrange(30, 60), "KOTX"@) is None,
        first_with_id(site_table().subrange(30, 60), "KRLX"@) is None,
{
    reveal_with_fuel(first_with_id, 32);
    lemma_registry_id_codes();
}

/// Lookups in sites 30 to 59 of the registry.
proof fn lemma_part_1_lookups_3()
    ensures
        first_with_id(site_table().subrange(30, 60), "KARX"@) is None,
        first_with_id(site_table().subrange(30, 60), "KGRB"@) is None,
        first_with_id(site_table().subrange(30, 60), "KMKX"@) is None,
        first_with_id(site_table().subrange(30, 60), "KCYS"@) is None,
        first_with_id(site_table().subrange(30, 60), "KRIW"@) is None,
        first_with_id(site_table().subrange(30, 60), "PGUA"@) is None,
{
    reveal_with_fuel(first_with_id, 32);
    lemma_registry_id_codes();
}

/// Lookups in sites 60 to 89 of the registry.
proof fn lemma_part_2_lookups_0()
    ensures
        first_with_id(site_table().subrange(60, 90), "KGLD"@) matches Some(e) && e.id@ == "KGLD"@ && e.city@ == "Goodland"@ && e.state@ == "KS"@,
        first_with_id(site_table().subrange(60, 90), "KICT"@) matches Some(e) && e.id@ == "KICT"@ && e.city@ == "Wichita"@ && e.state@ == "KS"@,
        first_with_id(site_table().subrange(60, 90), "KTWX"@) matches Some(e) && e.id@ == "KTWX"@ && e.city@ == "Topeka"@ && e.state@ == "KS"@,
        first_with_id(site_table().subrange(60, 90), "KHPX"@) matches Some(e) && e.id@ == "KHPX"@ && e.city@ == "Fort Campbell"@ && e.state@ == "KY"@,
        first_with_id(site_table().subrange(60, 90), "KJKL"@) matches Some(e) && e.id@ == "KJKL"@ && e.city@ == "Jackson"@ && e.state@ == "KY"@,
        first_with_id(site_table().subrange(60, 90), "KLVX"@) matches Some(e) && e.id@ == "KLVX"@ && e.city@ == "Louisville"@ && e.state@ == "KY"@,
        first_with_id(site_table().subrange(60, 90), "KPAH"@) matches Some(e) && e.id@ == "KPAH"@ && e.city@ == "Paducah"@ && e.state@ == "KY"@,
        first_with_id(site_table().subrange(60, 90), "KHGX"@) matches Some(e) && e.id@ == "KHGX"@ && e.city@ == "Houston"@ && e.state@ == "TX"@,
        first_with_id(site_table().subrange(60, 90), "KLCH"@) matches Some(e) && e.id@ == "KLCH"@ && e.city@ == "Lake Charles"@ && e.state@ == "LA"@,
        first_with_id(site_table().subrange(60, 90), "KLIX"@) matches Some(e) && e.id@ == "KLIX"@ && e.city@ == "New Orleans"@ && e.state@ == "LA"@,
        first_with_id(site_table().subrange(60, 90), "KPOE"@) matches Some(e) && e.id@ == "KPOE"@ && e.city@ == "Fort Polk"@ && e.state@ == "LA"@,
        first_with_id(site_table().subrange(60, 90), "KSHV"@) matches Some(e) && e.id@ == "KSHV"@ && e.city@ == "Shreveport"@ && e.state@ == "LA"@,
        first_with_id(site_table().subrange(60, 90), "KCBW"@) matches Some(e) && e.id@ == "KCBW"@ && e.city@ == "Caribou"@ && e.state@ == "ME"@,
        first_with_id(site_table().subrange(60, 90), "KGYX"@) matches Some(e) && e.id@ == "KGYX"@ && e.city@ == "Portland"@ && e.state@ == "ME"@,
        first_with_id(site_table().subrange(60, 90), "KLWX"@) matches Some(e) && e.id@ == "KLWX"@ && e.city@ == "Sterling"@ && e.state@ == "VA"@,
        first_with_id(site_table().subrange(60, 90), "KBOX"@) matches Some(e) && e.id@ == "KBOX"@ && e.city@ == "Boston"@ && e.state@ == "MA"@,
        first_with_id(site_table().subrange(60, 90), "KDTX"@) matches Some(e) && e.id@ == "KDTX"@ && e.city@ == "Detroit"@ && e.state@ == "MI"@,
        first_with_id(site_table().subrange(60, 90), "KGRR"@) matches Some(e) && e.id@ == "KGRR"@ && e.city@ == "Grand Rapids"@ && e.state@ == "MI"@,
        first_with_id(site_table().subrange(60, 90), "KMQT"@) matches Some(e) && e.id@ == "KMQT"@ && e.city@ == "Marquette"@ && e.state@ == "MI"@,
        first_with_id(site_table().subrange(60, 90), "KDLH"@) matches Some(e) && e.id@ == "KDLH"@ && e.city@ == "Duluth"@ && e.state@ == "MN"@,
        first_with_id(site_table().subrange(60, 90), "KMPX"@) matches Some(e) && e.id@ == "KMPX"@ && e.city@ == "Minneapolis"@ && e.state@ == "MN"@,
        first_with_id(site_table().subrange(60, 90), "KDGX"@) matches Some(e) && e.id@ == "KDGX"@ && e.city@ == "Brandon"@ && e.state@ == "MS"@,
        first_with_id(site_table().subrange(60, 90), "KGWX"@) matches Some(e) && e.id@ == "KGWX"@ && e.city@ == "Columbus AFB"@ && e.state@ == "MS"@,
        first_with_id(site_table().subrange(60, 90), "KEAX"@) matches Some(e) && e.id@ == "KEAX"@ && e.city@ == "Kansas City"@ && e.state@ == "MO"@,
        first_with_id(site_table().subrange(60, 90), "KLSX"@) matches Some(e) && e.id@ == "KLSX"@ && e.city@ == "St. Louis"@ && e.state@ == "MO"@,
        first_with_id(site_table().subrange(60, 90), "KSGF"@) matches Some(e) && e.id@ == "KSGF"@ && e.city@ == "Springfield"@ && e.state@ == "MO"@,
        first_with_id(site_table().subrange(60, 90), "KBLX"@) matches Some(e) && e.id@ == "KBLX"@ && e.city@ == "Billings"@ && e.state@ == "MT"@,
        first_with_id(site_table().subrange(60, 90), "KGGW"@) matches Some(e) && e.id@ == "KGGW"@ && e.city@ == "Glasgow"@ && e.state@ == "MT"@,
        first_with_id(site_table().subrange(60, 90), "KMSX"@) matches Some(e) && e.id@ == "KMSX"@ && e.city@ == "Missoula"@ && e.state@ == "MT"@,
        first_with_id(site_table().subrange(60, 90), "KTFX"@) matches Some(e) && e.id@ == "KTFX"@ && e.city@ == "Great Falls"@ && e.state@ == "MT"@,
        first_with_id(site_table().subrange(60, 90), "KLNX"@) is None,
        first_with_id(site_table().subrange(60, 90), "KOAX"@) is None,
        first_with_id(site_table().subrange(60, 90), "KUEX"@) is None,
        first_with_id(site_table().subrange(60, 90), "KLRX"@) is None,
        first_with_id(site_table().subrange(60, 90), "KESX"@) is None,
        first_with_id(site_table().subrange(60, 90), "KRGX"@) is None,
        first_with_id(site_table().subrange(60, 90), "KABX"@) is None,
        first_with_id(site_table().subrange(60, 90), "KFDX"@) is None,
        first_with_id(site_table().subrange(60, 90), "KHDX"@) is None,
        first_with_id(site_table().subrange(60, 90), "KBGM"@) is None,
{
    reveal_with_fuel(first_with_id, 32);
    lemma_registry_id_codes();
}

/// Lookups in sites 60 to 89 of the registry.
proof fn lemma_part_2_lookups_1()
    ensures
        first_with_id(site_table().subrange(60, 90), "KBUF"@) is None,
        first_with_id(site_table().subrange(60, 90), "KENX"@) is None,
        first_with_id(site_table().subrange(60, 90), "KTYX"@) is None,
        first_with_id(site_table().subrange(60, 90), "KMHX"@) is None,
        first_with_id(site_table().subrange(60, 90), "KRAX"@) is None,
        first_with_id(site_table().subrange(60, 90), "KLTX"@) is None,
        first_with_id(site_table().subrange(60, 90), "KBIS"@) is None,
        first_with_id(site_table().subrange(60, 90), "KMVX"@) is None,
        first_with_id(site_table().subrange(60, 90), "KMBX"@) is None,
        first_with_id(site_table().subrange(60, 90), "KCLE"@) is None,
        first_with_id(site_table().subrange(60, 90), "KILN"@) is None,
        first_with_id(site_table().subrange(60, 90), "KFDR"@) is None,
        first_with_id(site_table().subrange(60, 90), "KINX"@) is None,
        first_with_id(site_table().subrange(60, 90), "KTLX"@) is None,
        first_with_id(site_table().subrange(60, 90), "KVNX"@) is None,
        first_with_id(site_table().subrange(60, 90), "KMAX"@) is None,
        first_with_id(site_table().subrange(60, 90), "KPDT"@) is None,
        first_with_id(site_table().subrange(60, 90), "KRTX"@) is None,
        first_with_id(site_table().subrange(60, 90), "KCCX"@) is None,
        first_with_id(site_table().subrange(60, 90), "KDIX"@) is None,
        first_with_id(site_table().subrange(60, 90), "KPBZ"@) is None,
        first_with_id(site_table().subrange(60, 90), "TJUA"@) is None,
        first_with_id(site_table().subrange(60, 90), "KCAE"@) is None,
        first_with_id(site_table().subrange(60, 90), "KCLX"@) is None,
        first_with_id(site_table().subrange(60, 90), "KGSP"@) is None,
        first_with_id(site_table().subrange(60, 90), "KABR"@) is None,
        first_with_id(site_table().subrange(60, 90), "KUDX"@) is None,
        first_with_id(site_table().subrange(60, 90), "KFSD"@) is None,
        first_with_id(site_table().subrange(60, 90), "KMRX"@) is None,
        first_with_id(site_table().subrange(60, 90), "KNQA"@) is None,
        first_with_id(site_table().subrange(60, 90), "KOHX"@) is None,
        first_with_id(site_table().subrange(60, 90), "KAMA"@) is None,
        first_with_id(site_table().subrange(60, 90), "KBRO"@) is None,
        first_with_id(site_table().subrange(60, 90), "KCRP"@) is None,
        first_with_id(site_table().subrange(60, 90), "KDFX"@) is None,
        first_with_id(site_table().subrange(60, 90), "KDYX"@) is None,
        first_with_id(site_table().subrange(60, 90), "KEPZ"@) is None,
        first_with_id(site_table().subrange(60, 90), "KEWX"@) is None,
        first_with_id(site_table().subrange(60, 90), "KFWS"@) is None,
        first_with_id(site_table().subrange(60, 90), "KGRK"@) is None,
{
    reveal_with_fuel(first_with_id, 32);
    lemma_registry_id_codes();
}

/// Lookups in sites 60 to 89 of the registry.
proof fn lemma_part_2_lookups_2()
    ensures
        first_with_id(site_table().subrange(60, 90), "KLBB"@) is None,
        first_with_id(site_table().subrange(60, 90), "KMAF"@) is None,
        first_with_id(site_table().subrange(60, 90), "KSJT"@) is None,
        first_with_id(site_table().subrange(60, 90), "KICX"@) is None,
        first_with_id(site_table().subrange(60, 90), "KMTX"@) is None,
        first_with_id(site_table().subrange(60, 90), "KCXX"@) is None,
        first_with_id(site_table().subrange(60, 90), "KFCX"@) is None,
        first_with_id(site_table().subrange(60, 90), "KATX"@) is None,
        first_with_id(site_table().subrange(60, 90), "KOTX"@) is None,
        first_with_id(site_table().subrange(60, 90), "KRLX"@) is None,
        first_with_id(site_table().subrange(60, 90), "KARX"@) is None,
        first_with_id(site_table().subrange(60, 90), "KGRB"@) is None,
        first_with_id(site_table().subrange(60, 90), "KMKX"@) is None,
        first_with_id(site_table().subrange(60, 90), "KCYS"@) is None,
        first_with_id(site_table().subrange(60, 90), "KRIW"@) is None,
        first_with_id(site_table().subrange(60, 90), "PGUA"@) is None,
{
    reveal_with_fuel(first_with_id, 32);
    lemma_registry_id_codes();
}

/// Lookups in sites 90 to 119 of the registry.
proof fn lemma_part_3_lookups_0()
    ensures
        first_with_id(site_table().subrange(90, 120), "KLNX"@) matches Some(e) && e.id@ == "KLNX"@ && e.city@ == "North Platte"@ && e.state@ == "NE"@,
        first_with_id(site_table().subrange(90, 120), "KOAX"@) matches Some(e) && e.id@ == "KOAX"@ && e.city@ == "Omaha"@ && e.state@ == "NE"@,
        first_with_id(site_table().subrange(90, 120), "KUEX"@) matches Some(e) && e.id@ == "KUEX"@ && e.city@ == "Hastings"@ && e.state@ == "NE"@,
        first_with_id(site_table().subrange(90, 120), "KLRX"@) matches Some(e) && e.id@ == "KLRX"@ && e.city@ == "Elko"@ && e.state@ == "NV"@,
        first_with_id(site_table().subrange(90, 120), "KESX"@) matches Some(e) && e.id@ == "KESX"@ && e.city@ == "Las Vegas"@ && e.state@ == "NV"@,
        first_with_id(site_table().subrange(90, 120), "KRGX"@) matches Some(e) && e.id@ == "KRGX"@ && e.city@ == "Reno"@ && e.state@ == "NV"@,
        first_with_id(site_table().subrange(90, 120), "KABX"@) matches Some(e) && e.id@ == "KABX"@ && e.city@ == "Albuquerque"@ && e.state@ == "NM"@,
        first_with_id(site_table().subrange(90, 120), "KFDX"@) matches Some(e) && e.id@ == "KFDX"@ && e.city@ == "Cannon AFB"@ && e.state@ == "NM"@,
        first_with_id(site_table().subrange(90, 120), "KHDX"@) matches Some(e) && e.id@ == "KHDX"@ && e.city@ == "Holloman AFB"@ && e.state@ == "NM"@,
        first_with_id(site_table().subrange(90, 120), "KBGM"@) matches Some(e) && e.id@ == "KBGM"@ && e.city@ == "Binghamton"@ && e.state@ == "NY"@,
        first_with_id(site_table().subrange(90, 120), "KBUF"@) matches Some(e) && e.id@ == "KBUF"@ && e.city@ == "Buffalo"@ && e.state@ == "NY"@,
        first_with_id(site_table().subrange(90, 120), "KENX"@) matches Some(e) && e.id@ == "KENX"@ && e.city@ == "Albany"@ && e.state@ == "NY"@,
        first_with_id(site_table().subrange(90, 120), "KTYX"@) matches Some(e) && e.id@ == "KTYX"@ && e.city@ == "Montague"@ && e.state@ == "NY"@,
        first_with_id(site_table().subrange(90, 120), "KMHX"@) matches Some(e) && e.id@ == "KMHX"@ && e.city@ == "Morehead City"@ && e.state@ == "NC"@,
        first_with_id(site_table().subrange(90, 120), "KRAX"@) matches Some(e) && e.id@ == "KRAX"@ && e.city@ == "Raleigh"@ && e.state@ == "NC"@,
        first_with_id(site_table().subrange(90, 120), "KLTX"@) matches Some(e) && e.id@ == "KLTX"@ && e.city@ == "Wilmington"@ && e.state@ == "NC"@,
        first_with_id(site_table().subrange(90, 120), "KBIS"@) matches Some(e) && e.id@ == "KBIS"@ && e.city@ == "Bismarck"@ && e.state@ == "ND"@,
        first_with_id(site_table().subrange(90, 120), "KMVX"@) matches Some(e) && e.id@ == "KMVX"@ && e.city@ == "Fargo"@ && e.state@ == "ND"@,
        first_with_id(site_table().subrange(90, 120), "KMBX"@) matches Some(e) && e.id@ == "KMBX"@ && e.city@ == "Minot AFB"@ && e.state@ == "ND"@,
        first_with_id(site_table().subrange(90, 120), "KCLE"@) matches Some(e) && e.id@ == "KCLE"@ && e.city@ == "Cleveland"@ && e.state@ == "OH"@,
        first_with_id(site_table().subrange(90, 120), "KILN"@) matches Some(e) && e.id@ == "KILN"@ && e.city@ == "Wilmington"@ && e.state@ == "OH"@,
        first_with_id(site_table().subrange(90, 120), "KFDR"@) matches Some(e) && e.id@ == "KFDR"@ && e.city@ == "Frederick"@ && e.state@ == "OK"@,
        first_with_id(site_table().subrange(90, 120), "KINX"@) matches Some(e) && e.id@ == "KINX"@ && e.city@ == "Tulsa"@ && e.state@ == "OK"@,
        first_with_id(site_table().subrange(90, 120), "KTLX"@) matches Some(e) && e.id@ == "KTLX"@ && e.city@ == "Oklahoma City"@ && e.state@ == "OK"@,
        first_with_id(site_table().subrange(90, 120), "KVNX"@) matches Some(e) && e.id@ == "KVNX"@ && e.city@ == "Vance AFB"@ && e.state@ == "OK"@,
        first_with_id(site_table().subrange(90, 120), "KMAX"@) matches Some(e) && e.id@ == "KMAX"@ && e.city@ == "Medford"@ && e.state@ == "OR"@,
        first_with_id(site_table().subrange(90, 120), "KPDT"@) matches Some(e) && e.id@ == "KPDT"@ && e.city@ == "Pendleton"@ && e.state@ == "OR"@,
        first_with_id(site_table().subrange(90, 120), "KRTX"@) matches Some(e) && e.id@ == "KRTX"@ && e.city@ == "Portland"@ && e.state@ == "OR"@,
        first_with_id(site_table().subrange(90, 120), "KCCX"@) matches Some(e) && e.id@ == "KCCX"@ && e.city@ == "State College"@ && e.state@ == "PA"@,
        first_with_id(site_table().subrange(90, 120), "KDIX"@) matches Some(e) && e.id@ == "KDIX"@ && e.city@ == "Philadelphia"@ && e.state@ == "PA"@,
        first_with_id(site_table().subrange(90, 120), "KPBZ"@) is None,
        first_with_id(site_table().subrange(90, 120), "TJUA"@) is None,
        first_with_id(site_table().subrange(90, 120), "KCAE"@) is None,
        first_with_id(site_table().subrange(90, 120), "KCLX"@) is None,
        first_with_id(site_table().subrange(90, 120), "KGSP"@) is None,
        first_with_id(site_table().subrange(90, 120), "KABR"@) is None,
        first_with_id(site_table().subrange(90, 120), "KUDX"@) is None,
        first_with_id(site_table().subrange(90, 120), "KFSD"@) is None,
        first_with_id(site_table().subrange(90, 120), "KMRX"@) is None,
        first_with_id(site_table().subrange(90, 120), "KNQA"@) is None,
{
    reveal_with_fuel(first_with_id, 32);
    lemma_registry_id_codes();
}

/// Lookups in sites 90 to 119 of the registry.
proof fn lemma_part_3_lookups_1()
    ensures
        first_with_id(site_table().subrange(90, 120), "KOHX"@) is None,
        first_with_id(site_table().subrange(90, 120), "KAMA"@) is None,
        first_with_id(site_table().subrange(90, 120), "KBRO"@) is None,
        first_with_id(site_table().subrange(90, 120), "KCRP"@) is None,
        first_with_id(site_table().subrange(90, 120), "KDFX"@) is None,
        first_with_id(site_table().subrange(90, 120), "KDYX"@) is None,
        first_with_id(site_table().subrange(90, 120), "KEPZ"@) is None,
        first_with_id(site_table().subrange(90, 120), "KEWX"@) is None,
        first_with_id(site_table().subrange(90, 120), "KFWS"@) is None,
        first_with_id(site_table().subrange(90, 120), "KGRK"@) is None,
        first_with_id(site_table().subrange(90, 120), "KLBB"@) is None,
        first_with_id(site_table().subrange(90, 120), "KMAF"@) is None,
        first_with_id(site_table().subrange(90, 120), "KSJT"@) is None,
        first_with_id(site_table().subrange(90, 120), "KICX"@) is None,
        first_with_id(site_table().subrange(90, 120), "KMTX"@) is None,
        first_with_id(site_table().subrange(90, 120), "KCXX"@) is None,
        first_with_id(site_table().subrange(90, 120), "KFCX"@) is None,
        first_with_id(site_table().subrange(90, 120), "KATX"@) is None,
        first_with_id(site_table().subrange(90, 120), "KOTX"@) is None,
        first_with_id(site_table().subrange(90, 120), "KRLX"@) is None,
        first_with_id(site_table().subrange(90, 120), "KARX"@) is None,
        first_with_id(site_table().subrange(90, 120), "KGRB"@) is None,
        first_with_id(site_table().subrange(90, 120), "KMKX"@) is None,
        first_with_id(site_table().subrange(90, 120), "KCYS"@) is None,
        first_with_id(site_table().subrange(90, 120), "KRIW"@) is None,
        first_with_id(site_table().subrange(90, 120), "PGUA"@) is None,
{
    reveal_with_fuel(first_with_id, 32);
    lemma_registry_id_codes();
}

/// Lookups in sites 120 to 149 of the registry.
proof fn lemma_part_4_lookups_0()
    ensures
        first_with_id(site_table().subrange(120, 150), "KPBZ"@) matches Some(e) && e.id@ == "KPBZ"@ && e.city@ == "Pittsburgh"@ && e.state@ == "PA"@,
        first_with_id(site_table().subrange(120, 150), "TJUA"@) matches Some(e) && e.id@ == "TJUA"@ && e.city@ == "San Juan"@ && e.state@ == "PR"@,
        first_with_id(site_table().subrange(120, 150), "KCAE"@) matches Some(e) && e.id@ == "KCAE"@ && e.city@ == "Columbia"@ && e.state@ == "SC"@,
        first_with_id(site_table().subrange(120, 150), "KCLX"@) matches Some(e) && e.id@ == "KCLX"@ && e.city@ == "Charleston"@ && e.state@ == "SC"@,
        first_with_id(site_table().subrange(120, 150), "KGSP"@) matches Some(e) && e.id@ == "KGSP"@ && e.city@ == "Greenville"@ && e.state@ == "SC"@,
        first_with_id(site_table().subrange(120, 150), "KABR"@) matches Some(e) && e.id@ == "KABR"@ && e.city@ == "Aberdeen"@ && e.state@ == "SD"@,
        first_with_id(site_table().subrange(120, 150), "KUDX"@) matches Some(e) && e.id@ == "KUDX"@ && e.city@ == "Rapid City"@ && e.state@ == "SD"@,
        first_with_id(site_table().subrange(120, 150), "KFSD"@) matches Some(e) && e.id@ == "KFSD"@ && e.city@ == "Sioux Falls"@ && e.state@ == "SD"@,
        first_with_id(site_table().subrange(120, 150), "KMRX"@) matches Some(e) && e.id@ == "KMRX"@ && e.city@ == "Knoxville"@ && e.state@ == "TN"@,
        first_with_id(site_table().subrange(120, 150), "KNQA"@) matches Some(e) && e.id@ == "KNQA"@ && e.city@ == "Memphis"@ && e.state@ == "TN"@,
        first_with_id(site_table().subrange(120, 150), "KOHX"@) matches Some(e) && e.id@ == "KOHX"@ && e.city@ == "Nashville"@ && e.state@ == "TN"@,
        first_with_id(site_table().subrange(120, 150), "KAMA"@) matches Some(e) && e.id@ == "KAMA"@ && e.city@ == "Amarillo"@ && e.state@ == "TX"@,
        first_with_id(site_table().subrange(120, 150), "KBRO"@) matches Some(e) && e.id@ == "KBRO"@ && e.city@ == "Brownsville"@ && e.state@ == "TX"@,
        first_with_id(site_table().subrange(120, 150), "KCRP"@) matches Some(e) && e.id@ == "KCRP"@ && e.city@ == "Corpus Christi"@ && e.state@ == "TX"@,
        first_with_id(site_table().subrange(120, 150), "KDFX"@) matches Some(e) && e.id@ == "KDFX"@ && e.city@ == "Laughlin AFB"@ && e.state@ == "TX"@,
        first_with_id(site_table().subrange(120, 150), "KDYX"@) matches Some(e) && e.id@ == "KDYX"@ && e.city@ == "Dyess AFB"@ && e.state@ == "TX"@,
        first_with_id(site_table().subrange(120, 150), "KEPZ"@) matches Some(e) && e.id@ == "KEPZ"@ && e.city@ == "El Paso"@ && e.state@ == "TX"@,
        first_with_id(site_table().subrange(120, 150), "KEWX"@) matches Some(e) && e.id@ == "KEWX"@ && e.city@ == "San Antonio"@ && e.state@ == "TX"@,
        first_with_id(site_table().subrange(120, 150), "KFWS"@) matches Some(e) && e.id@ == "KFWS"@ && e.city@ == "Dallas/Fort Worth"@ && e.state@ == "TX"@,
        first_with_id(site_table().subrange(120, 150), "KGRK"@) matches Some(e) && e.id@ == "KGRK"@ && e.city@ == "Fort Hood"@ && e.state@ == "TX"@,
        first_with_id(site_table().subrange(120, 150), "KLBB"@) matches Some(e) && e.id@ == "KLBB"@ && e.city@ == "Lubbock"@ && e.state@ == "TX"@,
        first_with_id(site_table().subrange(120, 150), "KMAF"@) matches Some(e) && e.id@ == "KMAF"@ && e.city@ == "Midland/Odessa"@ && e.state@ == "TX"@,
        first_with_id(site_table().subrange(120, 150), "KSJT"@) matches Some(e) && e.id@ == "KSJT"@ && e.city@ == "San Angelo"@ && e.state@ == "TX"@,
        first_with_id(site_table().subrange(120, 150), "KICX"@) matches Some(e) && e.id@ == "KICX"@ && e.city@ == "Cedar City"@ && e.state@ == "UT"@,
        first_with_id(site_table().subrange(120, 150), "KMTX"@) matches Some(e) && e.id@ == "KMTX"@ && e.city@ == "Salt Lake City"@ && e.state@ == "UT"@,
        first_with_id(site_table().subrange(120, 150), "KCXX"@) matches Some(e) && e.id@ == "KCXX"@ && e.city@ == "Burlington"@ && e.state@ == "VT"@,
        first_with_id(site_table().subrange(120, 150), "KFCX"@) matches Some(e) && e.id@ == "KFCX"@ && e.city@ == "Roanoke"@ && e.state@ == "VA"@,
        first_with_id(site_table().subrange(120, 150), "KATX"@) matches Some(e) && e.id@ == "KATX"@ && e.city@ == "Seattle"@ && e.state@ == "WA"@,
        first_with_id(site_table().subrange(120, 150), "KOTX"@) matches Some(e) && e.id@ == "KOTX"@ && e.city@ == "Spokane"@ && e.state@ == "WA"@,
        first_with_id(site_table().subrange(120, 150), "KRLX"@) matches Some(e) && e.id@ == "KRLX"@ && e.city@ == "Charleston"@ && e.state@ == "WV"@,
        first_with_id(site_table().subrange(120, 150), "KARX"@) is None,
        first_with_id(site_table().subrange(120, 150), "KGRB"@) is None,
        first_with_id(site_table().subrange(120, 150), "KMKX"@) is None,
        first_with_id(site_table().subrange(120, 150), "KCYS"@) is None,
        first_with_id(site_table().subrange(120, 150), "KRIW"@) is None,
        first_with_id(site_table().subrange(120, 150), "PGUA"@) is None,
{
    reveal_with_fuel(first_with_id, 32);
    lemma_registry_id_codes();
}

/// Lookups in sites 150 to 156 of the registry.
proof fn lemma_part_5_lookups_0()
    ensures
        first_with_id(site_table().subrange(150, 157), "KARX"@) matches Some(e) && e.id@ == "KARX"@ && e.city@ == "La Crosse"@ && e.state@ == "WI"@,
        first_with_id(site_table().subrange(150, 157), "KGRB"@) matches Some(e) && e.id@ == "KGRB"@ && e.city@ == "Green Bay"@ && e.state@ == "WI"@,
        first_with_id(site_table().subrange(150, 157), "KMKX"@) matches Some(e) && e.id@ == "KMKX"@ && e.city@ == "Milwaukee"@ && e.state@ == "WI"@,
        first_with_id(site_table().subrange(150, 157), "KCYS"@) matches Some(e) && e.id@ == "KCYS"@ && e.city@ == "Cheyenne"@ && e.state@ == "WY"@,
        first_with_id(site_table().subrange(150, 157), "KRIW"@) matches Some(e) && e.id@ == "KRIW"@ && e.city@ == "Riverton"@ && e.state@ == "WY"@,
        first_with_id(site_table().subrange(150, 157), "PGUA"@) matches Some(e) && e.id@ == "PGUA"@ && e.city@ == "Andersen AFB"@ && e.state@ == "GU"@,
{
    reveal_with_fuel(first_with_id, 32);
    lemma_registry_id_codes();
}

/// Looking up each of the identifiers KBMX to KIWA finds the
/// registry's site of that identifier, with its city and state.
pub proof fn lemma_registry_lookup_kbmx_to_kiwa()
    ensures
        first_with_id(site_table(), "KBMX"@) matches Some(e) && e.id@ == "KBMX"@ && e.city@ == "Birmingham"@ && e.state@ == "AL"@,
        first_with_id(site_table(), "KEOX"@) matches Some(e) && e.id@ == "KEOX"@ && e.city@ == "Fort Rucker"@ && e.state@ == "AL"@,
        first_with_id(site_table(), "KHTX"@) matches Some(e) && e.id@ == "KHTX"@ && e.city@ == "Huntsville"@ && e.state@ == "AL"@,
        first_with_id(site_table(), "KMOB"@) matches Some(e) && e.id@ == "KMOB"@ && e.city@ == "Mobile"@ && e.state@ == "AL"@,
        first_with_id(site_table(), "KMXX"@) matches Some(e) && e.id@ == "KMXX"@ && e.city@ == "Maxwell AFB"@ && e.state@ == "AL"@,
        first_with_id(site_table(), "KABC"@) matches Some(e) && e.id@ == "KABC"@ && e.city@ == "Bethel"@ && e.state@ == "AK"@,
        first_with_id(site_table(), "KAKQ"@) matches Some(e) && e.id@ == "KAKQ"@ && e.city@ == "Wakefield"@ && e.state@ == "VA"@,
        first_with_id(site_table(), "KAPX"@) matches Some(e) && e.id@ == "KAPX"@ && e.city@ == "Gaylord"@ && e.state@ == "MI"@,
        first_with_id(site_table(), "KACG"@) matches Some(e) && e.id@ == "KACG"@ && e.city@ == "Sitka"@ && e.state@ == "AK"@,
        first_with_id(site_table(), "KAIH"@) matches Some(e) && e.id@ == "KAIH"@ && e.city@ == "Middleton Island"@ && e.state@ == "AK"@,
        first_with_id(site_table(), "KAKC"@) matches Some(e) && e.id@ == "KAKC"@ && e.city@ == "King Salmon"@ && e.state@ == "AK"@,
        first_with_id(site_table(), "PABC"@) matches Some(e) && e.id@ == "PABC"@ && e.city@ == "Bethel"@ && e.state@ == "AK"@,
        first_with_id(site_table(), "PACG"@) matches Some(e) && e.id@ == "PACG"@ && e.city@ == "Sitka"@ && e.state@ == "AK"@,
        first_with_id(site_table(), "PAEC"@) matches Some(e) && e.id@ == "PAEC"@ && e.city@ == "Nome"@ && e.state@ == "AK"@,
        first_with_id(site_table(), "PAHG"@) matches Some(e) && e.id@ == "PAHG"@ && e.city@ == "Anchorage"@ && e.state@ == "AK"@,
        first_with_id(site_table(), "PAIH"@) matches Some(e) && e.id@ == "PAIH"@ && e.city@ == "Middleton Island"@ && e.state@ == "AK"@,
        first_with_id(site_table(), "PAKC"@) matches Some(e) && e.id@ == "PAKC"@ && e.city@ == "King Salmon"@ && e.state@ == "AK"@,
        first_with_id(site_table(), "KEMX"@) matches Some(e) && e.id@ == "KEMX"@ && e.city@ == "Tucson"@ && e.state@ == "AZ"@,
        first_with_id(site_table(), "KFSX"@) matches Some(e) && e.id@ == "KFSX"@ && e.city@ == "Flagstaff"@ && e.state@ == "AZ"@,
        first_with_id(site_table(), "KIWA"@) matches Some(e) && e.id@ == "KIWA"@ && e.city@ == "Phoenix"@ && e.state@ == "AZ"@,
{
    broadcast use lemma_first_with_id_concat;
    lemma_table_in_parts();
    lemma_part_0_lookups_0();
    lemma_part_0_lookups_1();
    lemma_part_0_lookups_2();
    lemma_part_0_lookups_3();
    lemma_part_1_lookups_0();
    lemma_part_1_lookups_1();
    lemma_part_1_lookups_2();
    lemma_part_1_lookups_3();
    lemma_part_2_lookups_0();
    lemma_part_2_lookups_1();
    lemma_part_2_lookups_2();
    lemma_part_3_lookups_0();
    lemma_part_3_lookups_1();
    lemma_part_4_lookups_0();
    lemma_part_5_lookups_0();
}

/// Looking up each of the identifiers KYUX to KMLB finds the
/// registry's site of that identifier, with its city and state.
pub proof fn lemma_registry_lookup_kyux_to_kmlb()
    ensures
        first_with_id(site_table(), "KYUX"@) matches Some(e) && e.id@ == "KYUX"@ && e.city@ == "Yuma"@ && e.state@ == "AZ"@,
        first_with_id(site_table(), "KLZK"@) matches Some(e) && e.id@ == "KLZK"@ && e.city@ == "Little Rock"@ && e.state@ == "AR"@,
        first_with_id(site_table(), "KSRX"@) matches Some(e) && e.id@ == "KSRX"@ && e.city@ == "Fort Smith"@ && e.state@ == "AR"@,
        first_with_id(site_table(), "KBBX"@) matches Some(e) && e.id@ == "KBBX"@ && e.city@ == "Beale AFB"@ && e.state@ == "CA"@,
        first_with_id(site_table(), "KEYX"@) matches Some(e) && e.id@ == "KEYX"@ && e.city@ == "Edwards AFB"@ && e.state@ == "CA"@,
        first_with_id(site_table(), "KHNX"@) matches Some(e) && e.id@ == "KHNX"@ && e.city@ == "Hanford"@ && e.state@ == "CA"@,
        first_with_id(site_table(), "KMUX"@) matches Some(e) && e.id@ == "KMUX"@ && e.city@ == "San Francisco"@ && e.state@ == "CA"@,
        first_with_id(site_table(), "KNKX"@) matches Some(e) && e.id@ == "KNKX"@ && e.city@ == "San Diego"@ && e.state@ == "CA"@,
        first_with_id(site_table(), "KSOX"@) matches Some(e) && e.id@ == "KSOX"@ && e.city@ == "Santa Ana Mountains"@ && e.state@ == "CA"@,
        first_with_id(site_table(), "KVBX"@) matches Some(e) && e.id@ == "KVBX"@ && e.city@ == "Vandenberg AFB"@ && e.state@ == "CA"@,
        first_with_id(site_table(), "KVTX"@) matches Some(e) && e.id@ == "KVTX"@ && e.city@ == "Los Angeles"@ && e.state@ == "CA"@,
        first_with_id(site_table(), "KDAX"@) matches Some(e) && e.id@ == "KDAX"@ && e.city@ == "Sacramento"@ && e.state@ == "CA"@,
        first_with_id(site_table(), "KFTG"@) matches Some(e) && e.id@ == "KFTG"@ && e.city@ == "Denver"@ && e.state@ == "CO"@,
        first_with_id(site_table(), "KGJX"@) matches Some(e) && e.id@ == "KGJX"@ && e.city@ == "Grand Junction"@ && e.state@ == "CO"@,
        first_with_id(site_table(), "KPUX"@) matches Some(e) && e.id@ == "KPUX"@ && e.city@ == "Pueblo"@ && e.state@ == "CO"@,
        first_with_id(site_table(), "KOKX"@) matches Some(e) && e.id@ == "KOKX"@ && e.city@ == "Upton"@ && e.state@ == "NY"@,
        first_with_id(site_table(), "KAMX"@) matches Some(e) && e.id@ == "KAMX"@ && e.city@ == "Miami"@ && e.state@ == "FL"@,
        first_with_id(site_table(), "KEVX"@) matches Some(e) && e.id@ == "KEVX"@ && e.city@ == "Eglin AFB"@ && e.state@ == "FL"@,
        first_with_id(site_table(), "KJAX"@) matches Some(e) && e.id@ == "KJAX"@ && e.city@ == "Jacksonville"@ && e.state@ == "FL"@,
        first_with_id(site_table(), "KMLB"@) matches Some(e) && e.id@ == "KMLB"@ && e.city@ == "Melbourne"@ && e.state@ == "FL"@,
{
    broadcast use lemma_first_with_id_concat;
    lemma_table_in_parts();
    lemma_part_0_lookups_0();
    lemma_part_0_lookups_1();
    lemma_part_0_lookups_2();
    lemma_part_0_lookups_3();
    lemma_part_1_lookups_0();
    lemma_part_1_lookups_1();
    lemma_part_1_lookups_2();
    lemma_part_1_lookups_3();
    lemma_part_2_lookups_0();
    lemma_part_2_lookups_1();
    lemma_part_2_lookups_2();
    lemma_part_3_lookups_0();
    lemma_part_3_lookups_1();
    lemma_part_4_lookups_0();
    lemma_part_5_lookups_0();
}

/// Looking up each of the identifiers KTBW to KDDC finds the
/// registry's site of that identifier, with its city and state.
pub proof fn lemma_registry_lookup_ktbw_to_kddc()
    ensures
        first_with_id(site_table(), "KTBW"@) matches Some(e) && e.id@ == "KTBW"@ && e.city@ == "Tampa Bay"@ && e.state@ == "FL"@,
        first_with_id(site_table(), "KTLH"@) matches Some(e) && e.id@ == "KTLH"@ && e.city@ == "Tallahassee"@ && e.state@ == "FL"@,
        first_with_id(site_table(), "KBYX"@) matches Some(e) && e.id@ == "KBYX"@ && e.city@ == "Key West"@ && e.state@ == "FL"@,
        first_with_id(site_table(), "KFFC"@) matches Some(e) && e.id@ == "KFFC"@ && e.city@ == "Atlanta"@ && e.state@ == "GA"@,
        first_with_id(site_table(), "KJGX"@) matches Some(e) && e.id@ == "KJGX"@ && e.city@ == "Robins AFB"@ && e.state@ == "GA"@,
        first_with_id(site_table(), "KVAX"@) matches Some(e) && e.id@ == "KVAX"@ && e.city@ == "Moody AFB"@ && e.state@ == "GA"@,
        first_with_id(site_table(), "PHKI"@) matches Some(e) && e.id@ == "PHKI"@ && e.city@ == "South Kauai"@ && e.state@ == "HI"@,
        first_with_id(site_table(), "PHKM"@) matches Some(e) && e.id@ == "PHKM"@ && e.city@ == "Kamuela"@ && e.state@ == "HI"@,
        first_with_id(site_table(), "PHMO"@) matches Some(e) && e.id@ == "PHMO"@ && e.city@ == "Molokai"@ && e.state@ == "HI"@,
        first_with_id(site_table(), "PHWA"@) matches Some(e) && e.id@ == "PHWA"@ && e.city@ == "South Shore"@ && e.state@ == "HI"@,
        first_with_id(site_table(), "KCBX"@) matches Some(e) && e.id@ == "KCBX"@ && e.city@ == "Boise"@ && e.state@ == "ID"@,
        first_with_id(site_table(), "KSFX"@) matches Some(e) && e.id@ == "KSFX"@ && e.city@ == "Pocatello"@ && e.state@ == "ID"@,
        first_with_id(site_table(), "KILX"@) matches Some(e) && e.id@ == "KILX"@ && e.city@ == "Lincoln"@ && e.state@ == "IL"@,
        first_with_id(site_table(), "KLOT"@) matches Some(e) && e.id@ == "KLOT"@ && e.city@ == "Chicago"@ && e.state@ == "IL"@,
        first_with_id(site_table(), "KIND"@) matches Some(e) && e.id@ == "KIND"@ && e.city@ == "Indianapolis"@ && e.state@ == "IN"@,
        first_with_id(site_table(), "KIWX"@) matches Some(e) && e.id@ == "KIWX"@ && e.city@ == "Fort Wayne"@ && e.state@ == "IN"@,
        first_with_id(site_table(), "KVWX"@) matches Some(e) && e.id@ == "KVWX"@ && e.city@ == "Evansville"@ && e.state@ == "IN"@,
        first_with_id(site_table(), "KDMX"@) matches Some(e) && e.id@ == "KDMX"@ && e.city@ == "Des Moines"@ && e.state@ == "IA"@,
        first_with_id(site_table(), "KDVN"@) matches Some(e) && e.id@ == "KDVN"@ && e.city@ == "Davenport"@ && e.state@ == "IA"@,
        first_with_id(site_table(), "KDDC"@) matches Some(e) && e.id@ == "KDDC"@ && e.city@ == "Dodge City"@ && e.state@ == "KS"@,
{
    broadcast use lemma_first_with_id_concat;
    lemma_table_in_parts();
    lemma_part_0_lookups_0();
    lemma_part_0_lookups_1();
    lemma_part_0_lookups_2();
    lemma_part_0_lookups_3();
    lemma_part_1_lookups_0();
    lemma_part_1_lookups_1();
    lemma_part_1_lookups_2();
    lemma_part_1_lookups_3();
    lemma_part_2_lookups_0();
    lemma_part_2_lookups_1();
    lemma_part_2_lookups_2();
    lemma_part_3_lookups_0();
    lemma_part_3_lookups_1();
    lemma_part_4_lookups_0();
    lemma_part_5_lookups_0();
}

/// Looking up each of the identifiers KGLD to KDLH finds the
/// registry's site of that identifier, with its city and state.
pub proof fn lemma_registry_lookup_kgld_to_kdlh()
    ensures
        first_with_id(site_table(), "KGLD"@) matches Some(e) && e.id@ == "KGLD"@ && e.city@ == "Goodland"@ && e.state@ == "KS"@,
        first_with_id(site_table(), "KICT"@) matches Some(e) && e.id@ == "KICT"@ && e.city@ == "Wichita"@ && e.state@ == "KS"@,
        first_with_id(site_table(), "KTWX"@) matches Some(e) && e.id@ == "KTWX"@ && e.city@ == "Topeka"@ && e.state@ == "KS"@,
        first_with_id(site_table(), "KHPX"@) matches Some(e) && e.id@ == "KHPX"@ && e.city@ == "Fort Campbell"@ && e.state@ == "KY"@,
        first_with_id(site_table(), "KJKL"@) matches Some(e) && e.id@ == "KJKL"@ && e.city@ == "Jackson"@ && e.state@ == "KY"@,
        first_with_id(site_table(), "KLVX"@) matches Some(e) && e.id@ == "KLVX"@ && e.city@ == "Louisville"@ && e.state@ == "KY"@,
        first_with_id(site_table(), "KPAH"@) matches Some(e) && e.id@ == "KPAH"@ && e.city@ == "Paducah"@ && e.state@ == "KY"@,
        first_with_id(site_table(), "KHGX"@) matches Some(e) && e.id@ == "KHGX"@ && e.city@ == "Houston"@ && e.state@ == "TX"@,
        first_with_id(site_table(), "KLCH"@) matches Some(e) && e.id@ == "KLCH"@ && e.city@ == "Lake Charles"@ && e.state@ == "LA"@,
        first_with_id(site_table(), "KLIX"@) matches Some(e) && e.id@ == "KLIX"@ && e.city@ == "New Orleans"@ && e.state@ == "LA"@,
        first_with_id(site_table(), "KPOE"@) matches Some(e) && e.id@ == "KPOE"@ && e.city@ == "Fort Polk"@ && e.state@ == "LA"@,
        first_with_id(site_table(), "KSHV"@) matches Some(e) && e.id@ == "KSHV"@ && e.city@ == "Shreveport"@ && e.state@ == "LA"@,
        first_with_id(site_table(), "KCBW"@) matches Some(e) && e.id@ == "KCBW"@ && e.city@ == "Caribou"@ && e.state@ == "ME"@,
        first_with_id(site_table(), "KGYX"@) matches Some(e) && e.id@ == "KGYX"@ && e.city@ == "Portland"@ && e.state@ == "ME"@,
        first_with_id(site_table(), "KLWX"@) matches Some(e) && e.id@ == "KLWX"@ && e.city@ == "Sterling"@ && e.state@ == "VA"@,
        first_with_id(site_table(), "KBOX"@) matches Some(e) && e.id@ == "KBOX"@ && e.city@ == "Boston"@ && e.state@ == "MA"@,
        first_with_id(site_table(), "KDTX"@) matches Some(e) && e.id@ == "KDTX"@ && e.city@ == "Detroit"@ && e.state@ == "MI"@,
        first_with_id(site_table(), "KGRR"@) matches Some(e) && e.id@ == "KGRR"@ && e.city@ == "Grand Rapids"@ && e.state@ == "MI"@,
        first_with_id(site_table(), "KMQT"@) matches Some(e) && e.id@ == "KMQT"@ && e.city@ == "Marquette"@ && e.state@ == "MI"@,
        first_with_id(site_table(), "KDLH"@) matches Some(e) && e.id@ == "KDLH"@ && e.city@ == "Duluth"@ && e.state@ == "MN"@,
{
    broadcast use lemma_first_with_id_concat;
    lemma_table_in_parts();
    lemma_part_0_lookups_0();
    lemma_part_0_lookups_1();
    lemma_part_0_lookups_2();
    lemma_part_0_lookups_3();
    lemma_part_1_lookups_0();
    lemma_part_1_lookups_1();
    lemma_part_1_lookups_2();
    lemma_part_1_lookups_3();
    lemma_part_2_lookups_0();
    lemma_part_2_lookups_1();
    lemma_part_2_lookups_2();
    lemma_part_3_lookups_0();
    lemma_part_3_lookups_1();
    lemma_part_4_lookups_0();
    lemma_part_5_lookups_0();
}

/// Looking up each of the identifiers KMPX to KBGM finds the
/// registry's site of that identifier, with its city and state.
pub proof fn lemma_registry_lookup_kmpx_to_kbgm()
    ensures
        first_with_id(site_table(), "KMPX"@) matches Some(e) && e.id@ == "KMPX"@ && e.city@ == "Minneapolis"@ && e.state@ == "MN"@,
        first_with_id(site_table(), "KDGX"@) matches Some(e) && e.id@ == "KDGX"@ && e.city@ == "Brandon"@ && e.state@ == "MS"@,
        first_with_id(site_table(), "KGWX"@) matches Some(e) && e.id@ == "KGWX"@ && e.city@ == "Columbus AFB"@ && e.state@ == "MS"@,
        first_with_id(site_table(), "KEAX"@) matches Some(e) && e.id@ == "KEAX"@ && e.city@ == "Kansas City"@ && e.state@ == "MO"@,
        first_with_id(site_table(), "KLSX"@) matches Some(e) && e.id@ == "KLSX"@ && e.city@ == "St. Louis"@ && e.state@ == "MO"@,
        first_with_id(site_table(), "KSGF"@) matches Some(e) && e.id@ == "KSGF"@ && e.city@ == "Springfield"@ && e.state@ == "MO"@,
        first_with_id(site_table(), "KBLX"@) matches Some(e) && e.id@ == "KBLX"@ && e.city@ == "Billings"@ && e.state@ == "MT"@,
        first_with_id(site_table(), "KGGW"@) matches Some(e) && e.id@ == "KGGW"@ && e.city@ == "Glasgow"@ && e.state@ == "MT"@,
        first_with_id(site_table(), "KMSX"@) matches Some(e) && e.id@ == "KMSX"@ && e.city@ == "Missoula"@ && e.state@ == "MT"@,
        first_with_id(site_table(), "KTFX"@) matches Some(e) && e.id@ == "KTFX"@ && e.city@ == "Great Falls"@ && e.state@ == "MT"@,
        first_with_id(site_table(), "KLNX"@) matches Some(e) && e.id@ == "KLNX"@ && e.city@ == "North Platte"@ && e.state@ == "NE"@,
        first_with_id(site_table(), "KOAX"@) matches Some(e) && e.id@ == "KOAX"@ && e.city@ == "Omaha"@ && e.state@ == "NE"@,
        first_with_id(site_table(), "KUEX"@) matches Some(e) && e.id@ == "KUEX"@ && e.city@ == "Hastings"@ && e.state@ == "NE"@,
        first_with_id(site_table(), "KLRX"@) matches Some(e) && e.id@ == "KLRX"@ && e.city@ == "Elko"@ && e.state@ == "NV"@,
        first_with_id(site_table(), "KESX"@) matches Some(e) && e.id@ == "KESX"@ && e.city@ == "Las Vegas"@ && e.state@ == "NV"@,
        first_with_id(site_table(), "KRGX"@) matches Some(e) && e.id@ == "KRGX"@ && e.city@ == "Reno"@ && e.state@ == "NV"@,
        first_with_id(site_table(), "KABX"@) matches Some(e) && e.id@ == "KABX"@ && e.city@ == "Albuquerque"@ && e.state@ == "NM"@,
        first_with_id(site_table(), "KFDX"@) matches Some(e) && e.id@ == "KFDX"@ && e.city@ == "Cannon AFB"@ && e.state@ == "NM"@,
        first_with_id(site_table(), "KHDX"@) matches Some(e) && e.id@ == "KHDX"@ && e.city@ == "Holloman AFB"@ && e.state@ == "NM"@,
        first_with_id(site_table(), "KBGM"@) matches Some(e) && e.id@ == "KBGM"@ && e.city@ == "Binghamton"@ && e.state@ == "NY"@,
{
    broadcast use lemma_first_with_id_concat;
    lemma_table_in_parts();
    lemma_part_0_lookups_0();
    lemma_part_0_lookups_1();
    lemma_part_0_lookups_2();
    lemma_part_0_lookups_3();
    lemma_part_1_lookups_0();
    lemma_part_1_lookups_1();
    lemma_part_1_lookups_2();
    lemma_part_1_lookups_3();
    lemma_part_2_lookups_0();
    lemma_part_2_lookups_1();
    lemma_part_2_lookups_2();
    lemma_part_3_lookups_0();
    lemma_part_3_lookups_1();
    lemma_part_4_lookups_0();
    lemma_part_5_lookups_0();
}

/// Looking up each of the identifiers KBUF to KDIX finds the
/// registry's site of that identifier, with its city and state.
pub proof fn lemma_registry_lookup_kbuf_to_kdix()
    ensures
        first_with_id(site_table(), "KBUF"@) matches Some(e) && e.id@ == "KBUF"@ && e.city@ == "Buffalo"@ && e.state@ == "NY"@,
        first_with_id(site_table(), "KENX"@) matches Some(e) && e.id@ == "KENX"@ && e.city@ == "Albany"@ && e.state@ == "NY"@,
        first_with_id(site_table(), "KTYX"@) matches Some(e) && e.id@ == "KTYX"@ && e.city@ == "Montague"@ && e.state@ == "NY"@,
        first_with_id(site_table(), "KMHX"@) matches Some(e) && e.id@ == "KMHX"@ && e.city@ == "Morehead City"@ && e.state@ == "NC"@,
        first_with_id(site_table(), "KRAX"@) matches Some(e) && e.id@ == "KRAX"@ && e.city@ == "Raleigh"@ && e.state@ == "NC"@,
        first_with_id(site_table(), "KLTX"@) matches Some(e) && e.id@ == "KLTX"@ && e.city@ == "Wilmington"@ && e.state@ == "NC"@,
        first_with_id(site_table(), "KBIS"@) matches Some(e) && e.id@ == "KBIS"@ && e.city@ == "Bismarck"@ && e.state@ == "ND"@,
        first_with_id(site_table(), "KMVX"@) matches Some(e) && e.id@ == "KMVX"@ && e.city@ == "Fargo"@ && e.state@ == "ND"@,
        first_with_id(site_table(), "KMBX"@) matches Some(e) && e.id@ == "KMBX"@ && e.city@ == "Minot AFB"@ && e.state@ == "ND"@,
        first_with_id(site_table(), "KCLE"@) matches Some(e) && e.id@ == "KCLE"@ && e.city@ == "Cleveland"@ && e.state@ == "OH"@,
        first_with_id(site_table(), "KILN"@) matches Some(e) && e.id@ == "KILN"@ && e.city@ == "Wilmington"@ && e.state@ == "OH"@,
        first_with_id(site_table(), "KFDR"@) matches Some(e) && e.id@ == "KFDR"@ && e.city@ == "Frederick"@ && e.state@ == "OK"@,
        first_with_id(site_table(), "KINX"@) matches Some(e) && e.id@ == "KINX"@ && e.city@ == "Tulsa"@ && e.state@ == "OK"@,
        first_with_id(site_table(), "KTLX"@) matches Some(e) && e.id@ == "KTLX"@ && e.city@ == "Oklahoma City"@ && e.state@ == "OK"@,
        first_with_id(site_table(), "KVNX"@) matches Some(e) && e.id@ == "KVNX"@ && e.city@ == "Vance AFB"@ && e.state@ == "OK"@,
        first_with_id(site_table(), "KMAX"@) matches Some(e) && e.id@ == "KMAX"@ && e.city@ == "Medford"@ && e.state@ == "OR"@,
        first_with_id(site_table(), "KPDT"@) matches Some(e) && e.id@ == "KPDT"@ && e.city@ == "Pendleton"@ && e.state@ == "OR"@,
        first_with_id(site_table(), "KRTX"@) matches Some(e) && e.id@ == "KRTX"@ && e.city@ == "Portland"@ && e.state@ == "OR"@,
        first_with_id(site_table(), "KCCX"@) matches Some(e) && e.id@ == "KCCX"@ && e.city@ == "State College"@ && e.state@ == "PA"@,
        first_with_id(site_table(), "KDIX"@) matches Some(e) && e.id@ == "KDIX"@ && e.city@ == "Philadelphia"@ && e.state@ == "PA"@,
{
    broadcast use lemma_first_with_id_concat;
    lemma_table_in_parts();
    lemma_part_0_lookups_0();
    lemma_part_0_lookups_1();
    lemma_part_0_lookups_2();
    lemma_part_0_lookups_3();
    lemma_part_1_lookups_0();
    lemma_part_1_lookups_1();
    lemma_part_1_lookups_2();
    lemma_part_1_lookups_3();
    lemma_part_2_lookups_0();
    lemma_part_2_lookups_1();
    lemma_part_2_lookups_2();
    lemma_part_3_lookups_0();
    lemma_part_3_lookups_1();
    lemma_part_4_lookups_0();
    lemma_part_5_lookups_0();
}

/// Looking up each of the identifiers KPBZ to KGRK finds the
/// registry's site of that identifier, with its city and state.
pub proof fn lemma_registry_lookup_kpbz_to_kgrk()
    ensures
        first_with_id(site_table(), "KPBZ"@) matches Some(e) && e.id@ == "KPBZ"@ && e.city@ == "Pittsburgh"@ && e.state@ == "PA"@,
        first_with_id(site_table(), "TJUA"@) matches Some(e) && e.id@ == "TJUA"@ && e.city@ == "San Juan"@ && e.state@ == "PR"@,
        first_with_id(site_table(), "KCAE"@) matches Some(e) && e.id@ == "KCAE"@ && e.city@ == "Columbia"@ && e.state@ == "SC"@,
        first_with_id(site_table(), "KCLX"@) matches Some(e) && e.id@ == "KCLX"@ && e.city@ == "Charleston"@ && e.state@ == "SC"@,
        first_with_id(site_table(), "KGSP"@) matches Some(e) && e.id@ == "KGSP"@ && e.city@ == "Greenville"@ && e.state@ == "SC"@,
        first_with_id(site_table(), "KABR"@) matches Some(e) && e.id@ == "KABR"@ && e.city@ == "Aberdeen"@ && e.state@ == "SD"@,
        first_with_id(site_table(), "KUDX"@) matches Some(e) && e.id@ == "KUDX"@ && e.city@ == "Rapid City"@ && e.state@ == "SD"@,
        first_with_id(site_table(), "KFSD"@) matches Some(e) && e.id@ == "KFSD"@ && e.city@ == "Sioux Falls"@ && e.state@ == "SD"@,
        first_with_id(site_table(), "KMRX"@) matches Some(e) && e.id@ == "KMRX"@ && e.city@ == "Knoxville"@ && e.state@ == "TN"@,
        first_with_id(site_table(), "KNQA"@) matches Some(e) && e.id@ == "KNQA"@ && e.city@ == "Memphis"@ && e.state@ == "TN"@,
        first_with_id(site_table(), "KOHX"@) matches Some(e) && e.id@ == "KOHX"@ && e.city@ == "Nashville"@ && e.state@ == "TN"@,
        first_with_id(site_table(), "KAMA"@) matches Some(e) && e.id@ == "KAMA"@ && e.city@ == "Amarillo"@ && e.state@ == "TX"@,
        first_with_id(site_table(), "KBRO"@) matches Some(e) && e.id@ == "KBRO"@ && e.city@ == "Brownsville"@ && e.state@ == "TX"@,
        first_with_id(site_table(), "KCRP"@) matches Some(e) && e.id@ == "KCRP"@ && e.city@ == "Corpus Christi"@ && e.state@ == "TX"@,
        first_with_id(site_table(), "KDFX"@) matches Some(e) && e.id@ == "KDFX"@ && e.city@ == "Laughlin AFB"@ && e.state@ == "TX"@,
        first_with_id(site_table(), "KDYX"@) matches Some(e) && e.id@ == "KDYX"@ && e.city@ == "Dyess AFB"@ && e.state@ == "TX"@,
        first_with_id(site_table(), "KEPZ"@) matches Some(e) && e.id@ == "KEPZ"@ && e.city@ == "El Paso"@ && e.state@ == "TX"@,
        first_with_id(site_table(), "KEWX"@) matches Some(e) && e.id@ == "KEWX"@ && e.city@ == "San Antonio"@ && e.state@ == "TX"@,
        first_with_id(site_table(), "KFWS"@) matches Some(e) && e.id@ == "KFWS"@ && e.city@ == "Dallas/Fort Worth"@ && e.state@ == "TX"@,
        first_with_id(site_table(), "KGRK"@) matches Some(e) && e.id@ == "KGRK"@ && e.city@ == "Fort Hood"@ && e.state@ == "TX"@,
{
    broadcast use lemma_first_with_id_concat;
    lemma_table_in_parts();
    lemma_part_0_lookups_0();
    lemma_part_0_lookups_1();
    lemma_part_0_lookups_2();
    lemma_part_0_lookups_3();
    lemma_part_1_lookups_0();
    lemma_part_1_lookups_1();
    lemma_part_1_lookups_2();
    lemma_part_1_lookups_3();
    lemma_part_2_lookups_0();
    lemma_part_2_lookups_1();
    lemma_part_2_lookups_2();
    lemma_part_3_lookups_0();
    lemma_part_3_lookups_1();
    lemma_part_4_lookups_0();
    lemma_part_5_lookups_0();
}

/// Looking up each of the identifiers KLBB to PGUA finds the
/// registry's site of that identifier, with its city and state.
pub proof fn lemma_registry_lookup_klbb_to_pgua()
    ensures
        first_with_id(site_table(), "KLBB"@) matches Some(e) && e.id@ == "KLBB"@ && e.city@ == "Lubbock"@ && e.state@ == "TX"@,
        first_with_id(site_table(), "KMAF"@) matches Some(e) && e.id@ == "KMAF"@ && e.city@ == "Midland/Odessa"@ && e.state@ == "TX"@,
        first_with_id(site_table(), "KSJT"@) matches Some(e) && e.id@ == "KSJT"@ && e.city@ == "San Angelo"@ && e.state@ == "TX"@,
        first_with_id(site_table(), "KICX"@) matches Some(e) && e.id@ == "KICX"@ && e.city@ == "Cedar City"@ && e.state@ == "UT"@,
        first_with_id(site_table(), "KMTX"@) matches Some(e) && e.id@ == "KMTX"@ && e.city@ == "Salt Lake City"@ && e.state@ == "UT"@,
        first_with_id(site_table(), "KCXX"@) matches Some(e) && e.id@ == "KCXX"@ && e.city@ == "Burlington"@ && e.state@ == "VT"@,
        first_with_id(site_table(), "KFCX"@) matches Some(e) && e.id@ == "KFCX"@ && e.city@ == "Roanoke"@ && e.state@ == "VA"@,
        first_with_id(site_table(), "KATX"@) matches Some(e) && e.id@ == "KATX"@ && e.city@ == "Seattle"@ && e.state@ == "WA"@,
        first_with_id(site_table(), "KOTX"@) matches Some(e) && e.id@ == "KOTX"@ && e.city@ == "Spokane"@ && e.state@ == "WA"@,
        first_with_id(site_table(), "KRLX"@) matches Some(e) && e.id@ == "KRLX"@ && e.city@ == "Charleston"@ && e.state@ == "WV"@,
        first_with_id(site_table(), "KARX"@) matches Some(e) && e.id@ == "KARX"@ && e.city@ == "La Crosse"@ && e.state@ == "WI"@,
        first_with_id(site_table(), "KGRB"@) matches Some(e) && e.id@ == "KGRB"@ && e.city@ == "Green Bay"@ && e.state@ == "WI"@,
        first_with_id(site_table(), "KMKX"@) matches Some(e) && e.id@ == "KMKX"@ && e.city@ == "Milwaukee"@ && e.state@ == "WI"@,
        first_with_id(site_table(), "KCYS"@) matches Some(e) && e.id@ == "KCYS"@ && e.city@ == "Cheyenne"@ && e.state@ == "WY"@,
        first_with_id(site_table(), "KRIW"@) matches Some(e) && e.id@ == "KRIW"@ && e.city@ == "Riverton"@ && e.state@ == "WY"@,
        first_with_id(site_table(), "PGUA"@) matches Some(e) && e.id@ == "PGUA"@ && e.city@ == "Andersen AFB"@ && e.state@ == "GU"@,
{
    broadcast use lemma_first_with_id_concat;
    lemma_table_in_parts();
    lemma_part_0_lookups_0();
    lemma_part_0_lookups_1();
    lemma_part_0_lookups_2();
    lemma_part_0_lookups_3();
    lemma_part_1_lookups_0();
    lemma_part_1_lookups_1();
    lemma_part_1_lookups_2();
    lemma_part_1_lookups_3();
    lemma_part_2_lookups_0();
    lemma_part_2_lookups_1();
    lemma_part_2_lookups_2();
    lemma_part_3_lookups_0();
    lemma_part_3_lookups_1();
    lemma_part_4_lookups_0();
    lemma_part_5_lookups_0();
}

} // verus!
