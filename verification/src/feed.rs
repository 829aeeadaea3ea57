//! Feed snapshots and the locations they can come from.

use vstd::prelude::*;

verus! {

/// A snapshot of one externally tracked feed for a single polling cycle.
#[derive(Debug)]
pub struct Feed {
    pub id: u32,
    pub name: String,
    pub listeners: u32,
    pub location: Location,
    pub county: String,
    pub alert: Option<String>,
}

/// The mathematical content of a feed snapshot.
pub struct FeedV {
    pub id: u32,
    pub name: Seq<char>,
    pub listeners: u32,
    pub location: Location,
    pub county: Seq<char>,
    pub alert: Option<Seq<char>>,
}

impl View for Feed {
    type V = FeedV;

    open spec fn view(&self) -> FeedV {
        FeedV {
            id: self.id,
            name: self.name@,
            listeners: self.listeners,
            location: self.location,
            county: self.county@,
            alert: match self.alert {
                Some(a) => Some(a@),
                None => None,
            },
        }
    }
}

/// Whether some feed in the sequence carries the given id.
pub open spec fn spec_has_feed_id(feeds: Seq<Feed>, id: u32) -> bool {
    exists|j: int| 0 <= j < feeds.len() && (#[trigger] feeds[j]).id == id
}

/// Orders scraped feeds by id and drops repeated sightings of the same
/// feed: the result is strictly ordered, holds feeds of the input only, and
/// covers exactly the input's ids.
pub fn sort_dedup_feeds(feeds: Vec<Feed>) -> (r: Vec<Feed>)
    ensures
        forall|i: int, j: int|
            0 <= i < j < r@.len() ==> (#[trigger] r@[i]).id < (#[trigger] r@[j]).id,
        forall|id: u32| spec_has_feed_id(r@, id) == spec_has_feed_id(feeds@, id),
        forall|k: int| 0 <= k < r@.len() ==> feeds@.contains(#[trigger] r@[k]),
{
    let ghost all = feeds@;
    let mut input = feeds;
    let mut r: Vec<Feed> = Vec::new();
    let mut i: usize = 0;
    proof {
        assert(all.len() == input.len());
        assert(input@ =~= all.skip(0));
    }
    while input.len() > 0
        invariant
            all.len() <= usize::MAX,
            i + input@.len() == all.len(),
            input@ == all.skip(i as int),
            forall|a: int, b: int|
                0 <= a < b < r@.len() ==> (#[trigger] r@[a]).id < (#[trigger] r@[b]).id,
            forall|id: u32|
                #![trigger spec_has_feed_id(r@, id)]
                spec_has_feed_id(r@, id) == spec_has_feed_id(all.take(i as int), id),
            forall|k: int| 0 <= k < r@.len() ==> all.contains(#[trigger] r@[k]),
        decreases input@.len(),
    {
        proof {
            assert(input@[0] == all[i as int]);
            let t = all.take(i + 1);
            assert(t.drop_last() =~= all.take(i as int));
            assert(t.last() == all[i as int]);
        }
        let f = input.remove(0);
        let ghost fv = f;
        let mut pos: usize = 0;
        while pos < r.len() && r[pos].id < f.id
            invariant
                pos <= r@.len(),
                forall|q: int| 0 <= q < pos ==> (#[trigger] r@[q]).id < f.id,
                f == fv,
            decreases r@.len() - pos,
        {
            pos = pos + 1;
        }
        let duplicate = pos < r.len() && r[pos].id == f.id;
        let ghost pre = r@;
        if !duplicate {
            r.insert(pos, f);
        }
        i = i + 1;
        proof {
            assert(input@ =~= all.skip(i as int));
            if duplicate {
                assert(spec_has_feed_id(pre, fv.id)) by {
                    assert(pre[pos as int].id == fv.id);
                }
            } else {
                assert(r@ == pre.insert(pos as int, fv));
                assert(all.contains(fv)) by {
                    assert(all[i - 1] == fv);
                }
                assert forall|k: int| 0 <= k < r@.len() implies all.contains(
                    #[trigger] r@[k],
                ) by {
                    if k < pos {
                        assert(r@[k] == pre[k]);
                    } else if k > pos {
                        assert(r@[k] == pre[k - 1]);
                    } else {
                        assert(r@[k] == fv);
                    }
                }
                assert forall|a: int, b: int|
                    0 <= a < b < r@.len() implies (#[trigger] r@[a]).id
                    < (#[trigger] r@[b]).id by {
                    if a < pos && b == pos {
                        assert(r@[a] == pre[a]);
                        assert(r@[b] == fv);
                    } else if a == pos && b > pos {
                        assert(r@[b] == pre[b - 1]);
                        assert(pre[b - 1].id >= pre[pos as int].id || pos as int == b - 1);
                        assert(pre[pos as int].id > fv.id || pos as int == b - 1);
                    } else if a < pos && b > pos {
                        assert(r@[a] == pre[a]);
                        assert(r@[b] == pre[b - 1]);
                    } else if a < pos && b < pos {
                        assert(r@[a] == pre[a] && r@[b] == pre[b]);
                    } else if a > pos && b > pos {
                        assert(r@[a] == pre[a - 1] && r@[b] == pre[b - 1]);
                    }
                }
            }
            assert forall|id: u32|
                #![trigger spec_has_feed_id(r@, id)]
                spec_has_feed_id(r@, id) == spec_has_feed_id(all.take(i as int), id) by {
                if spec_has_feed_id(r@, id) {
                    let k = choose|k: int| 0 <= k < r@.len() && (#[trigger] r@[k]).id == id;
                    if duplicate {
                        assert(spec_has_feed_id(all.take(i - 1), id));
                        let j = choose|j: int|
                            0 <= j < i - 1 && (#[trigger] all.take(i - 1)[j]).id == id;
                        assert(all.take(i as int)[j].id == id);
                    } else {
                        if r@[k] == fv {
                            assert(all.take(i as int)[i - 1].id == id);
                        } else {
                            let kk = if k < pos { k } else { k - 1 };
                            assert(pre[kk].id == id);
                            assert(spec_has_feed_id(pre, id));
                            let j = choose|j: int|
                                0 <= j < i - 1 && (#[trigger] all.take(i - 1)[j]).id == id;
                            assert(all.take(i as int)[j].id == id);
                        }
                    }
                }
                if spec_has_feed_id(all.take(i as int), id) {
                    let j = choose|j: int|
                        0 <= j < i && (#[trigger] all.take(i as int)[j]).id == id;
                    if j < i - 1 {
                        assert(all.take(i - 1)[j].id == id);
                        assert(spec_has_feed_id(all.take(i - 1), id));
                        assert(spec_has_feed_id(pre, id));
                        let k = choose|k: int| 0 <= k < pre.len() && (#[trigger] pre[k]).id == id;
                        if duplicate {
                            assert(r@[k].id == id);
                        } else {
                            let kk = if k < pos { k } else { k + 1 };
                            assert(r@[kk] == pre[k]);
                        }
                    } else {
                        // the id of the row just handled
                        if duplicate {
                            assert(spec_has_feed_id(r@, fv.id)) by {
                                assert(pre[pos as int].id == fv.id);
                            }
                        } else {
                            assert(r@[pos as int] == fv);
                        }
                    }
                }
            }
        }
    }
    proof {
        assert(all.take(all.len() as int) =~= all);
        assert(all == feeds@);
    }
    r
}

/// Which listing page a set of feeds comes from.
pub enum Source {
    Top50,
    Location(Location),
}

impl Source {
    /// The address of this listing page. For a location page the address
    /// ends in the location's decimal id.
    pub fn url(&self) -> (r: String)
        ensures
            match self {
                Source::Top50 => r@ == "https://www.broadcastify.com/listen/top"@,
                Source::Location(loc) => {
                    let prefix = "https://www.broadcastify.com/listen/stid/"@;
                    &&& r@.len() > prefix.len()
                    &&& r@.subrange(0, prefix.len() as int) == prefix
                    &&& crate::text::all_digits(r@.skip(prefix.len() as int))
                    &&& crate::text::dec_value(r@.skip(prefix.len() as int)) == loc.spec_id()
                    &&& (r@.skip(prefix.len() as int).len() > 1 ==> r@.skip(
                        prefix.len() as int,
                    )[0] != '0')
                },
            },
    {
        match self {
            Source::Top50 => String::from_str("https://www.broadcastify.com/listen/top"),
            Source::Location(loc) => {
                let prefix = String::from_str("https://www.broadcastify.com/listen/stid/");
                let ghost p = prefix@;
                let digits = crate::text::u32_to_string(loc.id());
                let r = prefix.concat(digits.as_str());
                proof {
                    reveal_strlit("https://www.broadcastify.com/listen/stid/");
                    assert(r@.subrange(0, p.len() as int) =~= p);
                    assert(r@.skip(p.len() as int) =~= digits@);
                }
                r
            },
        }
    }
}

/// A state, province or territory with a significant feed presence, keyed
/// to the numeric id the feed directory uses for it.
#[derive(Clone, Copy, Debug, PartialEq, Eq, Structural)]
pub enum Location {
    UsAlabama,
    UsAlaska,
    UsArizona,
    UsArkansas,
    UsCalifornia,
    UsColorado,
    UsConnecticut,
    UsDelaware,
    UsDistrictOfColumbia,
    UsFlorida,
    UsGeorgia,
    UsHawaii,
    UsIdaho,
    UsIllinois,
    UsIndiana,
    UsIowa,
    UsKansas,
    UsKentucky,
    UsLouisiana,
    UsMaine,
    UsMaryland,
    UsMassachusetts,
    UsMichigan,
    UsMinnesota,
    UsMississippi,
    UsMissouri,
    UsMontana,
    UsNebraska,
    UsNevada,
    UsNewHampshire,
    UsNewJersey,
    UsNewMexico,
    UsNewYork,
    UsNorthCarolina,
    UsNorthDakota,
    UsOhio,
    UsOklahoma,
    UsOregon,
    UsPennsylvania,
    UsRhodeIsland,
    UsSouthCarolina,
    UsSouthDakota,
    UsTennessee,
    UsTexas,
    UsUtah,
    UsVermont,
    UsVirginia,
    UsWashington,
    UsWestVirginia,
    UsWisconsin,
    UsWyoming,
    CaAlberta,
    CaBritishColumbia,
    CaManitoba,
    CaNewBrunswick,
    CaNewfoundland,
    CaNorthwestTerritories,
    CaNovaScotia,
    CaNunavut,
    CaOntario,
    CaPrinceEdwardIsland,
    CaQuebec,
    CaSaskatchewan,
    CaYukon,
    AuWesternAustrailia,
    AuVictoria,
    AuSouthAustrailia,
    AuNorthernTerritory,
    AuQueensland,
    AuTasmania,
    AuNewSouthWales,
    AuAustralianCapitalTerritory,
    NlCountrywide,
    NlDrenthe,
    NlFlevoland,
    NlFriesland,
    NlGelderland,
    NlGroningen,
    NlLimburg,
    NlNoordBrabant,
    NlNoordHolland,
    NlOverijssel,
    NlUtrecht,
    NlZeeland,
    NlZuidHolland,
    MyCountrywide,
    LuCountrywide,
    BrCountrywide,
    ClValparaiso,
    ClBiobio,
    ClAraucania,
    ClSantiago,
}

impl Location {
    /// The numeric id of this location in the feed directory.
    pub open spec fn spec_id(self) -> u32 {
        match self {
            Location::UsAlabama => 1u32,
            Location::UsAlaska => 2u32,
            Location::UsArizona => 4u32,
            Location::UsArkansas => 5u32,
            Location::UsCalifornia => 6u32,
            Location::UsColorado => 8u32,
            Location::UsConnecticut => 9u32,
            Location::UsDelaware => 10u32,
            Location::UsDistrictOfColumbia => 11u32,
            Location::UsFlorida => 12u32,
            Location::UsGeorgia => 13u32,
            Location::UsHawaii => 15u32,
            Location::UsIdaho => 16u32,
            Location::UsIllinois => 17u32,
            Location::UsIndiana => 18u32,
            Location::UsIowa => 19u32,
            Location::UsKansas => 20u32,
            Location::UsKentucky => 21u32,
            Location::UsLouisiana => 22u32,
            Location::UsMaine => 23u32,
            Location::UsMaryland => 24u32,
            Location::UsMassachusetts => 25u32,
            Location::UsMichigan => 26u32,
            Location::UsMinnesota => 27u32,
            Location::UsMississippi => 28u32,
            Location::UsMissouri => 29u32,
            Location::UsMontana => 30u32,
            Location::UsNebraska => 31u32,
            Location::UsNevada => 32u32,
            Location::UsNewHampshire => 33u32,
            Location::UsNewJersey => 34u32,
            Location::UsNewMexico => 35u32,
            Location::UsNewYork => 36u32,
            Location::UsNorthCarolina => 37u32,
            Location::UsNorthDakota => 38u32,
            Location::UsOhio => 39u32,
            Location::UsOklahoma => 40u32,
            Location::UsOregon => 41u32,
            Location::UsPennsylvania => 42u32,
            Location::UsRhodeIsland => 44u32,
            Location::UsSouthCarolina => 45u32,
            Location::UsSouthDakota => 46u32,
            Location::UsTennessee => 47u32,
            Location::UsTexas => 48u32,
            Location::UsUtah => 49u32,
            Location::UsVermont => 50u32,
            Location::UsVirginia => 51u32,
            Location::UsWashington => 53u32,
            Location::UsWestVirginia => 54u32,
            Location::UsWisconsin => 55u32,
            Location::UsWyoming => 56u32,
            Location::CaAlberta => 101u32,
            Location::CaBritishColumbia => 102u32,
            Location::CaManitoba => 103u32,
            Location::CaNewBrunswick => 104u32,
            Location::CaNewfoundland => 105u32,
            Location::CaNorthwestTerritories => 106u32,
            Location::CaNovaScotia => 107u32,
            Location::CaNunavut => 108u32,
            Location::CaOntario => 109u32,
            Location::CaPrinceEdwardIsland => 110u32,
            Location::CaQuebec => 111u32,
            Location::CaSaskatchewan => 112u32,
            Location::CaYukon => 113u32,
            Location::AuWesternAustrailia => 151u32,
            Location::AuVictoria => 152u32,
            Location::AuSouthAustrailia => 153u32,
            Location::AuNorthernTerritory => 154u32,
            Location::AuQueensland => 155u32,
            Location::AuTasmania => 156u32,
            Location::AuNewSouthWales => 157u32,
            Location::AuAustralianCapitalTerritory => 158u32,
            Location::NlCountrywide => 223u32,
            Location::NlDrenthe => 688u32,
            Location::NlFlevoland => 689u32,
            Location::NlFriesland => 690u32,
            Location::NlGelderland => 691u32,
            Location::NlGroningen => 692u32,
            Location::NlLimburg => 693u32,
            Location::NlNoordBrabant => 694u32,
            Location::NlNoordHolland => 695u32,
            Location::NlOverijssel => 696u32,
            Location::NlUtrecht => 697u32,
            Location::NlZeeland => 698u32,
            Location::NlZuidHolland => 699u32,
            Location::MyCountrywide => 231u32,
            Location::LuCountrywide => 252u32,
            Location::BrCountrywide => 345u32,
            Location::ClValparaiso => 714u32,
            Location::ClBiobio => 717u32,
            Location::ClAraucania => 718u32,
            Location::ClSantiago => 723u32,
        }
    }

    /// The ISO-style abbreviation shown to the user for this location.
    pub open spec fn spec_abbrev(self) -> Seq<char> {
        match self {
            Location::UsAlabama => "US-AL"@,
            Location::UsAlaska => "US-AK"@,
            Location::UsArizona => "US-AZ"@,
            Location::UsArkansas => "US-AR"@,
            Location::UsCalifornia => "US-CA"@,
            Location::UsColorado => "US-CO"@,
            Location::UsConnecticut => "US-CT"@,
            Location::UsDelaware => "US-DE"@,
            Location::UsDistrictOfColumbia => "US-DC"@,
            Location::UsFlorida => "US-FL"@,
            Location::UsGeorgia => "US-GA"@,
            Location::UsHawaii => "US-HI"@,
            Location::UsIdaho => "US-ID"@,
            Location::UsIllinois => "US-IL"@,
            Location::UsIndiana => "US-IN"@,
            Location::UsIowa => "US-IA"@,
            Location::UsKansas => "US-KS"@,
            Location::UsKentucky => "US-KY"@,
            Location::UsLouisiana => "US-LA"@,
            Location::UsMaine => "US-ME"@,
            Location::UsMaryland => "US-MD"@,
            Location::UsMassachusetts => "US-MA"@,
            Location::UsMichigan => "US-MI"@,
            Location::UsMinnesota => "US-MN"@,
            Location::UsMississippi => "US-MS"@,
            Location::UsMissouri => "US-MO"@,
            Location::UsMontana => "US-MT"@,
            Location::UsNebraska => "US-NE"@,
            Location::UsNevada => "US-NV"@,
            Location::UsNewHampshire => "US-NH"@,
            Location::UsNewJersey => "US-NJ"@,
            Location::UsNewMexico => "US-NM"@,
            Location::UsNewYork => "US-NY"@,
            Location::UsNorthCarolina => "US-NC"@,
            Location::UsNorthDakota => "US-ND"@,
            Location::UsOhio => "US-OH"@,
            Location::UsOklahoma => "US-OK"@,
            Location::UsOregon => "US-OR"@,
            Location::UsPennsylvania => "US-PA"@,
            Location::UsRhodeIsland => "US-RI"@,
            Location::UsSouthCarolina => "US-SC"@,
            Location::UsSouthDakota => "US-SD"@,
            Location::UsTennessee => "US-TN"@,
            Location::UsTexas => "US-TX"@,
            Location::UsUtah => "US-UT"@,
            Location::UsVermont => "US-VT"@,
            Location::UsVirginia => "US-VA"@,
            Location::UsWashington => "US-WA"@,
            Location::UsWestVirginia => "US-WV"@,
            Location::UsWisconsin => "US-WI"@,
            Location::UsWyoming => "US-WY"@,
            Location::CaAlberta => "CA-AB"@,
            Location::CaBritishColumbia => "CA-BC"@,
            Location::CaManitoba => "CA-MB"@,
            Location::CaNewBrunswick => "CA-NB"@,
            Location::CaNewfoundland => "CA-NL"@,
            Location::CaNorthwestTerritories => "CA-NT"@,
            Location::CaNovaScotia => "CA-NS"@,
            Location::CaNunavut => "CA-NU"@,
            Location::CaOntario => "CA-ON"@,
            Location::CaPrinceEdwardIsland => "CA-PE"@,
            Location::CaQuebec => "CA-QC"@,
            Location::CaSaskatchewan => "CA-SK"@,
            Location::CaYukon => "CA-YT"@,
            Location::AuWesternAustrailia => "AU-WA"@,
            Location::AuVictoria => "AU-VIC"@,
            Location::AuSouthAustrailia => "AU-SA"@,
            Location::AuNorthernTerritory => "AU-NT"@,
            Location::AuQueensland => "AU-QLD"@,
            Location::AuTasmania => "AU-TAS"@,
            Location::AuNewSouthWales => "AU-NSW"@,
            Location::AuAustralianCapitalTerritory => "AU-ACT"@,
            Location::NlCountrywide => "NL-ALL"@,
            Location::NlDrenthe => "NL-DR"@,
            Location::NlFlevoland => "NL-FL"@,
            Location::NlFriesland => "NL-FR"@,
            Location::NlGelderland => "NL-GE"@,
            Location::NlGroningen => "NL-GR"@,
            Location::NlLimburg => "NL-LI"@,
            Location::NlNoordBrabant => "NL-NB"@,
            Location::NlNoordHolland => "NL-NH"@,
            Location::NlOverijssel => "NL-OV"@,
            Location::NlUtrecht => "NL-UT"@,
            Location::NlZeeland => "NL-ZE"@,
            Location::NlZuidHolland => "NL-ZH"@,
            Location::MyCountrywide => "MY-ALL"@,
            Location::LuCountrywide => "LU-ALL"@,
            Location::BrCountrywide => "BR-ALL"@,
            Location::ClValparaiso => "CL-VL"@,
            Location::ClBiobio => "CL-BI"@,
            Location::ClAraucania => "CL-AR"@,
            Location::ClSantiago => "CL-RM"@,
        }
    }

    /// The location with the given directory id, if any.
    pub open spec fn spec_from_id(id: u32) -> Option<Location> {
        match id {
            1u32 => Some(Location::UsAlabama),
            2u32 => Some(Location::UsAlaska),
            4u32 => Some(Location::UsArizona),
            5u32 => Some(Location::UsArkansas),
            6u32 => Some(Location::UsCalifornia),
            8u32 => Some(Location::UsColorado),
            9u32 => Some(Location::UsConnecticut),
            10u32 => Some(Location::UsDelaware),
            11u32 => Some(Location::UsDistrictOfColumbia),
            12u32 => Some(Location::UsFlorida),
            13u32 => Some(Location::UsGeorgia),
            15u32 => Some(Location::UsHawaii),
            16u32 => Some(Location::UsIdaho),
            17u32 => Some(Location::UsIllinois),
            18u32 => Some(Location::UsIndiana),
            19u32 => Some(Location::UsIowa),
            20u32 => Some(Location::UsKansas),
            21u32 => Some(Location::UsKentucky),
            22u32 => Some(Location::UsLouisiana),
            23u32 => Some(Location::UsMaine),
            24u32 => Some(Location::UsMaryland),
            25u32 => Some(Location::UsMassachusetts),
            26u32 => Some(Location::UsMichigan),
            27u32 => Some(Location::UsMinnesota),
            28u32 => Some(Location::UsMississippi),
            29u32 => Some(Location::UsMissouri),
            30u32 => Some(Location::UsMontana),
            31u32 => Some(Location::UsNebraska),
            32u32 => Some(Location::UsNevada),
            33u32 => Some(Location::UsNewHampshire),
            34u32 => Some(Location::UsNewJersey),
            35u32 => Some(Location::UsNewMexico),
            36u32 => Some(Location::UsNewYork),
            37u32 => Some(Location::UsNorthCarolina),
            38u32 => Some(Location::UsNorthDakota),
            39u32 => Some(Location::UsOhio),
            40u32 => Some(Location::UsOklahoma),
            41u32 => Some(Location::UsOregon),
            42u32 => Some(Location::UsPennsylvania),
            44u32 => Some(Location::UsRhodeIsland),
            45u32 => Some(Location::UsSouthCarolina),
            46u32 => Some(Location::UsSouthDakota),
            47u32 => Some(Location::UsTennessee),
            48u32 => Some(Location::UsTexas),
            49u32 => Some(Location::UsUtah),
            50u32 => Some(Location::UsVermont),
            51u32 => Some(Location::UsVirginia),
            53u32 => Some(Location::UsWashington),
            54u32 => Some(Location::UsWestVirginia),
            55u32 => Some(Location::UsWisconsin),
            56u32 => Some(Location::UsWyoming),
            101u32 => Some(Location::CaAlberta),
            102u32 => Some(Location::CaBritishColumbia),
            103u32 => Some(Location::CaManitoba),
            104u32 => Some(Location::CaNewBrunswick),
            105u32 => Some(Location::CaNewfoundland),
            106u32 => Some(Location::CaNorthwestTerritories),
            107u32 => Some(Location::CaNovaScotia),
            108u32 => Some(Location::CaNunavut),
            109u32 => Some(Location::CaOntario),
            110u32 => Some(Location::CaPrinceEdwardIsland),
            111u32 => Some(Location::CaQuebec),
            112u32 => Some(Location::CaSaskatchewan),
            113u32 => Some(Location::CaYukon),
            151u32 => Some(Location::AuWesternAustrailia),
            152u32 => Some(Location::AuVictoria),
            153u32 => Some(Location::AuSouthAustrailia),
            154u32 => Some(Location::AuNorthernTerritory),
            155u32 => Some(Location::AuQueensland),
            156u32 => Some(Location::AuTasmania),
            157u32 => Some(Location::AuNewSouthWales),
            158u32 => Some(Location::AuAustralianCapitalTerritory),
            223u32 => Some(Location::NlCountrywide),
            688u32 => Some(Location::NlDrenthe),
            689u32 => Some(Location::NlFlevoland),
            690u32 => Some(Location::NlFriesland),
            691u32 => Some(Location::NlGelderland),
            692u32 => Some(Location::NlGroningen),
            693u32 => Some(Location::NlLimburg),
            694u32 => Some(Location::NlNoordBrabant),
            695u32 => Some(Location::NlNoordHolland),
            696u32 => Some(Location::NlOverijssel),
            697u32 => Some(Location::NlUtrecht),
            698u32 => Some(Location::NlZeeland),
            699u32 => Some(Location::NlZuidHolland),
            231u32 => Some(Location::MyCountrywide),
            252u32 => Some(Location::LuCountrywide),
            345u32 => Some(Location::BrCountrywide),
            714u32 => Some(Location::ClValparaiso),
            717u32 => Some(Location::ClBiobio),
            718u32 => Some(Location::ClAraucania),
            723u32 => Some(Location::ClSantiago),
            _ => None,
        }
    }

    pub fn id(self) -> (r: u32)
        ensures
            r == self.spec_id(),
    {
        match self {
            Location::UsAlabama => 1,
            Location::UsAlaska => 2,
            Location::UsArizona => 4,
            Location::UsArkansas => 5,
            Location::UsCalifornia => 6,
            Location::UsColorado => 8,
            Location::UsConnecticut => 9,
            Location::UsDelaware => 10,
            Location::UsDistrictOfColumbia => 11,
            Location::UsFlorida => 12,
            Location::UsGeorgia => 13,
            Location::UsHawaii => 15,
            Location::UsIdaho => 16,
            Location::UsIllinois => 17,
            Location::UsIndiana => 18,
            Location::UsIowa => 19,
            Location::UsKansas => 20,
            Location::UsKentucky => 21,
            Location::UsLouisiana => 22,
            Location::UsMaine => 23,
            Location::UsMaryland => 24,
            Location::UsMassachusetts => 25,
            Location::UsMichigan => 26,
            Location::UsMinnesota => 27,
            Location::UsMississippi => 28,
            Location::UsMissouri => 29,
            Location::UsMontana => 30,
            Location::UsNebraska => 31,
            Location::UsNevada => 32,
            Location::UsNewHampshire => 33,
            Location::UsNewJersey => 34,
            Location::UsNewMexico => 35,
            Location::UsNewYork => 36,
            Location::UsNorthCarolina => 37,
            Location::UsNorthDakota => 38,
            Location::UsOhio => 39,
            Location::UsOklahoma => 40,
            Location::UsOregon => 41,
            Location::UsPennsylvania => 42,
            Location::UsRhodeIsland => 44,
            Location::UsSouthCarolina => 45,
            Location::UsSouthDakota => 46,
            Location::UsTennessee => 47,
            Location::UsTexas => 48,
            Location::UsUtah => 49,
            Location::UsVermont => 50,
            Location::UsVirginia => 51,
            Location::UsWashington => 53,
            Location::UsWestVirginia => 54,
            Location::UsWisconsin => 55,
            Location::UsWyoming => 56,
            Location::CaAlberta => 101,
            Location::CaBritishColumbia => 102,
            Location::CaManitoba => 103,
            Location::CaNewBrunswick => 104,
            Location::CaNewfoundland => 105,
            Location::CaNorthwestTerritories => 106,
            Location::CaNovaScotia => 107,
            Location::CaNunavut => 108,
            Location::CaOntario => 109,
            Location::CaPrinceEdwardIsland => 110,
            Location::CaQuebec => 111,
            Location::CaSaskatchewan => 112,
            Location::CaYukon => 113,
            Location::AuWesternAustrailia => 151,
            Location::AuVictoria => 152,
            Location::AuSouthAustrailia => 153,
            Location::AuNorthernTerritory => 154,
            Location::AuQueensland => 155,
            Location::AuTasmania => 156,
            Location::AuNewSouthWales => 157,
            Location::AuAustralianCapitalTerritory => 158,
            Location::NlCountrywide => 223,
            Location::NlDrenthe => 688,
            Location::NlFlevoland => 689,
            Location::NlFriesland => 690,
            Location::NlGelderland => 691,
            Location::NlGroningen => 692,
            Location::NlLimburg => 693,
            Location::NlNoordBrabant => 694,
            Location::NlNoordHolland => 695,
            Location::NlOverijssel => 696,
            Location::NlUtrecht => 697,
            Location::NlZeeland => 698,
            Location::NlZuidHolland => 699,
            Location::MyCountrywide => 231,
            Location::LuCountrywide => 252,
            Location::BrCountrywide => 345,
            Location::ClValparaiso => 714,
            Location::ClBiobio => 717,
            Location::ClAraucania => 718,
            Location::ClSantiago => 723,
        }
    }

    pub fn abbrev(self) -> (r: &'static str)
        ensures
            r@ == self.spec_abbrev(),
    {
        match self {
            Location::UsAlabama => "US-AL",
            Location::UsAlaska => "US-AK",
            Location::UsArizona => "US-AZ",
            Location::UsArkansas => "US-AR",
            Location::UsCalifornia => "US-CA",
            Location::UsColorado => "US-CO",
            Location::UsConnecticut => "US-CT",
            Location::UsDelaware => "US-DE",
            Location::UsDistrictOfColumbia => "US-DC",
            Location::UsFlorida => "US-FL",
            Location::UsGeorgia => "US-GA",
            Location::UsHawaii => "US-HI",
            Location::UsIdaho => "US-ID",
            Location::UsIllinois => "US-IL",
            Location::UsIndiana => "US-IN",
            Location::UsIowa => "US-IA",
            Location::UsKansas => "US-KS",
            Location::UsKentucky => "US-KY",
            Location::UsLouisiana => "US-LA",
            Location::UsMaine => "US-ME",
            Location::UsMaryland => "US-MD",
            Location::UsMassachusetts => "US-MA",
            Location::UsMichigan => "US-MI",
            Location::UsMinnesota => "US-MN",
            Location::UsMississippi => "US-MS",
            Location::UsMissouri => "US-MO",
            Location::UsMontana => "US-MT",
            Location::UsNebraska => "US-NE",
            Location::UsNevada => "US-NV",
            Location::UsNewHampshire => "US-NH",
            Location::UsNewJersey => "US-NJ",
            Location::UsNewMexico => "US-NM",
            Location::UsNewYork => "US-NY",
            Location::UsNorthCarolina => "US-NC",
            Location::UsNorthDakota => "US-ND",
            Location::UsOhio => "US-OH",
            Location::UsOklahoma => "US-OK",
            Location::UsOregon => "US-OR",
            Location::UsPennsylvania => "US-PA",
            Location::UsRhodeIsland => "US-RI",
            Location::UsSouthCarolina => "US-SC",
            Location::UsSouthDakota => "US-SD",
            Location::UsTennessee => "US-TN",
            Location::UsTexas => "US-TX",
            Location::UsUtah => "US-UT",
            Location::UsVermont => "US-VT",
            Location::UsVirginia => "US-VA",
            Location::UsWashington => "US-WA",
            Location::UsWestVirginia => "US-WV",
            Location::UsWisconsin => "US-WI",
            Location::UsWyoming => "US-WY",
            Location::CaAlberta => "CA-AB",
            Location::CaBritishColumbia => "CA-BC",
            Location::CaManitoba => "CA-MB",
            Location::CaNewBrunswick => "CA-NB",
            Location::CaNewfoundland => "CA-NL",
            Location::CaNorthwestTerritories => "CA-NT",
            Location::CaNovaScotia => "CA-NS",
            Location::CaNunavut => "CA-NU",
            Location::CaOntario => "CA-ON",
            Location::CaPrinceEdwardIsland => "CA-PE",
            Location::CaQuebec => "CA-QC",
            Location::CaSaskatchewan => "CA-SK",
            Location::CaYukon => "CA-YT",
            Location::AuWesternAustrailia => "AU-WA",
            Location::AuVictoria => "AU-VIC",
            Location::AuSouthAustrailia => "AU-SA",
            Location::AuNorthernTerritory => "AU-NT",
            Location::AuQueensland => "AU-QLD",
            Location::AuTasmania => "AU-TAS",
            Location::AuNewSouthWales => "AU-NSW",
            Location::AuAustralianCapitalTerritory => "AU-ACT",
            Location::NlCountrywide => "NL-ALL",
            Location::NlDrenthe => "NL-DR",
            Location::NlFlevoland => "NL-FL",
            Location::NlFriesland => "NL-FR",
            Location::NlGelderland => "NL-GE",
            Location::NlGroningen => "NL-GR",
            Location::NlLimburg => "NL-LI",
            Location::NlNoordBrabant => "NL-NB",
            Location::NlNoordHolland => "NL-NH",
            Location::NlOverijssel => "NL-OV",
            Location::NlUtrecht => "NL-UT",
            Location::NlZeeland => "NL-ZE",
            Location::NlZuidHolland => "NL-ZH",
            Location::MyCountrywide => "MY-ALL",
            Location::LuCountrywide => "LU-ALL",
            Location::BrCountrywide => "BR-ALL",
            Location::ClValparaiso => "CL-VL",
            Location::ClBiobio => "CL-BI",
            Location::ClAraucania => "CL-AR",
            Location::ClSantiago => "CL-RM",
        }
    }

    pub fn from_id(id: u32) -> (r: Option<Location>)
        ensures
            r == Location::spec_from_id(id),
            r is Some ==> r->0.spec_id() == id,
    {
        match id {
            1 => Some(Location::UsAlabama),
            2 => Some(Location::UsAlaska),
            4 => Some(Location::UsArizona),
            5 => Some(Location::UsArkansas),
            6 => Some(Location::UsCalifornia),
            8 => Some(Location::UsColorado),
            9 => Some(Location::UsConnecticut),
            10 => Some(Location::UsDelaware),
            11 => Some(Location::UsDistrictOfColumbia),
            12 => Some(Location::UsFlorida),
            13 => Some(Location::UsGeorgia),
            15 => Some(Location::UsHawaii),
            16 => Some(Location::UsIdaho),
            17 => Some(Location::UsIllinois),
            18 => Some(Location::UsIndiana),
            19 => Some(Location::UsIowa),
            20 => Some(Location::UsKansas),
            21 => Some(Location::UsKentucky),
            22 => Some(Location::UsLouisiana),
            23 => Some(Location::UsMaine),
            24 => Some(Location::UsMaryland),
            25 => Some(Location::UsMassachusetts),
            26 => Some(Location::UsMichigan),
            27 => Some(Location::UsMinnesota),
            28 => Some(Location::UsMississippi),
            29 => Some(Location::UsMissouri),
            30 => Some(Location::UsMontana),
            31 => Some(Location::UsNebraska),
            32 => Some(Location::UsNevada),
            33 => Some(Location::UsNewHampshire),
            34 => Some(Location::UsNewJersey),
            35 => Some(Location::UsNewMexico),
            36 => Some(Location::UsNewYork),
            37 => Some(Location::UsNorthCarolina),
            38 => Some(Location::UsNorthDakota),
            39 => Some(Location::UsOhio),
            40 => Some(Location::UsOklahoma),
            41 => Some(Location::UsOregon),
            42 => Some(Location::UsPennsylvania),
            44 => Some(Location::UsRhodeIsland),
            45 => Some(Location::UsSouthCarolina),
            46 => Some(Location::UsSouthDakota),
            47 => Some(Location::UsTennessee),
            48 => Some(Location::UsTexas),
            49 => Some(Location::UsUtah),
            50 => Some(Location::UsVermont),
            51 => Some(Location::UsVirginia),
            53 => Some(Location::UsWashington),
            54 => Some(Location::UsWestVirginia),
            55 => Some(Location::UsWisconsin),
            56 => Some(Location::UsWyoming),
            101 => Some(Location::CaAlberta),
            102 => Some(Location::CaBritishColumbia),
            103 => Some(Location::CaManitoba),
            104 => Some(Location::CaNewBrunswick),
            105 => Some(Location::CaNewfoundland),
            106 => Some(Location::CaNorthwestTerritories),
            107 => Some(Location::CaNovaScotia),
            108 => Some(Location::CaNunavut),
            109 => Some(Location::CaOntario),
            110 => Some(Location::CaPrinceEdwardIsland),
            111 => Some(Location::CaQuebec),
            112 => Some(Location::CaSaskatchewan),
            113 => Some(Location::CaYukon),
            151 => Some(Location::AuWesternAustrailia),
            152 => Some(Location::AuVictoria),
            153 => Some(Location::AuSouthAustrailia),
            154 => Some(Location::AuNorthernTerritory),
            155 => Some(Location::AuQueensland),
            156 => Some(Location::AuTasmania),
            157 => Some(Location::AuNewSouthWales),
            158 => Some(Location::AuAustralianCapitalTerritory),
            223 => Some(Location::NlCountrywide),
            688 => Some(Location::NlDrenthe),
            689 => Some(Location::NlFlevoland),
            690 => Some(Location::NlFriesland),
            691 => Some(Location::NlGelderland),
            692 => Some(Location::NlGroningen),
            693 => Some(Location::NlLimburg),
            694 => Some(Location::NlNoordBrabant),
            695 => Some(Location::NlNoordHolland),
            696 => Some(Location::NlOverijssel),
            697 => Some(Location::NlUtrecht),
            698 => Some(Location::NlZeeland),
            699 => Some(Location::NlZuidHolland),
            231 => Some(Location::MyCountrywide),
            252 => Some(Location::LuCountrywide),
            345 => Some(Location::BrCountrywide),
            714 => Some(Location::ClValparaiso),
            717 => Some(Location::ClBiobio),
            718 => Some(Location::ClAraucania),
            723 => Some(Location::ClSantiago),
            _ => None,
        }
    }
}

} // verus!
