//! Identifiers of the betting venues the console knows.

use vstd::prelude::*;

verus! {

/// A betting exchange or bookmaker.
#[derive(Debug, Clone, Copy, PartialEq, Eq, Structural)]
pub enum VenueId {
    Smarkets,
    Bet365,
    Betfair,
    Betano,
    Bet10,
    Betmgm,
    Betfred,
    Betvictor,
    Boylesports,
    Coral,
    Fanteam,
    Ladbrokes,
    Kwik,
    Bet600,
    Leovegas,
    Matchbook,
    Betdaq,
    Betway,
    Betuk,
    Midnite,
    Paddypower,
    Skybet,
    Sportingindex,
    Talksportbet,
    Williamhill,
}

impl VenueId {
    pub open spec fn spec_as_str(self) -> Seq<char> {
        match self {
            VenueId::Smarkets => "smarkets"@,
            VenueId::Bet365 => "bet365"@,
            VenueId::Betfair => "betfair"@,
            VenueId::Betano => "betano"@,
            VenueId::Bet10 => "bet10"@,
            VenueId::Betmgm => "betmgm"@,
            VenueId::Betfred => "betfred"@,
            VenueId::Betvictor => "betvictor"@,
            VenueId::Boylesports => "boylesports"@,
            VenueId::Coral => "coral"@,
            VenueId::Fanteam => "fanteam"@,
            VenueId::Ladbrokes => "ladbrokes"@,
            VenueId::Kwik => "kwik"@,
            VenueId::Bet600 => "bet600"@,
            VenueId::Leovegas => "leovegas"@,
            VenueId::Matchbook => "matchbook"@,
            VenueId::Betdaq => "betdaq"@,
            VenueId::Betway => "betway"@,
            VenueId::Betuk => "betuk"@,
            VenueId::Midnite => "midnite"@,
            VenueId::Paddypower => "paddypower"@,
            VenueId::Skybet => "skybet"@,
            VenueId::Sportingindex => "sportingindex"@,
            VenueId::Talksportbet => "talksportbet"@,
            VenueId::Williamhill => "williamhill"@,
        }
    }

    /// The stable lower-case identifier of the venue.
    pub fn as_str(self) -> (r: &'static str)
        ensures
            r@ == self.spec_as_str(),
    {
        match self {
            VenueId::Smarkets => "smarkets",
            VenueId::Bet365 => "bet365",
            VenueId::Betfair => "betfair",
            VenueId::Betano => "betano",
            VenueId::Bet10 => "bet10",
            VenueId::Betmgm => "betmgm",
            VenueId::Betfred => "betfred",
            VenueId::Betvictor => "betvictor",
            VenueId::Boylesports => "boylesports",
            VenueId::Coral => "coral",
            VenueId::Fanteam => "fanteam",
            VenueId::Ladbrokes => "ladbrokes",
            VenueId::Kwik => "kwik",
            VenueId::Bet600 => "bet600",
            VenueId::Leovegas => "leovegas",
            VenueId::Matchbook => "matchbook",
            VenueId::Betdaq => "betdaq",
            VenueId::Betway => "betway",
            VenueId::Betuk => "betuk",
            VenueId::Midnite => "midnite",
            VenueId::Paddypower => "paddypower",
            VenueId::Skybet => "skybet",
            VenueId::Sportingindex => "sportingindex",
            VenueId::Talksportbet => "talksportbet",
            VenueId::Williamhill => "williamhill",
        }
    }
}

/// Different venues have different identifiers.
pub proof fn lemma_venue_identifiers_distinct(a: VenueId, b: VenueId)
    ensures
        a.spec_as_str() == b.spec_as_str() ==> a == b,
{
    reveal_strlit("smarkets");
    reveal_strlit("bet365");
    reveal_strlit("betfair");
    reveal_strlit("betano");
    reveal_strlit("bet10");
    reveal_strlit("betmgm");
    reveal_strlit("betfred");
    reveal_strlit("betvictor");
    reveal_strlit("boylesports");
    reveal_strlit("coral");
    reveal_strlit("fanteam");
    reveal_strlit("ladbrokes");
    reveal_strlit("kwik");
    reveal_strlit("bet600");
    reveal_strlit("leovegas");
    reveal_strlit("matchbook");
    reveal_strlit("betdaq");
    reveal_strlit("betway");
    reveal_strlit("betuk");
    reveal_strlit("midnite");
    reveal_strlit("paddypower");
    reveal_strlit("skybet");
    reveal_strlit("sportingindex");
    reveal_strlit("talksportbet");
    reveal_strlit("williamhill");
    if a.spec_as_str() == b.spec_as_str() && a != b {
        assert(a.spec_as_str().len() == b.spec_as_str().len());
        assert(a.spec_as_str()[0] == b.spec_as_str()[0]);
        assert(a.spec_as_str()[3] == b.spec_as_str()[3]);
        assert(a.spec_as_str()[4] == b.spec_as_str()[4]);
    }
}

} // verus!
