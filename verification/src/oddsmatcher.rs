//! The OddsMatcher GraphQL request (`GetBestMatches`) and how its response
//! is turned into matches or an error.

use vstd::prelude::*;
use crate::text::join;

verus! {

pub const ODDSMATCHER_GRAPHQL_URL: &'static str = "https://api.oddsplatform.profitaccumulator.com/graphql";

pub const GET_BEST_MATCHES_QUERY: &'static str = r#"
query GetBestMatches(
  $bookmaker: [String!]
  $exchange: [String!]
  $ratingType: String
  $minRating: String
  $maxRating: String
  $minOdds: String
  $maxOdds: String
  $minLiquidity: String
  $limit: Int
  $skip: Int
  $updatedWithinSeconds: Int
  $excludeDraw: Boolean
  $permittedSports: [String!]
  $permittedMarketGroups: [String!]
  $permittedEventGroups: [String!]
  $permittedCountries: [String!]
  $permittedEventIds: [String!]
  $commissionRates: CommissionRatesInput
) {
  getBestMatches(
    bookmaker: $bookmaker
    exchange: $exchange
    ratingType: $ratingType
    minRating: $minRating
    maxRating: $maxRating
    minOdds: $minOdds
    maxOdds: $maxOdds
    minLiquidity: $minLiquidity
    limit: $limit
    skip: $skip
    updatedWithinSeconds: $updatedWithinSeconds
    excludeDraw: $excludeDraw
    permittedSports: $permittedSports
    permittedMarketGroups: $permittedMarketGroups
    permittedEventGroups: $permittedEventGroups
    permittedCountries: $permittedCountries
    permittedEventIds: $permittedEventIds
    commissionRates: $commissionRates
  ) {
    eventName
    id
    startAt
    selectionId
    marketId
    eventId
    back {
      updatedAt
      odds
      fetchedAt
      deepLink
      bookmaker {
        active
        code
        displayName
        id
        logo
      }
    }
    lay {
      bookmaker {
        active
        code
        displayName
        id
        logo
      }
      deepLink
      fetchedAt
      updatedAt
      odds
      liquidity
      betSlip {
        marketId
        selectionId
      }
    }
    eventGroup {
      displayName
      id
      sourceName
      sport
    }
    marketGroup {
      displayName
      id
      sport
    }
    marketName
    rating
    selectionName
    snr
    sport {
      displayName
      id
    }
    betRequestId
  }
}
"#;

/// The views of a list of strings.
pub open spec fn texts(v: Seq<String>) -> Seq<Seq<char>> {
    v.map_values(|s: String| s@)
}

/// The view of an optional string.
pub open spec fn opt_text(o: Option<String>) -> Option<Seq<char>> {
    match o {
        Some(s) => Some(s@),
        None => None,
    }
}

/// Commission rates of the exchanges, in percent.
#[derive(Debug, Clone, PartialEq, Eq, Structural)]
pub struct CommissionRates {
    pub betdaq: i64,
    pub betfair: i64,
    pub matchbook: i64,
    pub smarkets: i64,
    pub betconnect: i64,
}

impl Default for CommissionRates {
    fn default() -> (r: Self)
        ensures
            r == (CommissionRates { betdaq: 0, betfair: 5, matchbook: 0, smarkets: 0, betconnect: 0 }),
    {
        CommissionRates { betdaq: 0, betfair: 5, matchbook: 0, smarkets: 0, betconnect: 0 }
    }
}

/// The variables of the `GetBestMatches` query.
#[derive(Debug, Clone, PartialEq)]
pub struct GetBestMatchesVariables {
    pub bookmaker: Vec<String>,
    pub exchange: Vec<String>,
    pub rating_type: String,
    pub min_rating: Option<String>,
    pub max_rating: Option<String>,
    pub min_odds: Option<String>,
    pub max_odds: Option<String>,
    pub min_liquidity: Option<String>,
    pub limit: usize,
    pub skip: usize,
    pub updated_within_seconds: u64,
    pub exclude_draw: bool,
    pub permitted_sports: Vec<String>,
    pub permitted_market_groups: Vec<String>,
    pub permitted_event_groups: Vec<String>,
    pub permitted_countries: Vec<String>,
    pub permitted_event_ids: Vec<String>,
    pub commission_rates: CommissionRates,
}

impl Default for GetBestMatchesVariables {
    /// The filters the OddsMatcher web page starts with.
    fn default() -> (r: Self)
        ensures
            texts(r.bookmaker@) == seq!["betvictor"@],
            texts(r.exchange@) == seq!["smarketsexchange"@],
            r.rating_type@ == "rating"@,
            r.min_rating is None,
            opt_text(r.max_rating) == Some("99"@),
            opt_text(r.min_odds) == Some("2.1"@),
            opt_text(r.max_odds) == Some("5"@),
            opt_text(r.min_liquidity) == Some("30"@),
            r.limit == 10,
            r.skip == 0,
            r.updated_within_seconds == 21_600,
            !r.exclude_draw,
            texts(r.permitted_sports@) == seq!["soccer"@],
            texts(r.permitted_market_groups@) == seq!["match-odds"@],
            r.permitted_event_groups@.len() == 0,
            r.permitted_countries@.len() == 0,
            r.permitted_event_ids@.len() == 0,
            r.commission_rates == (CommissionRates {
                betdaq: 0,
                betfair: 5,
                matchbook: 0,
                smarkets: 0,
                betconnect: 0,
            }),
    {
        let r = GetBestMatchesVariables {
            bookmaker: vec!["betvictor".to_owned()],
            exchange: vec!["smarketsexchange".to_owned()],
            rating_type: "rating".to_owned(),
            min_rating: None,
            max_rating: Some("99".to_owned()),
            min_odds: Some("2.1".to_owned()),
            max_odds: Some("5".to_owned()),
            min_liquidity: Some("30".to_owned()),
            limit: 10,
            skip: 0,
            updated_within_seconds: 21_600,
            exclude_draw: false,
            permitted_sports: vec!["soccer".to_owned()],
            permitted_market_groups: vec!["match-odds".to_owned()],
            permitted_event_groups: Vec::new(),
            permitted_countries: Vec::new(),
            permitted_event_ids: Vec::new(),
            commission_rates: CommissionRates::default(),
        };
        assert(texts(r.bookmaker@) =~= seq!["betvictor"@]);
        assert(texts(r.exchange@) =~= seq!["smarketsexchange"@]);
        assert(texts(r.permitted_sports@) =~= seq!["soccer"@]);
        assert(texts(r.permitted_market_groups@) =~= seq!["match-odds"@]);
        r
    }
}

/// A GraphQL request: operation, query text and variables.
#[derive(Debug, Clone, PartialEq)]
pub struct GraphQlRequest<T> {
    pub operation_name: String,
    pub query: String,
    pub variables: T,
}

impl GraphQlRequest<GetBestMatchesVariables> {
    /// The `GetBestMatches` request for the given filters.
    pub fn get_best_matches(variables: GetBestMatchesVariables) -> (r: Self)
        ensures
            r.operation_name@ == "GetBestMatches"@,
            r.query@ == GET_BEST_MATCHES_QUERY@,
            r.variables == variables,
    {
        GraphQlRequest {
            operation_name: "GetBestMatches".to_owned(),
            query: GET_BEST_MATCHES_QUERY.to_owned(),
            variables,
        }
    }
}

/// An error reported by the GraphQL server.
#[derive(Debug, Clone, PartialEq)]
pub struct GraphQlError {
    pub message: String,
}

/// A GraphQL response: the data, if any, and the errors reported.
#[derive(Debug, Clone, PartialEq)]
pub struct GraphQlResponse<T> {
    pub data: Option<T>,
    pub errors: Vec<GraphQlError>,
}

/// A bookmaker or exchange as the OddsMatcher describes it.
#[derive(Debug, Clone, PartialEq)]
pub struct BookmakerSummary {
    pub active: bool,
    pub code: String,
    pub display_name: String,
    pub id: String,
    pub logo: Option<String>,
}

/// Where a lay bet is placed on the exchange.
#[derive(Debug, Clone, PartialEq)]
pub struct BetSlipRef {
    pub market_id: String,
    pub selection_id: String,
}

/// An event or market group.
#[derive(Debug, Clone, PartialEq)]
pub struct GroupSummary {
    pub display_name: String,
    pub id: String,
    pub source_name: Option<String>,
    pub sport: Option<String>,
}

/// A sport.
#[derive(Debug, Clone, PartialEq)]
pub struct SportSummary {
    pub display_name: String,
    pub id: String,
}

/// Why a `GetBestMatches` request gave no matches.
#[derive(Debug, Clone, PartialEq)]
pub enum OddsMatcherError {
    /// The HTTP status was not a success; the detail is the first GraphQL
    /// error or the status.
    RequestFailed(String),
    /// The server reported GraphQL errors; the detail lists them.
    GraphQlErrors(String),
    /// The response held neither errors nor data.
    MissingData,
}

/// The messages of GraphQL errors.
pub open spec fn error_messages(errors: Seq<GraphQlError>) -> Seq<Seq<char>> {
    errors.map_values(|e: GraphQlError| e.message@)
}

impl OddsMatcherError {
    pub open spec fn spec_message(&self) -> Seq<char> {
        match self {
            OddsMatcherError::RequestFailed(d) => "OddsMatcher GraphQL request failed: "@ + d@,
            OddsMatcherError::GraphQlErrors(d) => "OddsMatcher GraphQL returned errors: "@ + d@,
            OddsMatcherError::MissingData => "OddsMatcher GraphQL response did not include data"@,
        }
    }

    /// The message shown to the operator.
    pub fn message(&self) -> (r: String)
        ensures
            r@ == self.spec_message(),
    {
        match self {
            OddsMatcherError::RequestFailed(d) => {
                let mut m = "OddsMatcher GraphQL request failed: ".to_owned();
                m.append(d.as_str());
                m
            },
            OddsMatcherError::GraphQlErrors(d) => {
                let mut m = "OddsMatcher GraphQL returned errors: ".to_owned();
                m.append(d.as_str());
                m
            },
            OddsMatcherError::MissingData => "OddsMatcher GraphQL response did not include data".to_owned(),
        }
    }
}

fn join_messages(errors: &Vec<GraphQlError>) -> (r: String)
    ensures
        r@ == join(error_messages(errors@), "; "@),
{
    let mut out = String::new();
    let n = errors.len();
    let ghost msgs = error_messages(errors@);
    for i in 0..n
        invariant
            n == errors.len(),
            msgs == error_messages(errors@),
            out@ == join(msgs.take(i as int), "; "@),
    {
        assert(msgs.take(i + 1).drop_last() =~= msgs.take(i as int));
        if i > 0 {
            out.append("; ");
        }
        out.append(errors[i].message.as_str());
        assert(msgs.take(i + 1).last() == msgs[i as int]);
        assert(i == 0 ==> msgs.take(i + 1)[0] == msgs[i as int]);
    }
    assert(msgs.take(n as int) =~= msgs);
    out
}

/// What a `GetBestMatches` response amounts to: on an unsuccessful HTTP
/// status, the first GraphQL error (or "HTTP " and the status); otherwise
/// the GraphQL errors joined by "; " if there are any; otherwise the data,
/// or `MissingData` if there is none.
pub fn best_matches_from_response<T>(
    http_success: bool,
    http_status: &str,
    response: GraphQlResponse<T>,
) -> (r: Result<T, OddsMatcherError>)
    ensures
        !http_success ==> (r matches Err(OddsMatcherError::RequestFailed(d)) && d@ == (
        if response.errors@.len() > 0 {
            response.errors@[0].message@
        } else {
            "HTTP "@ + http_status@
        })),
        http_success && response.errors@.len() > 0 ==> (r matches Err(
            OddsMatcherError::GraphQlErrors(d),
        ) && d@ == join(error_messages(response.errors@), "; "@)),
        http_success && response.errors@.len() == 0 ==> match response.data {
            Some(x) => r == Ok::<T, OddsMatcherError>(x),
            None => r == Err::<T, OddsMatcherError>(OddsMatcherError::MissingData),
        },
{
    let GraphQlResponse { data, errors } = response;
    if !http_success {
        let detail = if errors.len() > 0 {
            errors[0].message.clone()
        } else {
            let mut d = "HTTP ".to_owned();
            d.append(http_status);
            d
        };
        return Err(OddsMatcherError::RequestFailed(detail));
    }
    if errors.len() > 0 {
        return Err(OddsMatcherError::GraphQlErrors(join_messages(&errors)));
    }
    match data {
        Some(x) => Ok(x),
        None => Err(OddsMatcherError::MissingData),
    }
}

} // verus!
