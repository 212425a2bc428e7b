use operator_console::oddsmatcher::{
    best_matches_from_response, CommissionRates, GetBestMatchesVariables, GraphQlError,
    GraphQlRequest, GraphQlResponse, OddsMatcherError, GET_BEST_MATCHES_QUERY,
};

#[test]
fn request_payload_uses_captured_defaults() {
    let payload = GraphQlRequest::get_best_matches(GetBestMatchesVariables::default());

    assert_eq!(payload.operation_name, "GetBestMatches");
    assert_eq!(payload.variables.bookmaker[0], "betvictor");
    assert_eq!(payload.variables.exchange[0], "smarketsexchange");
    assert_eq!(payload.variables.commission_rates.betfair, 5);
    assert_eq!(payload.query, GET_BEST_MATCHES_QUERY);
}

#[test]
fn request_variables_serialize_to_graphql_field_names() {
    let variables = GetBestMatchesVariables {
        commission_rates: CommissionRates::default(),
        ..GetBestMatchesVariables::default()
    };

    assert_eq!(variables.rating_type, "rating");
    assert_eq!(variables.updated_within_seconds, 21600);
}

#[test]
fn default_filters() {
    let v = GetBestMatchesVariables::default();
    assert_eq!(v.min_rating, None);
    assert_eq!(v.max_rating.as_deref(), Some("99"));
    assert_eq!(v.min_odds.as_deref(), Some("2.1"));
    assert_eq!(v.limit, 10);
    assert_eq!(v.permitted_market_groups, vec![String::from("match-odds")]);
    assert!(v.permitted_event_ids.is_empty());
}

fn error(message: &str) -> GraphQlError {
    GraphQlError { message: String::from(message) }
}

#[test]
fn failed_http_status_reports_first_error_or_status() {
    let response: GraphQlResponse<u8> = GraphQlResponse {
        data: None,
        errors: vec![error("rate limited"), error("other")],
    };
    let result = best_matches_from_response(false, "429 Too Many Requests", response);
    assert_eq!(result, Err(OddsMatcherError::RequestFailed(String::from("rate limited"))));

    let response: GraphQlResponse<u8> = GraphQlResponse { data: Some(1), errors: vec![] };
    let result = best_matches_from_response(false, "500 Internal Server Error", response);
    let err = result.unwrap_err();
    assert_eq!(
        err.message(),
        "OddsMatcher GraphQL request failed: HTTP 500 Internal Server Error"
    );
}

#[test]
fn graphql_errors_are_joined() {
    let response: GraphQlResponse<u8> = GraphQlResponse {
        data: Some(3),
        errors: vec![error("a"), error("b"), error("c")],
    };
    let err = best_matches_from_response(true, "200 OK", response).unwrap_err();
    assert_eq!(err, OddsMatcherError::GraphQlErrors(String::from("a; b; c")));
    assert_eq!(err.message(), "OddsMatcher GraphQL returned errors: a; b; c");
}

#[test]
fn data_is_returned_when_present() {
    let response: GraphQlResponse<u8> = GraphQlResponse { data: Some(3), errors: vec![] };
    assert_eq!(best_matches_from_response(true, "200 OK", response), Ok(3));
    let response: GraphQlResponse<u8> = GraphQlResponse { data: None, errors: vec![] };
    let err = best_matches_from_response(true, "200 OK", response).unwrap_err();
    assert_eq!(err, OddsMatcherError::MissingData);
    assert_eq!(err.message(), "OddsMatcher GraphQL response did not include data");
}
