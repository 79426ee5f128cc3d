use ip_locator::degrees::Degrees;
use ip_locator::ip_fetcher::{FetchError, FetchState, IpDetails, IpFetcher, Reply};
use ip_locator::session::{Delivery, SessionState};

fn answer(status: &str, lat: i64, lon: i64) -> IpDetails {
    IpDetails {
        autonomous_system: String::from("AS15169 Google LLC"),
        city: String::from("Mountain View"),
        country: String::from("United States"),
        country_code: String::from("US"),
        isp: String::from("Google LLC"),
        lat: Degrees::from_micro(lat),
        lon: Degrees::from_micro(lon),
        org: String::from("Google Public DNS"),
        query: String::from("8.8.8.8"),
        region: String::from("CA"),
        region_name: String::from("California"),
        status: String::from(status),
        timezone: String::from("America/Los_Angeles"),
        zip: String::from("94043"),
    }
}

#[test]
fn request_url_appends_the_target() {
    assert_eq!(
        IpFetcher::request_url(&String::from("8.8.8.8")),
        "http://ip-api.com/json/8.8.8.8"
    );
    assert_eq!(
        IpFetcher::request_url(&String::from("example.org")),
        "http://ip-api.com/json/example.org"
    );
}

#[test]
fn request_url_of_an_empty_target_is_the_bare_service() {
    assert_eq!(IpFetcher::request_url(&String::new()), "http://ip-api.com/json/");
}

#[test]
fn request_url_leaves_the_target_unvalidated() {
    assert_eq!(
        IpFetcher::request_url(&String::from("not an address?x=1")),
        "http://ip-api.com/json/not an address?x=1"
    );
}

#[test]
fn fetch_accepts_an_accepted_answer_whole() {
    let body = answer("success", 37_400_000, -122_100_000);
    let report = IpFetcher::fetch(Reply::Response { code: 200, body: Some(body.clone()) });
    assert_eq!(report, Ok(IpFetcher { details: Some(body) }));
}

#[test]
fn fetch_accepts_every_success_code() {
    for code in [200u16, 204, 299] {
        let body = answer("success", 0, 0);
        assert!(IpFetcher::fetch(Reply::Response { code, body: Some(body) }).is_ok());
    }
}

#[test]
fn fetch_without_response_is_a_transport_error() {
    assert_eq!(IpFetcher::fetch(Reply::NoResponse), Err(FetchError::Transport));
}

#[test]
fn fetch_refuses_other_status_codes() {
    for code in [0u16, 199, 300, 404, 500, u16::MAX] {
        let body = answer("success", 0, 0);
        assert_eq!(
            IpFetcher::fetch(Reply::Response { code, body: Some(body) }),
            Err(FetchError::HttpStatus { code })
        );
    }
}

#[test]
fn fetch_refuses_a_body_that_is_no_answer() {
    assert_eq!(
        IpFetcher::fetch(Reply::Response { code: 200, body: None }),
        Err(FetchError::Malformed)
    );
}

#[test]
fn fetch_refuses_a_rejected_query() {
    let body = answer("fail", 0, 0);
    assert_eq!(
        IpFetcher::fetch(Reply::Response { code: 200, body: Some(body) }),
        Err(FetchError::Rejected)
    );
    let odd = answer("Success", 0, 0);
    assert_eq!(
        IpFetcher::fetch(Reply::Response { code: 200, body: Some(odd) }),
        Err(FetchError::Rejected)
    );
    let empty = answer("", 0, 0);
    assert_eq!(
        IpFetcher::fetch(Reply::Response { code: 200, body: Some(empty) }),
        Err(FetchError::Rejected)
    );
}

#[test]
fn fetch_accepts_any_position_as_it_came() {
    for (lat, lon) in [
        (90_000_000, 180_000_000),
        (-90_000_000, -180_000_000),
        (91_000_000, 0),
        (-90_000_001, 0),
        (0, 181_000_000),
        (0, -180_000_001),
        (i64::MAX, i64::MIN),
    ] {
        let body = answer("success", lat, lon);
        let report = IpFetcher::fetch(Reply::Response { code: 200, body: Some(body.clone()) });
        assert_eq!(report, Ok(IpFetcher { details: Some(body) }));
    }
}

#[test]
fn fetch_keeps_every_field_of_the_answer() {
    let body = IpDetails {
        autonomous_system: String::from("a"),
        city: String::from("b"),
        country: String::from("c"),
        country_code: String::from("d"),
        isp: String::from("e"),
        lat: Degrees::from_micro(1),
        lon: Degrees::from_micro(-2),
        org: String::from("f"),
        query: String::from("g"),
        region: String::from("h"),
        region_name: String::from("i"),
        status: String::from("success"),
        timezone: String::from("j"),
        zip: String::from("k"),
    };
    let fetched = IpFetcher::fetch(Reply::Response { code: 200, body: Some(body) }).unwrap();
    let details = fetched.details.unwrap();
    assert_eq!(details.autonomous_system, "a");
    assert_eq!(details.city, "b");
    assert_eq!(details.country, "c");
    assert_eq!(details.country_code, "d");
    assert_eq!(details.isp, "e");
    assert_eq!(details.lat.micro, 1);
    assert_eq!(details.lon.micro, -2);
    assert_eq!(details.org, "f");
    assert_eq!(details.query, "g");
    assert_eq!(details.region, "h");
    assert_eq!(details.region_name, "i");
    assert_eq!(details.status, "success");
    assert_eq!(details.timezone, "j");
    assert_eq!(details.zip, "k");
}

#[test]
fn fetch_asks_for_the_status_code_before_the_body() {
    assert_eq!(
        IpFetcher::fetch(Reply::Response { code: 500, body: None }),
        Err(FetchError::HttpStatus { code: 500 })
    );
    let rejected = answer("fail", 91_000_000, 0);
    assert_eq!(
        IpFetcher::fetch(Reply::Response { code: 200, body: Some(rejected) }),
        Err(FetchError::Rejected)
    );
}

#[test]
fn an_answer_is_accepted_by_its_status_alone() {
    assert!(answer("success", 1, 1).is_accepted());
    assert!(answer("success", 91_000_000, 181_000_000).is_accepted());
    assert!(!answer("fail", 1, 1).is_accepted());
    assert!(!answer("", 1, 1).is_accepted());
    assert!(!answer("success ", 1, 1).is_accepted());
}

#[test]
fn a_session_begins_pending_and_holds_no_result() {
    let state = SessionState::new();
    assert_eq!(state, SessionState::Pending);
    assert_eq!(state.status(), FetchState::Pending);
    assert!(state.details().is_none());
}

#[test]
fn a_result_resolves_a_pending_session_to_success() {
    let body = answer("success", 37_400_000, -122_100_000);
    let delivery = Delivery::Report(Ok(IpFetcher { details: Some(body.clone()) }));
    let state = SessionState::new().resolve(delivery);
    assert_eq!(state.status(), FetchState::Success);
    assert_eq!(state.details(), Some(&body));
}

#[test]
fn an_error_resolves_a_pending_session_to_failure() {
    for error in [
        FetchError::Transport,
        FetchError::HttpStatus { code: 500 },
        FetchError::Malformed,
        FetchError::Rejected,
    ] {
        let state = SessionState::new().resolve(Delivery::Report(Err(error)));
        assert_eq!(state, SessionState::Failure);
        assert_eq!(state.status(), FetchState::Failure);
        assert!(state.details().is_none());
    }
}

#[test]
fn a_closed_channel_resolves_a_pending_session_to_failure() {
    assert_eq!(SessionState::new().resolve(Delivery::Closed), SessionState::Failure);
}

#[test]
fn a_report_without_a_result_resolves_to_failure() {
    let delivery = Delivery::Report(Ok(IpFetcher { details: None }));
    assert_eq!(SessionState::new().resolve(delivery), SessionState::Failure);
}

#[test]
fn a_resolved_session_stays_as_it_is() {
    let body = answer("success", 1_000_000, 2_000_000);
    let other = answer("success", 3_000_000, 4_000_000);
    let success = SessionState::Success(body.clone());
    assert_eq!(success.clone().resolve(Delivery::Closed), success);
    assert_eq!(
        success.clone().resolve(Delivery::Report(Err(FetchError::Transport))),
        success
    );
    assert_eq!(
        success.clone().resolve(Delivery::Report(Ok(IpFetcher { details: Some(other.clone()) }))),
        success
    );
    assert_eq!(
        SessionState::Failure.resolve(Delivery::Report(Ok(IpFetcher { details: Some(other) }))),
        SessionState::Failure
    );
}
