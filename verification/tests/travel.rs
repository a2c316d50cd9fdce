use gaia_mcp::error::{ErrorCode, McpError};
use gaia_mcp::http::{Body, HttpOutcome, HttpRequest, Method, Status};
use gaia_mcp::json::read_json;
use gaia_mcp::travel::{
    choose_key, count_directions, read_geocode, read_geocode_answer, read_routes_answer, DriveRoutes, DriveStep,
    Geocode, GetDriveRoutesByCoordRequest, GetDriveRoutesRequest, GetDriveRoutesResponse,
    GetGeocodeRequest, GetGeocodeResponse, TravelPlanner,
};

fn some(s: &str) -> Option<String> {
    Some(s.to_string())
}

fn internal(message: &str) -> McpError {
    McpError::new(ErrorCode::InternalError, message.to_string())
}

fn reply(code: u16, body: &str) -> HttpOutcome {
    HttpOutcome::Reply(Status::from_u16(code).unwrap(), body.as_bytes().to_vec())
}

fn pair(name: &str, value: &str) -> (String, String) {
    (name.to_string(), value.to_string())
}

fn get(url: &str, query: Vec<(String, String)>) -> HttpRequest {
    HttpRequest {
        method: Method::Get,
        url: url.to_string(),
        headers: vec![],
        query,
        body: Body::Empty,
    }
}

fn geocode_get(address: &str, key: &str) -> HttpRequest {
    get(
        "https://restapi.amap.com/v3/geocode/geo",
        vec![pair("address", address), pair("key", key)],
    )
}

fn routes_get(from: &str, to: &str, key: &str) -> HttpRequest {
    get(
        "https://restapi.amap.com/v3/direction/driving",
        vec![pair("origin", from), pair("destination", to), pair("key", key)],
    )
}

fn found(point: &str) -> HttpOutcome {
    reply(
        200,
        &format!("{{\"status\":\"1\",\"count\":\"1\",\"geocodes\":[{{\"location\":\"{point}\"}}]}}"),
    )
}

const BARE: Geocode = Geocode {
    formatted_address: None,
    country: None,
    province: None,
    city: None,
    city_code: None,
    district: None,
    street: None,
    number: None,
    adcode: None,
    location: None,
    level: None,
};

#[test]
fn the_key_of_the_call_wins() {
    assert_eq!(choose_key(some("a"), some("b")), Ok("a".to_string()));
    assert_eq!(choose_key(some("a"), None), Ok("a".to_string()));
    assert_eq!(choose_key(None, some("b")), Ok("b".to_string()));
    assert_eq!(
        choose_key(None, None),
        Err(McpError::new(ErrorCode::InvalidParams, "No API key provided".to_string()))
    );
}

#[test]
fn geocode_request_holds_address_and_key() {
    let request = GetGeocodeRequest { address: "北京市海淀区丹棱街5号".to_string(), api_key: some("k") };
    assert_eq!(
        TravelPlanner.get_geocode(request, some("other")),
        Ok(geocode_get("北京市海淀区丹棱街5号", "k"))
    );
    let request = GetGeocodeRequest { address: "x".to_string(), api_key: None };
    assert_eq!(TravelPlanner.get_geocode(request.clone(), some("env")), Ok(geocode_get("x", "env")));
    assert_eq!(
        TravelPlanner.get_geocode(request, None).unwrap_err().code,
        ErrorCode::InvalidParams
    );
}

#[test]
fn routes_request_holds_both_points_and_the_key() {
    let request = GetDriveRoutesByCoordRequest {
        from: "1,2".to_string(),
        to: "3,4".to_string(),
        api_key: None,
    };
    assert_eq!(
        TravelPlanner.get_drive_routes_by_coord(request.clone(), some("k")),
        Ok(routes_get("1,2", "3,4", "k"))
    );
    assert_eq!(
        TravelPlanner.get_drive_routes_by_coord(request, None).unwrap_err().message,
        "No API key provided"
    );
}

#[test]
fn geocodes_keep_the_texts_of_the_service() {
    let body = "{\"status\":\"1\",\"info\":\"OK\",\"count\":\"2\",\"geocodes\":[{\
        \"formatted_address\":\"F\",\"country\":\"中国\",\"province\":\"P\",\"citycode\":\"010\",\
        \"city\":\"C\",\"district\":\"D\",\"street\":\"S\",\"number\":\"5\",\"adcode\":\"110108\",\
        \"location\":\"116.3,39.9\",\"level\":\"L\"},{\"city\":[],\"street\":null,\"number\":5}]}";
    let first = Geocode {
        formatted_address: some("F"),
        country: some("中国"),
        province: some("P"),
        city: some("C"),
        city_code: some("010"),
        district: some("D"),
        street: some("S"),
        number: some("5"),
        adcode: some("110108"),
        location: some("116.3,39.9"),
        level: some("L"),
    };
    assert_eq!(
        TravelPlanner.geocode_reply(&reply(200, body)),
        Some(Ok(GetGeocodeResponse { count: 2, geocodes: vec![first, BARE] }))
    );
}

#[test]
fn the_member_is_called_citycode() {
    let json = read_json(b"{\"city_code\":\"no\",\"citycode\":\"yes\"}").unwrap();
    assert_eq!(read_geocode(&json), Geocode { city_code: some("yes"), ..BARE });
}

#[test]
fn no_geocodes_is_an_answer() {
    assert_eq!(
        TravelPlanner.geocode_reply(&reply(200, "{\"status\":\"1\",\"count\":\"0\",\"geocodes\":[]}")),
        Some(Ok(GetGeocodeResponse { count: 0, geocodes: vec![] }))
    );
}

#[test]
fn a_refusal_tells_the_reason() {
    let refusal = reply(200, "{\"status\":\"0\",\"info\":\"INVALID_USER_KEY\"}");
    let error = internal("Failed to get drive routes: INVALID_USER_KEY");
    assert_eq!(TravelPlanner.geocode_reply(&refusal), Some(Err(error.clone())));
    assert_eq!(TravelPlanner.routes_reply(&refusal), Some(Err(error)));
}

#[test]
fn an_unsuccessful_reply_fails() {
    for code in [199, 300, 404, 500] {
        for body in ["", "{\"status\":\"1\",\"count\":\"0\",\"geocodes\":[]}"] {
            let error = internal("Failed to get directions");
            assert_eq!(TravelPlanner.geocode_reply(&reply(code, body)), Some(Err(error.clone())));
            assert_eq!(TravelPlanner.routes_reply(&reply(code, body)), Some(Err(error)));
        }
    }
    let cut = HttpOutcome::BodyFailed(Status::from_u16(502).unwrap(), "cut".to_string());
    assert_eq!(TravelPlanner.geocode_reply(&cut), Some(Err(internal("Failed to get directions"))));
}

#[test]
fn failures_of_the_client_are_told() {
    let unsent = HttpOutcome::SendFailed("no route".to_string());
    assert_eq!(TravelPlanner.geocode_reply(&unsent), Some(Err(internal("no route"))));
    assert_eq!(TravelPlanner.routes_reply(&unsent), Some(Err(internal("no route"))));
    let cut = HttpOutcome::BodyFailed(Status::from_u16(200).unwrap(), "cut".to_string());
    assert_eq!(TravelPlanner.routes_reply(&cut), Some(Err(internal("cut"))));
    assert_eq!(
        TravelPlanner.routes_reply(&reply(200, "<html>")),
        Some(Err(internal("error decoding response body")))
    );
}

#[test]
fn other_documents_are_no_answer() {
    for body in [
        "[]",
        "{}",
        "{\"status\":1}",
        "{\"status\":\"0\"}",
        "{\"status\":\"0\",\"info\":5}",
        "{\"status\":\"1\",\"geocodes\":[]}",
        "{\"status\":\"1\",\"count\":1,\"geocodes\":[]}",
        "{\"status\":\"1\",\"count\":\"x\",\"geocodes\":[]}",
        "{\"status\":\"1\",\"count\":\"1\"}",
        "{\"status\":\"1\",\"count\":\"1\",\"geocodes\":{}}",
        "{\"status\":\"1\",\"count\":\"1\",\"geocodes\":[\"x\"]}",
    ] {
        assert_eq!(read_geocode_answer(&read_json(body.as_bytes()).unwrap()), None);
        assert_eq!(TravelPlanner.geocode_reply(&reply(200, body)), None);
    }
    for body in ["[]", "{}", "{\"status\":1}", "{\"status\":\"0\"}"] {
        assert_eq!(read_routes_answer(&read_json(body.as_bytes()).unwrap()), None);
        assert_eq!(TravelPlanner.routes_reply(&reply(200, body)), None);
    }
}

#[test]
fn routes_are_answered_with_the_number_of_directions() {
    for (body, count) in [
        ("{\"status\":\"1\",\"route\":{\"paths\":[{}]}}", 1),
        ("{\"status\":\"1\",\"count\":\"9\",\"route\":{\"paths\":[{},{},{}]}}", 3),
        ("{\"status\":\"1\",\"route\":{\"paths\":[]}}", 0),
        ("{\"status\":\"1\",\"route\":{\"paths\":\"x\"}}", 0),
        ("{\"status\":\"1\",\"route\":{}}", 0),
        ("{\"status\":\"1\",\"route\":[]}", 0),
        ("{\"status\":\"1\",\"paths\":[{}]}", 0),
        ("{\"status\":\"1\"}", 0),
    ] {
        assert_eq!(count_directions(&read_json(body.as_bytes()).unwrap()), count);
        assert_eq!(
            TravelPlanner.routes_reply(&reply(200, body)),
            Some(Ok(GetDriveRoutesResponse { count }))
        );
    }
}

#[test]
fn the_routes_between_two_addresses() {
    let request = GetDriveRoutesRequest {
        from: "A".to_string(),
        to: "B".to_string(),
        api_key: None,
    };
    let first = TravelPlanner.get_drive_routes(request, some("k"));
    let start = DriveRoutes::Start { to: "B".to_string(), api_key: "k".to_string() };
    assert_eq!(first, DriveStep::Send(start.clone(), geocode_get("A", "k")));
    let second = TravelPlanner.resume_drive_routes(start, &found("1,2"));
    let destination = DriveRoutes::Destination { from: "1,2".to_string(), api_key: "k".to_string() };
    assert_eq!(second, DriveStep::Send(destination.clone(), geocode_get("B", "k")));
    let third = TravelPlanner.resume_drive_routes(destination, &found("3,4"));
    assert_eq!(third, DriveStep::Send(DriveRoutes::Routes, routes_get("1,2", "3,4", "k")));
    let routes = reply(200, "{\"status\":\"1\",\"route\":{\"paths\":[{},{}]}}");
    let last = TravelPlanner.resume_drive_routes(DriveRoutes::Routes, &routes);
    assert_eq!(last, DriveStep::Done(Ok(GetDriveRoutesResponse { count: 2 })));
}

#[test]
fn no_key_no_routes() {
    let request = GetDriveRoutesRequest { from: "A".to_string(), to: "B".to_string(), api_key: None };
    assert_eq!(
        TravelPlanner.get_drive_routes(request, None),
        DriveStep::Done(Err(McpError::new(
            ErrorCode::InvalidParams,
            "No API key provided".to_string()
        )))
    );
}

#[test]
fn a_failure_ends_the_call_at_any_point() {
    let states = [
        DriveRoutes::Start { to: "B".to_string(), api_key: "k".to_string() },
        DriveRoutes::Destination { from: "1,2".to_string(), api_key: "k".to_string() },
        DriveRoutes::Routes,
    ];
    for state in states {
        assert_eq!(
            TravelPlanner.resume_drive_routes(state.clone(), &reply(503, "")),
            DriveStep::Done(Err(internal("Failed to get directions")))
        );
        assert_eq!(
            TravelPlanner.resume_drive_routes(
                state.clone(),
                &reply(200, "{\"status\":\"0\",\"info\":\"no\"}")
            ),
            DriveStep::Done(Err(internal("Failed to get drive routes: no")))
        );
        assert_eq!(
            TravelPlanner.resume_drive_routes(state, &reply(200, "[]")),
            DriveStep::Unanswerable
        );
    }
}

#[test]
fn an_address_without_a_point_has_no_routes() {
    for body in [
        "{\"status\":\"1\",\"count\":\"0\",\"geocodes\":[]}",
        "{\"status\":\"1\",\"count\":\"1\",\"geocodes\":[{\"location\":[]}]}",
        "{\"status\":\"1\",\"count\":\"2\",\"geocodes\":[{},{\"location\":\"1,2\"}]}",
    ] {
        let start = DriveRoutes::Start { to: "B".to_string(), api_key: "k".to_string() };
        assert_eq!(
            TravelPlanner.resume_drive_routes(start, &reply(200, body)),
            DriveStep::Unanswerable
        );
    }
}

#[test]
fn status_codes_have_three_digits() {
    assert!(Status::from_u16(99).is_none());
    assert!(Status::from_u16(1000).is_none());
    assert!(Status::from_u16(0).is_none());
    assert!(!Status::from_u16(100).unwrap().is_success());
    assert!(Status::from_u16(200).unwrap().is_success());
    assert!(Status::from_u16(299).unwrap().is_success());
    assert!(!Status::from_u16(999).unwrap().is_success());
    assert_eq!(Status::from_u16(404).unwrap().line(), "404 Not Found");
    assert_eq!(Status::from_u16(599).unwrap().line(), "599 <unknown status code>");
}
