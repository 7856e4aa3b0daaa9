use vasttrafik::api::{
    basic_authorization, bearer_authorization, calculate_hash, departure_board_url, departures_of,
    device_token_request_body, first_stop_id, is_success, location_url, text_digest,
    token_request_body, token_request_body_for,
    Departure, DepartureBoard, DepartureRoot, LocationList, LocationRoot, LookupError,
    StopLocation,
};

fn stop(name: &str, id: &str) -> StopLocation {
    StopLocation {
        name: name.to_string(),
        lon: "11.97".to_string(),
        lat: "57.69".to_string(),
        id: id.to_string(),
        idx: "1".to_string(),
    }
}

fn locations(stops: Option<Vec<StopLocation>>) -> LocationRoot {
    LocationRoot {
        location_list: LocationList {
            no_namespace_schema_location: String::new(),
            servertime: "12:12".to_string(),
            serverdate: "2022-03-01".to_string(),
            stop_location: stops,
            coord_location: None,
        },
    }
}

#[test]
fn first_stop_is_picked() {
    let root = locations(Some(vec![
        stop("Chalmers, Göteborg", "9021014001960000"),
        stop("Chalmers Tvärgata, Göteborg", "9021014001970000"),
    ]));
    assert_eq!(first_stop_id(&root), Ok("9021014001960000".to_string()));
}

#[test]
fn unknown_station_is_a_lookup_error() {
    assert_eq!(first_stop_id(&locations(None)), Err(LookupError));
    assert_eq!(first_stop_id(&locations(Some(vec![]))), Err(LookupError));
    assert_eq!(first_stop_id(&LocationRoot::default()), Err(LookupError));
}

#[test]
fn success_is_the_two_hundreds() {
    assert!(is_success(200));
    assert!(is_success(204));
    assert!(is_success(299));
    assert!(!is_success(199));
    assert!(!is_success(300));
    assert!(!is_success(404));
    assert!(!is_success(0));
}

#[test]
fn authorization_headers() {
    assert_eq!(basic_authorization("a2V5OnNlY3JldA=="), "Basic a2V5OnNlY3JldA==");
    assert_eq!(bearer_authorization("abc-123"), "Bearer abc-123");
}

#[test]
fn token_body_names_the_device() {
    assert_eq!(token_request_body(42), "grant_type=client_credentials&scope=device_42");
    assert_eq!(
        token_request_body(u64::MAX),
        "grant_type=client_credentials&scope=device_18446744073709551615"
    );
}

#[test]
fn device_body_has_a_number_for_this_user() {
    let body = device_token_request_body();
    let id = body
        .strip_prefix("grant_type=client_credentials&scope=device_")
        .expect("the fixed part");
    assert!(id.parse::<u64>().is_ok());
    assert_eq!(body, device_token_request_body());
}

#[test]
fn hash_depends_on_the_value_alone() {
    let a = "alice".to_string();
    assert_eq!(calculate_hash(&a), calculate_hash(&"alice".to_string()));
    assert_ne!(calculate_hash(&a), calculate_hash(&"bob".to_string()));
    assert_ne!(calculate_hash(&1u32), calculate_hash(&2u32));
}

#[test]
fn urls() {
    assert_eq!(
        departure_board_url("9021014001960000", "2022-03-01", "12:12"),
        "https://api.vasttrafik.se/bin/rest.exe/v2/departureBoard?id=9021014001960000&date=2022-03-01&time=12:12&format=json"
    );
    assert_eq!(
        location_url("Chalmers"),
        "https://api.vasttrafik.se/bin/rest.exe/v2/location.name?input=Chalmers&format=json"
    );
    assert_eq!(
        location_url("Korsvägen & Liseberg"),
        "https://api.vasttrafik.se/bin/rest.exe/v2/location.name?input=Korsv%C3%A4gen%20%26%20Liseberg&format=json"
    );
}

#[test]
fn departures_come_out_in_order() {
    let mut first = Departure::default();
    first.name = "6".to_string();
    let mut second = Departure::default();
    second.name = "8".to_string();
    let root = DepartureRoot {
        departure_board: DepartureBoard { departure: vec![first.clone(), second.clone()] },
    };
    assert_eq!(departures_of(root), vec![first, second]);
}

#[test]
fn text_digest_is_the_hash_of_the_name() {
    assert_eq!(text_digest("alice"), calculate_hash(&"alice".to_string()));
    assert_eq!(text_digest(""), calculate_hash(&String::new()));
    assert_eq!(text_digest("Åsa"), calculate_hash(&"Åsa"));
    assert_ne!(text_digest("alice"), text_digest("bob"));
    assert_ne!(text_digest("alice"), text_digest(""));
}

#[test]
fn token_body_for_a_user() {
    assert_eq!(
        token_request_body_for("alice"),
        format!(
            "grant_type=client_credentials&scope=device_{}",
            calculate_hash(&"alice".to_string())
        )
    );
    assert_eq!(token_request_body_for("alice"), token_request_body_for("alice"));
    assert_ne!(token_request_body_for("alice"), token_request_body_for("bob"));
}
