//! The shapes that the provider's answers are decoded into, and what each
//! request is made of.

use vstd::prelude::*;
use vstd::string::*;
use std::collections::hash_map::DefaultHasher;
use std::hash::{Hash, Hasher};
use vstd::std_specs::hash::DefaultHasherAdditionalSpecFns;
use crate::text::{decimal, decimal_string, percent_encode, percent_encoded};

verus! {

/// The answer of the departure board endpoint.
#[derive(Default, Debug, Clone, PartialEq)]
pub struct DepartureRoot {
    pub departure_board: DepartureBoard,
}

/// The departures from one stop, in the provider's order.
#[derive(Default, Debug, Clone, PartialEq)]
pub struct DepartureBoard {
    pub departure: Vec<Departure>,
}

/// One scheduled departure from a stop.
#[derive(Default, Debug, Clone, PartialEq)]
pub struct Departure {
    pub name: String,
    pub sname: String,
    pub journey_number: String,
    pub type_field: String,
    pub stop: String,
    /// Scheduled time, `HH:MM`.
    pub time: String,
    /// Scheduled date, `YYYY-MM-DD`.
    pub date: String,
    /// Destination, possibly followed by a comma and further stops.
    pub direction: String,
    pub track: String,
    pub accessibility: Option<String>,
}

/// The answer of the location search endpoint.
#[derive(Default, Debug, Clone, PartialEq)]
pub struct LocationRoot {
    pub location_list: LocationList,
}

/// The candidates that a location search found: stops and plain coordinates.
#[derive(Default, Debug, Clone, PartialEq)]
pub struct LocationList {
    pub no_namespace_schema_location: String,
    pub servertime: String,
    pub serverdate: String,
    pub stop_location: Option<Vec<StopLocation>>,
    pub coord_location: Option<Vec<CoordLocation>>,
}

/// A stop, with the identifier that the departure board is asked by.
#[derive(Default, Debug, Clone, PartialEq)]
pub struct StopLocation {
    pub name: String,
    pub lon: String,
    pub lat: String,
    pub id: String,
    pub idx: String,
}

/// A place that is known by its coordinates only.
#[derive(Default, Debug, Clone, PartialEq)]
pub struct CoordLocation {
    pub name: String,
    pub lon: String,
    pub lat: String,
    pub type_field: String,
    pub idx: String,
}

/// What the token endpoint hands out: the token and the number of seconds
/// for which it is good.
#[derive(Default, Debug, Clone, PartialEq)]
pub struct AccessToken {
    pub access_token: String,
    pub expires_in: u32,
}

/// No stop matches the name that was asked for.
#[derive(Debug, Clone, Copy, PartialEq, Eq, Structural)]
pub struct LookupError;

/// Whether an HTTP status code reports success.
pub open spec fn status_is_success(status: u16) -> bool {
    200 <= status < 300
}

/// Whether `status` is one of the success codes, 200 to 299.
pub fn is_success(status: u16) -> (b: bool)
    ensures
        b == status_is_success(status),
{
    200 <= status && status < 300
}

/// The stops among the candidates of a location search.
pub open spec fn stop_candidates(locations: LocationRoot) -> Seq<StopLocation> {
    match locations.location_list.stop_location {
        Some(stops) => stops@,
        None => Seq::empty(),
    }
}

/// Picks the stop that the provider ranks first.
pub fn first_stop_id(locations: &LocationRoot) -> (r: Result<String, LookupError>)
    ensures
        r is Ok <==> stop_candidates(*locations).len() > 0,
        r matches Ok(id) ==> id@ == stop_candidates(*locations)[0].id@,
{
    match &locations.location_list.stop_location {
        Some(stops) => {
            if stops.len() > 0 {
                Ok(stops[0].id.clone())
            } else {
                Err(LookupError)
            }
        },
        None => Err(LookupError),
    }
}

/// The departures of a decoded departure board, in the provider's order.
pub fn departures_of(root: DepartureRoot) -> (r: Vec<Departure>)
    ensures
        r == root.departure_board.departure,
{
    root.departure_board.departure
}

/// The `Authorization` header that presents `credential`.
pub open spec fn basic_header(credential: Seq<char>) -> Seq<char> {
    "Basic "@ + credential
}

/// The `Authorization` header that presents `token`.
pub open spec fn bearer_header(token: Seq<char>) -> Seq<char> {
    "Bearer "@ + token
}

/// The form body that asks for a token for the device `device_id`.
pub open spec fn token_body(device_id: u64) -> Seq<char> {
    "grant_type=client_credentials&scope=device_"@ + decimal(device_id as nat)
}

/// The address of the departure board of the stop `id` at `date` and `time`.
pub open spec fn board_url(id: Seq<char>, date: Seq<char>, time: Seq<char>) -> Seq<char> {
    "https://api.vasttrafik.se/bin/rest.exe/v2/departureBoard?"@ + "id="@ + id + "&"@ + "date="@
        + date + "&"@ + "time="@ + time + "&"@ + "format=json"@
}

/// The address of the location search for `stop`, the name percent-encoded.
pub open spec fn search_url(stop: Seq<char>) -> Seq<char> {
    "https://api.vasttrafik.se/bin/rest.exe/v2/location.name?"@ + "input="@ + percent_encoded(
        stop,
    ) + "&"@
        + "format=json"@
}

/// The `Authorization` header of the token request.
pub fn basic_authorization(credential: &str) -> (r: String)
    ensures
        r@ == basic_header(credential@),
{
    let mut r = String::from_str("Basic ");
    r.append(credential);
    r
}

/// The `Authorization` header of the two data requests.
pub fn bearer_authorization(token: &str) -> (r: String)
    ensures
        r@ == bearer_header(token@),
{
    let mut r = String::from_str("Bearer ");
    r.append(token);
    r
}

/// The form body of the token request for the device `device_id`.
pub fn token_request_body(device_id: u64) -> (r: String)
    ensures
        r@ == token_body(device_id),
{
    let mut r = String::from_str("grant_type=client_credentials&scope=device_");
    let id = decimal_string(device_id);
    r.append(id.as_str());
    r
}

/// Calls `Hash::hash` of std on `t`, writing into `state`. What an impl of
/// `Hash` writes is its own affair, so nothing is claimed of `state` afterwards.
#[verifier::external_body]
fn feed<T: Hash>(t: &T, state: &mut DefaultHasher) {
    t.hash(state);
}

/// What std's `Hash::hash` writes into a hasher for a text: the writes, in
/// order, that hashing a `str` with these characters makes.
pub uninterp spec fn text_written(text: Seq<char>) -> Seq<Seq<u8>>;

/// Calls `Hash::hash` of std on the text `t`, writing into `state`. The
/// contract claims that the hasher receives, after what it already held, the
/// writes that belong to this text, and names them; which bytes they are is
/// claimed nowhere.
#[verifier::external_body]
fn feed_text(t: &str, state: &mut DefaultHasher)
    ensures
        final(state)@ == old(state)@ + text_written(t@),
{
    t.hash(state);
}

/// Calls whoami's `username`. The name depends on the machine and on who is
/// logged in, so nothing is claimed of it.
#[verifier::external_body]
pub(crate) fn local_username() -> (name: String) {
    whoami::username()
}

/// The device number of a user: the digest that a fresh `DefaultHasher` gives
/// of the user's name.
pub open spec fn device_number(user: Seq<char>) -> u64 {
    DefaultHasher::spec_finish(text_written(user))
}

/// The digest that a fresh `DefaultHasher` gives after `t` was hashed into it:
/// the digest of whatever `t` wrote.
pub fn calculate_hash<T: Hash>(t: &T) -> (h: u64)
    ensures
        exists|written: Seq<Seq<u8>>| h == #[trigger] DefaultHasher::spec_finish(written),
{
    let mut s = DefaultHasher::new();
    feed(t, &mut s);
    s.finish()
}

/// The digest that a fresh `DefaultHasher` gives of the text `text`.
pub fn text_digest(text: &str) -> (h: u64)
    ensures
        h == device_number(text@),
{
    let mut s = DefaultHasher::new();
    feed_text(text, &mut s);
    assert(s@ =~= text_written(text@));
    s.finish()
}

/// The form body of the token request for the user `user`: the device number
/// is the digest of the user's name.
pub fn token_request_body_for(user: &str) -> (r: String)
    ensures
        r@ == token_body(device_number(user@)),
{
    token_request_body(text_digest(user))
}

/// The form body of the token request for this machine's user, whatever the
/// user's name is.
pub fn device_token_request_body() -> (r: String)
    ensures
        exists|user: Seq<char>| r@ == token_body(#[trigger] device_number(user)),
{
    let user = local_username();
    let r = token_request_body_for(user.as_str());
    assert(r@ == token_body(device_number(user@)));
    r
}

/// The address of the departure board of the stop `id` at `date` and `time`.
pub fn departure_board_url(id: &str, date: &str, time: &str) -> (r: String)
    ensures
        r@ == board_url(id@, date@, time@),
{
    let mut r = String::from_str("https://api.vasttrafik.se/bin/rest.exe/v2/departureBoard?");
    r.append("id=");
    r.append(id);
    r.append("&");
    r.append("date=");
    r.append(date);
    r.append("&");
    r.append("time=");
    r.append(time);
    r.append("&");
    r.append("format=json");
    r
}

/// The address of the location search for `stop`, with the name
/// percent-encoded.
pub fn location_url(stop: &str) -> (r: String)
    ensures
        r@ == search_url(stop@),
{
    let mut r = String::from_str("https://api.vasttrafik.se/bin/rest.exe/v2/location.name?");
    r.append("input=");
    let name = percent_encode(stop);
    r.append(name.as_str());
    r.append("&");
    r.append("format=json");
    r
}

} // verus!
