//! One run of the client as a sequence of decisions: what to ask the provider
//! next, given what it answered last. Whoever drives a session performs each
//! action and reports what came of it.

use vstd::prelude::*;
use vstd::string::*;
use crate::api::{
    basic_authorization, basic_header, bearer_authorization, bearer_header, board_url,
    departure_board_url, departures_of, device_number, first_stop_id, is_success,
    local_username, location_url, search_url, status_is_success, stop_candidates, token_body,
    token_request_body_for, AccessToken, DepartureRoot, LocationRoot,
};
use crate::board::{display_information, display_outcome, DisplayError};

verus! {

/// What a session waits for.
#[derive(Debug, Clone, Copy, PartialEq, Eq, Structural)]
pub enum Stage {
    /// The access token.
    Token,
    /// The answer of the location search.
    Location,
    /// The departure board.
    Board,
    /// Nothing: the run is over.
    Done,
}

/// Why a run was given up.
#[derive(Debug, Clone, Copy, PartialEq, Eq, Structural)]
pub enum Failure {
    /// The request could not be sent or its answer not received.
    Transport,
    /// The provider answered with a status other than success.
    Status(u16),
    /// The answer did not have the expected shape.
    Decode,
    /// No stop matches the station's name.
    NoSuchStation,
    /// The departures could not be shown.
    Display(DisplayError),
    /// An event came that the session was not waiting for.
    OutOfTurn,
}

/// What came of the last action.
#[derive(Debug, Clone, PartialEq)]
pub enum Event {
    /// The token endpoint answered; `body` is `None` where the answer could
    /// not be decoded.
    Token { status: u16, body: Option<AccessToken> },
    /// The location search answered; `body` is `None` where the answer could
    /// not be decoded.
    Locations { status: u16, body: Option<LocationRoot> },
    /// The departure board answered; `body` is `None` where the answer could
    /// not be decoded.
    Board { status: u16, body: Option<DepartureRoot> },
    /// The request failed before any answer came.
    Failed,
}

/// What to do next.
#[derive(Debug, Clone, PartialEq)]
pub enum Action {
    /// Send a POST request.
    Post { url: String, body: String, authorization: String },
    /// Send a GET request.
    Get { url: String, authorization: String },
    /// Write the table out; the run has succeeded.
    Print(String),
    /// Give up.
    Abort(Failure),
}

/// A run in progress.
#[derive(Debug, Clone, PartialEq)]
pub struct Session {
    pub stage: Stage,
    pub station: String,
    pub time: String,
    pub date: String,
    /// The access token, once it was handed out.
    pub token: String,
    /// The number of seconds for which the token is good.
    pub expires_in: u32,
}

/// The address of the token endpoint.
pub open spec fn token_url() -> Seq<char> {
    "https://api.vasttrafik.se:443/token"@
}

/// Whether `action` is the token request of `user` with `credential`: one
/// POST to the token endpoint that presents the credential and names the
/// device by the digest of the user's name.
pub open spec fn token_request(action: Action, credential: Seq<char>, user: Seq<char>) -> bool {
    &&& action matches Action::Post { url, body, authorization }
    &&& url@ == token_url()
    &&& authorization@ == basic_header(credential)
    &&& body@ == token_body(device_number(user))
}

/// What a session that waits for the access token does with the answer of the
/// token endpoint: it takes the token, as it came, only from a successful and
/// well-formed answer, and then asks for the stops that match the station.
pub open spec fn token_step(
    pre: Session,
    status: u16,
    body: Option<AccessToken>,
    post: Session,
    action: Action,
) -> bool {
    if !status_is_success(status) {
        post.stage == Stage::Done && action == Action::Abort(Failure::Status(status))
    } else if body is None {
        post.stage == Stage::Done && action == Action::Abort(Failure::Decode)
    } else {
        &&& post.stage == Stage::Location
        &&& post.token@ == body.unwrap().access_token@
        &&& post.expires_in == body.unwrap().expires_in
        &&& action matches Action::Get { url, authorization }
        &&& url@ == search_url(pre.station@)
        &&& authorization@ == bearer_header(body.unwrap().access_token@)
    }
}

/// What a session that waits for the location search does with its answer.
pub open spec fn location_step(
    pre: Session,
    status: u16,
    body: Option<LocationRoot>,
    post: Session,
    action: Action,
) -> bool {
    if !status_is_success(status) {
        post.stage == Stage::Done && action == Action::Abort(Failure::Status(status))
    } else if body is None {
        post.stage == Stage::Done && action == Action::Abort(Failure::Decode)
    } else if stop_candidates(body.unwrap()).len() == 0 {
        post.stage == Stage::Done && action == Action::Abort(Failure::NoSuchStation)
    } else {
        &&& post.stage == Stage::Board
        &&& action matches Action::Get { url, authorization }
        &&& url@ == board_url(stop_candidates(body.unwrap())[0].id@, pre.date@, pre.time@)
        &&& authorization@ == bearer_header(pre.token@)
    }
}

/// What a session that waits for the departure board does with its answer.
pub open spec fn board_step(
    pre: Session,
    status: u16,
    body: Option<DepartureRoot>,
    post: Session,
    action: Action,
) -> bool {
    &&& post.stage == Stage::Done
    &&& if !status_is_success(status) {
        action == Action::Abort(Failure::Status(status))
    } else if body is None {
        action == Action::Abort(Failure::Decode)
    } else {
        match display_outcome(body.unwrap().departure_board.departure@, pre.time@, pre.date@) {
            Ok(text) => action matches Action::Print(shown) && shown@ == text,
            Err(e) => action == Action::Abort(Failure::Display(e)),
        }
    }
}

/// How a session answers an event: the state it goes to and the action it
/// asks for.
pub open spec fn step_relation(pre: Session, event: Event, post: Session, action: Action) -> bool {
    &&& post.station == pre.station
    &&& post.time == pre.time
    &&& post.date == pre.date
    &&& match event {
        Event::Failed => post.stage == Stage::Done && action == Action::Abort(Failure::Transport),
        Event::Token { status, body } => if pre.stage == Stage::Token {
            token_step(pre, status, body, post, action)
        } else {
            post.stage == Stage::Done && action == Action::Abort(Failure::OutOfTurn)
        },
        Event::Locations { status, body } => if pre.stage == Stage::Location {
            &&& post.token == pre.token
            &&& post.expires_in == pre.expires_in
            &&& location_step(pre, status, body, post, action)
        } else {
            post.stage == Stage::Done && action == Action::Abort(Failure::OutOfTurn)
        },
        Event::Board { status, body } => if pre.stage == Stage::Board {
            &&& post.token == pre.token
            &&& post.expires_in == pre.expires_in
            &&& board_step(pre, status, body, post, action)
        } else {
            post.stage == Stage::Done && action == Action::Abort(Failure::OutOfTurn)
        },
    }
}

impl Session {
    /// Begins a run for `station` at `time` on `date`, on behalf of `user`:
    /// the first action is the one request for an access token, which
    /// presents `credential` and names the device by the digest of the
    /// user's name.
    pub fn start_for(station: String, time: String, date: String, credential: &str, user: &str)
        -> (r: (Session, Action))
        ensures
            r.0.stage == Stage::Token,
            r.0.station == station,
            r.0.time == time,
            r.0.date == date,
            token_request(r.1, credential@, user@),
    {
        let session = Session {
            stage: Stage::Token,
            station,
            time,
            date,
            token: String::new(),
            expires_in: 0,
        };
        let action = Action::Post {
            url: String::from_str("https://api.vasttrafik.se:443/token"),
            body: token_request_body_for(user),
            authorization: basic_authorization(credential),
        };
        (session, action)
    }

    /// Begins a run for this machine's user, whatever the user's name is.
    pub fn start(station: String, time: String, date: String, credential: &str) -> (r: (
        Session,
        Action,
    ))
        ensures
            r.0.stage == Stage::Token,
            r.0.station == station,
            r.0.time == time,
            r.0.date == date,
            exists|user: Seq<char>| #[trigger] token_request(r.1, credential@, user),
    {
        let user = local_username();
        let r = Session::start_for(station, time, date, credential, user.as_str());
        assert(token_request(r.1, credential@, user@));
        r
    }

    /// Takes what came of the last action and says what to do next.
    pub fn step(&mut self, event: Event) -> (action: Action)
        ensures
            step_relation(*old(self), event, *final(self), action),
    {
        let stage = self.stage;
        self.stage = Stage::Done;
        match event {
            Event::Failed => Action::Abort(Failure::Transport),
            Event::Token { status, body } => {
                if stage != Stage::Token {
                    Action::Abort(Failure::OutOfTurn)
                } else if !is_success(status) {
                    Action::Abort(Failure::Status(status))
                } else {
                    match body {
                        None => Action::Abort(Failure::Decode),
                        Some(granted) => {
                            let url = location_url(self.station.as_str());
                            let authorization = bearer_authorization(
                                granted.access_token.as_str(),
                            );
                            self.token = granted.access_token;
                            self.expires_in = granted.expires_in;
                            self.stage = Stage::Location;
                            Action::Get { url, authorization }
                        },
                    }
                }
            },
            Event::Locations { status, body } => {
                if stage != Stage::Location {
                    Action::Abort(Failure::OutOfTurn)
                } else if !is_success(status) {
                    Action::Abort(Failure::Status(status))
                } else {
                    match body {
                        None => Action::Abort(Failure::Decode),
                        Some(root) => match first_stop_id(&root) {
                            Err(_) => Action::Abort(Failure::NoSuchStation),
                            Ok(id) => {
                                let url = departure_board_url(
                                    id.as_str(),
                                    self.date.as_str(),
                                    self.time.as_str(),
                                );
                                let authorization = bearer_authorization(self.token.as_str());
                                self.stage = Stage::Board;
                                Action::Get { url, authorization }
                            },
                        },
                    }
                }
            },
            Event::Board { status, body } => {
                if stage != Stage::Board {
                    Action::Abort(Failure::OutOfTurn)
                } else if !is_success(status) {
                    Action::Abort(Failure::Status(status))
                } else {
                    match body {
                        None => Action::Abort(Failure::Decode),
                        Some(root) => {
                            let departures = departures_of(root);
                            match display_information(departures, &self.time, &self.date) {
                                Ok(text) => Action::Print(text),
                                Err(e) => Action::Abort(Failure::Display(e)),
                            }
                        },
                    }
                }
            },
        }
    }
}

/// One user keeps one device: two token requests of the same user with the
/// same credential are the same, text for text.
pub proof fn same_user_same_token_request(
    first: Action,
    second: Action,
    credential: Seq<char>,
    user: Seq<char>,
)
    requires
        token_request(first, credential, user),
        token_request(second, credential, user),
    ensures
        first->Post_url@ == second->Post_url@,
        first->Post_authorization@ == second->Post_authorization@,
        first->Post_body@ == second->Post_body@,
{
}

/// No token is taken from a failed exchange: where the token endpoint answers
/// with a status other than success, the run ends with that status, whatever
/// the answer holds, and nothing further is asked for.
pub proof fn failed_exchange_gives_no_token(
    pre: Session,
    status: u16,
    body: Option<AccessToken>,
    post: Session,
    action: Action,
)
    requires
        pre.stage == Stage::Token,
        !status_is_success(status),
        step_relation(pre, Event::Token { status, body }, post, action),
    ensures
        action == Action::Abort(Failure::Status(status)),
        post.stage == Stage::Done,
{
}

/// Without a stop to ask for, no departure board is asked for: where the
/// location search succeeds and names no stop, the run ends with
/// `NoSuchStation`.
pub proof fn no_stop_no_board_request(
    pre: Session,
    status: u16,
    body: LocationRoot,
    post: Session,
    action: Action,
)
    requires
        pre.stage == Stage::Location,
        status_is_success(status),
        stop_candidates(body).len() == 0,
        step_relation(pre, Event::Locations { status, body: Some(body) }, post, action),
    ensures
        action == Action::Abort(Failure::NoSuchStation),
        !(action is Get),
        post.stage == Stage::Done,
{
}

} // verus!
