//! The session of the client that asks the catalog, and the course of one
//! search.
//!
//! The session holds the bearer token, the instant at which the token
//! expires and the earliest instant at which the next request may leave. A
//! search is a sequence of steps. Whoever drives it performs each step's
//! outside work (the exchange with the identity endpoint, the pause, the
//! request) and reports what happened; `IgdbClient::search` decides from
//! that what comes next. A driver holds the session exclusively from the
//! first step of a search to its last.

use crate::clock::{is_instant, now, MAX_INSTANT, MILLIS_PER_SECOND};
use crate::error::{Failure, IgdbcError};
use crate::igdb::apicalypse::{ApicalypseQuery, Clauses, Selection};
use crate::igdb::game::{CatalogGame, IgdbGame};
use crate::igdb::models::{Grant, TwitchAuthResponse};
use crate::text::{decimal, decimal_string};
use vstd::prelude::*;
use vstd::string::StringExecFns;

verus! {

/// The pause between the departures of two requests.
pub const REQUEST_DELAY_MS: i64 = 260;

/// How many games a search asks the catalog for.
pub const SEARCH_LIMIT: usize = 500;

/// The address of the identity endpoint for the client `client_id` with the
/// secret `client_secret`.
pub open spec fn oauth2_url(client_id: Seq<char>, client_secret: Seq<char>) -> Seq<char> {
    "https://id.twitch.tv/oauth2/token?client_id="@ + client_id + "&client_secret="@
        + client_secret + "&grant_type=client_credentials"@
}

/// The address of the catalog's games.
pub open spec fn games_url() -> Seq<char> {
    "https://api.igdb.com/v4/games"@
}

/// The columns that a search asks for.
pub open spec fn search_fields() -> Seq<Seq<char>> {
    seq![
        "id"@,
        "name"@,
        "url"@,
        "summary"@,
        "cover.url"@,
        "artworks.url"@,
        "multiplayer_modes.onlinecoop"@,
        "first_release_date"@,
    ]
}

/// The query of a search for `term`: main games only, no game that has a
/// parent, no version of another game.
pub open spec fn search_clauses(term: Seq<char>) -> Clauses {
    Clauses {
        search: Some(term),
        fields: Selection::Fields(search_fields()),
        limit: Some(SEARCH_LIMIT as nat),
        ..Clauses::unset().with_where("category = 0"@).and_where("parent_game = null"@).and_where(
            "version_parent = null"@,
        )
    }
}

/// Whether a response with the status `code` is a success.
pub open spec fn is_success(code: u16) -> bool {
    200 <= code <= 299
}

/// The detail of the failure of a request that was answered with `code`.
pub open spec fn status_detail(code: u16) -> Seq<char> {
    "status "@ + decimal(code as nat)
}

/// The session of the client, as mathematical values.
pub struct Session {
    pub client_id: Seq<char>,
    pub client_secret: Seq<char>,
    pub access_token: Seq<char>,
    pub token_expiry: int,
    pub next_request: int,
}

/// A request to the catalog, as mathematical values.
pub struct Dispatch {
    pub url: Seq<char>,
    pub body: Seq<char>,
    pub client_id: Seq<char>,
    pub access_token: Seq<char>,
}

/// Where a search stands, as mathematical values.
pub enum Progress {
    Idle,
    Authenticating { query: Seq<char> },
    Waiting { query: Seq<char> },
    InFlight,
    Decoding,
    Done,
}

/// What happened outside, as mathematical values.
pub enum Happening {
    Start { query: Seq<char>, now: int },
    TokenGranted { grant: Grant, now: int },
    Woke { now: int },
    Status { code: u16 },
    Decoded { games: Seq<CatalogGame> },
    Undecodable { path: Seq<char> },
    TransportFailed { detail: Seq<char> },
}

/// What to do next, as mathematical values.
pub enum Step {
    Authenticate { url: Seq<char> },
    Sleep { millis: int },
    Send(Dispatch),
    Decode,
    Finish(Result<Seq<CatalogGame>, Failure>),
}

/// The result of one decision: the session after it, where the search
/// stands, and what to do next.
pub struct Outcome {
    pub session: Session,
    pub progress: Progress,
    pub step: Step,
}

impl Happening {
    /// The instant at which it happened, where the report gives one.
    pub open spec fn instant(self) -> Option<int> {
        match self {
            Happening::Start { now, .. } => Some(now),
            Happening::TokenGranted { now, .. } => Some(now),
            Happening::Woke { now } => Some(now),
            _ => None,
        }
    }
}

impl Session {
    /// The session of a client that was granted `grant` at `now`: the token
    /// is valid for the granted time from then on, and the first request may
    /// leave at once.
    pub open spec fn fresh(
        client_id: Seq<char>,
        client_secret: Seq<char>,
        grant: Grant,
        now: int,
    ) -> Session {
        Session {
            client_id,
            client_secret,
            access_token: grant.access_token,
            token_expiry: now + grant.expires_in * MILLIS_PER_SECOND,
            next_request: now,
        }
    }

    /// Whether the token has expired at `now`.
    pub open spec fn expired(self, now: int) -> bool {
        now > self.token_expiry
    }

    /// The session after a grant at `now`: token and expiry are those of the
    /// grant, the rest is as it was.
    pub open spec fn granted(self, grant: Grant, now: int) -> Session {
        Session {
            access_token: grant.access_token,
            token_expiry: now + grant.expires_in * MILLIS_PER_SECOND,
            ..self
        }
    }

    /// The request of a search for `query`.
    pub open spec fn dispatch(self, query: Seq<char>) -> Dispatch {
        Dispatch {
            url: games_url(),
            body: search_clauses(query).rendered(),
            client_id: self.client_id,
            access_token: self.access_token,
        }
    }

    /// The decision of a search that holds a valid token at `now`: pause
    /// until the next request may leave, or send it and move the earliest
    /// departure of the next one.
    pub open spec fn proceed(self, query: Seq<char>, now: int) -> Outcome {
        if self.next_request > now {
            Outcome {
                session: self,
                progress: Progress::Waiting { query },
                step: Step::Sleep { millis: self.next_request - now },
            }
        } else {
            Outcome {
                session: Session { next_request: now + REQUEST_DELAY_MS, ..self },
                progress: Progress::InFlight,
                step: Step::Send(self.dispatch(query)),
            }
        }
    }

    /// The end of a search with the error `failure`.
    pub open spec fn fail(self, failure: Failure) -> Outcome {
        Outcome { session: self, progress: Progress::Done, step: Step::Finish(Err(failure)) }
    }

    /// The decision of a search that stands at `progress` when `event` is
    /// reported.
    pub open spec fn search(self, progress: Progress, event: Happening) -> Outcome {
        match (progress, event) {
            (Progress::Idle, Happening::Start { query, now }) => {
                if self.expired(now) {
                    Outcome {
                        session: self,
                        progress: Progress::Authenticating { query },
                        step: Step::Authenticate {
                            url: oauth2_url(self.client_id, self.client_secret),
                        },
                    }
                } else {
                    self.proceed(query, now)
                }
            },
            (Progress::Authenticating { query }, Happening::TokenGranted { grant, now }) => {
                self.granted(grant, now).proceed(query, now)
            },
            (Progress::Authenticating { .. }, Happening::TransportFailed { detail }) => {
                self.fail(Failure::Transport(detail))
            },
            (Progress::Waiting { query }, Happening::Woke { now }) => self.proceed(query, now),
            (Progress::InFlight, Happening::Status { code }) => {
                if is_success(code) {
                    Outcome { session: self, progress: Progress::Decoding, step: Step::Decode }
                } else {
                    self.fail(Failure::Transport(status_detail(code)))
                }
            },
            (Progress::InFlight, Happening::TransportFailed { detail }) => {
                self.fail(Failure::Transport(detail))
            },
            (Progress::Decoding, Happening::Decoded { games }) => {
                Outcome { session: self, progress: Progress::Done, step: Step::Finish(Ok(games)) }
            },
            (Progress::Decoding, Happening::Undecodable { path }) => {
                self.fail(Failure::UpstreamSchema { path })
            },
            (Progress::Decoding, Happening::TransportFailed { detail }) => {
                self.fail(Failure::Transport(detail))
            },
            _ => self.fail(Failure::Custom("unexpected event"@)),
        }
    }
}

/// The session of the client.
pub struct IgdbClient {
    client_id: String,
    client_secret: String,
    access_token: String,
    token_expiry: i64,
    next_request: i64,
}

impl View for IgdbClient {
    type V = Session;

    closed spec fn view(&self) -> Session {
        Session {
            client_id: self.client_id@,
            client_secret: self.client_secret@,
            access_token: self.access_token@,
            token_expiry: self.token_expiry as int,
            next_request: self.next_request as int,
        }
    }
}

/// Where a search stands.
#[derive(Debug, PartialEq)]
pub enum SearchState {
    /// The search has not begun.
    Idle,
    /// The token had expired; the exchange with the identity endpoint is
    /// under way.
    Authenticating { query: String },
    /// The search pauses until its request may leave.
    Waiting { query: String },
    /// The request has left; its answer has not come yet.
    InFlight,
    /// The catalog answered with success; the answer is being decoded.
    Decoding,
    /// The search is over.
    Done,
}

/// What the driver of a search reports.
#[derive(Debug, PartialEq)]
pub enum SearchEvent {
    /// A search for `query` is asked for at `now`.
    Start { query: String, now: i64 },
    /// The identity endpoint granted `response` at `now`.
    TokenGranted { response: TwitchAuthResponse, now: i64 },
    /// The pause is over; it is `now`.
    Woke { now: i64 },
    /// The catalog answered with the status `code`.
    Status { code: u16 },
    /// The answer held these games.
    Decoded { games: Vec<IgdbGame> },
    /// The answer did not have the expected shape at the field `path`.
    Undecodable { path: String },
    /// The exchange failed before an answer came, or the identity endpoint
    /// answered with a status that is no success.
    TransportFailed { detail: String },
}

/// A request to the catalog.
#[derive(Debug, PartialEq)]
pub struct SearchRequest {
    /// Where to post it.
    pub url: String,
    /// The filter expression.
    pub body: String,
    /// The value of the header `Client-ID`.
    pub client_id: String,
    /// The bearer token for the header `Authorization`.
    pub access_token: String,
}

/// What the driver of a search has to do next.
#[derive(Debug, PartialEq)]
pub enum SearchAction {
    /// Post to `url` for a new token and report the grant.
    Authenticate { url: String },
    /// Pause for `millis` milliseconds and report the instant after it.
    Sleep { millis: u64 },
    /// Send the request and report the status of the answer.
    Send(SearchRequest),
    /// Decode the body of the answer and report the games.
    Decode,
    /// Hand the result to whoever asked for the search.
    Finish(Result<Vec<IgdbGame>, IgdbcError>),
}

impl View for SearchState {
    type V = Progress;

    open spec fn view(&self) -> Progress {
        match self {
            SearchState::Idle => Progress::Idle,
            SearchState::Authenticating { query } => Progress::Authenticating { query: query@ },
            SearchState::Waiting { query } => Progress::Waiting { query: query@ },
            SearchState::InFlight => Progress::InFlight,
            SearchState::Decoding => Progress::Decoding,
            SearchState::Done => Progress::Done,
        }
    }
}

impl View for SearchEvent {
    type V = Happening;

    open spec fn view(&self) -> Happening {
        match self {
            SearchEvent::Start { query, now } => Happening::Start { query: query@, now: *now as int },
            SearchEvent::TokenGranted { response, now } => Happening::TokenGranted {
                grant: response@,
                now: *now as int,
            },
            SearchEvent::Woke { now } => Happening::Woke { now: *now as int },
            SearchEvent::Status { code } => Happening::Status { code: *code },
            SearchEvent::Decoded { games } => Happening::Decoded { games: games.deep_view() },
            SearchEvent::Undecodable { path } => Happening::Undecodable { path: path@ },
            SearchEvent::TransportFailed { detail } => Happening::TransportFailed {
                detail: detail@,
            },
        }
    }
}

impl SearchEvent {
    /// Whether the instant that the event reports, if it reports one, is one
    /// that the session rules accept.
    pub open spec fn timely(self) -> bool {
        match self {
            SearchEvent::Start { now, .. } => is_instant(now),
            SearchEvent::TokenGranted { now, .. } => is_instant(now),
            SearchEvent::Woke { now } => is_instant(now),
            _ => true,
        }
    }
}

impl View for SearchRequest {
    type V = Dispatch;

    open spec fn view(&self) -> Dispatch {
        Dispatch {
            url: self.url@,
            body: self.body@,
            client_id: self.client_id@,
            access_token: self.access_token@,
        }
    }
}

/// The result of a search, as mathematical values.
pub open spec fn result_view(result: Result<Vec<IgdbGame>, IgdbcError>) -> Result<
    Seq<CatalogGame>,
    Failure,
> {
    match result {
        Ok(games) => Ok(games.deep_view()),
        Err(error) => Err(error@),
    }
}

impl View for SearchAction {
    type V = Step;

    open spec fn view(&self) -> Step {
        match self {
            SearchAction::Authenticate { url } => Step::Authenticate { url: url@ },
            SearchAction::Sleep { millis } => Step::Sleep { millis: *millis as int },
            SearchAction::Send(request) => Step::Send(request@),
            SearchAction::Decode => Step::Decode,
            SearchAction::Finish(result) => Step::Finish(result_view(*result)),
        }
    }
}

/// The query of a search for `term`.
pub fn search_query(term: String) -> (query: ApicalypseQuery)
    ensures
        query@ == search_clauses(term@),
{
    let fields = vec![
        String::from_str("id"),
        String::from_str("name"),
        String::from_str("url"),
        String::from_str("summary"),
        String::from_str("cover.url"),
        String::from_str("artworks.url"),
        String::from_str("multiplayer_modes.onlinecoop"),
        String::from_str("first_release_date"),
    ];
    assert(fields.deep_view() =~= search_fields());
    ApicalypseQuery::builder().search(term).fields(fields).where_clause(
        String::from_str("category = 0"),
    ).and_where("parent_game = null").and_where("version_parent = null").limit(SEARCH_LIMIT)
}

/// Whether a response with the status `code` is a success; if it is none,
/// the error that the search ends with.
pub fn error_for_status(code: u16) -> (checked: Result<(), IgdbcError>)
    ensures
        checked is Ok <==> is_success(code),
        checked matches Err(error) ==> error@ == Failure::Transport(status_detail(code)),
{
    if 200 <= code && code <= 299 {
        Ok(())
    } else {
        let digits = decimal_string(code as u64);
        Err(IgdbcError::Transport(String::from_str("status ").concat(digits.as_str())))
    }
}

impl IgdbClient {
    /// The session of a client that was granted `response` just now: the
    /// token is valid for the granted time from the present instant, and the
    /// first request may leave at once.
    pub fn new(client_id: String, client_secret: String, response: TwitchAuthResponse) -> (client:
        Self)
        ensures
            exists|now: int|
                0 <= now <= MAX_INSTANT && client@ == #[trigger] Session::fresh(
                    client_id@,
                    client_secret@,
                    response@,
                    now,
                ),
    {
        let now = now();
        let client = Self::new_at(client_id, client_secret, response, now);
        assert(client@ == Session::fresh(client_id@, client_secret@, response@, now as int));
        client
    }

    /// The session of a client that was granted `response` at `now`.
    pub fn new_at(
        client_id: String,
        client_secret: String,
        response: TwitchAuthResponse,
        now: i64,
    ) -> (client: Self)
        requires
            is_instant(now),
        ensures
            client@ == Session::fresh(client_id@, client_secret@, response@, now as int),
    {
        Self {
            client_id,
            client_secret,
            access_token: response.access_token,
            token_expiry: now + (response.expires_in as i64) * MILLIS_PER_SECOND,
            next_request: now,
        }
    }

    /// The address to post to for a token for the client `client_id` with
    /// the secret `client_secret`.
    pub fn refresh_access_token(client_id: &str, client_secret: &str) -> (url: String)
        ensures
            url@ == oauth2_url(client_id@, client_secret@),
    {
        let mut url = String::from_str("https://id.twitch.tv/oauth2/token?client_id=");
        url.append(client_id);
        url.append("&client_secret=");
        url.append(client_secret);
        url.append("&grant_type=client_credentials");
        url
    }

    fn proceed(&mut self, query: String, now: i64) -> (next: (SearchState, SearchAction))
        requires
            is_instant(now),
        ensures
            (Outcome { session: final(self)@, progress: next.0@, step: next.1@ }) == old(
                self,
            )@.proceed(query@, now as int),
    {
        if self.next_request > now {
            let millis = ((self.next_request as i128) - (now as i128)) as u64;
            (SearchState::Waiting { query }, SearchAction::Sleep { millis })
        } else {
            let request = SearchRequest {
                url: String::from_str("https://api.igdb.com/v4/games"),
                body: search_query(query).to_string(),
                client_id: self.client_id.clone(),
                access_token: self.access_token.clone(),
            };
            self.next_request = now + REQUEST_DELAY_MS;
            (SearchState::InFlight, SearchAction::Send(request))
        }
    }

    /// One decision of a search: from where the search stands and what the
    /// driver reports to where it stands next and what the driver does next.
    ///
    /// A search begins at `SearchState::Idle` with `SearchEvent::Start` and
    /// is over with `SearchAction::Finish`. A token that has expired is
    /// renewed before anything is sent, and token and expiry change
    /// together or not at all. A request leaves no earlier than the session
    /// allows, and its departure moves the earliest departure of the next by
    /// `REQUEST_DELAY_MS`, whatever becomes of the request. A report that
    /// does not fit the state ends the search with an error.
    pub fn search(&mut self, state: SearchState, event: SearchEvent) -> (next: (
        SearchState,
        SearchAction,
    ))
        requires
            event.timely(),
        ensures
            (Outcome { session: final(self)@, progress: next.0@, step: next.1@ }) == old(
                self,
            )@.search(state@, event@),
    {
        match (state, event) {
            (SearchState::Idle, SearchEvent::Start { query, now }) => {
                if now > self.token_expiry {
                    let url = Self::refresh_access_token(
                        self.client_id.as_str(),
                        self.client_secret.as_str(),
                    );
                    (SearchState::Authenticating { query }, SearchAction::Authenticate { url })
                } else {
                    self.proceed(query, now)
                }
            },
            (SearchState::Authenticating { query }, SearchEvent::TokenGranted { response, now }) => {
                self.access_token = response.access_token;
                self.token_expiry = now + (response.expires_in as i64) * MILLIS_PER_SECOND;
                self.proceed(query, now)
            },
            (SearchState::Authenticating { .. }, SearchEvent::TransportFailed { detail }) => {
                (SearchState::Done, SearchAction::Finish(Err(IgdbcError::Transport(detail))))
            },
            (SearchState::Waiting { query }, SearchEvent::Woke { now }) => self.proceed(query, now),
            (SearchState::InFlight, SearchEvent::Status { code }) => {
                match error_for_status(code) {
                    Ok(_) => (SearchState::Decoding, SearchAction::Decode),
                    Err(error) => (SearchState::Done, SearchAction::Finish(Err(error))),
                }
            },
            (SearchState::InFlight, SearchEvent::TransportFailed { detail }) => {
                (SearchState::Done, SearchAction::Finish(Err(IgdbcError::Transport(detail))))
            },
            (SearchState::Decoding, SearchEvent::Decoded { games }) => {
                (SearchState::Done, SearchAction::Finish(Ok(games)))
            },
            (SearchState::Decoding, SearchEvent::Undecodable { path }) => {
                (SearchState::Done, SearchAction::Finish(Err(IgdbcError::UpstreamSchema { path })))
            },
            (SearchState::Decoding, SearchEvent::TransportFailed { detail }) => {
                (SearchState::Done, SearchAction::Finish(Err(IgdbcError::Transport(detail))))
            },
            _ => (
                SearchState::Done,
                SearchAction::Finish(Err(IgdbcError::Custom(String::from_str("unexpected event")))),
            ),
        }
    }
}

/// The session after the decisions `calls`, taken one after the other. The
/// decisions may belong to any number of searches, in any state and with
/// any report: nothing is assumed of whoever drives them.
pub open spec fn session_after(session: Session, calls: Seq<(Progress, Happening)>) -> Session
    decreases calls.len(),
{
    if calls.len() == 0 {
        session
    } else {
        session_after(session, calls.drop_last()).search(calls.last().0, calls.last().1).session
    }
}

/// The step that the `k`-th of the decisions `calls` asks for.
pub open spec fn step_at(session: Session, calls: Seq<(Progress, Happening)>, k: int) -> Step {
    session_after(session, calls.take(k)).search(calls[k].0, calls[k].1).step
}

/// The steps of one search that begins at `progress` and is told `events`
/// one after the other.
pub open spec fn steps_of(session: Session, progress: Progress, events: Seq<Happening>) -> Seq<
    Step,
>
    decreases events.len(),
{
    if events.len() == 0 {
        Seq::empty()
    } else {
        let first = session.search(progress, events[0]);
        seq![first.step] + steps_of(first.session, first.progress, events.drop_first())
    }
}

/// A request leaves only at an instant at which the session lets it go, and
/// from then on the session holds the next one back for `REQUEST_DELAY_MS`.
pub proof fn dispatch_moves_next_request(session: Session, progress: Progress, event: Happening)
    requires
        session.search(progress, event).step is Send,
    ensures
        event.instant() is Some,
        event.instant()->0 >= session.next_request,
        session.search(progress, event).session.next_request == event.instant()->0
            + REQUEST_DELAY_MS,
{
}

/// No decision moves the earliest departure of the next request back, and
/// only the departure of a request moves it at all.
pub proof fn next_request_never_moves_back(session: Session, progress: Progress, event: Happening)
    ensures
        session.search(progress, event).session.next_request >= session.next_request,
        !(session.search(progress, event).step is Send) ==> session.search(
            progress,
            event,
        ).session.next_request == session.next_request,
{
}

proof fn lemma_next_request_grows(session: Session, calls: Seq<(Progress, Happening)>, i: int, j: int)
    requires
        0 <= i <= j <= calls.len(),
    ensures
        session_after(session, calls.take(i)).next_request <= session_after(
            session,
            calls.take(j),
        ).next_request,
    decreases j - i,
{
    if i < j {
        lemma_next_request_grows(session, calls, i, j - 1);
        let upto = calls.take(j);
        assert(upto.drop_last() =~= calls.take(j - 1));
        assert(upto.last() == calls[j - 1]);
        next_request_never_moves_back(
            session_after(session, calls.take(j - 1)),
            calls[j - 1].0,
            calls[j - 1].1,
        );
    }
}

/// Rate limiting. Whatever decisions are taken on a session, in whatever
/// order and for however many searches: of any two requests that leave, the
/// later one leaves at least `REQUEST_DELAY_MS` after the earlier one.
pub proof fn departures_are_spaced(
    session: Session,
    calls: Seq<(Progress, Happening)>,
    i: int,
    j: int,
)
    requires
        0 <= i < j < calls.len(),
        step_at(session, calls, i) is Send,
        step_at(session, calls, j) is Send,
    ensures
        calls[i].1.instant() is Some,
        calls[j].1.instant() is Some,
        calls[j].1.instant()->0 >= calls[i].1.instant()->0 + REQUEST_DELAY_MS,
{
    let before_i = session_after(session, calls.take(i));
    let before_j = session_after(session, calls.take(j));
    dispatch_moves_next_request(before_i, calls[i].0, calls[i].1);
    dispatch_moves_next_request(before_j, calls[j].0, calls[j].1);
    let upto = calls.take(i + 1);
    assert(upto.drop_last() =~= calls.take(i));
    assert(upto.last() == calls[i]);
    lemma_next_request_grows(session, calls, i + 1, j);
}

proof fn lemma_no_exchange_once_begun(session: Session, progress: Progress, events: Seq<Happening>)
    requires
        !(progress is Idle),
    ensures
        steps_of(session, progress, events).len() == events.len(),
        forall|k: int|
            0 <= k < events.len() ==> !(#[trigger] steps_of(session, progress, events)[k]
                is Authenticate),
    decreases events.len(),
{
    if events.len() > 0 {
        let first = session.search(progress, events[0]);
        lemma_no_exchange_once_begun(first.session, first.progress, events.drop_first());
    }
}

/// Token refresh. A search that is asked for after the token has expired
/// begins with the exchange for a new token, and no later step of the same
/// search is another exchange: whatever is sent, is sent after exactly one
/// exchange. A search that is asked for while the token is valid has no
/// exchange at all.
pub proof fn one_exchange_per_search(session: Session, events: Seq<Happening>)
    requires
        events.len() > 0,
        events[0] is Start,
    ensures
        steps_of(session, Progress::Idle, events).len() == events.len(),
        session.expired(events[0]->Start_now) <==> steps_of(session, Progress::Idle, events)[0]
            is Authenticate,
        forall|k: int|
            1 <= k < events.len() ==> !(#[trigger] steps_of(session, Progress::Idle, events)[k]
                is Authenticate),
{
    let first = session.search(Progress::Idle, events[0]);
    let rest = steps_of(first.session, first.progress, events.drop_first());
    lemma_no_exchange_once_begun(first.session, first.progress, events.drop_first());
    let all = steps_of(session, Progress::Idle, events);
    assert(all == seq![first.step] + rest);
    assert forall|k: int| 1 <= k < events.len() implies !(#[trigger] all[k] is Authenticate) by {
        assert(all[k] == rest[k - 1]);
    }
}

/// A failed exchange leaves the session as it was, and a granted token
/// replaces token and expiry together: no decision changes one of the two
/// without the other being that of the same grant.
pub proof fn token_and_expiry_change_together(
    session: Session,
    progress: Progress,
    event: Happening,
)
    ensures
        ({
            let after = session.search(progress, event).session;
            if progress is Authenticating && event is TokenGranted {
                &&& after.access_token == event->TokenGranted_grant.access_token
                &&& after.token_expiry == event->TokenGranted_now
                    + event->TokenGranted_grant.expires_in * MILLIS_PER_SECOND
            } else {
                &&& after.access_token == session.access_token
                &&& after.token_expiry == session.token_expiry
            }
        }),
        session.search(progress, event).session.client_id == session.client_id,
        session.search(progress, event).session.client_secret == session.client_secret,
{
}

/// No search goes on with a token that it found expired: a search that is
/// asked for and moves on without an exchange holds a token that is valid
/// at that instant, and a search that moves on after an exchange holds the
/// granted token, which is valid at the instant of the grant. The request
/// that leaves carries the token that the session holds.
pub proof fn requests_carry_a_checked_token(
    session: Session,
    query: Seq<char>,
    grant: Grant,
    now: int,
)
    ensures
        ({
            let asked = session.search(Progress::Idle, Happening::Start { query, now });
            &&& !(asked.step is Authenticate) ==> !session.expired(now)
            &&& asked.step matches Step::Send(request) ==> request.access_token
                == session.access_token
        }),
        ({
            let granted = session.search(
                Progress::Authenticating { query },
                Happening::TokenGranted { grant, now },
            );
            &&& !granted.session.expired(now)
            &&& granted.session.access_token == grant.access_token
            &&& granted.step matches Step::Send(request) ==> request.access_token
                == grant.access_token
        }),
{
}

} // verus!
