//! The dispatcher: what is sent for a configuration, and what the caller gets
//! for each thing a transport can report. The library never touches the
//! network itself. A dispatch is given its transport as a function from
//! [`Request`] to [`Outcome`], hands it one request and settles the one
//! outcome that comes back.

use vstd::prelude::*;
use vstd::string::StringExecFns;
use crate::config::{Config, Ipify};
use crate::endpoint::{endpoint_of, lemma_endpoints_distinct};
use crate::engine::Engine;
use crate::error::Error;
use crate::op::Op;

verus! {

/// The name the client gives itself.
pub const CLIENT_NAME: &'static str = "ipify-rs";

/// The version the client gives itself.
pub const CLIENT_VERSION: &'static str = "0.7.0";

/// The text of the User-Agent header: name, a slash, version.
pub open spec fn user_agent_text() -> Seq<char> {
    CLIENT_NAME@ + "/"@ + CLIENT_VERSION@
}

/// The User-Agent header every request carries.
pub fn user_agent() -> (ua: String)
    ensures
        ua@ == user_agent_text(),
{
    let mut ua = CLIENT_NAME.to_owned();
    ua.append("/");
    ua.append(CLIENT_VERSION);
    ua
}

/// The User-Agent is made of printable ASCII alone, so that any transport
/// accepts it as a header value.
pub proof fn lemma_user_agent_printable()
    ensures
        forall|i: int|
            0 <= i < user_agent_text().len() ==> ' ' <= #[trigger] user_agent_text()[i] <= '~',
{
    reveal_strlit("ipify-rs");
    reveal_strlit("/");
    reveal_strlit("0.7.0");
}

/// The HTTP methods a dispatch uses. The service is only ever read.
#[derive(Clone, Copy, Debug, PartialEq, Eq, Structural)]
pub enum Method {
    /// A plain GET.
    Get,
}

/// One request, ready for a transport: no body, no authentication, and the
/// User-Agent as its only explicit header.
#[derive(Debug, PartialEq, Eq)]
pub struct Request {
    /// The transport that has to build the client.
    pub engine: Engine,
    /// How the endpoint is asked.
    pub method: Method,
    /// Where the request goes.
    pub url: String,
    /// The value of the User-Agent header.
    pub user_agent: String,
}

/// The mathematical model of a request.
pub struct RequestView {
    pub engine: Engine,
    pub method: Method,
    pub url: Seq<char>,
    pub user_agent: Seq<char>,
}

impl View for Request {
    type V = RequestView;

    open spec fn view(&self) -> RequestView {
        RequestView {
            engine: self.engine,
            method: self.method,
            url: self.url@,
            user_agent: self.user_agent@,
        }
    }
}

impl Clone for Request {
    fn clone(&self) -> (req: Request)
        ensures
            req == *self,
    {
        Request {
            engine: self.engine,
            method: self.method,
            url: self.url.clone(),
            user_agent: self.user_agent.clone(),
        }
    }
}

impl Config {
    /// The request that dispatching this configuration sends: a GET to the
    /// endpoint of its operation, in the client's name, for its engine.
    pub open spec fn request(self) -> RequestView {
        RequestView {
            engine: self.engine,
            method: Method::Get,
            url: endpoint_of(self.operation),
            user_agent: user_agent_text(),
        }
    }

    /// `transport` was handed the request of this configuration and made
    /// `reply` of it.
    pub open spec fn handed<T, F: FnOnce(Request) -> T>(self, transport: F, reply: T) -> bool {
        exists|req: Request| req@ == self.request() && #[trigger] call_ensures(transport, (req,), reply)
    }
}

impl Ipify {
    /// The one request of a dispatch of this configuration.
    pub fn request(&self) -> (req: Request)
        ensures
            req@ == self@.request(),
    {
        Request {
            engine: self.engine(),
            method: Method::Get,
            url: self.endpoint().to_owned(),
            user_agent: user_agent(),
        }
    }

    /// Performs the lookup over `transport`: hands it the one request of this
    /// configuration, once, and settles the dispatch with what it reports.
    /// Nothing is retried and nothing is kept for a later call.
    pub fn call<F: FnOnce(Request) -> Outcome>(self, transport: F) -> (r: Result<String, Error>)
        requires
            forall|req: Request| req@ == self@.request() ==> call_requires(transport, (req,)),
        ensures
            exists|outcome: Outcome| #[trigger]
                self@.handed(transport, outcome) && r == outcome.result(),
    {
        let request = self.request();
        let outcome = transport(request);
        assert(self@.handed(transport, outcome));
        outcome.into_result()
    }

    /// Starts the lookup without blocking: hands the one request of this
    /// configuration to `start`, once, and returns what `start` made of it,
    /// a reply still on its way. The outcome it ends in is settled by
    /// [`Outcome::into_result`]. An engine that can only block builds no
    /// client for this, and `start` is then left alone.
    pub fn call_async<T, F: FnOnce(Request) -> T>(self, start: F) -> (r: Result<T, Error>)
        requires
            forall|req: Request| req@ == self@.request() ==> call_requires(start, (req,)),
        ensures
            r is Ok <==> self@.engine.supports_async(),
            r matches Err(e) ==> e == Error::TransportBuild,
            r matches Ok(pending) ==> self@.handed(start, pending),
    {
        if self.engine().supports_async() {
            let request = self.request();
            Ok(start(request))
        } else {
            Err(Error::TransportBuild)
        }
    }
}

/// Minimalistic API: the lookup with every default, over `transport`.
pub fn myip<F: FnOnce(Request) -> Outcome>(transport: F) -> (r: Result<String, Error>)
    requires
        forall|req: Request| req@ == Config::initial().request() ==> call_requires(transport, (req,)),
    ensures
        exists|outcome: Outcome| #[trigger]
            Config::initial().handed(transport, outcome) && r == outcome.result(),
{
    Ipify::new().set(Op::IPv6).call(transport)
}

/// A dispatch hands the reply on as it came: whatever the configuration, its
/// request is a GET that carries the client's User-Agent, and when the
/// transport reports the body `body` the caller gets exactly `body`.
pub proof fn lemma_round_trip(c: Config, body: String)
    ensures
        c.request().method == Method::Get,
        c.request().user_agent == user_agent_text(),
        c.request().url == endpoint_of(c.operation),
        c.consistent() ==> c.request().url == c.endpoint,
        Outcome::Body(body).result() == Ok::<String, Error>(body),
{
}

/// Dispatches for different operations do not meet: their requests go to
/// different URLs, so a reply to one is never the reply to the other.
pub proof fn lemma_requests_stay_apart(a: Config, b: Config)
    requires
        a.operation != b.operation,
    ensures
        a.request().url != b.request().url,
{
    lemma_endpoints_distinct(a.operation, b.operation);
}

/// A dispatch succeeds exactly when the transport delivered a body, and it
/// never fails with a configuration conflict: such a conflict is found before
/// there is a configuration to dispatch.
pub proof fn lemma_success_needs_body(outcome: Outcome)
    ensures
        outcome.result() is Ok <==> outcome is Body,
        outcome.result() != Err::<String, Error>(Error::ConfigurationConflict),
{
}

/// What a transport reports after it was handed one request.
#[derive(Debug, PartialEq, Eq)]
pub enum Outcome {
    /// The reply arrived and this is its body, decoded as text.
    Body(String),
    /// No client could be built.
    BuildFailed,
    /// The request could not be sent, or the connection failed.
    SendFailed,
    /// The reply arrived but its body is not text.
    DecodeFailed,
}

impl Clone for Outcome {
    fn clone(&self) -> (outcome: Outcome)
        ensures
            outcome == *self,
    {
        match self {
            Outcome::Body(body) => Outcome::Body(body.clone()),
            Outcome::BuildFailed => Outcome::BuildFailed,
            Outcome::SendFailed => Outcome::SendFailed,
            Outcome::DecodeFailed => Outcome::DecodeFailed,
        }
    }
}

impl Outcome {
    /// What the caller of a dispatch gets for this outcome: the body as it
    /// came, or the error that names the step that failed.
    pub open spec fn result(self) -> Result<String, Error> {
        match self {
            Outcome::Body(body) => Ok(body),
            Outcome::BuildFailed => Err(Error::TransportBuild),
            Outcome::SendFailed => Err(Error::Network),
            Outcome::DecodeFailed => Err(Error::Decode),
        }
    }

    /// Settles a dispatch. The body is passed through untouched, JSON
    /// included; a failure is handed on, never retried or replaced.
    pub fn into_result(self) -> (r: Result<String, Error>)
        ensures
            r == self.result(),
    {
        match self {
            Outcome::Body(body) => Ok(body),
            Outcome::BuildFailed => Err(Error::TransportBuild),
            Outcome::SendFailed => Err(Error::Network),
            Outcome::DecodeFailed => Err(Error::Decode),
        }
    }
}

} // verus!
