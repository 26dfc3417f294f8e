use vstd::prelude::*;
use crate::request::{field, form_pairs_of, Request};
use crate::response::Response;

verus! {

/// What a webhook call comes to.
pub enum Outcome {
    /// The body could not be read in full.
    BadRequest,
    /// A shared secret is configured and the call's token differs from it.
    Unauthorized,
    /// The handler's answer, to be sent with status 200.
    Respond(Response),
}

impl Outcome {
    /// The HTTP status that goes with this outcome.
    pub open spec fn status_of(&self) -> u16 {
        match self {
            Outcome::BadRequest => 400,
            Outcome::Unauthorized => 401,
            Outcome::Respond(_) => 200,
        }
    }

    /// The HTTP status code of this outcome.
    pub fn status(&self) -> (r: u16)
        ensures
            r == self.status_of(),
    {
        match self {
            Outcome::BadRequest => 400,
            Outcome::Unauthorized => 401,
            Outcome::Respond(_) => 200,
        }
    }
}

/// A webhook bot: an optional shared secret and the handler that answers calls.
pub struct Bot<F> {
    handler: F,
    token: Option<String>,
}

impl<F: Fn(Request) -> Response> Bot<F> {
    /// The handler.
    pub closed spec fn handler(&self) -> F {
        self.handler
    }

    /// The shared secret, where one is configured.
    pub closed spec fn secret(&self) -> Option<Seq<char>> {
        match &self.token {
            Some(t) => Some(t@),
            None => None,
        }
    }

    /// Whether a call that carries `token` may reach the handler.
    pub open spec fn admits(&self, token: Seq<char>) -> bool {
        match self.secret() {
            Some(s) => s == token,
            None => true,
        }
    }

    /// Creates a bot that answers with `handler`, checking each call's token
    /// against `token` where one is given.
    pub fn new(token: Option<&'static str>, handler: F) -> (r: Bot<F>)
        ensures
            r.handler() == handler,
            r.secret() == match token {
                Some(t) => Some(t@),
                None => None::<Seq<char>>,
            },
    {
        let token = match token {
            Some(t) => Some(String::from_str(t)),
            None => None,
        };
        Bot { handler, token }
    }

    /// Whether `req` passes the shared-secret check: always where no secret is
    /// configured, else where its token is exactly the secret.
    pub fn authorized(&self, req: &Request) -> (r: bool)
        ensures
            r == self.admits(req.token@),
    {
        match &self.token {
            Some(t) => *t == req.token,
            None => true,
        }
    }

    /// Answers a decoded call: `Unauthorized` where the token check fails, the
    /// handler's response otherwise.
    pub fn dispatch(&self, req: Request) -> (r: Outcome)
        requires
            self.handler().requires((req,)),
        ensures
            !self.admits(req.token@) ==> r is Unauthorized,
            self.admits(req.token@) ==> r is Respond && self.handler().ensures(
                (req,),
                r->Respond_0,
            ),
    {
        if self.authorized(&req) {
            Outcome::Respond((self.handler)(req))
        } else {
            Outcome::Unauthorized
        }
    }

    /// Answers a webhook call whose body was read in full (`Some`) or could
    /// not be read (`None`).
    pub fn handle(&self, body: Option<&[u8]>) -> (r: Outcome)
        requires
            forall|q: Request| self.handler().requires((q,)),
        ensures
            body is None ==> r is BadRequest,
            body is Some ==> {
                let pairs = form_pairs_of(body->Some_0@);
                &&& !self.admits(field(pairs, "token"@)) ==> r is Unauthorized
                &&& self.admits(field(pairs, "token"@)) ==> r is Respond && exists|q: Request|
                    q.decodes_from(pairs) && self.handler().ensures((q,), r->Respond_0)
            },
    {
        match body {
            None => Outcome::BadRequest,
            Some(b) => {
                let req = Request::from_bytes(b);
                self.dispatch(req)
            },
        }
    }
}

} // verus!
