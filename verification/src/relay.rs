//! The per-request relay logic: building the outbound form payload and URL
//! from an inbound request, and shaping the caller-visible response from the
//! outcome of the single outbound call.

use vstd::prelude::*;
use vstd::string::StringExecFns;

verus! {

/// An inbound "send email" request, already deserialized: recipient,
/// subject and body text, all taken verbatim.
pub struct EmailRequest {
    pub to: String,
    pub subject: String,
    pub text: String,
}

/// The four form fields of the outbound message, each a string.
pub struct FormPayload {
    pub from: String,
    pub to: String,
    pub subject: String,
    pub text: String,
}

/// A fully prepared outbound call: where to post and what to post.
pub struct OutboundRequest {
    pub url: String,
    pub payload: FormPayload,
}

/// The two terminal outcomes of the outbound call: the exchange completed
/// (with whatever status the provider returned), or the transport failed
/// before an exchange could complete.
#[derive(Clone, Copy, Debug, PartialEq, Eq, Structural)]
pub enum Outcome {
    Forwarded(u16),
    TransportFailed,
}

/// The caller-visible result: an HTTP status code and a body.
pub struct RelayResponse {
    pub status_code: u16,
    pub body: String,
}

impl FormPayload {
    /// The payload as the key-value pairs that go on the wire, in order:
    /// `from`, `to`, `subject`, `text`, each value verbatim.
    pub fn form_fields(&self) -> (r: Vec<(String, String)>)
        ensures
            r@.len() == 4,
            r@[0].0@ == "from"@ && r@[0].1@ == self.from@,
            r@[1].0@ == "to"@ && r@[1].1@ == self.to@,
            r@[2].0@ == "subject"@ && r@[2].1@ == self.subject@,
            r@[3].0@ == "text"@ && r@[3].1@ == self.text@,
    {
        let mut fields: Vec<(String, String)> = Vec::new();
        fields.push(("from".to_owned(), self.from.clone()));
        fields.push(("to".to_owned(), self.to.clone()));
        fields.push(("subject".to_owned(), self.subject.clone()));
        fields.push(("text".to_owned(), self.text.clone()));
        fields
    }
}

/// The body returned to the caller whenever the outbound exchange completed.
pub open spec fn ok_body() -> Seq<char> {
    "{\"status\":\"ok\"}"@
}

/// The sender address put in the `from` field: `noreply@` at the domain.
pub fn from(domain_name: &str) -> (r: String)
    ensures
        r@ == "noreply@"@ + domain_name@,
{
    "noreply@".to_owned().concat(domain_name)
}

/// The provider endpoint that messages for the domain are posted to.
pub fn url(domain_name: &str) -> (r: String)
    ensures
        r@ == "https://api.mailgun.net/v3/"@ + domain_name@ + "/messages"@,
{
    "https://api.mailgun.net/v3/".to_owned().concat(domain_name).concat("/messages")
}

/// Builds the outbound form payload: `from` is derived from the domain,
/// the other three fields carry the inbound values verbatim.
pub fn build_payload(domain_name: &str, request: &EmailRequest) -> (p: FormPayload)
    ensures
        p.from@ == "noreply@"@ + domain_name@,
        p.to@ == request.to@,
        p.subject@ == request.subject@,
        p.text@ == request.text@,
{
    FormPayload {
        from: from(domain_name),
        to: request.to.clone(),
        subject: request.subject.clone(),
        text: request.text.clone(),
    }
}

/// Decides whether an inbound body leads to an outbound call.  A request
/// that failed deserialization (`None`) is rejected and produces no
/// outbound call at all; a well-formed one produces exactly the prepared
/// call, with the payload built verbatim from its fields.
pub fn plan_send(domain_name: &str, parsed: Option<EmailRequest>) -> (r: Option<OutboundRequest>)
    ensures
        r is Some <==> parsed is Some,
        r matches Some(out) ==> {
            &&& out.url@ == "https://api.mailgun.net/v3/"@ + domain_name@ + "/messages"@
            &&& out.payload.from@ == "noreply@"@ + domain_name@
            &&& out.payload.to@ == parsed->0.to@
            &&& out.payload.subject@ == parsed->0.subject@
            &&& out.payload.text@ == parsed->0.text@
        },
{
    match parsed {
        None => None,
        Some(request) => {
            let payload = build_payload(domain_name, &request);
            Some(OutboundRequest { url: url(domain_name), payload })
        },
    }
}

/// Turns the outcome of the outbound call into the caller-visible response.
/// A completed exchange yields `200` with the literal success body, whatever
/// status the provider returned; a transport failure yields a bare `500`,
/// and in particular never the success body.
pub fn relay_response(outcome: &Outcome) -> (r: RelayResponse)
    ensures
        *outcome matches Outcome::Forwarded(_) ==> r.status_code == 200 && r.body@ == ok_body(),
        *outcome is TransportFailed ==> {
            &&& r.status_code == 500
            &&& r.body@ == Seq::<char>::empty()
            &&& r.body@ != ok_body()
        },
{
    match outcome {
        Outcome::Forwarded(_) => RelayResponse {
            status_code: 200,
            body: "{\"status\":\"ok\"}".to_owned(),
        },
        Outcome::TransportFailed => {
            proof {
                reveal_strlit("{\"status\":\"ok\"}");
            }
            RelayResponse { status_code: 500, body: String::new() }
        },
    }
}

} // verus!
