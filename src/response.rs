use vstd::prelude::*;

verus! {

/// What `serde_json::to_string` gives for a string: the JSON string literal,
/// quotes included, with quote, backslash and control characters escaped.
pub uninterp spec fn json_string_of(s: Seq<char>) -> Seq<char>;

/// Relies on `serde_json::to_string` on a `str`: the JSON string literal of `s`.
/// A `str` always serialises, and writing into the `Vec` behind the result
/// cannot fail, so no error comes back.
#[verifier::external_body]
fn json_string(s: &str) -> (r: String)
    ensures
        r@ == json_string_of(s@),
{
    serde_json::to_string(s).unwrap_or_default()
}

/// The JSON string literal of an optional value.
pub open spec fn json_option_of(s: Option<Seq<char>>) -> Option<Seq<char>> {
    match s {
        Some(v) => Some(json_string_of(v)),
        None => None,
    }
}

/// The reply object laid out from members that are already JSON literals:
/// `text` always, then `username` and `icon_url` where they are present.
pub open spec fn object_of(
    text: Seq<char>,
    username: Option<Seq<char>>,
    icon_url: Option<Seq<char>>,
) -> Seq<char> {
    let head = "{\"text\": "@ + text;
    let with_user = match username {
        Some(u) => head + ", \"username\": "@ + u,
        None => head,
    };
    let with_icon = match icon_url {
        Some(i) => with_user + ", \"icon_url\": "@ + i,
        None => with_user,
    };
    with_icon + "}"@
}

/// The reply to a webhook call.
pub struct Response {
    /// The bot's display name, where it overrides the default.
    pub username: Option<String>,
    /// The message text.
    pub text: String,
    /// The URL of the bot's avatar, where it overrides the default.
    pub icon_url: Option<String>,
}

impl Response {
    /// The JSON text of this reply.
    pub open spec fn json(&self) -> Seq<char> {
        object_of(
            json_string_of(self.text@),
            json_option_of(opt_view(&self.username)),
            json_option_of(opt_view(&self.icon_url)),
        )
    }

    /// Encodes the reply as a JSON object; an absent optional field is left out.
    pub fn encode(&self) -> (r: String)
        ensures
            r@ == self.json(),
    {
        let text = json_string(self.text.as_str());
        let username = match &self.username {
            Some(u) => Some(json_string(u.as_str())),
            None => None,
        };
        let icon_url = match &self.icon_url {
            Some(i) => Some(json_string(i.as_str())),
            None => None,
        };
        json_object(text.as_str(), opt_str(&username), opt_str(&icon_url))
    }

    /// Appends the encoded reply to `to`.
    pub fn send(self, to: &mut String)
        ensures
            final(to)@ == old(to)@ + self.json(),
    {
        let body = self.encode();
        to.append(body.as_str());
    }
}

/// The view of an optional string.
pub open spec fn opt_view(s: &Option<String>) -> Option<Seq<char>> {
    match s {
        Some(v) => Some(v@),
        None => None,
    }
}

fn opt_str(s: &Option<String>) -> (r: Option<&str>)
    ensures
        match (s, r) {
            (Some(a), Some(b)) => a@ == b@,
            (None, None) => true,
            _ => false,
        },
{
    match s {
        Some(v) => Some(v.as_str()),
        None => None,
    }
}

/// Lays out the reply object from `text` and the optional `username` and
/// `icon_url`, each already written as a JSON literal, in that order.
pub fn json_object(text: &str, username: Option<&str>, icon_url: Option<&str>) -> (r: String)
    ensures
        r@ == object_of(text@, opt_str_view(username), opt_str_view(icon_url)),
{
    let mut out = String::from_str("{\"text\": ");
    out.append(text);
    match username {
        Some(u) => {
            out.append(", \"username\": ");
            out.append(u);
        },
        None => {},
    }
    match icon_url {
        Some(i) => {
            out.append(", \"icon_url\": ");
            out.append(i);
        },
        None => {},
    }
    out.append("}");
    out
}

/// The view of an optional string slice.
pub open spec fn opt_str_view(s: Option<&str>) -> Option<Seq<char>> {
    match s {
        Some(v) => Some(v@),
        None => None,
    }
}

} // verus!
