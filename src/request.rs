use vstd::prelude::*;

verus! {

/// The `(name, value)` pairs that `form_urlencoded::parse` yields for a body,
/// in order, each percent-decoded with `+` read as a space.
pub uninterp spec fn form_pairs_of(body: Seq<u8>) -> Seq<(Seq<char>, Seq<char>)>;

/// The view of decoded pairs.
pub open spec fn pairs_view(pairs: Seq<(String, String)>) -> Seq<(Seq<char>, Seq<char>)> {
    pairs.map_values(|p: (String, String)| (p.0@, p.1@))
}

/// Relies on `url::form_urlencoded::parse`: splits an
/// `application/x-www-form-urlencoded` body into decoded pairs, in order.
/// It never fails: bytes that do not decode are kept or replaced, and an
/// empty body has no pairs.
#[verifier::external_body]
fn parse_form(body: &[u8]) -> (r: Vec<(String, String)>)
    ensures
        pairs_view(r@) == form_pairs_of(body@),
        body@.len() == 0 ==> r@.len() == 0,
{
    url::form_urlencoded::parse(body).into_owned().collect()
}

/// The value that the last pair named `key` carries, or the empty string where
/// no pair has that name.
pub open spec fn field(pairs: Seq<(Seq<char>, Seq<char>)>, key: Seq<char>) -> Seq<char>
    decreases pairs.len(),
{
    if pairs.len() == 0 {
        Seq::empty()
    } else if pairs.last().0 == key {
        pairs.last().1
    } else {
        field(pairs.drop_last(), key)
    }
}

/// No two pairs share a name.
pub open spec fn distinct_names(pairs: Seq<(Seq<char>, Seq<char>)>) -> bool {
    forall|i: int, j: int|
        0 <= i < j < pairs.len() ==> #[trigger] pairs[i].0 != #[trigger] pairs[j].0
}

/// Whether some pair is named `name`.
pub open spec fn names(pairs: Seq<(Seq<char>, Seq<char>)>, name: Seq<char>) -> bool {
    exists|i: int| 0 <= i < pairs.len() && #[trigger] pairs[i].0 == name
}

proof fn lemma_field_of_last_named(pairs: Seq<(Seq<char>, Seq<char>)>, i: int)
    requires
        0 <= i < pairs.len(),
        forall|j: int| i < j < pairs.len() ==> #[trigger] pairs[j].0 != pairs[i].0,
    ensures
        field(pairs, pairs[i].0) == pairs[i].1,
    decreases pairs.len(),
{
    if i < pairs.len() - 1 {
        let rest = pairs.drop_last();
        assert(pairs[pairs.len() - 1].0 != pairs[i].0);
        assert forall|j: int| i < j < rest.len() implies #[trigger] rest[j].0 != rest[i].0 by {
            assert(rest[j] == pairs[j]);
        }
        lemma_field_of_last_named(rest, i);
    }
}

proof fn lemma_field_of_unnamed(pairs: Seq<(Seq<char>, Seq<char>)>, name: Seq<char>)
    requires
        !names(pairs, name),
    ensures
        field(pairs, name) == Seq::<char>::empty(),
    decreases pairs.len(),
{
    if pairs.len() > 0 {
        let rest = pairs.drop_last();
        assert(pairs[pairs.len() - 1].0 != name);
        assert(!names(rest, name)) by {
            assert forall|i: int| 0 <= i < rest.len() implies #[trigger] rest[i].0 != name by {
                assert(rest[i] == pairs[i]);
            }
        }
        lemma_field_of_unnamed(rest, name);
    }
}

/// A body whose names are all different decodes so that every recognised name
/// gives back exactly the value the body carried for it.
pub proof fn lemma_distinct_names_round_trip(pairs: Seq<(Seq<char>, Seq<char>)>, req: Request)
    requires
        distinct_names(pairs),
        req.decodes_from(pairs),
    ensures
        forall|i: int| 0 <= i < pairs.len() ==> req.carries(#[trigger] pairs[i].0, pairs[i].1),
{
    assert forall|i: int| 0 <= i < pairs.len() implies req.carries(
        #[trigger] pairs[i].0,
        pairs[i].1,
    ) by {
        lemma_field_of_last_named(pairs, i);
    }
}

/// Whatever the body, a recognised field that no pair names decodes to the
/// empty string.
pub proof fn lemma_unnamed_fields_empty(pairs: Seq<(Seq<char>, Seq<char>)>, req: Request)
    requires
        req.decodes_from(pairs),
    ensures
        forall|name: Seq<char>| !names(pairs, name) ==> req.carries(name, Seq::empty()),
{
    assert forall|name: Seq<char>| !names(pairs, name) implies req.carries(name, Seq::empty()) by {
        lemma_field_of_unnamed(pairs, name);
    }
}

/// A webhook call, as the chat platform sends it.
pub struct Request {
    /// The alphanumeric channel identifier.
    pub channel_id: String,
    /// The name of the channel.
    pub channel_name: String,
    /// The domain name of the team.
    pub team_domain: String,
    /// The alphanumeric team identifier.
    pub team_id: String,
    /// The text message payload.
    pub text: String,
    /// The timestamp, as the platform wrote it.
    pub timestamp: String,
    /// The shared-secret token.
    pub token: String,
    /// The trigger word of this call.
    pub trigger: String,
    /// The identifier of the user who triggered the call.
    pub user_id: String,
    /// The name of the user who triggered the call.
    pub username: String,
}

impl Request {
    /// Each field holds the value that `pairs` give its wire name, last one
    /// winning, or the empty string.
    pub open spec fn decodes_from(&self, pairs: Seq<(Seq<char>, Seq<char>)>) -> bool {
        &&& self.channel_id@ == field(pairs, "channel_id"@)
        &&& self.channel_name@ == field(pairs, "channel_name"@)
        &&& self.team_domain@ == field(pairs, "team_domain"@)
        &&& self.team_id@ == field(pairs, "team_id"@)
        &&& self.text@ == field(pairs, "text"@)
        &&& self.timestamp@ == field(pairs, "timestamp"@)
        &&& self.token@ == field(pairs, "token"@)
        &&& self.trigger@ == field(pairs, "trigger_word"@)
        &&& self.user_id@ == field(pairs, "user_id"@)
        &&& self.username@ == field(pairs, "user_name"@)
    }

    /// The field that the wire name `name` maps to, if any, holds `value`.
    pub open spec fn carries(&self, name: Seq<char>, value: Seq<char>) -> bool {
        &&& name == "channel_id"@ ==> self.channel_id@ == value
        &&& name == "channel_name"@ ==> self.channel_name@ == value
        &&& name == "team_domain"@ ==> self.team_domain@ == value
        &&& name == "team_id"@ ==> self.team_id@ == value
        &&& name == "text"@ ==> self.text@ == value
        &&& name == "timestamp"@ ==> self.timestamp@ == value
        &&& name == "token"@ ==> self.token@ == value
        &&& name == "trigger_word"@ ==> self.trigger@ == value
        &&& name == "user_id"@ ==> self.user_id@ == value
        &&& name == "user_name"@ ==> self.username@ == value
    }

    /// Every field is empty.
    pub open spec fn is_empty(&self) -> bool {
        self.decodes_from(Seq::empty())
    }

    /// Builds a request from decoded pairs: a recognised name sets its field,
    /// a later pair overrides an earlier one, other names are ignored.
    pub fn from_pairs(pairs: &Vec<(String, String)>) -> (r: Request)
        ensures
            r.decodes_from(pairs_view(pairs@)),
    {
        let mut req = Request::default();
        let k_channel_id = String::from_str("channel_id");
        let k_channel_name = String::from_str("channel_name");
        let k_team_domain = String::from_str("team_domain");
        let k_team_id = String::from_str("team_id");
        let k_text = String::from_str("text");
        let k_timestamp = String::from_str("timestamp");
        let k_token = String::from_str("token");
        let k_trigger = String::from_str("trigger_word");
        let k_user_id = String::from_str("user_id");
        let k_username = String::from_str("user_name");
        let ghost all = pairs_view(pairs@);
        let mut i: usize = 0;
        while i < pairs.len()
            invariant
                i <= pairs@.len(),
                all == pairs_view(pairs@),
                k_channel_id@ == "channel_id"@,
                k_channel_name@ == "channel_name"@,
                k_team_domain@ == "team_domain"@,
                k_team_id@ == "team_id"@,
                k_text@ == "text"@,
                k_timestamp@ == "timestamp"@,
                k_token@ == "token"@,
                k_trigger@ == "trigger_word"@,
                k_user_id@ == "user_id"@,
                k_username@ == "user_name"@,
                req.decodes_from(all.take(i as int)),
            decreases pairs@.len() - i,
        {
            let ghost before = all.take(i as int);
            proof {
                assert(all.take(i + 1).drop_last() =~= before);
            }
            let (name, value) = &pairs[i];
            if *name == k_channel_id {
                req.channel_id = value.clone();
            }
            if *name == k_channel_name {
                req.channel_name = value.clone();
            }
            if *name == k_team_domain {
                req.team_domain = value.clone();
            }
            if *name == k_team_id {
                req.team_id = value.clone();
            }
            if *name == k_text {
                req.text = value.clone();
            }
            if *name == k_timestamp {
                req.timestamp = value.clone();
            }
            if *name == k_token {
                req.token = value.clone();
            }
            if *name == k_trigger {
                req.trigger = value.clone();
            }
            if *name == k_user_id {
                req.user_id = value.clone();
            }
            if *name == k_username {
                req.username = value.clone();
            }
            i = i + 1;
        }
        proof {
            assert(all.take(pairs@.len() as int) =~= all);
        }
        req
    }

    /// Decodes a form-encoded body. Decoding never fails: fields that the body
    /// does not name stay empty.
    pub fn from_bytes(body: &[u8]) -> (r: Request)
        ensures
            r.decodes_from(form_pairs_of(body@)),
    {
        let pairs = parse_form(body);
        Request::from_pairs(&pairs)
    }
}

impl Default for Request {
    /// A request with every field empty.
    fn default() -> (r: Request)
        ensures
            r.is_empty(),
    {
        Request {
            channel_id: String::new(),
            channel_name: String::new(),
            team_domain: String::new(),
            team_id: String::new(),
            text: String::new(),
            timestamp: String::new(),
            token: String::new(),
            trigger: String::new(),
            user_id: String::new(),
            username: String::new(),
        }
    }
}

} // verus!
