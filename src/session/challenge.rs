use crate::error::{ErrorKind, RobinhoodError};
use crate::json::{
    count_member, distinct_keys, distinct_names, field, is_named, key_is, lemma_field_absent,
    lemma_field_append, lemma_filter_all, lemma_filter_none, member, parse_json_text,
    parsed_json_text, pretty_json_text, read_string, split_members, string_member, take_last,
    keys_distinct, text, write_json_text, Json,
};
use crate::time::{rfc3339_instant, rfc3339_text, Timestamp};
use vstd::prelude::*;

verus! {

/// Name of the header that carries the id of the challenge being answered.
pub const CHALLENGE_RESPONSE_HEADER: &'static str = "X-ROBINHOOD-CHALLENGE-RESPONSE-ID";

/// How the server delivers a challenge's code. Written on the wire in
/// lowercase (`email`, `sms`), in requests as in challenges.
#[derive(Clone, Copy, Debug, PartialEq, Eq, Structural)]
pub enum ChallengeType {
    EMAIL,
    SMS,
}

/// Where a challenge stands; `VALIDATED` and `FAILED` are terminal.
#[derive(Clone, Copy, Debug, PartialEq, Eq, Structural)]
pub enum ChallengeStatus {
    ISSUED,
    VALIDATED,
    FAILED,
}

/// The wire token of a challenge type.
pub open spec fn type_token(t: ChallengeType) -> Seq<char> {
    match t {
        ChallengeType::EMAIL => "email"@,
        ChallengeType::SMS => "sms"@,
    }
}

/// The challenge type a wire token names, if any.
pub open spec fn type_of_token(s: Seq<char>) -> Option<ChallengeType> {
    if s == "email"@ {
        Some(ChallengeType::EMAIL)
    } else if s == "sms"@ {
        Some(ChallengeType::SMS)
    } else {
        None
    }
}

/// The wire token of a challenge status.
pub open spec fn status_token(t: ChallengeStatus) -> Seq<char> {
    match t {
        ChallengeStatus::ISSUED => "issued"@,
        ChallengeStatus::VALIDATED => "validated"@,
        ChallengeStatus::FAILED => "failed"@,
    }
}

/// The challenge status a wire token names, if any.
pub open spec fn status_of_token(s: Seq<char>) -> Option<ChallengeStatus> {
    if s == "issued"@ {
        Some(ChallengeStatus::ISSUED)
    } else if s == "validated"@ {
        Some(ChallengeStatus::VALIDATED)
    } else if s == "failed"@ {
        Some(ChallengeStatus::FAILED)
    } else {
        None
    }
}

impl ChallengeType {
    /// The lowercase wire token.
    pub fn token(&self) -> (r: &'static str)
        ensures
            r@ == type_token(*self),
    {
        match self {
            ChallengeType::EMAIL => "email",
            ChallengeType::SMS => "sms",
        }
    }

    /// Reads a wire token.
    pub fn from_token(s: &String) -> (r: Option<ChallengeType>)
        ensures
            r == type_of_token(s@),
    {
        if key_is(s, "email") {
            Some(ChallengeType::EMAIL)
        } else if key_is(s, "sms") {
            Some(ChallengeType::SMS)
        } else {
            None
        }
    }
}

impl ChallengeStatus {
    /// The lowercase wire token.
    pub fn token(&self) -> (r: &'static str)
        ensures
            r@ == status_token(*self),
    {
        match self {
            ChallengeStatus::ISSUED => "issued",
            ChallengeStatus::VALIDATED => "validated",
            ChallengeStatus::FAILED => "failed",
        }
    }

    /// Reads a wire token.
    pub fn from_token(s: &String) -> (r: Option<ChallengeStatus>)
        ensures
            r == status_of_token(s@),
    {
        if key_is(s, "issued") {
            Some(ChallengeStatus::ISSUED)
        } else if key_is(s, "validated") {
            Some(ChallengeStatus::VALIDATED)
        } else if key_is(s, "failed") {
            Some(ChallengeStatus::FAILED)
        } else {
            None
        }
    }
}

/// Each challenge type's token names it back.
pub proof fn lemma_type_token_round_trip(t: ChallengeType)
    ensures
        type_of_token(type_token(t)) == Some(t),
{
    reveal_strlit("email");
    reveal_strlit("sms");
    assert("sms"@.len() != "email"@.len());
}

/// Each challenge status's token names it back.
pub proof fn lemma_status_token_round_trip(s: ChallengeStatus)
    ensures
        status_of_token(status_token(s)) == Some(s),
{
    reveal_strlit("issued");
    reveal_strlit("validated");
    reveal_strlit("failed");
    assert("validated"@.len() != "issued"@.len());
    assert("failed"@[0] != "issued"@[0]);
    assert("failed"@.len() != "validated"@.len());
}

/// The names of the modelled members differ from one another.
pub proof fn lemma_challenge_keys_distinct()
    ensures
        "id"@ != "user"@,
        "id"@ != "type"@,
        "id"@ != "status"@,
        "id"@ != "remaining_attempts"@,
        "id"@ != "remaining_retries"@,
        "id"@ != "expires_at"@,
        "user"@ != "type"@,
        "user"@ != "status"@,
        "user"@ != "remaining_attempts"@,
        "user"@ != "remaining_retries"@,
        "user"@ != "expires_at"@,
        "type"@ != "status"@,
        "type"@ != "remaining_attempts"@,
        "type"@ != "remaining_retries"@,
        "type"@ != "expires_at"@,
        "status"@ != "remaining_attempts"@,
        "status"@ != "remaining_retries"@,
        "status"@ != "expires_at"@,
        "remaining_attempts"@ != "remaining_retries"@,
        "remaining_attempts"@ != "expires_at"@,
        "remaining_retries"@ != "expires_at"@,
{
    reveal_strlit("id");
    reveal_strlit("user");
    reveal_strlit("type");
    reveal_strlit("status");
    reveal_strlit("remaining_attempts");
    reveal_strlit("remaining_retries");
    reveal_strlit("expires_at");
    assert("id"@.len() == 2);
    assert("user"@.len() == 4);
    assert("type"@.len() == 4);
    assert("status"@.len() == 6);
    assert("remaining_attempts"@.len() == 18);
    assert("remaining_retries"@.len() == 17);
    assert("expires_at"@.len() == 10);
    assert("user"@[0] != "type"@[0]);
}

/// A verification prompt issued by the server.
#[derive(Debug, PartialEq)]
pub struct Challenge {
    pub id: String,
    pub user: String,
    pub challenge_type: ChallengeType,
    pub status: ChallengeStatus,
    pub remaining_attempts: i32,
    pub remaining_retries: i32,
    pub expires_at: Timestamp,
    /// Members the model does not name, kept to be written out again.
    pub extra_fields: Vec<(String, Json)>,
}

/// A challenge as plain values.
pub struct ChallengeView {
    pub id: Seq<char>,
    pub user: Seq<char>,
    pub challenge_type: ChallengeType,
    pub status: ChallengeStatus,
    pub remaining_attempts: i32,
    pub remaining_retries: i32,
    pub expires_at: Timestamp,
    pub extra_fields: Seq<(String, Json)>,
}

impl View for Challenge {
    type V = ChallengeView;

    open spec fn view(&self) -> ChallengeView {
        ChallengeView {
            id: self.id@,
            user: self.user@,
            challenge_type: self.challenge_type,
            status: self.status,
            remaining_attempts: self.remaining_attempts,
            remaining_retries: self.remaining_retries,
            expires_at: self.expires_at,
            extra_fields: self.extra_fields@,
        }
    }
}

/// The member names that a challenge models; the server spells the type `type`.
pub open spec fn is_challenge_key(k: Seq<char>) -> bool {
    k == "id"@ || k == "user"@ || k == "type"@ || k == "status"@ || k == "remaining_attempts"@
        || k == "remaining_retries"@ || k == "expires_at"@
}

/// Keeps the members that a challenge does not model.
pub open spec fn not_challenge_member(e: (String, Json)) -> bool {
    !is_challenge_key(e.0@)
}

/// The member names that a challenge models, in order.
pub open spec fn challenge_names() -> Seq<&'static str> {
    seq!["id", "user", "type", "status", "remaining_attempts", "remaining_retries", "expires_at"]
}

/// The challenge that the members of an object describe, if they do.
pub open spec fn challenge_of_members(es: Seq<(String, Json)>) -> Option<ChallengeView> {
    let ty = string_member(es, "type"@);
    let st = string_member(es, "status"@);
    let at = string_member(es, "expires_at"@);
    if string_member(es, "id"@) is Some && string_member(es, "user"@) is Some && ty is Some
        && type_of_token(ty->Some_0) is Some && st is Some && status_of_token(st->Some_0) is Some
        && count_member(es, "remaining_attempts"@) is Some && count_member(
        es,
        "remaining_retries"@,
    ) is Some && at is Some && rfc3339_instant(at->Some_0) is Some && keys_distinct(
        es.filter(|e: (String, Json)| not_challenge_member(e)),
    ) {
        Some(
            ChallengeView {
                id: string_member(es, "id"@)->Some_0,
                user: string_member(es, "user"@)->Some_0,
                challenge_type: type_of_token(ty->Some_0)->Some_0,
                status: status_of_token(st->Some_0)->Some_0,
                remaining_attempts: count_member(es, "remaining_attempts"@)->Some_0,
                remaining_retries: count_member(es, "remaining_retries"@)->Some_0,
                expires_at: rfc3339_instant(at->Some_0)->Some_0,
                extra_fields: es.filter(|e: (String, Json)| not_challenge_member(e)),
            },
        )
    } else {
        None
    }
}

/// No member of `extra` bears a name that a challenge models, and no two
/// share a name.
pub open spec fn overflow_ok(extra: Seq<(String, Json)>) -> bool {
    &&& forall|i: int| 0 <= i < extra.len() ==> not_challenge_member(#[trigger] extra[i])
    &&& keys_distinct(extra)
}

/// The challenge that a JSON value describes, if it does.
pub open spec fn challenge_of_json(j: Json) -> Option<ChallengeView> {
    match j {
        Json::Object(es) => challenge_of_members(es@),
        _ => None,
    }
}

/// The members of the JSON value written for a challenge (the text that
/// serde_json makes of it is sorted by name), in the order of the model, with its
/// timestamp written as `stamp` and its other members last.
pub open spec fn challenge_members(es: Seq<(String, Json)>, c: ChallengeView, stamp: Seq<char>) -> bool {
    &&& es.len() == 7 + c.extra_fields.len()
    &&& es[0].0@ == "id"@ && es[0].1 is Str && es[0].1->Str_0@ == c.id
    &&& es[1].0@ == "user"@ && es[1].1 is Str && es[1].1->Str_0@ == c.user
    &&& es[2].0@ == "type"@ && es[2].1 is Str && es[2].1->Str_0@ == type_token(c.challenge_type)
    &&& es[3].0@ == "status"@ && es[3].1 is Str && es[3].1->Str_0@ == status_token(c.status)
    &&& es[4].0@ == "remaining_attempts"@ && es[4].1 == Json::Int(c.remaining_attempts as i64)
    &&& es[5].0@ == "remaining_retries"@ && es[5].1 == Json::Int(c.remaining_retries as i64)
    &&& es[6].0@ == "expires_at"@ && es[6].1 is Str && es[6].1->Str_0@ == stamp
    &&& es.subrange(7, es.len() as int) == c.extra_fields
}

impl Challenge {
    /// No overflow member bears a name that the model reads.
    pub open spec fn wf(&self) -> bool {
        overflow_ok(self.extra_fields@)
    }

    /// Reads a challenge from the members of a JSON object.
    pub fn from_members(es: Vec<(String, Json)>) -> (r: Result<Challenge, RobinhoodError>)
        ensures
            r is Ok <==> challenge_of_members(es@) is Some,
            r is Ok ==> challenge_of_members(es@) == Some(r->Ok_0@) && r->Ok_0.wf(),
            r is Err ==> r->Err_0.kind() == ErrorKind::Deserialization && r->Err_0.is_marked(),
    {
        let ghost all = es@;
        let names: Vec<&'static str> = vec![
            "id",
            "user",
            "type",
            "status",
            "remaining_attempts",
            "remaining_retries",
            "expires_at",
        ];
        proof {
            lemma_challenge_keys_distinct();
            assert(names@ =~= challenge_names());
            assert(distinct_names(names@));
        }
        let (slots, extra) = split_members(es, &names);
        proof {
            let p1 = |e: (String, Json)| !is_named(names@, e.0@);
            let p2 = |e: (String, Json)| not_challenge_member(e);
            assert forall|e: (String, Json)| #[trigger] p1(e) == p2(e) by {
                if is_named(names@, e.0@) {
                    let j = choose|j: int| 0 <= j < names@.len() && (#[trigger] names@[j])@ == e.0@;
                    assert(is_challenge_key(e.0@));
                }
                if is_challenge_key(e.0@) {
                    if e.0@ == "id"@ { assert(names@[0]@ == e.0@); }
                    if e.0@ == "user"@ { assert(names@[1]@ == e.0@); }
                    if e.0@ == "type"@ { assert(names@[2]@ == e.0@); }
                    if e.0@ == "status"@ { assert(names@[3]@ == e.0@); }
                    if e.0@ == "remaining_attempts"@ { assert(names@[4]@ == e.0@); }
                    if e.0@ == "remaining_retries"@ { assert(names@[5]@ == e.0@); }
                    if e.0@ == "expires_at"@ { assert(names@[6]@ == e.0@); }
                }
            }
            assert(p1 =~= p2);
            broadcast use vstd::seq_lib::group_filter_ensures;
        }
        let ghost sl = slots@;
        let mut slots = slots;
        let expires = take_last(&mut slots);
        let retries = take_last(&mut slots);
        let attempts = take_last(&mut slots);
        let status = take_last(&mut slots);
        let ty = take_last(&mut slots);
        let user = take_last(&mut slots);
        let id = take_last(&mut slots);
        proof {
            assert(sl[0] == field(all, names@[0]@));
            assert(sl[1] == field(all, names@[1]@));
            assert(sl[2] == field(all, names@[2]@));
            assert(sl[3] == field(all, names@[3]@));
            assert(sl[4] == field(all, names@[4]@));
            assert(sl[5] == field(all, names@[5]@));
            assert(sl[6] == field(all, names@[6]@));
        }
        if !distinct_keys(&extra) {
            return Err(malformed("duplicate member"));
        }
        let id = match id {
            Some(Json::Str(s)) => s,
            _ => { return Err(malformed("id")); },
        };
        let user = match user {
            Some(Json::Str(s)) => s,
            _ => { return Err(malformed("user")); },
        };
        let challenge_type = match ty {
            Some(Json::Str(s)) => match ChallengeType::from_token(&s) {
                Some(t) => t,
                None => { return Err(malformed("type")); },
            },
            _ => { return Err(malformed("type")); },
        };
        let status = match status {
            Some(Json::Str(s)) => match ChallengeStatus::from_token(&s) {
                Some(t) => t,
                None => { return Err(malformed("status")); },
            },
            _ => { return Err(malformed("status")); },
        };
        let remaining_attempts = match read_count(attempts) {
            Some(n) => n,
            None => { return Err(malformed("remaining_attempts")); },
        };
        let remaining_retries = match read_count(retries) {
            Some(n) => n,
            None => { return Err(malformed("remaining_retries")); },
        };
        let expires_at = match expires {
            Some(Json::Str(s)) => match Timestamp::parse_rfc3339(s.as_str()) {
                Ok(t) => t,
                Err(_) => { return Err(malformed("expires_at")); },
            },
            _ => { return Err(malformed("expires_at")); },
        };
        Ok(Challenge {
            id,
            user,
            challenge_type,
            status,
            remaining_attempts,
            remaining_retries,
            expires_at,
            extra_fields: extra,
        })
    }

    /// Writes the challenge as indented JSON text.
    pub fn to_json_text(self) -> (r: Result<String, RobinhoodError>)
        ensures
            r is Ok <==> rfc3339_text(self.expires_at) is Some,
            r is Ok ==> rfc3339_text(self.expires_at) is Some && exists|es: Vec<(String, Json)>|
                challenge_members(es@, self@, rfc3339_text(self.expires_at)->Some_0)
                    && r->Ok_0@ == pretty_json_text(Json::Object(es)),
            r is Err ==> r->Err_0.kind() == ErrorKind::Serialization && r->Err_0.is_marked(),
    {
        let j = match self.to_json() {
            Ok(j) => j,
            Err(e) => { return Err(e); },
        };
        match write_json_text(&j) {
            Ok(s) => Ok(s),
            Err(_) => Err(RobinhoodError::with_kind(ErrorKind::Serialization, "challenge")),
        }
    }

    /// Reads a challenge from a JSON value.
    pub fn from_json(j: Json) -> (r: Result<Challenge, RobinhoodError>)
        ensures
            r is Ok <==> challenge_of_json(j) is Some,
            r is Ok ==> challenge_of_json(j) == Some(r->Ok_0@) && r->Ok_0.wf(),
            r is Err ==> r->Err_0.kind() == ErrorKind::Deserialization && r->Err_0.is_marked(),
    {
        match j {
            Json::Object(es) => Self::from_members(es),
            _ => Err(RobinhoodError::with_kind(ErrorKind::Deserialization, "a challenge must be an object")),
        }
    }

    /// Reads a challenge from JSON text.
    pub fn from_json_text(t: &str) -> (r: Result<Challenge, RobinhoodError>)
        ensures
            r is Ok <==> (parsed_json_text(t@) is Some && challenge_of_json(
                parsed_json_text(t@)->Some_0,
            ) is Some),
            r is Ok ==> challenge_of_json(parsed_json_text(t@)->Some_0) == Some(r->Ok_0@),
            r is Err ==> r->Err_0.kind() == ErrorKind::Deserialization && r->Err_0.is_marked(),
    {
        match parse_json_text(t) {
            Ok(j) => Self::from_json(j),
            Err(_) => Err(RobinhoodError::with_kind(ErrorKind::Deserialization, "not JSON")),
        }
    }

    /// Writes the challenge as a JSON value: the modelled members in order,
    /// then the others; fails only where the timestamp cannot be written.
    pub fn to_json(self) -> (r: Result<Json, RobinhoodError>)
        ensures
            r is Ok <==> rfc3339_text(self.expires_at) is Some,
            r is Ok ==> r->Ok_0 is Object && challenge_members(
                r->Ok_0->Object_0@,
                self@,
                rfc3339_text(self.expires_at)->Some_0,
            ),
            r is Err ==> r->Err_0.kind() == ErrorKind::Serialization && r->Err_0.is_marked(),
    {
        let stamp = match self.expires_at.to_rfc3339() {
            Some(s) => s,
            None => {
                return Err(RobinhoodError::with_kind(ErrorKind::Serialization, "timestamp out of range"));
            },
        };
        let ghost extra = self.extra_fields@;
        let mut es: Vec<(String, Json)> = Vec::new();
        es.push(member("id", Json::Str(self.id)));
        es.push(member("user", Json::Str(self.user)));
        es.push(member("type", text(self.challenge_type.token())));
        es.push(member("status", text(self.status.token())));
        es.push(member("remaining_attempts", Json::Int(self.remaining_attempts as i64)));
        es.push(member("remaining_retries", Json::Int(self.remaining_retries as i64)));
        es.push(member("expires_at", Json::Str(stamp)));
        let mut rest = self.extra_fields;
        es.append(&mut rest);
        proof {
            assert(es@.subrange(7, es@.len() as int) =~= extra);
        }
        Ok(Json::Object(es))
    }
}

/// Writing a well-formed challenge out and reading it back gives the same
/// challenge, overflow members included, wherever chrono reads the written
/// timestamp back as the same instant.
pub proof fn lemma_challenge_round_trip(c: ChallengeView, es: Seq<(String, Json)>, stamp: Seq<char>)
    requires
        overflow_ok(c.extra_fields),
        challenge_members(es, c, stamp),
        rfc3339_instant(stamp) == Some(c.expires_at),
    ensures
        challenge_of_members(es) == Some(c),
{
    let head = es.subrange(0, 7);
    let extra = c.extra_fields;
    let pred = |e: (String, Json)| not_challenge_member(e);
    assert(es =~= head + extra);
    lemma_challenge_keys_distinct();
    lemma_type_token_round_trip(c.challenge_type);
    lemma_status_token_round_trip(c.status);
    let keys = seq!["id"@, "user"@, "type"@, "status"@, "remaining_attempts"@, "remaining_retries"@, "expires_at"@];
    assert forall|j: int| 0 <= j < 7 implies field(es, #[trigger] keys[j]) == Some(head[j].1) by {
        assert forall|i: int| 0 <= i < extra.len() implies (#[trigger] extra[i]).0@ != keys[j] by {
            assert(not_challenge_member(extra[i]));
        }
        lemma_field_absent(extra, keys[j]);
        lemma_field_append(head, extra, keys[j]);
        reveal_with_fuel(field, 8);
    }
    assert(field(es, "id"@) == Some(head[0].1)) by { assert(keys[0] == "id"@); }
    assert(field(es, "user"@) == Some(head[1].1)) by { assert(keys[1] == "user"@); }
    assert(field(es, "type"@) == Some(head[2].1)) by { assert(keys[2] == "type"@); }
    assert(field(es, "status"@) == Some(head[3].1)) by { assert(keys[3] == "status"@); }
    assert(field(es, "remaining_attempts"@) == Some(head[4].1)) by { assert(keys[4] == "remaining_attempts"@); }
    assert(field(es, "remaining_retries"@) == Some(head[5].1)) by { assert(keys[5] == "remaining_retries"@); }
    assert(field(es, "expires_at"@) == Some(head[6].1)) by { assert(keys[6] == "expires_at"@); }
    Seq::filter_distributes_over_add(head, extra, pred);
    lemma_filter_none(head, pred);
    lemma_filter_all(extra, pred);
    assert(head.filter(pred) + extra.filter(pred) =~= extra);
}

/// The caller's answer to a challenge: the code it received.
#[derive(Debug, PartialEq)]
pub struct ChallengeResponse {
    pub response: String,
}

impl ChallengeResponse {
    pub fn new(response: String) -> (r: Self)
        ensures
            r.response@ == response@,
    {
        ChallengeResponse { response }
    }

    /// Writes the answer as a JSON object with the one member `response`.
    pub fn to_json(self) -> (r: Json)
        ensures
            r is Object && r->Object_0@.len() == 1 && r->Object_0@[0].0@ == "response"@
                && r->Object_0@[0].1 is Str && r->Object_0@[0].1->Str_0@ == self.response@,
    {
        let mut es: Vec<(String, Json)> = Vec::new();
        es.push(member("response", Json::Str(self.response)));
        Json::Object(es)
    }

    /// Writes the answer as indented JSON text.
    pub fn to_json_text(self) -> (r: Result<String, RobinhoodError>)
        ensures
            r is Ok,
            r is Ok ==> exists|j: Json|
                j is Object && j->Object_0@.len() == 1 && j->Object_0@[0].0@ == "response"@
                    && j->Object_0@[0].1 is Str && j->Object_0@[0].1->Str_0@ == self.response@
                    && r->Ok_0@ == pretty_json_text(j),
            r is Err ==> r->Err_0.kind() == ErrorKind::Serialization && r->Err_0.is_marked(),
    {
        let j = self.to_json();
        match write_json_text(&j) {
            Ok(s) => Ok(s),
            Err(_) => Err(RobinhoodError::with_kind(ErrorKind::Serialization, "challenge response")),
        }
    }

    /// Reads an answer from a JSON value: an object with a string member
    /// `response`; other members are ignored.
    pub fn from_json(j: Json) -> (r: Result<ChallengeResponse, RobinhoodError>)
        ensures
            r is Ok <==> (j is Object && string_member(j->Object_0@, "response"@) is Some),
            r is Ok ==> r->Ok_0.response@ == string_member(j->Object_0@, "response"@)->Some_0,
            r is Err ==> r->Err_0.kind() == ErrorKind::Deserialization && r->Err_0.is_marked(),
    {
        match j {
            Json::Object(es) => {
                let ghost all = es@;
                let names: Vec<&'static str> = vec!["response"];
                proof {
                    assert(names@ =~= seq!["response"]);
                }
                let (slots, _) = split_members(es, &names);
                let mut slots = slots;
                proof {
                    assert(slots@[0] == field(all, names@[0]@));
                }
                match read_string(take_last(&mut slots)) {
                    Some(response) => Ok(ChallengeResponse { response }),
                    None => Err(malformed("response")),
                }
            },
            _ => Err(malformed("challenge response")),
        }
    }
}

/// Writing an answer out and reading it back gives the same code.
pub proof fn lemma_challenge_response_round_trip(es: Seq<(String, Json)>, code: Seq<char>)
    requires
        es.len() == 1,
        es[0].0@ == "response"@,
        es[0].1 is Str,
        es[0].1->Str_0@ == code,
    ensures
        string_member(es, "response"@) == Some(code),
{
    assert(es.drop_last().len() == 0);
}

/// The header that tells the server which challenge is being answered: its
/// name, and the challenge's id as its value.
pub fn challenge_response_headers(challenge: &Challenge) -> (r: (String, String))
    ensures
        r.0@ == CHALLENGE_RESPONSE_HEADER@,
        r.1@ == challenge.id@,
{
    (CHALLENGE_RESPONSE_HEADER.to_owned(), challenge.id.clone())
}

/// A challenge without `remaining_attempts` or `remaining_retries` reads
/// both as 0, and their absence alone never makes it unreadable.
pub proof fn lemma_missing_counts_default(es: Seq<(String, Json)>)
    requires
        field(es, "remaining_attempts"@) is None,
        field(es, "remaining_retries"@) is None,
    ensures
        challenge_of_members(es) is Some <==> (string_member(es, "id"@) is Some && string_member(
            es,
            "user"@,
        ) is Some && string_member(es, "type"@) is Some && type_of_token(
            string_member(es, "type"@)->Some_0,
        ) is Some && string_member(es, "status"@) is Some && status_of_token(
            string_member(es, "status"@)->Some_0,
        ) is Some && string_member(es, "expires_at"@) is Some && rfc3339_instant(
            string_member(es, "expires_at"@)->Some_0,
        ) is Some && keys_distinct(es.filter(|e: (String, Json)| not_challenge_member(e)))),
        challenge_of_members(es) is Some ==> challenge_of_members(es)->Some_0.remaining_attempts
            == 0 && challenge_of_members(es)->Some_0.remaining_retries == 0,
{
}

/// An error for a member that is missing or malformed.
fn malformed(key: &str) -> (r: RobinhoodError)
    ensures
        r.kind() == ErrorKind::Deserialization,
        r.is_marked(),
{
    RobinhoodError::with_kind(ErrorKind::Deserialization, key)
}

/// Reads a count that defaults to 0.
fn read_count(j: Option<Json>) -> (r: Option<i32>)
    ensures
        forall|es: Seq<(String, Json)>, k: Seq<char>| field(es, k) == j ==> r == count_member(es, k),
{
    match j {
        None => Some(0),
        Some(Json::Int(n)) => if i32::MIN as i64 <= n && n <= i32::MAX as i64 {
            Some(n as i32)
        } else {
            None
        },
        _ => None,
    }
}

} // verus!
