use crate::error::{ErrorKind, RobinhoodError};
use crate::json::{
    compact_json_text, distinct_keys, distinct_names, field, flag_member, int_member, is_named, lemma_field_absent,
    lemma_field_append, lemma_filter_all, lemma_filter_none, member, opt_view,
    optional_string_member, parse_json_text, parsed_json_text, pretty_json_text, read_flag,
    read_int, read_optional_string, read_string, split_members, string_member, take_last, text,
    keys_distinct, lemma_fields_in_order, write_compact_json_text, write_json_text, Json,
};
use crate::session::challenge::{
    challenge_members, challenge_of_json, lemma_challenge_round_trip, lemma_type_token_round_trip,
    overflow_ok, type_of_token, type_token, Challenge, ChallengeType, ChallengeView,
};
use crate::time::{rfc3339_instant, rfc3339_text};
use vstd::prelude::*;

verus! {

/// Identifies this client application to the server.
pub const CLIENT_ID: &'static str = "c82SH0WZOsabOXGP2sxqcj34FxkvfnWRZBKlBjFS";

/// Requested token lifetime, in seconds.
pub const EXPIRATION_TIME: i64 = 734000;

/// Grant type of a login.
pub const PASSWORD_GRANT: &'static str = "password";

/// Grant type of a refresh.
pub const REFRESH_GRANT: &'static str = "refresh_token";

/// Requested access scope.
pub const SCOPE: &'static str = "internal";

/// Member `i` of `es` is named `key` and holds the string `val`.
pub open spec fn str_at(es: Seq<(String, Json)>, i: int, key: Seq<char>, val: Seq<char>) -> bool {
    es[i].0@ == key && es[i].1 is Str && es[i].1->Str_0@ == val
}

/// Payload of a login, first without and then with an MFA code.
#[derive(Clone, Debug, PartialEq)]
pub struct OAuthLoginRequest {
    pub challenge_type: ChallengeType,
    pub client_id: String,
    pub device_token: String,
    pub expires_in: i64,
    pub grant_type: String,
    pub mfa_code: Option<String>,
    pub password: String,
    pub scope: String,
    pub username: String,
}

/// A login request as plain values.
pub struct LoginRequestView {
    pub challenge_type: ChallengeType,
    pub client_id: Seq<char>,
    pub device_token: Seq<char>,
    pub expires_in: i64,
    pub grant_type: Seq<char>,
    pub mfa_code: Option<Seq<char>>,
    pub password: Seq<char>,
    pub scope: Seq<char>,
    pub username: Seq<char>,
}

impl View for OAuthLoginRequest {
    type V = LoginRequestView;

    open spec fn view(&self) -> LoginRequestView {
        LoginRequestView {
            challenge_type: self.challenge_type,
            client_id: self.client_id@,
            device_token: self.device_token@,
            expires_in: self.expires_in,
            grant_type: self.grant_type@,
            mfa_code: opt_view(self.mfa_code),
            password: self.password@,
            scope: self.scope@,
            username: self.username@,
        }
    }
}

/// The first login request of a session: fixed members from the constants,
/// no MFA code.
pub fn login_request(
    username: &str,
    password: &str,
    challenge_type: ChallengeType,
    device_token: &str,
) -> (r: OAuthLoginRequest)
    ensures
        r@ == (LoginRequestView {
            challenge_type,
            client_id: CLIENT_ID@,
            device_token: device_token@,
            expires_in: EXPIRATION_TIME,
            grant_type: PASSWORD_GRANT@,
            mfa_code: None,
            password: password@,
            scope: SCOPE@,
            username: username@,
        }),
{
    OAuthLoginRequest {
        challenge_type,
        client_id: CLIENT_ID.to_owned(),
        device_token: device_token.to_owned(),
        expires_in: EXPIRATION_TIME,
        grant_type: PASSWORD_GRANT.to_owned(),
        mfa_code: None,
        password: password.to_owned(),
        scope: SCOPE.to_owned(),
        username: username.to_owned(),
    }
}

/// The same login request, now carrying `mfa_code`.
pub fn mfa_request(mfa_code: String, request: OAuthLoginRequest) -> (r: OAuthLoginRequest)
    ensures
        r@ == (LoginRequestView { mfa_code: Some(mfa_code@), ..request@ }),
{
    OAuthLoginRequest { mfa_code: Some(mfa_code), ..request }
}

/// The members of the JSON value written for a login request (the text that
/// serde_json makes of it is sorted by name): the fixed ones in order, then
/// `mfa_code` when there is one.
pub open spec fn login_members(es: Seq<(String, Json)>, v: LoginRequestView) -> bool {
    &&& es.len() == (if v.mfa_code is Some { 9int } else { 8int })
    &&& str_at(es, 0, "challenge_type"@, type_token(v.challenge_type))
    &&& str_at(es, 1, "client_id"@, v.client_id)
    &&& str_at(es, 2, "device_token"@, v.device_token)
    &&& es[3].0@ == "expires_in"@ && es[3].1 == Json::Int(v.expires_in)
    &&& str_at(es, 4, "grant_type"@, v.grant_type)
    &&& str_at(es, 5, "password"@, v.password)
    &&& str_at(es, 6, "scope"@, v.scope)
    &&& str_at(es, 7, "username"@, v.username)
    &&& v.mfa_code is Some ==> str_at(es, 8, "mfa_code"@, v.mfa_code->Some_0)
}

/// The login request that the members of an object describe, if they do;
/// other members are ignored.
pub open spec fn login_of_members(es: Seq<(String, Json)>) -> Option<LoginRequestView> {
    let ty = string_member(es, "challenge_type"@);
    if ty is Some && type_of_token(ty->Some_0) is Some && string_member(es, "client_id"@) is Some
        && string_member(es, "device_token"@) is Some && int_member(es, "expires_in"@) is Some
        && string_member(es, "grant_type"@) is Some && optional_string_member(es, "mfa_code"@) is Some
        && string_member(es, "password"@) is Some && string_member(es, "scope"@) is Some && string_member(es, "username"@) is Some {
        Some(
            LoginRequestView {
                challenge_type: type_of_token(ty->Some_0)->Some_0,
                client_id: string_member(es, "client_id"@)->Some_0,
                device_token: string_member(es, "device_token"@)->Some_0,
                expires_in: int_member(es, "expires_in"@)->Some_0,
                grant_type: string_member(es, "grant_type"@)->Some_0,
                mfa_code: optional_string_member(es, "mfa_code"@)->Some_0,
                password: string_member(es, "password"@)->Some_0,
                scope: string_member(es, "scope"@)->Some_0,
                username: string_member(es, "username"@)->Some_0,
            },
        )
    } else {
        None
    }
}

/// The login request that a JSON value describes, if it does.
pub open spec fn login_of_json(j: Json) -> Option<LoginRequestView> {
    match j {
        Json::Object(es) => login_of_members(es@),
        _ => None,
    }
}

/// The member names of a login request, in the order they are written.
pub open spec fn login_names() -> Seq<&'static str> {
    seq![
        "challenge_type",
        "client_id",
        "device_token",
        "expires_in",
        "grant_type",
        "password",
        "scope",
        "username",
        "mfa_code",
    ]
}

/// The member names of a login request differ from one another.
pub proof fn lemma_login_keys()
    ensures
        distinct_names(login_names()),
{
    reveal_strlit("challenge_type");
    reveal_strlit("client_id");
    reveal_strlit("device_token");
    reveal_strlit("expires_in");
    reveal_strlit("grant_type");
    reveal_strlit("mfa_code");
    reveal_strlit("password");
    reveal_strlit("scope");
    reveal_strlit("username");
    let names = login_names();
    assert forall|i: int, j: int|
        0 <= i < names.len() && 0 <= j < names.len() && i != j implies (#[trigger] names[i])@
        != (#[trigger] names[j])@ by {
        assert(names[i]@[0] != names[j]@[0] || names[i]@.len() != names[j]@.len());
    }
}

impl OAuthLoginRequest {
    /// Writes the request as compact JSON text, the body sent to the server.
    pub fn to_json_body(self) -> (r: String)
        ensures
            exists|es: Vec<(String, Json)>|
                login_members(es@, self@) && r@ == compact_json_text(Json::Object(es)),
    {
        let j = self.to_json();
        match write_compact_json_text(&j) {
            Ok(s) => s,
            Err(_) => String::new(),
        }
    }
}

impl OAuthLoginRequest {
    /// Writes the request as a JSON object; `mfa_code` only when present.
    pub fn to_json(self) -> (r: Json)
        ensures
            r is Object && login_members(r->Object_0@, self@),
    {
        let mut es: Vec<(String, Json)> = Vec::new();
        es.push(member("challenge_type", text(self.challenge_type.token())));
        es.push(member("client_id", Json::Str(self.client_id)));
        es.push(member("device_token", Json::Str(self.device_token)));
        es.push(member("expires_in", Json::Int(self.expires_in)));
        es.push(member("grant_type", Json::Str(self.grant_type)));
        es.push(member("password", Json::Str(self.password)));
        es.push(member("scope", Json::Str(self.scope)));
        es.push(member("username", Json::Str(self.username)));
        match self.mfa_code {
            Some(code) => es.push(member("mfa_code", Json::Str(code))),
            None => {},
        }
        Json::Object(es)
    }

    /// Writes the request as indented JSON text.
    pub fn to_json_text(self) -> (r: Result<String, RobinhoodError>)
        ensures
            r is Ok,
            r is Ok ==> exists|es: Vec<(String, Json)>|
                login_members(es@, self@) && r->Ok_0@ == pretty_json_text(Json::Object(es)),
            r is Err ==> r->Err_0.kind() == ErrorKind::Serialization && r->Err_0.is_marked(),
    {
        let j = self.to_json();
        match write_json_text(&j) {
            Ok(s) => Ok(s),
            Err(_) => Err(RobinhoodError::with_kind(ErrorKind::Serialization, "login request")),
        }
    }

    /// Reads a login request from the members of a JSON object.
    pub fn from_members(es: Vec<(String, Json)>) -> (r: Result<OAuthLoginRequest, RobinhoodError>)
        ensures
            r is Ok <==> login_of_members(es@) is Some,
            r is Ok ==> login_of_members(es@) == Some(r->Ok_0@),
            r is Err ==> r->Err_0.kind() == ErrorKind::Deserialization && r->Err_0.is_marked(),
    {
        let ghost all = es@;
        let names: Vec<&'static str> = vec![
            "challenge_type",
            "client_id",
            "device_token",
            "expires_in",
            "grant_type",
            "password",
            "scope",
            "username",
            "mfa_code",
        ];
        proof {
            lemma_login_keys();
            assert(names@ =~= login_names());
        }
        let (slots, _) = split_members(es, &names);
        let ghost s = slots@;
        let mut slots = slots;
        let mfa_code = read_optional_string(take_last(&mut slots));
        let username = read_string(take_last(&mut slots));
        let scope = read_string(take_last(&mut slots));
        let password = read_string(take_last(&mut slots));
        let grant_type = read_string(take_last(&mut slots));
        let expires_in = read_int(take_last(&mut slots));
        let device_token = read_string(take_last(&mut slots));
        let client_id = read_string(take_last(&mut slots));
        let ty = read_string(take_last(&mut slots));
        proof {
            assert(s[0] == field(all, names@[0]@));
            assert(s[1] == field(all, names@[1]@));
            assert(s[2] == field(all, names@[2]@));
            assert(s[3] == field(all, names@[3]@));
            assert(s[4] == field(all, names@[4]@));
            assert(s[5] == field(all, names@[5]@));
            assert(s[6] == field(all, names@[6]@));
            assert(s[7] == field(all, names@[7]@));
            assert(s[8] == field(all, names@[8]@));
        }
        let challenge_type = match ty {
            Some(t) => match ChallengeType::from_token(&t) {
                Some(c) => c,
                None => { return Err(bad_member("challenge_type")); },
            },
            None => { return Err(bad_member("challenge_type")); },
        };
        match (client_id, device_token, expires_in, grant_type, mfa_code, password, scope, username) {
            (
                Some(client_id),
                Some(device_token),
                Some(expires_in),
                Some(grant_type),
                Some(mfa_code),
                Some(password),
                Some(scope),
                Some(username),
            ) => Ok(OAuthLoginRequest {
                challenge_type,
                client_id,
                device_token,
                expires_in,
                grant_type,
                mfa_code,
                password,
                scope,
                username,
            }),
            _ => Err(bad_member("login request")),
        }
    }
}

impl OAuthLoginRequest {
    /// Reads a login request from a JSON value.
    pub fn from_json(j: Json) -> (r: Result<OAuthLoginRequest, RobinhoodError>)
        ensures
            r is Ok <==> login_of_json(j) is Some,
            r is Ok ==> login_of_json(j) == Some(r->Ok_0@),
            r is Err ==> r->Err_0.kind() == ErrorKind::Deserialization && r->Err_0.is_marked(),
    {
        match j {
            Json::Object(es) => Self::from_members(es),
            _ => Err(bad_member("login request")),
        }
    }

    /// Reads a login request from JSON text.
    pub fn from_json_text(t: &str) -> (r: Result<OAuthLoginRequest, RobinhoodError>)
        ensures
            r is Ok <==> (parsed_json_text(t@) is Some && login_of_json(parsed_json_text(t@)->Some_0) is Some),
            r is Ok ==> login_of_json(parsed_json_text(t@)->Some_0) == Some(r->Ok_0@),
            r is Err ==> r->Err_0.kind() == ErrorKind::Deserialization && r->Err_0.is_marked(),
    {
        match parse_json_text(t) {
            Ok(j) => Self::from_json(j),
            Err(_) => Err(bad_member("not JSON")),
        }
    }
}

/// Writing a login request out and reading it back gives the same request.
pub proof fn lemma_login_round_trip(v: LoginRequestView, es: Seq<(String, Json)>)
    requires
        login_members(es, v),
    ensures
        login_of_members(es) == Some(v),
{
    let names = login_names();
    lemma_login_keys();
    lemma_type_token_round_trip(v.challenge_type);
    lemma_fields_in_order(es, names);
    assert(field(es, "challenge_type"@) == Some(es[0].1)) by { assert(names[0]@ == "challenge_type"@); }
    assert(field(es, "client_id"@) == Some(es[1].1)) by { assert(names[1]@ == "client_id"@); }
    assert(field(es, "device_token"@) == Some(es[2].1)) by { assert(names[2]@ == "device_token"@); }
    assert(field(es, "expires_in"@) == Some(es[3].1)) by { assert(names[3]@ == "expires_in"@); }
    assert(field(es, "grant_type"@) == Some(es[4].1)) by { assert(names[4]@ == "grant_type"@); }
    assert(field(es, "password"@) == Some(es[5].1)) by { assert(names[5]@ == "password"@); }
    assert(field(es, "scope"@) == Some(es[6].1)) by { assert(names[6]@ == "scope"@); }
    assert(field(es, "username"@) == Some(es[7].1)) by { assert(names[7]@ == "username"@); }
    assert(names[8]@ == "mfa_code"@);
}

/// Payload of a token refresh.
#[derive(Debug, PartialEq)]
pub struct OAuthRefreshRequest {
    pub client_id: String,
    pub expires_in: i64,
    pub grant_type: String,
    pub refresh_token: String,
    pub scope: String,
}

/// A refresh request as plain values.
pub struct RefreshRequestView {
    pub client_id: Seq<char>,
    pub expires_in: i64,
    pub grant_type: Seq<char>,
    pub refresh_token: Seq<char>,
    pub scope: Seq<char>,
}

impl View for OAuthRefreshRequest {
    type V = RefreshRequestView;

    open spec fn view(&self) -> RefreshRequestView {
        RefreshRequestView {
            client_id: self.client_id@,
            expires_in: self.expires_in,
            grant_type: self.grant_type@,
            refresh_token: self.refresh_token@,
            scope: self.scope@,
        }
    }
}

/// The request that renews an access token with `refresh_token`.
pub fn refresh_request(refresh_token: &str) -> (r: OAuthRefreshRequest)
    ensures
        r@ == (RefreshRequestView {
            client_id: CLIENT_ID@,
            expires_in: EXPIRATION_TIME,
            grant_type: REFRESH_GRANT@,
            refresh_token: refresh_token@,
            scope: SCOPE@,
        }),
{
    OAuthRefreshRequest {
        client_id: CLIENT_ID.to_owned(),
        expires_in: EXPIRATION_TIME,
        grant_type: REFRESH_GRANT.to_owned(),
        refresh_token: refresh_token.to_owned(),
        scope: SCOPE.to_owned(),
    }
}

/// The members of the JSON value written for a refresh request, in order
/// (the text that serde_json makes of it is sorted by name).
pub open spec fn refresh_members(es: Seq<(String, Json)>, v: RefreshRequestView) -> bool {
    &&& es.len() == 5
    &&& str_at(es, 0, "client_id"@, v.client_id)
    &&& es[1].0@ == "expires_in"@ && es[1].1 == Json::Int(v.expires_in)
    &&& str_at(es, 2, "grant_type"@, v.grant_type)
    &&& str_at(es, 3, "refresh_token"@, v.refresh_token)
    &&& str_at(es, 4, "scope"@, v.scope)
}

/// The refresh request that the members of an object describe, if they do;
/// other members are ignored.
pub open spec fn refresh_of_members(es: Seq<(String, Json)>) -> Option<RefreshRequestView> {
    if string_member(es, "client_id"@) is Some && int_member(es, "expires_in"@) is Some
        && string_member(es, "grant_type"@) is Some && string_member(es, "refresh_token"@) is Some
        && string_member(es, "scope"@) is Some {
        Some(
            RefreshRequestView {
                client_id: string_member(es, "client_id"@)->Some_0,
                expires_in: int_member(es, "expires_in"@)->Some_0,
                grant_type: string_member(es, "grant_type"@)->Some_0,
                refresh_token: string_member(es, "refresh_token"@)->Some_0,
                scope: string_member(es, "scope"@)->Some_0,
            },
        )
    } else {
        None
    }
}

/// The refresh request that a JSON value describes, if it does.
pub open spec fn refresh_of_json(j: Json) -> Option<RefreshRequestView> {
    match j {
        Json::Object(es) => refresh_of_members(es@),
        _ => None,
    }
}

/// Spells out the member names of a refresh request.
pub proof fn lemma_refresh_keys()
    ensures
        distinct_names(seq!["client_id", "expires_in", "grant_type", "refresh_token", "scope"]),
{
    reveal_strlit("client_id");
    reveal_strlit("expires_in");
    reveal_strlit("grant_type");
    reveal_strlit("refresh_token");
    reveal_strlit("scope");
    let names = seq!["client_id", "expires_in", "grant_type", "refresh_token", "scope"];
    assert forall|i: int, j: int|
        0 <= i < names.len() && 0 <= j < names.len() && i != j implies (#[trigger] names[i])@
        != (#[trigger] names[j])@ by {
        assert(names[i]@[0] != names[j]@[0]);
    }
}

impl OAuthRefreshRequest {
    /// Writes the request as compact JSON text, the body sent to the server.
    pub fn to_json_body(self) -> (r: String)
        ensures
            exists|es: Vec<(String, Json)>|
                refresh_members(es@, self@) && r@ == compact_json_text(Json::Object(es)),
    {
        let j = self.to_json();
        match write_compact_json_text(&j) {
            Ok(s) => s,
            Err(_) => String::new(),
        }
    }
}

impl OAuthRefreshRequest {
    /// Writes the request as a JSON object.
    pub fn to_json(self) -> (r: Json)
        ensures
            r is Object && refresh_members(r->Object_0@, self@),
    {
        let mut es: Vec<(String, Json)> = Vec::new();
        es.push(member("client_id", Json::Str(self.client_id)));
        es.push(member("expires_in", Json::Int(self.expires_in)));
        es.push(member("grant_type", Json::Str(self.grant_type)));
        es.push(member("refresh_token", Json::Str(self.refresh_token)));
        es.push(member("scope", Json::Str(self.scope)));
        Json::Object(es)
    }

    /// Writes the request as indented JSON text.
    pub fn to_json_text(self) -> (r: Result<String, RobinhoodError>)
        ensures
            r is Ok,
            r is Ok ==> exists|es: Vec<(String, Json)>|
                refresh_members(es@, self@) && r->Ok_0@ == pretty_json_text(Json::Object(es)),
            r is Err ==> r->Err_0.kind() == ErrorKind::Serialization && r->Err_0.is_marked(),
    {
        let j = self.to_json();
        match write_json_text(&j) {
            Ok(s) => Ok(s),
            Err(_) => Err(RobinhoodError::with_kind(ErrorKind::Serialization, "refresh request")),
        }
    }

    /// Reads a refresh request from the members of a JSON object.
    pub fn from_members(es: Vec<(String, Json)>) -> (r: Result<OAuthRefreshRequest, RobinhoodError>)
        ensures
            r is Ok <==> refresh_of_members(es@) is Some,
            r is Ok ==> refresh_of_members(es@) == Some(r->Ok_0@),
            r is Err ==> r->Err_0.kind() == ErrorKind::Deserialization && r->Err_0.is_marked(),
    {
        let ghost all = es@;
        let names: Vec<&'static str> = vec!["client_id", "expires_in", "grant_type", "refresh_token", "scope"];
        proof {
            lemma_refresh_keys();
            assert(names@ =~= seq!["client_id", "expires_in", "grant_type", "refresh_token", "scope"]);
        }
        let (slots, _) = split_members(es, &names);
        let ghost s = slots@;
        let mut slots = slots;
        let scope = read_string(take_last(&mut slots));
        let refresh_token = read_string(take_last(&mut slots));
        let grant_type = read_string(take_last(&mut slots));
        let expires_in = read_int(take_last(&mut slots));
        let client_id = read_string(take_last(&mut slots));
        proof {
            assert(s[0] == field(all, names@[0]@));
            assert(s[1] == field(all, names@[1]@));
            assert(s[2] == field(all, names@[2]@));
            assert(s[3] == field(all, names@[3]@));
            assert(s[4] == field(all, names@[4]@));
        }
        match (client_id, expires_in, grant_type, refresh_token, scope) {
            (Some(client_id), Some(expires_in), Some(grant_type), Some(refresh_token), Some(scope)) => Ok(
                OAuthRefreshRequest { client_id, expires_in, grant_type, refresh_token, scope },
            ),
            _ => Err(bad_member("refresh request")),
        }
    }

    /// Reads a refresh request from a JSON value.
    pub fn from_json(j: Json) -> (r: Result<OAuthRefreshRequest, RobinhoodError>)
        ensures
            r is Ok <==> refresh_of_json(j) is Some,
            r is Ok ==> refresh_of_json(j) == Some(r->Ok_0@),
            r is Err ==> r->Err_0.kind() == ErrorKind::Deserialization && r->Err_0.is_marked(),
    {
        match j {
            Json::Object(es) => Self::from_members(es),
            _ => Err(bad_member("refresh request")),
        }
    }

    /// Reads a refresh request from JSON text.
    pub fn from_json_text(t: &str) -> (r: Result<OAuthRefreshRequest, RobinhoodError>)
        ensures
            r is Ok <==> (parsed_json_text(t@) is Some && refresh_of_json(parsed_json_text(t@)->Some_0) is Some),
            r is Ok ==> refresh_of_json(parsed_json_text(t@)->Some_0) == Some(r->Ok_0@),
            r is Err ==> r->Err_0.kind() == ErrorKind::Deserialization && r->Err_0.is_marked(),
    {
        match parse_json_text(t) {
            Ok(j) => Self::from_json(j),
            Err(_) => Err(bad_member("not JSON")),
        }
    }
}

/// Writing a refresh request out and reading it back gives the same request.
pub proof fn lemma_refresh_round_trip(v: RefreshRequestView, es: Seq<(String, Json)>)
    requires
        refresh_members(es, v),
    ensures
        refresh_of_members(es) == Some(v),
{
    let names = seq!["client_id", "expires_in", "grant_type", "refresh_token", "scope"];
    lemma_refresh_keys();
    lemma_fields_in_order(es, names);
    assert(field(es, "client_id"@) == Some(es[0].1)) by { assert(names[0]@ == "client_id"@); }
    assert(field(es, "expires_in"@) == Some(es[1].1)) by { assert(names[1]@ == "expires_in"@); }
    assert(field(es, "grant_type"@) == Some(es[2].1)) by { assert(names[2]@ == "grant_type"@); }
    assert(field(es, "refresh_token"@) == Some(es[3].1)) by { assert(names[3]@ == "refresh_token"@); }
    assert(field(es, "scope"@) == Some(es[4].1)) by { assert(names[4]@ == "scope"@); }
}

/// The server's answer to a login or a refresh.
#[derive(Debug, PartialEq)]
pub struct OAuthResponse {
    pub detail: String,
    pub challenge: Option<Challenge>,
    pub mfa_required: bool,
    pub access_token: Option<String>,
    pub refresh_token: Option<String>,
    pub expires_in: i64,
    /// Members the model does not name, kept to be written out again.
    pub extra_fields: Vec<(String, Json)>,
}

/// A response as plain values.
pub struct ResponseView {
    pub detail: Seq<char>,
    pub challenge: Option<ChallengeView>,
    pub mfa_required: bool,
    pub access_token: Option<Seq<char>>,
    pub refresh_token: Option<Seq<char>>,
    pub expires_in: i64,
    pub extra_fields: Seq<(String, Json)>,
}

/// The view of an optional challenge.
pub open spec fn challenge_view(c: Option<Challenge>) -> Option<ChallengeView> {
    match c {
        Some(c) => Some(c@),
        None => None,
    }
}

impl View for OAuthResponse {
    type V = ResponseView;

    open spec fn view(&self) -> ResponseView {
        ResponseView {
            detail: self.detail@,
            challenge: challenge_view(self.challenge),
            mfa_required: self.mfa_required,
            access_token: opt_view(self.access_token),
            refresh_token: opt_view(self.refresh_token),
            expires_in: self.expires_in,
            extra_fields: self.extra_fields@,
        }
    }
}

/// The member names that a response models.
pub open spec fn response_names() -> Seq<&'static str> {
    seq!["detail", "challenge", "mfa_required", "access_token", "refresh_token", "expires_in"]
}

/// Keeps the members that a response does not model.
pub open spec fn not_response_member(e: (String, Json)) -> bool {
    !is_named(response_names(), e.0@)
}

/// An optional challenge member: absent or `null` is `Some(None)`; `None`
/// when it is present and no challenge.
pub open spec fn opt_challenge_of(j: Option<Json>) -> Option<Option<ChallengeView>> {
    match j {
        None => Some(None),
        Some(Json::Null) => Some(None),
        Some(j) => match challenge_of_json(j) {
            Some(c) => Some(Some(c)),
            None => None,
        },
    }
}

/// The response that the members of an object describe, if they do.
pub open spec fn response_of_members(es: Seq<(String, Json)>) -> Option<ResponseView> {
    let detail = string_member(es, "detail"@);
    let challenge = opt_challenge_of(field(es, "challenge"@));
    let mfa = flag_member(es, "mfa_required"@);
    let access = optional_string_member(es, "access_token"@);
    let refresh = optional_string_member(es, "refresh_token"@);
    let expires = int_member(es, "expires_in"@);
    if detail is Some && challenge is Some && mfa is Some && access is Some && refresh is Some
        && expires is Some && keys_distinct(es.filter(|e: (String, Json)| not_response_member(e))) {
        Some(
            ResponseView {
                detail: detail->Some_0,
                challenge: challenge->Some_0,
                mfa_required: mfa->Some_0,
                access_token: access->Some_0,
                refresh_token: refresh->Some_0,
                expires_in: expires->Some_0,
                extra_fields: es.filter(|e: (String, Json)| not_response_member(e)),
            },
        )
    } else {
        None
    }
}

/// The response that a JSON value describes, if it does.
pub open spec fn response_of_json(j: Json) -> Option<ResponseView> {
    match j {
        Json::Object(es) => response_of_members(es@),
        _ => None,
    }
}

/// The response that serde_json and this model read from a text, if any.
pub open spec fn response_of_text(t: Seq<char>) -> Option<ResponseView> {
    match parsed_json_text(t) {
        Some(j) => response_of_json(j),
        None => None,
    }
}

/// A value written for an optional string: the string, or `null`.
pub open spec fn opt_str_json(j: Json, v: Option<Seq<char>>) -> bool {
    match v {
        Some(s) => j is Str && j->Str_0@ == s,
        None => j == Json::Null,
    }
}

/// The members of the JSON value written for a response (the text that
/// serde_json makes of it is sorted by name), in the order of the model, absent
/// values as `null`, its other members last.
pub open spec fn response_members(es: Seq<(String, Json)>, v: ResponseView) -> bool {
    &&& es.len() == 6 + v.extra_fields.len()
    &&& str_at(es, 0, "detail"@, v.detail)
    &&& es[1].0@ == "challenge"@
    &&& (match v.challenge {
        Some(c) => es[1].1 is Object && rfc3339_text(c.expires_at) is Some && challenge_members(
            es[1].1->Object_0@,
            c,
            rfc3339_text(c.expires_at)->Some_0,
        ),
        None => es[1].1 == Json::Null,
    })
    &&& es[2].0@ == "mfa_required"@ && es[2].1 == Json::Bool(v.mfa_required)
    &&& es[3].0@ == "access_token"@ && opt_str_json(es[3].1, v.access_token)
    &&& es[4].0@ == "refresh_token"@ && opt_str_json(es[4].1, v.refresh_token)
    &&& es[5].0@ == "expires_in"@ && es[5].1 == Json::Int(v.expires_in)
    &&& es.subrange(6, es.len() as int) == v.extra_fields
}

/// Spells out the member names of a response.
pub proof fn lemma_response_keys()
    ensures
        distinct_names(response_names()),
{
    reveal_strlit("detail");
    reveal_strlit("challenge");
    reveal_strlit("mfa_required");
    reveal_strlit("access_token");
    reveal_strlit("refresh_token");
    reveal_strlit("expires_in");
    let names = response_names();
    assert forall|i: int, j: int|
        0 <= i < names.len() && 0 <= j < names.len() && i != j implies (#[trigger] names[i])@
        != (#[trigger] names[j])@ by {
        assert(names[i]@[0] != names[j]@[0] || names[i]@.len() != names[j]@.len());
    }
}

/// An optional string written as a string or `null`.
fn opt_text(v: Option<String>) -> (r: Json)
    ensures
        opt_str_json(r, opt_view(v)),
{
    match v {
        Some(s) => Json::Str(s),
        None => Json::Null,
    }
}

impl OAuthResponse {
    /// No overflow member bears a modelled name, no two share a name, and the
    /// challenge, if any, is well formed.
    pub open spec fn wf(&self) -> bool {
        &&& keys_distinct(self.extra_fields@)
        &&& forall|i: int|
            0 <= i < self.extra_fields@.len() ==> not_response_member(
                #[trigger] self.extra_fields@[i],
            )
        &&& self.challenge is Some ==> self.challenge->Some_0.wf()
    }

    /// Reads a response from the members of a JSON object.
    pub fn from_members(es: Vec<(String, Json)>) -> (r: Result<OAuthResponse, RobinhoodError>)
        ensures
            r is Ok <==> response_of_members(es@) is Some,
            r is Ok ==> response_of_members(es@) == Some(r->Ok_0@) && r->Ok_0.wf(),
            r is Err ==> r->Err_0.kind() == ErrorKind::Deserialization && r->Err_0.is_marked(),
    {
        let ghost all = es@;
        let names: Vec<&'static str> = vec![
            "detail",
            "challenge",
            "mfa_required",
            "access_token",
            "refresh_token",
            "expires_in",
        ];
        proof {
            lemma_response_keys();
            assert(names@ =~= response_names());
        }
        let (slots, rest) = split_members(es, &names);
        proof {
            let p1 = |e: (String, Json)| !is_named(names@, e.0@);
            let p2 = |e: (String, Json)| not_response_member(e);
            assert(p1 =~= p2);
            broadcast use vstd::seq_lib::group_filter_ensures;
        }
        let ghost s = slots@;
        let mut slots = slots;
        let expires_in = read_int(take_last(&mut slots));
        let refresh_token = read_optional_string(take_last(&mut slots));
        let access_token = read_optional_string(take_last(&mut slots));
        let mfa_required = read_flag(take_last(&mut slots));
        let challenge_slot = take_last(&mut slots);
        let detail = read_string(take_last(&mut slots));
        proof {
            assert(s[0] == field(all, names@[0]@));
            assert(s[1] == field(all, names@[1]@));
            assert(s[2] == field(all, names@[2]@));
            assert(s[3] == field(all, names@[3]@));
            assert(s[4] == field(all, names@[4]@));
            assert(s[5] == field(all, names@[5]@));
        }
        if !distinct_keys(&rest) {
            return Err(bad_member("duplicate member"));
        }
        let challenge = match challenge_slot {
            None => None,
            Some(Json::Null) => None,
            Some(j) => match Challenge::from_json(j) {
                Ok(c) => Some(c),
                Err(e) => { return Err(e); },
            },
        };
        match (detail, mfa_required, access_token, refresh_token, expires_in) {
            (Some(detail), Some(mfa_required), Some(access_token), Some(refresh_token), Some(expires_in)) => Ok(
                OAuthResponse {
                    detail,
                    challenge,
                    mfa_required,
                    access_token,
                    refresh_token,
                    expires_in,
                    extra_fields: rest,
                },
            ),
            _ => Err(bad_member("response")),
        }
    }

    /// Reads a response from a JSON value.
    pub fn from_json(j: Json) -> (r: Result<OAuthResponse, RobinhoodError>)
        ensures
            r is Ok <==> response_of_json(j) is Some,
            r is Ok ==> response_of_json(j) == Some(r->Ok_0@) && r->Ok_0.wf(),
            r is Err ==> r->Err_0.kind() == ErrorKind::Deserialization && r->Err_0.is_marked(),
    {
        match j {
            Json::Object(es) => Self::from_members(es),
            _ => Err(bad_member("response")),
        }
    }

    /// Reads a response from JSON text.
    pub fn from_json_text(t: &str) -> (r: Result<OAuthResponse, RobinhoodError>)
        ensures
            r is Ok <==> (parsed_json_text(t@) is Some && response_of_json(parsed_json_text(t@)->Some_0) is Some),
            r is Ok ==> response_of_json(parsed_json_text(t@)->Some_0) == Some(r->Ok_0@) && r->Ok_0.wf(),
            r is Err ==> r->Err_0.kind() == ErrorKind::Deserialization && r->Err_0.is_marked(),
    {
        match parse_json_text(t) {
            Ok(j) => Self::from_json(j),
            Err(_) => Err(bad_member("not JSON")),
        }
    }

    /// Writes the response as indented JSON text.
    pub fn to_json_text(self) -> (r: Result<String, RobinhoodError>)
        ensures
            r is Ok <==> (self.challenge is Some ==> rfc3339_text(
                self.challenge->Some_0.expires_at,
            ) is Some),
            r is Ok ==> exists|es: Vec<(String, Json)>|
                response_members(es@, self@) && r->Ok_0@ == pretty_json_text(Json::Object(es)),
            r is Err ==> r->Err_0.kind() == ErrorKind::Serialization && r->Err_0.is_marked(),
    {
        let j = match self.to_json() {
            Ok(j) => j,
            Err(e) => { return Err(e); },
        };
        match write_json_text(&j) {
            Ok(s) => Ok(s),
            Err(_) => Err(RobinhoodError::with_kind(ErrorKind::Serialization, "response")),
        }
    }

    /// Writes the response as a JSON object; fails only where the challenge's
    /// timestamp cannot be written.
    pub fn to_json(self) -> (r: Result<Json, RobinhoodError>)
        ensures
            r is Ok <==> (self.challenge is Some ==> rfc3339_text(self.challenge->Some_0.expires_at) is Some),
            r is Ok ==> r->Ok_0 is Object && response_members(r->Ok_0->Object_0@, self@),
            r is Err ==> r->Err_0.kind() == ErrorKind::Serialization && r->Err_0.is_marked(),
    {
        let ghost v = self@;
        let challenge = match self.challenge {
            Some(c) => match c.to_json() {
                Ok(j) => j,
                Err(e) => { return Err(e); },
            },
            None => Json::Null,
        };
        let mut es: Vec<(String, Json)> = Vec::new();
        es.push(member("detail", Json::Str(self.detail)));
        es.push(member("challenge", challenge));
        es.push(member("mfa_required", Json::Bool(self.mfa_required)));
        es.push(member("access_token", opt_text(self.access_token)));
        es.push(member("refresh_token", opt_text(self.refresh_token)));
        es.push(member("expires_in", Json::Int(self.expires_in)));
        let mut rest = self.extra_fields;
        es.append(&mut rest);
        proof {
            assert(es@.subrange(6, es@.len() as int) =~= v.extra_fields);
        }
        Ok(Json::Object(es))
    }
}

/// Writing a well-formed response out and reading it back gives the same
/// response, overflow members included, wherever chrono reads the timestamp
/// written for its challenge back as the same instant.
pub proof fn lemma_response_round_trip(v: ResponseView, es: Seq<(String, Json)>)
    requires
        forall|i: int| 0 <= i < v.extra_fields.len() ==> not_response_member(#[trigger] v.extra_fields[i]),
        keys_distinct(v.extra_fields),
        v.challenge is Some ==> overflow_ok(v.challenge->Some_0.extra_fields) && rfc3339_instant(
            rfc3339_text(v.challenge->Some_0.expires_at)->Some_0,
        ) == Some(v.challenge->Some_0.expires_at),
        response_members(es, v),
    ensures
        response_of_members(es) == Some(v),
{
    let head = es.subrange(0, 6);
    let extra = v.extra_fields;
    let pred = |e: (String, Json)| not_response_member(e);
    let names = response_names();
    assert(es =~= head + extra);
    lemma_response_keys();
    assert forall|j: int| 0 <= j < 6 implies field(es, (#[trigger] names[j])@) == Some(head[j].1) by {
        assert forall|i: int| 0 <= i < extra.len() implies (#[trigger] extra[i]).0@ != names[j]@ by {
            assert(not_response_member(extra[i]));
        }
        lemma_field_absent(extra, names[j]@);
        lemma_field_append(head, extra, names[j]@);
        reveal_with_fuel(field, 7);
    }
    assert(field(es, "detail"@) == Some(head[0].1)) by { assert(names[0]@ == "detail"@); }
    assert(field(es, "challenge"@) == Some(head[1].1)) by { assert(names[1]@ == "challenge"@); }
    assert(field(es, "mfa_required"@) == Some(head[2].1)) by { assert(names[2]@ == "mfa_required"@); }
    assert(field(es, "access_token"@) == Some(head[3].1)) by { assert(names[3]@ == "access_token"@); }
    assert(field(es, "refresh_token"@) == Some(head[4].1)) by { assert(names[4]@ == "refresh_token"@); }
    assert(field(es, "expires_in"@) == Some(head[5].1)) by { assert(names[5]@ == "expires_in"@); }
    if v.challenge is Some {
        let c = v.challenge->Some_0;
        lemma_challenge_round_trip(c, head[1].1->Object_0@, rfc3339_text(c.expires_at)->Some_0);
    }
    Seq::filter_distributes_over_add(head, extra, pred);
    assert forall|i: int| 0 <= i < head.len() implies !pred(#[trigger] head[i]) by {
        assert(names[i]@ == head[i].0@);
    }
    lemma_filter_none(head, pred);
    lemma_filter_all(extra, pred);
    assert(head.filter(pred) + extra.filter(pred) =~= extra);
}

/// An error for a member that is missing or malformed.
fn bad_member(key: &str) -> (r: RobinhoodError)
    ensures
        r.kind() == ErrorKind::Deserialization,
        r.is_marked(),
{
    RobinhoodError::with_kind(ErrorKind::Deserialization, key)
}

} // verus!
