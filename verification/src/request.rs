use vstd::prelude::*;
use vstd::string::StringExecFns;
use crate::json::{Json, JsonModel, JsonNumber, NumberModel, json_members_model, json_seq_model};

verus! {

/// The HTTP method of a request.
#[derive(Clone, Copy, Debug, PartialEq, Eq, Structural)]
pub enum Method {
    Get,
    Post,
    Put,
    Patch,
    Delete,
}

/// A request to the REST API: its method, its full URL and its JSON body.
#[derive(Debug, PartialEq)]
pub struct ApiRequest {
    pub method: Method,
    pub url: String,
    pub body: Option<Json>,
}

/// The model of a request.
pub struct RequestModel {
    pub method: Method,
    pub url: Seq<char>,
    pub body: Option<JsonModel>,
}

pub open spec fn body_model(b: Option<Json>) -> Option<JsonModel> {
    match b {
        Some(j) => Some(j@),
        None => None,
    }
}

impl View for ApiRequest {
    type V = RequestModel;

    open spec fn view(&self) -> RequestModel {
        RequestModel { method: self.method, url: self.url@, body: body_model(self.body) }
    }
}

/// The base of every REST URL.
pub open spec fn api() -> Seq<char> {
    "https://discord.com/api/v6"@
}

/// A request without a body.
pub open spec fn bare(method: Method, url: Seq<char>) -> RequestModel {
    RequestModel { method, url, body: None }
}

/// A request with a JSON body.
pub open spec fn with_body(method: Method, url: Seq<char>, body: JsonModel) -> RequestModel {
    RequestModel { method, url, body: Some(body) }
}

pub open spec fn text(s: Seq<char>) -> JsonModel {
    JsonModel::Str(s)
}

pub open spec fn unsigned(n: u64) -> JsonModel {
    JsonModel::Number(NumberModel::PosInt(n))
}

/// A JSON object of the given members, in this order.
pub open spec fn object(members: Seq<(Seq<char>, JsonModel)>) -> JsonModel {
    JsonModel::Object(members)
}

/// Appends a string; `String::append` of vstd.
pub fn push_text(s: &mut String, t: &str)
    ensures
        final(s)@ == old(s)@ + t@,
{
    s.append(t);
}

/// A new string holding the base of every REST URL.
pub fn api_base() -> (s: String)
    ensures
        s@ == api(),
{
    "https://discord.com/api/v6".to_owned()
}

pub fn json_text(s: &str) -> (j: Json)
    ensures
        j@ == text(s@),
{
    Json::Str(s.to_owned())
}

pub fn json_unsigned(n: u64) -> (j: Json)
    ensures
        j@ == unsigned(n),
{
    Json::Number(JsonNumber::PosInt(n))
}

pub fn json_optional_text(s: Option<&str>) -> (j: Json)
    ensures
        j@ == (match s {
            Some(t) => text(t@),
            None => JsonModel::Null,
        }),
{
    match s {
        Some(t) => Json::Str(t.to_owned()),
        None => Json::Null,
    }
}

pub proof fn lemma_members_model(s: Seq<(String, Json)>)
    ensures
        json_members_model(s).len() == s.len(),
        forall|i: int|
            0 <= i < s.len() ==> #[trigger] json_members_model(s)[i] == (s[i].0@, s[i].1@),
    decreases s.len(),
{
    if s.len() > 0 {
        lemma_members_model(s.drop_first());
        assert forall|i: int| 0 <= i < s.len() implies #[trigger] json_members_model(s)[i] == (
        s[i].0@,
        s[i].1@,
        ) by {
            if i > 0 {
                assert(s.drop_first()[i - 1] == s[i]);
            }
        }
    }
}

pub proof fn lemma_seq_model(s: Seq<Json>)
    ensures
        json_seq_model(s).len() == s.len(),
        forall|i: int| 0 <= i < s.len() ==> #[trigger] json_seq_model(s)[i] == s[i]@,
    decreases s.len(),
{
    if s.len() > 0 {
        lemma_seq_model(s.drop_first());
        assert forall|i: int| 0 <= i < s.len() implies #[trigger] json_seq_model(s)[i] == s[i]@ by {
            if i > 0 {
                assert(s.drop_first()[i - 1] == s[i]);
            }
        }
    }
}

/// A JSON object built from its members.
pub fn json_object(members: Vec<(String, Json)>) -> (j: Json)
    ensures
        j@ == object(Seq::new(members@.len(), |i: int| (members@[i].0@, members@[i].1@))),
{
    proof {
        lemma_members_model(members@);
        assert(json_members_model(members@) =~= Seq::new(
            members@.len(),
            |i: int| (members@[i].0@, members@[i].1@),
        ));
    }
    Json::Object(members)
}

/// A JSON array built from its elements.
pub fn json_array(elements: Vec<Json>) -> (j: Json)
    ensures
        j@ == JsonModel::Array(Seq::new(elements@.len(), |i: int| elements@[i]@)),
{
    proof {
        lemma_seq_model(elements@);
        assert(json_seq_model(elements@) =~= Seq::new(elements@.len(), |i: int| elements@[i]@));
    }
    Json::Array(elements)
}

/// An object of one member.
pub fn object1(k1: &str, v1: Json) -> (j: Json)
    ensures
        j@ == object(seq![(k1@, v1@)]),
{
    let mut m: Vec<(String, Json)> = Vec::new();
    m.push((k1.to_owned(), v1));
    let j = json_object(m);
    assert(Seq::new(m@.len(), |i: int| (m@[i].0@, m@[i].1@)) =~= seq![(k1@, v1@)]);
    j
}

/// An object of two members, in this order.
pub fn object2(k1: &str, v1: Json, k2: &str, v2: Json) -> (j: Json)
    ensures
        j@ == object(seq![(k1@, v1@), (k2@, v2@)]),
{
    let mut m: Vec<(String, Json)> = Vec::new();
    m.push((k1.to_owned(), v1));
    m.push((k2.to_owned(), v2));
    let j = json_object(m);
    assert(Seq::new(m@.len(), |i: int| (m@[i].0@, m@[i].1@)) =~= seq![(k1@, v1@), (k2@, v2@)]);
    j
}

/// An object of three members, in this order.
pub fn object3(k1: &str, v1: Json, k2: &str, v2: Json, k3: &str, v3: Json) -> (j: Json)
    ensures
        j@ == object(seq![(k1@, v1@), (k2@, v2@), (k3@, v3@)]),
{
    let mut m: Vec<(String, Json)> = Vec::new();
    m.push((k1.to_owned(), v1));
    m.push((k2.to_owned(), v2));
    m.push((k3.to_owned(), v3));
    let j = json_object(m);
    assert(Seq::new(m@.len(), |i: int| (m@[i].0@, m@[i].1@)) =~= seq![
        (k1@, v1@),
        (k2@, v2@),
        (k3@, v3@),
    ]);
    j
}

/// An object of four members, in this order.
pub fn object4(k1: &str, v1: Json, k2: &str, v2: Json, k3: &str, v3: Json, k4: &str, v4: Json) -> (j: Json)
    ensures
        j@ == object(seq![(k1@, v1@), (k2@, v2@), (k3@, v3@), (k4@, v4@)]),
{
    let mut m: Vec<(String, Json)> = Vec::new();
    m.push((k1.to_owned(), v1));
    m.push((k2.to_owned(), v2));
    m.push((k3.to_owned(), v3));
    m.push((k4.to_owned(), v4));
    let j = json_object(m);
    assert(Seq::new(m@.len(), |i: int| (m@[i].0@, m@[i].1@)) =~= seq![
        (k1@, v1@),
        (k2@, v2@),
        (k3@, v3@),
        (k4@, v4@),
    ]);
    j
}

/// An object of five members, in this order.
pub fn object5(
    k1: &str,
    v1: Json,
    k2: &str,
    v2: Json,
    k3: &str,
    v3: Json,
    k4: &str,
    v4: Json,
    k5: &str,
    v5: Json,
) -> (j: Json)
    ensures
        j@ == object(seq![(k1@, v1@), (k2@, v2@), (k3@, v3@), (k4@, v4@), (k5@, v5@)]),
{
    let mut m: Vec<(String, Json)> = Vec::new();
    m.push((k1.to_owned(), v1));
    m.push((k2.to_owned(), v2));
    m.push((k3.to_owned(), v3));
    m.push((k4.to_owned(), v4));
    m.push((k5.to_owned(), v5));
    let j = json_object(m);
    assert(Seq::new(m@.len(), |i: int| (m@[i].0@, m@[i].1@)) =~= seq![
        (k1@, v1@),
        (k2@, v2@),
        (k3@, v3@),
        (k4@, v4@),
        (k5@, v5@),
    ]);
    j
}

} // verus!
