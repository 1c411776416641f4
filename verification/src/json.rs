use vstd::prelude::*;

verus! {

/// A JSON number as the wire format carries it: a non-negative integer, a
/// negative integer, or any other number kept as its decimal text.
#[derive(Debug, PartialEq)]
pub enum JsonNumber {
    PosInt(u64),
    NegInt(i64),
    Float(String),
}

/// A JSON value. Object members keep the order in which they were written.
#[derive(Debug, PartialEq)]
pub enum Json {
    Null,
    Bool(bool),
    Number(JsonNumber),
    Str(String),
    Array(Vec<Json>),
    Object(Vec<(String, Json)>),
}

/// The mathematical model of a JSON number.
pub enum NumberModel {
    PosInt(u64),
    NegInt(i64),
    Float(Seq<char>),
}

/// The mathematical model of a JSON value: strings as character sequences.
pub enum JsonModel {
    Null,
    Bool(bool),
    Number(NumberModel),
    Str(Seq<char>),
    Array(Seq<JsonModel>),
    Object(Seq<(Seq<char>, JsonModel)>),
}

pub open spec fn number_model(n: JsonNumber) -> NumberModel {
    match n {
        JsonNumber::PosInt(u) => NumberModel::PosInt(u),
        JsonNumber::NegInt(i) => NumberModel::NegInt(i),
        JsonNumber::Float(s) => NumberModel::Float(s@),
    }
}

pub open spec fn json_model(j: Json) -> JsonModel
    decreases j, 0nat,
{
    match j {
        Json::Null => JsonModel::Null,
        Json::Bool(b) => JsonModel::Bool(b),
        Json::Number(n) => JsonModel::Number(number_model(n)),
        Json::Str(s) => JsonModel::Str(s@),
        Json::Array(v) => JsonModel::Array(json_seq_model(v@)),
        Json::Object(v) => JsonModel::Object(json_members_model(v@)),
    }
}

pub open spec fn json_seq_model(s: Seq<Json>) -> Seq<JsonModel>
    decreases s, 1nat,
{
    if s.len() == 0 {
        Seq::empty()
    } else {
        seq![json_model(s[0])] + json_seq_model(s.drop_first())
    }
}

pub open spec fn json_members_model(s: Seq<(String, Json)>) -> Seq<(Seq<char>, JsonModel)>
    decreases s, 1nat,
{
    if s.len() == 0 {
        Seq::empty()
    } else {
        seq![(s[0].0@, json_model(s[0].1))] + json_members_model(s.drop_first())
    }
}

impl View for Json {
    type V = JsonModel;

    open spec fn view(&self) -> JsonModel {
        json_model(*self)
    }
}

} // verus!
