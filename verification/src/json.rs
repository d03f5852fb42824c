//! An ordered JSON tree, as far as a parameter schema needs one.

use vstd::prelude::*;
use crate::literal::{literal_of, push_literal};

verus! {

/// A JSON value: a string, or an object whose members keep their order.
#[derive(Debug, PartialEq, Eq)]
pub enum Json {
    Text(String),
    Object(Vec<(String, Json)>),
}

/// The mathematical value of a [`Json`].
pub ghost enum JsonModel {
    Text(Seq<char>),
    Object(Seq<(Seq<char>, JsonModel)>),
}

/// The mathematical value of a JSON tree: a string's characters, an
/// object's members in their order.
pub open spec fn json_model(j: Json) -> JsonModel
    decreases j,
{
    match j {
        Json::Text(s) => JsonModel::Text(s@),
        Json::Object(members) => JsonModel::Object(
            Seq::new(
                members@.len(),
                |i: int|
                    if 0 <= i < members@.len() {
                        (members@[i].0@, json_model(members@[i].1))
                    } else {
                        (Seq::empty(), JsonModel::Text(Seq::empty()))
                    },
            ),
        ),
    }
}

impl View for Json {
    type V = JsonModel;

    open spec fn view(&self) -> JsonModel {
        json_model(*self)
    }
}

/// The mathematical values of a list of members, in their order.
pub open spec fn members_model(members: Seq<(String, Json)>) -> Seq<(Seq<char>, JsonModel)> {
    Seq::new(members.len(), |i: int| (members[i].0@, members[i].1@))
}

/// The keys of a list of members, in their order.
pub open spec fn member_keys(members: Seq<(Seq<char>, JsonModel)>) -> Seq<Seq<char>> {
    Seq::new(members.len(), |i: int| members[i].0)
}

/// An object's value holds the values of its members.
pub proof fn lemma_object_model(members: Vec<(String, Json)>)
    ensures
        Json::Object(members)@ == JsonModel::Object(members_model(members@)),
{
    assert(Json::Object(members)@->Object_0 =~= members_model(members@));
}

/// Appending a member appends its value.
pub proof fn lemma_members_push(members: Seq<(String, Json)>, member: (String, Json))
    ensures
        members_model(members.push(member)) == members_model(members).push(
            (member.0@, member.1@),
        ),
{
    assert(members_model(members.push(member)) =~= members_model(members).push(
        (member.0@, member.1@),
    ));
}

impl Json {
    /// A JSON string with the characters of `s`.
    pub fn text(s: &str) -> (r: Json)
        ensures
            r@ == JsonModel::Text(s@),
    {
        Json::Text(String::from_str(s))
    }

    /// A JSON object with the given members, in their order.
    pub fn object(members: Vec<(String, Json)>) -> (r: Json)
        ensures
            r@ == JsonModel::Object(members_model(members@)),
    {
        proof {
            lemma_object_model(members);
        }
        Json::Object(members)
    }
}

/// Appends the member `key: value` to a list of members.
pub fn push_member(members: &mut Vec<(String, Json)>, key: &str, value: Json)
    ensures
        members_model(final(members)@) == members_model(old(members)@).push((key@, value@)),
{
    let member = (String::from_str(key), value);
    proof {
        lemma_members_push(members@, member);
    }
    members.push(member);
}

/// The source text of a JSON value: a string as a string literal, an
/// object as its members in braces, each a key, a colon and a value, with
/// commas between them.
pub open spec fn json_text(j: JsonModel) -> Seq<char>
    decreases j, 0nat,
{
    match j {
        JsonModel::Text(s) => literal_of(s),
        JsonModel::Object(members) => seq!['{'] + members_text(members, members.len()) + seq!['}'],
    }
}

/// The source text of the first `n` members of a list.
pub open spec fn members_text(members: Seq<(Seq<char>, JsonModel)>, n: nat) -> Seq<char>
    decreases members, n,
{
    if n == 0 || n > members.len() {
        Seq::empty()
    } else {
        members_text(members, (n - 1) as nat) + (if n > 1 {
            seq![',', ' ']
        } else {
            Seq::empty()
        }) + literal_of(members[n - 1].0) + seq![':', ' '] + json_text(members[n - 1].1)
    }
}

impl Json {
    /// Appends the source text of the value to `out`.
    pub fn write_to(&self, out: &mut String)
        ensures
            final(out)@ == old(out)@ + json_text(self@),
        decreases self,
    {
        let ghost start = out@;
        match self {
            Json::Text(s) => {
                push_literal(out, s.as_str());
            },
            Json::Object(members) => {
                proof {
                    lemma_object_model(*members);
                }
                let ghost model = members_model(members@);
                out.push('{');
                let mut i: usize = 0;
                while i < members.len()
                    invariant
                        i <= members.len(),
                        *self == Json::Object(*members),
                        model == members_model(members@),
                        out@ == start + seq!['{'] + members_text(model, i as nat),
                    decreases members.len() - i,
                {
                    let ghost before = out@;
                    if i > 0 {
                        out.push(',');
                        out.push(' ');
                    }
                    push_literal(out, members[i].0.as_str());
                    out.push(':');
                    out.push(' ');
                    proof {
                        let list = (*self)->Object_0;
                        vstd::std_specs::vec::axiom_vec_index_decreases(list, i as int);
                        assert(decreases_to!(*self => list[i as int].1));
                    }
                    members[i].1.write_to(out);
                    assert(out@ =~= start + seq!['{'] + members_text(model, (i + 1) as nat));
                    i = i + 1;
                }
                out.push('}');
                assert(out@ =~= start + json_text(self@));
            },
        }
    }

    /// The source text of the value.
    pub fn to_source(&self) -> (r: String)
        ensures
            r@ == json_text(self@),
    {
        let mut out = String::new();
        self.write_to(&mut out);
        assert(out@ =~= json_text(self@));
        out
    }
}

} // verus!
