//! Maps a declared type to the schema vocabulary.

use vstd::prelude::*;
use crate::json::{members_model, push_member, Json, JsonModel};
use crate::syntax::{PathArgs, TypeExpr};
use crate::text::is_word;

verus! {

/// The classes of the schema vocabulary.
#[derive(Debug, PartialEq, Eq)]
pub enum TypeDescriptor {
    /// A number of any width, whole or not.
    Number,
    /// A text.
    Text,
    /// A truth value.
    Boolean,
    /// A growable array; `None` where the element type is not visible.
    Sequence(Option<Box<TypeDescriptor>>),
    /// Anything else: an untyped object.
    Opaque,
}

/// The names of the numeric primitives.
pub open spec fn is_numeric_name(name: Seq<char>) -> bool {
    ||| name == "i8"@
    ||| name == "i16"@
    ||| name == "i32"@
    ||| name == "i64"@
    ||| name == "i128"@
    ||| name == "u8"@
    ||| name == "u16"@
    ||| name == "u32"@
    ||| name == "u64"@
    ||| name == "u128"@
    ||| name == "f32"@
    ||| name == "f64"@
}

/// The names of the textual primitives.
pub open spec fn is_text_name(name: Seq<char>) -> bool {
    name == "String"@ || name == "str"@
}

/// The class of a path type that is no sequence, by its name.
pub open spec fn classify_name(name: Seq<char>) -> TypeDescriptor {
    if is_numeric_name(name) {
        TypeDescriptor::Number
    } else if is_text_name(name) {
        TypeDescriptor::Text
    } else if name == "bool"@ {
        TypeDescriptor::Boolean
    } else {
        TypeDescriptor::Opaque
    }
}

/// The class of a declared type. A path whose first segment is `Vec` is a
/// sequence of its first type argument's class; another path goes by its
/// name; every other shape is opaque.
pub open spec fn classify_spec(ty: TypeExpr) -> TypeDescriptor
    decreases ty,
{
    match ty {
        TypeExpr::Path { text, head, args } => {
            if head@ == "Vec"@ {
                match args {
                    PathArgs::Angle(Some(inner)) => TypeDescriptor::Sequence(
                        Some(Box::new(classify_spec(*inner))),
                    ),
                    _ => TypeDescriptor::Sequence(None),
                }
            } else {
                classify_name(head@)
            }
        },
        TypeExpr::Other { text } => TypeDescriptor::Opaque,
    }
}

/// Classifies a path type that is no sequence by its name.
pub fn classify_by_name(name: &String) -> (r: TypeDescriptor)
    ensures
        r == classify_name(name@),
{
    if is_word(name, "i8") || is_word(name, "i16") || is_word(name, "i32") || is_word(name, "i64")
        || is_word(name, "i128") || is_word(name, "u8") || is_word(name, "u16") || is_word(
        name,
        "u32",
    ) || is_word(name, "u64") || is_word(name, "u128") || is_word(name, "f32") || is_word(
        name,
        "f64",
    ) {
        TypeDescriptor::Number
    } else if is_word(name, "String") || is_word(name, "str") {
        TypeDescriptor::Text
    } else if is_word(name, "bool") {
        TypeDescriptor::Boolean
    } else {
        TypeDescriptor::Opaque
    }
}

/// Classifies a declared type.
pub fn classify(ty: &TypeExpr) -> (r: TypeDescriptor)
    ensures
        r == classify_spec(*ty),
    decreases *ty,
{
    match ty {
        TypeExpr::Path { text, head, args } => {
            if is_word(head, "Vec") {
                match args {
                    PathArgs::Angle(Some(inner)) => TypeDescriptor::Sequence(
                        Some(Box::new(classify(inner))),
                    ),
                    _ => TypeDescriptor::Sequence(None),
                }
            } else {
                classify_by_name(head)
            }
        },
        TypeExpr::Other { text } => TypeDescriptor::Opaque,
    }
}

/// The members of the schema fragment of a class: its `type`, and for a
/// sequence with a visible element type the element's fragment under
/// `items`.
pub open spec fn fragment_members(td: TypeDescriptor) -> Seq<(Seq<char>, JsonModel)>
    decreases td,
{
    match td {
        TypeDescriptor::Number => seq![("type"@, JsonModel::Text("number"@))],
        TypeDescriptor::Text => seq![("type"@, JsonModel::Text("string"@))],
        TypeDescriptor::Boolean => seq![("type"@, JsonModel::Text("boolean"@))],
        TypeDescriptor::Sequence(Some(inner)) => seq![
            ("type"@, JsonModel::Text("array"@)),
            ("items"@, JsonModel::Object(fragment_members(*inner))),
        ],
        TypeDescriptor::Sequence(None) => seq![("type"@, JsonModel::Text("array"@))],
        TypeDescriptor::Opaque => seq![("type"@, JsonModel::Text("object"@))],
    }
}

/// The schema fragment of a class.
pub open spec fn fragment_model(td: TypeDescriptor) -> JsonModel {
    JsonModel::Object(fragment_members(td))
}

/// The word that stands under `type` in the fragment of a class.
pub fn type_word(td: &TypeDescriptor) -> (r: &'static str)
    ensures
        fragment_members(*td)[0] == ("type"@, JsonModel::Text(r@)),
{
    match td {
        TypeDescriptor::Number => "number",
        TypeDescriptor::Text => "string",
        TypeDescriptor::Boolean => "boolean",
        TypeDescriptor::Sequence(_) => "array",
        TypeDescriptor::Opaque => "object",
    }
}

/// Builds the members of the schema fragment of a class.
pub fn schema_members(td: &TypeDescriptor) -> (r: Vec<(String, Json)>)
    ensures
        members_model(r@) == fragment_members(*td),
    decreases *td,
{
    let mut members: Vec<(String, Json)> = Vec::new();
    assert(members_model(members@) =~= Seq::empty());
    push_member(&mut members, "type", Json::text(type_word(td)));
    match td {
        TypeDescriptor::Sequence(Some(inner)) => {
            let items = Json::object(schema_members(inner));
            push_member(&mut members, "items", items);
            assert(members_model(members@) =~= fragment_members(*td));
        },
        _ => {
            assert(members_model(members@) =~= fragment_members(*td));
        },
    }
    members
}

/// Builds the schema fragment of a class.
pub fn schema_fragment(td: &TypeDescriptor) -> (r: Json)
    ensures
        r@ == fragment_model(*td),
{
    Json::object(schema_members(td))
}

/// The schema fragment of a declared type: that of its class.
pub fn get_json_type(ty: &TypeExpr) -> (r: Json)
    ensures
        r@ == fragment_model(classify_spec(*ty)),
{
    let td = classify(ty);
    schema_fragment(&td)
}

/// The fragment that holds a `type` and nothing else.
pub open spec fn type_only(word: Seq<char>) -> JsonModel {
    JsonModel::Object(seq![("type"@, JsonModel::Text(word))])
}

/// The fragment of an array whose elements have the fragment `items`.
pub open spec fn array_of(items: JsonModel) -> JsonModel {
    JsonModel::Object(seq![("type"@, JsonModel::Text("array"@)), ("items"@, items)])
}

/// Whether `ty` is the path type `Vec<..>` with `inner` as its first
/// argument.
pub open spec fn is_vec_of(ty: TypeExpr, inner: TypeExpr) -> bool {
    &&& ty is Path
    &&& ty->head@ == "Vec"@
    &&& ty->args == PathArgs::Angle(Some(Box::new(inner)))
}

/// Whether `ty` is a path type whose first segment is `name`.
pub open spec fn is_named(ty: TypeExpr, name: Seq<char>) -> bool {
    ty is Path && ty->head@ == name
}

proof fn lemma_names_differ()
    ensures
        !is_numeric_name("Vec"@),
        !is_text_name("Vec"@),
        "bool"@ != "Vec"@,
        !is_numeric_name("String"@),
        !is_numeric_name("str"@),
        !is_numeric_name("bool"@),
        !is_text_name("bool"@),
{
    reveal_strlit("Vec");
    reveal_strlit("i8");
    reveal_strlit("i16");
    reveal_strlit("i32");
    reveal_strlit("i64");
    reveal_strlit("i128");
    reveal_strlit("u8");
    reveal_strlit("u16");
    reveal_strlit("u32");
    reveal_strlit("u64");
    reveal_strlit("u128");
    reveal_strlit("f32");
    reveal_strlit("f64");
    reveal_strlit("String");
    reveal_strlit("str");
    reveal_strlit("bool");
    assert("Vec"@[0] == 'V' && "bool"@[0] == 'b' && "String"@[0] == 'S' && "str"@[0] == 's');
    assert("i8"@[0] == 'i' && "i16"@[0] == 'i' && "i32"@[0] == 'i' && "i64"@[0] == 'i' && "i128"@[0]
        == 'i');
    assert("u8"@[0] == 'u' && "u16"@[0] == 'u' && "u32"@[0] == 'u' && "u64"@[0] == 'u' && "u128"@[0]
        == 'u');
    assert("f32"@[0] == 'f' && "f64"@[0] == 'f');
}

/// A type named as a numeric primitive has the fragment
/// `{"type": "number"}`, one named as a textual primitive
/// `{"type": "string"}`, `bool` has `{"type": "boolean"}`, and a path type
/// of any other name but `Vec` has `{"type": "object"}`, as has every type
/// that is no path.
pub proof fn lemma_fragment_by_name(ty: TypeExpr)
    ensures
        ty is Path && is_numeric_name(ty->head@) ==> fragment_model(classify_spec(ty)) == type_only(
            "number"@,
        ),
        ty is Path && is_text_name(ty->head@) ==> fragment_model(classify_spec(ty)) == type_only(
            "string"@,
        ),
        is_named(ty, "bool"@) ==> fragment_model(classify_spec(ty)) == type_only("boolean"@),
        ty is Path && ty->head@ != "Vec"@ && !is_numeric_name(ty->head@) && !is_text_name(
            ty->head@,
        ) && ty->head@ != "bool"@ ==> fragment_model(classify_spec(ty)) == type_only("object"@),
        ty is Other ==> fragment_model(classify_spec(ty)) == type_only("object"@),
{
    lemma_names_differ();
}

/// `Vec` of a type has the fragment `{"type": "array", "items": F}`, where
/// `F` is the fragment of that type, at every depth of nesting. So a `Vec`
/// of a numeric primitive has
/// `{"type": "array", "items": {"type": "number"}}`, and a `Vec` of such a
/// `Vec` has that fragment under `items` in turn. A `Vec` without a visible
/// element type has `{"type": "array"}`.
pub proof fn lemma_fragment_of_sequence(ty: TypeExpr, inner: TypeExpr, innermost: TypeExpr)
    ensures
        is_vec_of(ty, inner) ==> fragment_model(classify_spec(ty)) == array_of(
            fragment_model(classify_spec(inner)),
        ),
        is_vec_of(ty, inner) && inner is Path && is_numeric_name(inner->head@) ==> fragment_model(
            classify_spec(ty),
        ) == array_of(type_only("number"@)),
        is_vec_of(ty, inner) && is_vec_of(inner, innermost) && innermost is Path
            && is_numeric_name(innermost->head@) ==> fragment_model(classify_spec(ty)) == array_of(
            array_of(type_only("number"@)),
        ),
        is_named(ty, "Vec"@) && !(ty->args is Angle && ty->args->Angle_0 is Some)
            ==> fragment_model(classify_spec(ty)) == type_only("array"@),
{
    lemma_names_differ();
    if is_vec_of(ty, inner) {
        assert(fragment_model(classify_spec(ty)) == array_of(fragment_model(classify_spec(inner))));
        if is_vec_of(inner, innermost) {
            assert(fragment_model(classify_spec(inner)) == array_of(
                fragment_model(classify_spec(innermost)),
            ));
        }
    }
}

} // verus!
