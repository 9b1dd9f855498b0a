//! The type-expression grammar: parsing a type-expression string into a
//! constructor name with an optional inner argument, and resolving that pair
//! into a recursive `TypeRef`.

use vstd::prelude::*;
use vstd::string::StrSliceExecFns;

use crate::error::{ErrorModel, FMLError};
use crate::text::{
    close_pos, comma_pos, delim_pos, find_close, find_comma, find_delim, lemma_close_pos_bound,
    lemma_comma_pos_bound, lemma_delim_pos, str_eq, trim_seq, trim_str,
};

verus! {

/// Mathematical model of a resolved type reference, over character sequences.
pub enum TypeModel {
    String,
    Int,
    Boolean,
    BundleText(Seq<char>),
    BundleImage(Seq<char>),
    Enum(Seq<char>),
    Object(Seq<char>),
    List(Box<TypeModel>),
    Option(Box<TypeModel>),
    StringMap(Box<TypeModel>),
    EnumMap(Box<TypeModel>, Box<TypeModel>),
}

/// A resolved type reference: the recursive model that a type-expression
/// string such as `Map<String, Object<Button>>` denotes. `EnumMap` keys are
/// always `Enum` references; a `StringMap` key is implicitly `String`.
#[derive(Debug, PartialEq)]
pub enum TypeRef {
    String,
    Int,
    Boolean,
    BundleText(String),
    BundleImage(String),
    Enum(String),
    Object(String),
    List(Box<TypeRef>),
    Option(Box<TypeRef>),
    StringMap(Box<TypeRef>),
    EnumMap(Box<TypeRef>, Box<TypeRef>),
}

impl TypeRef {
    pub open spec fn model(&self) -> TypeModel
        decreases self,
    {
        match self {
            TypeRef::String => TypeModel::String,
            TypeRef::Int => TypeModel::Int,
            TypeRef::Boolean => TypeModel::Boolean,
            TypeRef::BundleText(s) => TypeModel::BundleText(s@),
            TypeRef::BundleImage(s) => TypeModel::BundleImage(s@),
            TypeRef::Enum(s) => TypeModel::Enum(s@),
            TypeRef::Object(s) => TypeModel::Object(s@),
            TypeRef::List(t) => TypeModel::List(Box::new(t.model())),
            TypeRef::Option(t) => TypeModel::Option(Box::new(t.model())),
            TypeRef::StringMap(t) => TypeModel::StringMap(Box::new(t.model())),
            TypeRef::EnumMap(k, v) => TypeModel::EnumMap(Box::new(k.model()), Box::new(v.model())),
        }
    }
}

impl Clone for TypeRef {
    fn clone(&self) -> (res: Self)
        ensures
            res == *self,
        decreases self,
    {
        match self {
            TypeRef::String => TypeRef::String,
            TypeRef::Int => TypeRef::Int,
            TypeRef::Boolean => TypeRef::Boolean,
            TypeRef::BundleText(s) => TypeRef::BundleText(s.clone()),
            TypeRef::BundleImage(s) => TypeRef::BundleImage(s.clone()),
            TypeRef::Enum(s) => TypeRef::Enum(s.clone()),
            TypeRef::Object(s) => TypeRef::Object(s.clone()),
            TypeRef::List(t) => TypeRef::List(Box::new((&**t).clone())),
            TypeRef::Option(t) => TypeRef::Option(Box::new((&**t).clone())),
            TypeRef::StringMap(t) => TypeRef::StringMap(Box::new((&**t).clone())),
            TypeRef::EnumMap(k, v) => TypeRef::EnumMap(
                Box::new((&**k).clone()),
                Box::new((&**v).clone()),
            ),
        }
    }
}

/// The three fixed primitive constructor names, which are leaves of the
/// grammar and never carry an argument.
pub open spec fn primitive_name(n: Seq<char>) -> bool {
    n == "String"@ || n == "Int"@ || n == "Boolean"@
}

/// What splitting a type-expression string yields: the trimmed constructor
/// name before the first delimiter, and, for a non-primitive constructor
/// followed by `<`, the text up to the bracket's matching `>` (or to the end
/// of the string if that bracket is never closed).
pub open spec fn parse_parts(s: Seq<char>) -> (Seq<char>, Option<Seq<char>>) {
    let d = delim_pos(s);
    let name = trim_seq(s.subrange(0, d));
    if primitive_name(name) || d == s.len() || s[d] == '>' {
        (name, None)
    } else {
        let rest = s.subrange(d + 1, s.len() as int);
        (name, Some(rest.subrange(0, close_pos(rest, 1))))
    }
}

/// A parsed inner argument is strictly shorter than the whole expression.
pub proof fn lemma_parse_parts_arg(s: Seq<char>)
    ensures
        parse_parts(s).1 matches Some(a) ==> a.len() < s.len(),
{
    lemma_delim_pos(s);
    let d = delim_pos(s);
    let name = trim_seq(s.subrange(0, d));
    if !(primitive_name(name) || d == s.len() || s[d] == '>') {
        let rest = s.subrange(d + 1, s.len() as int);
        lemma_close_pos_bound(rest, 1);
    }
}

/// Model of resolving a whole type-expression string into a type reference,
/// or into the error that rejecting it surfaces.
pub open spec fn resolve_type(s: Seq<char>) -> Result<TypeModel, ErrorModel>
    decreases s.len(),
    via resolve_type_dec
{
    let (name, arg) = parse_parts(s);
    if name == "String"@ {
        Ok(TypeModel::String)
    } else if name == "Int"@ {
        Ok(TypeModel::Int)
    } else if name == "Boolean"@ {
        Ok(TypeModel::Boolean)
    } else if name == "BundleText"@ {
        match arg {
            Some(a) => Ok(TypeModel::BundleText(trim_seq(a))),
            None => Err(ErrorModel::MalformedTypeExpression(name)),
        }
    } else if name == "BundleImage"@ {
        match arg {
            Some(a) => Ok(TypeModel::BundleImage(trim_seq(a))),
            None => Err(ErrorModel::MalformedTypeExpression(name)),
        }
    } else if name == "Enum"@ {
        match arg {
            Some(a) => Ok(TypeModel::Enum(trim_seq(a))),
            None => Err(ErrorModel::MalformedTypeExpression(name)),
        }
    } else if name == "Object"@ {
        match arg {
            Some(a) => Ok(TypeModel::Object(trim_seq(a))),
            None => Err(ErrorModel::MalformedTypeExpression(name)),
        }
    } else if name == "List"@ {
        match arg {
            Some(a) => match resolve_type(a) {
                Ok(t) => Ok(TypeModel::List(Box::new(t))),
                Err(e) => Err(e),
            },
            None => Err(ErrorModel::MalformedTypeExpression(name)),
        }
    } else if name == "Option"@ {
        match arg {
            Some(a) => match resolve_type(a) {
                Ok(t) => Ok(TypeModel::Option(Box::new(t))),
                Err(e) => Err(e),
            },
            None => Err(ErrorModel::MalformedTypeExpression(name)),
        }
    } else if name == "Map"@ {
        match arg {
            Some(a) => resolve_map(a),
            None => Err(ErrorModel::MalformedTypeExpression(name)),
        }
    } else {
        Err(ErrorModel::TypeParsingError(name))
    }
}

#[via_fn]
proof fn resolve_type_dec(s: Seq<char>) {
    lemma_parse_parts_arg(s);
}

/// Model of resolving the inner argument of a `Map`: exactly two parts
/// separated by a bracket-level comma; the key must resolve to `Enum` (an
/// enum-keyed map) or be the primitive `String` (a string-keyed map).
pub open spec fn resolve_map(a: Seq<char>) -> Result<TypeModel, ErrorModel>
    decreases a.len(),
    via resolve_map_dec
{
    let p = comma_pos(a, 0);
    if p == a.len() {
        Err(ErrorModel::MalformedTypeExpression("Map"@))
    } else {
        let key = a.subrange(0, p);
        let value = a.subrange(p + 1, a.len() as int);
        if comma_pos(value, 0) != value.len() {
            Err(ErrorModel::MalformedTypeExpression("Map"@))
        } else {
            match resolve_type(key) {
                Ok(TypeModel::Enum(n)) => match resolve_type(value) {
                    Ok(v) => Ok(
                        TypeModel::EnumMap(Box::new(TypeModel::Enum(n)), Box::new(v)),
                    ),
                    Err(e) => Err(e),
                },
                Ok(TypeModel::String) => match resolve_type(value) {
                    Ok(v) => Ok(TypeModel::StringMap(Box::new(v))),
                    Err(e) => Err(e),
                },
                _ => Err(ErrorModel::UnsupportedMapKey(trim_seq(key))),
            }
        }
    }
}

#[via_fn]
proof fn resolve_map_dec(a: Seq<char>) {
    lemma_comma_pos_bound(a, 0);
}

/// Model of an optional owned string.
pub open spec fn opt_str_model(o: Option<String>) -> Option<Seq<char>> {
    match o {
        Some(s) => Some(s@),
        None => None,
    }
}

/// Model of a resolution outcome.
pub open spec fn type_result_model(r: Result<TypeRef, FMLError>) -> Result<
    TypeModel,
    ErrorModel,
> {
    match r {
        Ok(t) => Ok(t.model()),
        Err(e) => Err(e.model()),
    }
}

/// Splits a type-expression string into its constructor name and optional
/// inner argument. Primitive names are leaves: any text after them is not
/// inspected. This step itself never fails; a missing argument is only
/// rejected later, by resolution.
pub fn parse_typeref_string(input: String) -> (r: Result<(String, Option<String>), FMLError>)
    ensures
        r matches Ok(p) && p.0@ == parse_parts(input@).0 && opt_str_model(p.1) == parse_parts(
            input@,
        ).1,
{
    let s = input.as_str();
    let n = s.unicode_len();
    let d = find_delim(s);
    proof {
        lemma_delim_pos(s@);
    }
    let name = trim_str(s.substring_char(0, d));
    if str_eq(name.as_str(), "String") || str_eq(name.as_str(), "Int") || str_eq(
        name.as_str(),
        "Boolean",
    ) {
        return Ok((name, None));
    }
    if d == n {
        return Ok((name, None));
    }
    if s.get_char(d) == '>' {
        return Ok((name, None));
    }
    let rest = s.substring_char(d + 1, n);
    let c = find_close(rest);
    let inner = rest.substring_char(0, c).to_owned();
    Ok((name, Some(inner)))
}

impl TypeRef {
    /// Resolves a type-expression string into a `TypeRef`, rejecting a
    /// missing generic argument, an unrecognized constructor, and an
    /// unsupported map key with the corresponding error.
    pub fn try_from(val: String) -> (r: Result<TypeRef, FMLError>)
        ensures
            type_result_model(r) == resolve_type(val@),
        decreases val@.len(), 1nat,
    {
        let ghost gs = val@;
        let (name, arg) = match parse_typeref_string(val) {
            Ok(p) => p,
            Err(e) => {
                return Err(e);
            },
        };
        proof {
            lemma_parse_parts_arg(gs);
        }
        if str_eq(name.as_str(), "String") {
            Ok(TypeRef::String)
        } else if str_eq(name.as_str(), "Int") {
            Ok(TypeRef::Int)
        } else if str_eq(name.as_str(), "Boolean") {
            Ok(TypeRef::Boolean)
        } else if str_eq(name.as_str(), "BundleText") {
            match arg {
                Some(a) => Ok(TypeRef::BundleText(trim_str(a.as_str()))),
                None => Err(FMLError::MalformedTypeExpression(name)),
            }
        } else if str_eq(name.as_str(), "BundleImage") {
            match arg {
                Some(a) => Ok(TypeRef::BundleImage(trim_str(a.as_str()))),
                None => Err(FMLError::MalformedTypeExpression(name)),
            }
        } else if str_eq(name.as_str(), "Enum") {
            match arg {
                Some(a) => Ok(TypeRef::Enum(trim_str(a.as_str()))),
                None => Err(FMLError::MalformedTypeExpression(name)),
            }
        } else if str_eq(name.as_str(), "Object") {
            match arg {
                Some(a) => Ok(TypeRef::Object(trim_str(a.as_str()))),
                None => Err(FMLError::MalformedTypeExpression(name)),
            }
        } else if str_eq(name.as_str(), "List") {
            match arg {
                Some(a) => match TypeRef::try_from(a) {
                    Ok(t) => Ok(TypeRef::List(Box::new(t))),
                    Err(e) => Err(e),
                },
                None => Err(FMLError::MalformedTypeExpression(name)),
            }
        } else if str_eq(name.as_str(), "Option") {
            match arg {
                Some(a) => match TypeRef::try_from(a) {
                    Ok(t) => Ok(TypeRef::Option(Box::new(t))),
                    Err(e) => Err(e),
                },
                None => Err(FMLError::MalformedTypeExpression(name)),
            }
        } else if str_eq(name.as_str(), "Map") {
            match arg {
                Some(a) => Self::resolve_map_arg(a),
                None => Err(FMLError::MalformedTypeExpression(name)),
            }
        } else {
            Err(FMLError::TypeParsingError(name))
        }
    }

    /// Resolves the inner argument of a `Map<...>` expression.
    fn resolve_map_arg(a: String) -> (r: Result<TypeRef, FMLError>)
        ensures
            type_result_model(r) == resolve_map(a@),
        decreases a@.len(), 0nat,
    {
        let n = a.as_str().unicode_len();
        let p = find_comma(a.as_str());
        if p == n {
            return Err(FMLError::MalformedTypeExpression("Map".to_owned()));
        }
        let key = a.as_str().substring_char(0, p).to_owned();
        let value = a.as_str().substring_char(p + 1, n).to_owned();
        if find_comma(value.as_str()) != value.as_str().unicode_len() {
            return Err(FMLError::MalformedTypeExpression("Map".to_owned()));
        }
        let key_trimmed = trim_str(key.as_str());
        match TypeRef::try_from(key) {
            Ok(k) => match k {
                TypeRef::Enum(_) => match TypeRef::try_from(value) {
                    Ok(v) => Ok(TypeRef::EnumMap(Box::new(k), Box::new(v))),
                    Err(e) => Err(e),
                },
                TypeRef::String => match TypeRef::try_from(value) {
                    Ok(v) => Ok(TypeRef::StringMap(Box::new(v))),
                    Err(e) => Err(e),
                },
                _ => Err(FMLError::UnsupportedMapKey(key_trimmed)),
            },
            Err(_) => Err(FMLError::UnsupportedMapKey(key_trimmed)),
        }
    }
}

} // verus!
