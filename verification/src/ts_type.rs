//! Type expressions and their canonical text.

use crate::text::{join, lemma_join_many, signed_decimal_text};
use vstd::prelude::*;

verus! {

/// A literal used as a type: a boolean, a string or a number.
#[derive(Debug)]
pub enum LiteralDef {
    Boolean(bool),
    String(String),
    Number(i64),
}

/// One parameter of a function, a constructor or a function type.
#[derive(Debug)]
pub struct ParamDef {
    pub name: String,
    pub ts_type: Option<TsTypeDef>,
}

/// A type expression. Each value is exactly one variant and carries that
/// variant's own data, so a tag can never disagree with what it tags.
#[derive(Debug)]
pub enum TsTypeDef {
    /// `element[]`
    Array(Box<TsTypeDef>),
    /// `check extends extends ? true : false`
    Conditional {
        check_type: Box<TsTypeDef>,
        extends_type: Box<TsTypeDef>,
        true_type: Box<TsTypeDef>,
        false_type: Box<TsTypeDef>,
    },
    /// A function type, or a constructor type where `constructor` is set.
    FnOrConstructor { constructor: bool, params: Vec<ParamDef>, ts_type: Box<TsTypeDef> },
    /// `object[index]`
    IndexedAccess { obj_type: Box<TsTypeDef>, index_type: Box<TsTypeDef> },
    /// `a & b & c`
    Intersection(Vec<TsTypeDef>),
    /// A keyword such as `number` or `string`, kept as written.
    Keyword(String),
    /// A literal type.
    Literal(LiteralDef),
    /// An optional type. It carries the type it wraps, which the rendered text
    /// does not show.
    Optional(Box<TsTypeDef>),
    /// `(inner)`
    Parenthesized(Box<TsTypeDef>),
    /// `...inner`
    Rest(Box<TsTypeDef>),
    /// `this`
    This,
    /// The element types of a tuple.
    Tuple(Vec<TsTypeDef>),
    /// An object type, carried as text that was rendered beforehand.
    TypeLiteral(String),
    /// An operator keyword such as `keyof` applied to a type.
    TypeOperator { operator: String, ts_type: Box<TsTypeDef> },
    /// `typeof name`, with the name carried as text.
    TypeQuery(String),
    /// A named type with its type arguments, if it has a list of them.
    TypeRef { name: String, type_params: Option<Vec<TsTypeDef>> },
    /// `a | b | c`
    Union(Vec<TsTypeDef>),
}

/// The text of a literal type: `true` or `false`, the string as it is, or the
/// number in decimal.
pub open spec fn literal_text(literal: LiteralDef) -> Seq<char> {
    match literal {
        LiteralDef::Boolean(value) => if value {
            "true"@
        } else {
            "false"@
        },
        LiteralDef::String(value) => value@,
        LiteralDef::Number(value) => signed_decimal_text(value as int),
    }
}

/// The canonical text of a type expression.
pub open spec fn type_text(ts_type: TsTypeDef) -> Seq<char>
    decreases ts_type, 0int,
{
    match ts_type {
        TsTypeDef::Array(element) => type_text(*element) + "[]"@,
        TsTypeDef::Conditional { check_type, extends_type, true_type, false_type } => type_text(
            *check_type,
        ) + " extends "@ + type_text(*extends_type) + " ? "@ + type_text(*true_type) + " : "@
            + type_text(*false_type),
        TsTypeDef::FnOrConstructor { constructor, params, ts_type } => (if constructor {
            "new "@
        } else {
            Seq::empty()
        }) + "("@ + params_text(params@) + ") => "@ + type_text(*ts_type),
        TsTypeDef::IndexedAccess { obj_type, index_type } => type_text(*obj_type) + "["@
            + type_text(*index_type) + "]"@,
        TsTypeDef::Intersection(types) => join(type_texts(types@), " & "@),
        TsTypeDef::Keyword(keyword) => keyword@,
        TsTypeDef::Literal(literal) => literal_text(literal),
        TsTypeDef::Optional(_) => "_optional_"@,
        TsTypeDef::Parenthesized(inner) => "("@ + type_text(*inner) + ")"@,
        TsTypeDef::Rest(inner) => "..."@ + type_text(*inner),
        TsTypeDef::This => "this"@,
        TsTypeDef::Tuple(types) => join(type_texts(types@), ", "@),
        TsTypeDef::TypeLiteral(repr) => repr@,
        TsTypeDef::TypeOperator { operator, ts_type } => operator@ + " "@ + type_text(*ts_type),
        TsTypeDef::TypeQuery(name) => "typeof "@ + name@,
        TsTypeDef::TypeRef { name, type_params } => name@ + (match type_params {
            Some(types) => type_args_text(types@),
            None => Seq::empty(),
        }),
        TsTypeDef::Union(types) => join(type_texts(types@), " | "@),
    }
}

/// The text of each type of a list, in the list's order.
pub open spec fn type_texts(types: Seq<TsTypeDef>) -> Seq<Seq<char>>
    decreases types, 0int,
{
    Seq::new(
        types.len(),
        |i: int|
            if 0 <= i < types.len() {
                type_text(types[i])
            } else {
                Seq::empty()
            },
    )
}

/// The type arguments of a named type: nothing for an empty list, else the
/// arguments joined with `, ` between `<` and `>`.
pub open spec fn type_args_text(types: Seq<TsTypeDef>) -> Seq<char>
    decreases types, 1int,
{
    if types.len() == 0 {
        Seq::empty()
    } else {
        "<"@ + join(type_texts(types), ", "@) + ">"@
    }
}

/// The text of one parameter: its name, then `: ` and its type where it has
/// one.
pub open spec fn param_text(param: ParamDef) -> Seq<char>
    decreases param, 0int,
{
    param.name@ + (match param.ts_type {
        Some(ts_type) => ": "@ + type_text(ts_type),
        None => Seq::empty(),
    })
}

/// The text of each parameter of a list, in the list's order.
pub open spec fn param_texts(params: Seq<ParamDef>) -> Seq<Seq<char>>
    decreases params, 0int,
{
    Seq::new(
        params.len(),
        |i: int|
            if 0 <= i < params.len() {
                param_text(params[i])
            } else {
                Seq::empty()
            },
    )
}

/// The text of a parameter list: the parameters joined with `, `.
pub open spec fn params_text(params: Seq<ParamDef>) -> Seq<char>
    decreases params, 1int,
{
    join(param_texts(params), ", "@)
}

/// The text of a type expression depends on the expression alone: two texts
/// that were each rendered from one expression are the same text.
pub proof fn lemma_type_text_is_function(ts_type: TsTypeDef, first: String, second: String)
    requires
        first@ == type_text(ts_type),
        second@ == type_text(ts_type),
    ensures
        first@ == second@,
{
}

/// A parenthesized type is its inner type between `(` and `)`.
pub proof fn lemma_parenthesized_text(inner: TsTypeDef)
    ensures
        type_text(TsTypeDef::Parenthesized(Box::new(inner))) == "("@ + type_text(inner) + ")"@,
{
}

/// An array type is its element type followed by `[]`.
pub proof fn lemma_array_text(element: TsTypeDef)
    ensures
        type_text(TsTypeDef::Array(Box::new(element))) == type_text(element) + "[]"@,
{
}

/// Unions, intersections, tuples and the type arguments of a named type are
/// the texts of their types joined: with ` | `, with ` & `, with `, `, and
/// with `, ` between `<` and `>`. A named type with an empty list of
/// arguments is the name alone.
pub proof fn lemma_list_texts(types: Vec<TsTypeDef>, name: String)
    ensures
        type_text(TsTypeDef::Union(types)) == join(type_texts(types@), " | "@),
        type_text(TsTypeDef::Intersection(types)) == join(type_texts(types@), " & "@),
        type_text(TsTypeDef::Tuple(types)) == join(type_texts(types@), ", "@),
        types@.len() == 0 ==> type_text(TsTypeDef::TypeRef { name, type_params: Some(types) })
            == name@,
        types@.len() > 0 ==> type_text(TsTypeDef::TypeRef { name, type_params: Some(types) })
            == name@ + "<"@ + join(type_texts(types@), ", "@) + ">"@,
{
    let type_ref = TsTypeDef::TypeRef { name, type_params: Some(types) };
    assert(type_text(type_ref) == name@ + type_args_text(types@));
}

/// A joined list of no types is the empty text.
pub proof fn lemma_joined_types_empty(types: Seq<TsTypeDef>, separator: Seq<char>)
    requires
        types.len() == 0,
    ensures
        join(type_texts(types), separator) == Seq::<char>::empty(),
{
}

/// A joined list of one type is the text of that type, without a separator.
pub proof fn lemma_joined_types_single(types: Seq<TsTypeDef>, separator: Seq<char>)
    requires
        types.len() == 1,
    ensures
        join(type_texts(types), separator) == type_text(types[0]),
{
}

/// A joined list of two or more types starts with the text of the first type
/// and ends with the text of the last one; between the first type and the
/// rest, and between the rest and the last type, stands one separator.
pub proof fn lemma_joined_types_many(types: Seq<TsTypeDef>, separator: Seq<char>)
    requires
        types.len() >= 2,
    ensures
        join(type_texts(types), separator) == type_text(types.first()) + separator + join(
            type_texts(types.drop_first()),
            separator,
        ),
        join(type_texts(types), separator) == join(type_texts(types.drop_last()), separator)
            + separator + type_text(types.last()),
{
    let texts = type_texts(types);
    lemma_join_many(texts, separator);
    assert(texts.drop_first() == type_texts(types.drop_first()));
    assert(texts.drop_last() == type_texts(types.drop_last()));
}

} // verus!
