//! What this crate takes on trust: the calls into `hcl`, which parses and
//! prints the documents, and into the formatting of std, `serde_json` and
//! `anyhow`.
//!
//! Nothing in this file is proved. `parse_document`, `render_document`,
//! `identifier_error`, `is_number_text`, `debug_list`, `to_lowercase` and the
//! three functions for the text of an outside error are what the rest of the
//! crate calls; each says in its contract what it takes from outside. The
//! other functions copy a document between this crate's types and those of
//! `hcl`, node by node.

use vstd::prelude::*;
use crate::document::{
    BodyView, TfAttribute, TfBlock, TfBody, TfExpression, TfKey, TfObject, TfStructure,
    printable_body,
};
use crate::text::texts;

verus! {

#[verifier::external_type_specification]
#[verifier::external_body]
pub struct ExIoError(std::io::Error);

#[verifier::external_type_specification]
#[verifier::external_body]
pub struct ExJsonError(serde_json::Error);

#[verifier::external_type_specification]
#[verifier::external_body]
pub struct ExAnyhowError(anyhow::Error);

#[verifier::external_type_specification]
#[verifier::external_body]
pub struct ExHclBody(hcl::Body);

#[verifier::external_type_specification]
#[verifier::external_body]
pub struct ExHclStructure(hcl::Structure);

#[verifier::external_type_specification]
#[verifier::external_body]
pub struct ExHclExpression(hcl::Expression);

#[verifier::external_type_specification]
#[verifier::external_body]
pub struct ExHclObjectKey(hcl::ObjectKey);

#[verifier::external_type_specification]
#[verifier::external_body]
pub struct ExHclTraversal(hcl::expr::Traversal);

/// What `hcl::from_str` makes of a text: the document, or the parser's message.
pub uninterp spec fn hcl_document(text: Seq<char>) -> Result<BodyView, Seq<char>>;

/// What `hcl::to_string` prints for a document, or the printer's message.
pub uninterp spec fn hcl_text(body: BodyView) -> Result<Seq<char>, Seq<char>>;

/// Whether `hcl::Identifier::new` accepts a text as an identifier.
pub uninterp spec fn hcl_identifier(text: Seq<char>) -> bool;

/// Whether `serde_json::from_str` reads a text as an `hcl::Number`.
pub uninterp spec fn hcl_number(text: Seq<char>) -> bool;

/// What the `Debug` formatting of std prints for a list of strings: the
/// strings in quotes and with escapes, between square brackets.
pub uninterp spec fn debug_text(values: Seq<Seq<char>>) -> Seq<char>;

/// What `str::to_lowercase` makes of a text.
pub uninterp spec fn lowercase(text: Seq<char>) -> Seq<char>;

/// Copies a key out of `hcl`: an identifier stays one, any other key becomes
/// a quoted key with the text that `hcl` formats it to.
#[verifier::external_body]
fn key_from_hcl(key: &hcl::ObjectKey) -> TfKey {
    match key {
        hcl::ObjectKey::Identifier(name) => TfKey::Identifier(name.to_string()),
        other => TfKey::Quoted(other.to_string()),
    }
}

/// Copies an expression without parts out of `hcl`; a number by its decimal text.
#[verifier::external_body]
fn scalar_from_hcl(e: &hcl::Expression) -> TfExpression {
    match e {
        hcl::Expression::Null => TfExpression::Null,
        hcl::Expression::Bool(b) => TfExpression::Bool(*b),
        hcl::Expression::Number(n) => TfExpression::Number(n.to_string()),
        hcl::Expression::String(s) => TfExpression::String(s.clone()),
        hcl::Expression::Variable(v) => TfExpression::Variable(v.to_string()),
        _ => TfExpression::Unsupported,
    }
}

/// Copies a traversal out of `hcl` where it is a chain of attribute names;
/// any other traversal is unsupported.
#[verifier::external_body]
fn traversal_from_hcl(t: &hcl::expr::Traversal) -> TfExpression {
    let names: Option<Vec<String>> = t.operators.iter().map(|op| match op {
        hcl::expr::TraversalOperator::GetAttr(name) => Some(name.to_string()),
        _ => None,
    }).collect();
    match names {
        Some(attrs) => TfExpression::Traversal { root: Box::new(expression_from_hcl(&t.expr)), attrs },
        None => TfExpression::Unsupported,
    }
}

/// Copies an expression out of `hcl`, part by part.
#[verifier::external_body]
fn expression_from_hcl(e: &hcl::Expression) -> TfExpression {
    match e {
        hcl::Expression::Array(items) => TfExpression::Array(items.iter().map(expression_from_hcl).collect()),
        hcl::Expression::Object(object) => TfExpression::Object(TfObject {
            entries: object.iter().map(|(k, v)| (key_from_hcl(k), expression_from_hcl(v))).collect(),
        }),
        hcl::Expression::Traversal(t) => traversal_from_hcl(t),
        hcl::Expression::FuncCall(f) => TfExpression::FuncCall {
            name: f.name.to_string(),
            args: f.args.iter().map(expression_from_hcl).collect(),
            expand_final: f.expand_final,
        },
        other => scalar_from_hcl(other),
    }
}

/// Copies an attribute or a block out of `hcl`; a label by its text.
#[verifier::external_body]
fn structure_from_hcl(structure: &hcl::Structure) -> TfStructure {
    match structure {
        hcl::Structure::Attribute(a) => TfStructure::Attribute(TfAttribute {
            key: a.key().to_string(),
            expr: expression_from_hcl(a.expr()),
        }),
        hcl::Structure::Block(b) => TfStructure::Block(TfBlock {
            identifier: b.identifier().to_string(),
            labels: b.labels().iter().map(|l| l.as_str().to_string()).collect(),
            body: body_from_hcl(b.body()),
        }),
    }
}

/// Copies a body out of `hcl`, structure by structure.
#[verifier::external_body]
fn body_from_hcl(body: &hcl::Body) -> TfBody {
    TfBody { structures: body.iter().map(structure_from_hcl).collect() }
}

/// Copies a key into `hcl`. An identifier goes through
/// `hcl::Identifier::sanitized`, which leaves a valid identifier as it is.
#[verifier::external_body]
fn key_to_hcl(key: &TfKey) -> hcl::ObjectKey {
    match key {
        TfKey::Identifier(name) => hcl::ObjectKey::Identifier(hcl::Identifier::sanitized(name)),
        TfKey::Quoted(text) => hcl::ObjectKey::Expression(hcl::Expression::String(text.clone())),
    }
}

/// Copies a chain of attribute names on an expression into `hcl`.
#[verifier::external_body]
fn traversal_to_hcl(root: &TfExpression, attrs: &Vec<String>) -> hcl::Expression {
    hcl::expr::Traversal::new(expression_to_hcl(root), attrs.iter().map(String::as_str)).into()
}

/// Copies a function call into `hcl`.
#[verifier::external_body]
fn call_to_hcl(name: &String, args: &Vec<TfExpression>, expand_final: bool) -> hcl::Expression {
    hcl::expr::FuncCall {
        name: hcl::Identifier::sanitized(name),
        args: args.iter().map(expression_to_hcl).collect(),
        expand_final,
    }.into()
}

/// Copies an expression without parts into `hcl`. A variable's name goes
/// through `hcl::Variable::sanitized`; the text of a number is read into an
/// `hcl::Number` by `serde_json::from_str`. A text that is no number and an
/// unsupported expression have no counterpart; `render_document` does not
/// admit them.
#[verifier::external_body]
fn scalar_to_hcl(e: &TfExpression) -> hcl::Expression {
    match e {
        TfExpression::Bool(b) => hcl::Expression::Bool(*b),
        TfExpression::Number(text) => serde_json::from_str::<hcl::Number>(text)
            .map_or(hcl::Expression::Null, hcl::Expression::Number),
        TfExpression::String(s) => hcl::Expression::String(s.clone()),
        TfExpression::Variable(name) => hcl::Expression::Variable(hcl::Variable::sanitized(name)),
        _ => hcl::Expression::Null,
    }
}

/// Copies an expression into `hcl`, part by part.
#[verifier::external_body]
fn expression_to_hcl(e: &TfExpression) -> hcl::Expression {
    match e {
        TfExpression::Array(items) => hcl::Expression::Array(items.iter().map(expression_to_hcl).collect()),
        TfExpression::Object(object) => hcl::Expression::Object(
            object.entries.iter().map(|(k, v)| (key_to_hcl(k), expression_to_hcl(v))).collect(),
        ),
        TfExpression::Traversal { root, attrs } => traversal_to_hcl(root, attrs),
        TfExpression::FuncCall { name, args, expand_final } => call_to_hcl(name, args, *expand_final),
        other => scalar_to_hcl(other),
    }
}

/// Copies a body into `hcl`, structure by structure.
#[verifier::external_body]
fn body_to_hcl(body: &TfBody) -> hcl::Body {
    body.structures.iter().map(structure_to_hcl).collect()
}

/// Copies an attribute or a block into `hcl` with the builders of `hcl`,
/// which sanitize identifiers and quote labels.
#[verifier::external_body]
fn structure_to_hcl(structure: &TfStructure) -> hcl::Structure {
    match structure {
        TfStructure::Attribute(a) => hcl::Attribute::new(a.key.as_str(), expression_to_hcl(&a.expr)).into(),
        TfStructure::Block(b) => hcl::Block::builder(b.identifier.as_str())
            .add_labels(b.labels.iter())
            .add_structures(b.body.structures.iter().map(structure_to_hcl))
            .build()
            .into(),
    }
}

/// `hcl::from_str` into `hcl::Body`, copied into this crate's types: the
/// document that the parser reads from `text`, or its message where the text
/// is no HCL.
#[verifier::external_body]
pub(crate) fn parse_document(text: &str) -> (r: Result<TfBody, String>)
    ensures
        match r {
            Ok(body) => hcl_document(text@) == Ok::<BodyView, Seq<char>>(body@),
            Err(message) => hcl_document(text@) == Err::<BodyView, Seq<char>>(message@),
        },
{
    match hcl::from_str::<hcl::Body>(text) {
        Ok(body) => Ok(body_from_hcl(&body)),
        Err(err) => Err(err.to_string()),
    }
}

/// `hcl::to_string` on the `hcl::Body` that the document is copied into: the
/// text that the printer writes, or its message.
#[verifier::external_body]
pub(crate) fn render_document(body: &TfBody) -> (r: Result<String, String>)
    requires
        printable_body(body@),
    ensures
        match r {
            Ok(text) => hcl_text(body@) == Ok::<Seq<char>, Seq<char>>(text@),
            Err(message) => hcl_text(body@) == Err::<Seq<char>, Seq<char>>(message@),
        },
{
    hcl::to_string(&body_to_hcl(body)).map_err(|err| err.to_string())
}

/// `hcl::Identifier::new`: `None` where the text is accepted as an
/// identifier, else the message of the error, which quotes the text.
#[verifier::external_body]
pub(crate) fn identifier_error(text: &str) -> (r: Option<String>)
    ensures
        r is None <==> hcl_identifier(text@),
        r matches Some(message) ==> message@ == "invalid identifier `"@ + text@ + "`"@,
{
    hcl::Identifier::new(text).err().map(|err| err.to_string())
}

/// `serde_json::from_str` into `hcl::Number`: whether the text is read as a
/// number. The answer is a function of the text alone.
#[verifier::external_body]
pub(crate) fn is_number_text(text: &str) -> (r: bool)
    ensures
        r == hcl_number(text@),
{
    serde_json::from_str::<hcl::Number>(text).is_ok()
}

/// `format!("{:?}", values)` for a list of strings. The text is a function
/// of the strings alone; their escaping is left to std.
#[verifier::external_body]
pub(crate) fn debug_list(values: &Vec<String>) -> (r: String)
    ensures
        r@ == debug_text(texts(values@)),
{
    format!("{:?}", values)
}

/// `str::to_lowercase`: the text in lower case, as Unicode defines it. The
/// result is a function of the text alone.
#[verifier::external_body]
pub(crate) fn to_lowercase(text: &str) -> (r: String)
    ensures
        r@ == lowercase(text@),
{
    text.to_lowercase()
}

/// The text that `std::io::Error` formats itself to. Nothing is claimed of it.
#[verifier::external_body]
pub(crate) fn io_error_text(err: &std::io::Error) -> String {
    err.to_string()
}

/// The text that `serde_json::Error` formats itself to. Nothing is claimed of it.
#[verifier::external_body]
pub(crate) fn json_error_text(err: &serde_json::Error) -> String {
    err.to_string()
}

/// The text that `anyhow::Error` formats itself to. Nothing is claimed of it.
#[verifier::external_body]
pub(crate) fn anyhow_error_text(err: &anyhow::Error) -> String {
    err.to_string()
}

} // verus!
