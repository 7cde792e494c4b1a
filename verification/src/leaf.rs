//! Leaves: one canonical string per row, its fields in a fixed order with a colon between
//! them. A colon inside a field is not escaped, so two different rows can share a leaf.

use vstd::prelude::*;
use vstd::string::*;
use crate::commitment::leaf_texts;
use crate::decimal::DecimalValue;
use crate::rows::{CommentModel, OilTokenModel, TokenStatus, TokenizationModel};
use crate::text::{int_text, push_int};

verus! {

/// The text that stands between two fields of a leaf.
pub open spec fn separator() -> Seq<char> {
    seq![':']
}

/// The text of an optional status: empty where there is none.
pub open spec fn status_text(status: Option<TokenStatus>) -> Seq<char> {
    match status {
        Some(s) => s.text(),
        None => Seq::<char>::empty(),
    }
}

/// The leaf of an annotation: identifier, asset, author, content, created, updated.
pub open spec fn comment_leaf(row: CommentModel) -> Seq<char> {
    int_text(row.id as int) + separator()
        + int_text(row.oil_token_id as int) + separator()
        + row.user@ + separator()
        + row.content@ + separator()
        + int_text(row.created_at as int) + separator()
        + int_text(row.updated_at as int)
}

/// The leaf of a transfer: identifier, asset, tokenizer, amount, created, updated.
pub open spec fn tokenization_leaf(row: TokenizationModel) -> Seq<char> {
    int_text(row.id as int) + separator()
        + int_text(row.oil_token_id as int) + separator()
        + row.tokenizer_id@ + separator()
        + row.amount.text() + separator()
        + int_text(row.created_at as int) + separator()
        + int_text(row.updated_at as int)
}

/// The leaf of an asset: identifier, token reference, category, grade, quantity, unit,
/// location, certification, quality report, storage conditions, expiry, price, reserve
/// price, status, owner, created, updated.
pub open spec fn oil_token_leaf(row: OilTokenModel) -> Seq<char> {
    int_text(row.id as int) + separator()
        + int_text(row.token_id as int) + separator()
        + row.oil_type@ + separator()
        + row.grade@ + separator()
        + row.quantity.text() + separator()
        + row.unit@ + separator()
        + row.location@ + separator()
        + row.certification@ + separator()
        + row.quality_report@ + separator()
        + row.storage_conditions@ + separator()
        + int_text(row.expiry_date as int) + separator()
        + row.current_price.text() + separator()
        + row.reserve_price.text() + separator()
        + status_text(row.status) + separator()
        + row.owner@ + separator()
        + int_text(row.created_at as int) + separator()
        + int_text(row.updated_at as int)
}

/// The leaves of a snapshot of annotations, in the order of the rows.
pub open spec fn comment_leaves(rows: Seq<CommentModel>) -> Seq<Seq<char>> {
    Seq::new(rows.len(), |i: int| comment_leaf(rows[i]))
}

/// The leaves of a snapshot of transfers, in the order of the rows.
pub open spec fn tokenization_leaves(rows: Seq<TokenizationModel>) -> Seq<Seq<char>> {
    Seq::new(rows.len(), |i: int| tokenization_leaf(rows[i]))
}

/// The leaves of a snapshot of assets, in the order of the rows.
pub open spec fn oil_token_leaves(rows: Seq<OilTokenModel>) -> Seq<Seq<char>> {
    Seq::new(rows.len(), |i: int| oil_token_leaf(rows[i]))
}

/// Two annotations that differ only in where a colon parts author from content share
/// their leaf: the separator is not escaped.
pub proof fn lemma_unescaped_separator_is_ambiguous(first: CommentModel, second: CommentModel)
    requires
        first.id == second.id,
        first.oil_token_id == second.oil_token_id,
        first.created_at == second.created_at,
        first.updated_at == second.updated_at,
        first.user@ + separator() + first.content@ == second.user@ + separator()
            + second.content@,
    ensures
        comment_leaf(first) == comment_leaf(second),
{
    let head = int_text(first.id as int) + separator() + int_text(first.oil_token_id as int)
        + separator();
    let tail = separator() + int_text(first.created_at as int) + separator() + int_text(
        first.updated_at as int,
    );
    assert(comment_leaf(first) =~= head + (first.user@ + separator() + first.content@) + tail);
    assert(comment_leaf(second) =~= head + (second.user@ + separator() + second.content@)
        + tail);
}

fn push_separator(out: &mut String)
    ensures
        final(out)@ == old(out)@ + separator(),
{
    proof {
        reveal_strlit(":");
    }
    out.append(":");
}

fn push_int_field(out: &mut String, value: i64)
    ensures
        final(out)@ == old(out)@ + int_text(value as int) + separator(),
{
    push_int(out, value);
    push_separator(out);
}

fn push_text_field(out: &mut String, value: &str)
    ensures
        final(out)@ == old(out)@ + value@ + separator(),
{
    out.append(value);
    push_separator(out);
}

fn push_decimal_field(out: &mut String, value: &DecimalValue)
    ensures
        final(out)@ == old(out)@ + value.text() + separator(),
{
    let text = value.to_text();
    out.append(text.as_str());
    push_separator(out);
}

/// Encodes one annotation.
pub fn encode_comment(row: &CommentModel) -> (leaf: String)
    ensures
        leaf@ == comment_leaf(*row),
{
    let mut out = String::new();
    push_int_field(&mut out, row.id as i64);
    push_int_field(&mut out, row.oil_token_id as i64);
    push_text_field(&mut out, row.user.as_str());
    push_text_field(&mut out, row.content.as_str());
    push_int_field(&mut out, row.created_at);
    push_int(&mut out, row.updated_at);
    out
}

/// Encodes one transfer.
pub fn encode_tokenization(row: &TokenizationModel) -> (leaf: String)
    ensures
        leaf@ == tokenization_leaf(*row),
{
    let mut out = String::new();
    push_int_field(&mut out, row.id as i64);
    push_int_field(&mut out, row.oil_token_id as i64);
    push_text_field(&mut out, row.tokenizer_id.as_str());
    push_decimal_field(&mut out, &row.amount);
    push_int_field(&mut out, row.created_at);
    push_int(&mut out, row.updated_at);
    out
}

/// Encodes one asset.
pub fn encode_oil_token(row: &OilTokenModel) -> (leaf: String)
    ensures
        leaf@ == oil_token_leaf(*row),
{
    let mut out = String::new();
    push_int_field(&mut out, row.id as i64);
    push_int_field(&mut out, row.token_id as i64);
    push_text_field(&mut out, row.oil_type.as_str());
    push_text_field(&mut out, row.grade.as_str());
    push_decimal_field(&mut out, &row.quantity);
    push_text_field(&mut out, row.unit.as_str());
    push_text_field(&mut out, row.location.as_str());
    push_text_field(&mut out, row.certification.as_str());
    push_text_field(&mut out, row.quality_report.as_str());
    push_text_field(&mut out, row.storage_conditions.as_str());
    push_int_field(&mut out, row.expiry_date);
    push_decimal_field(&mut out, &row.current_price);
    push_decimal_field(&mut out, &row.reserve_price);
    match &row.status {
        Some(status) => {
            push_text_field(&mut out, status.as_str());
        },
        None => {
            push_separator(&mut out);
        },
    }
    push_text_field(&mut out, row.owner.as_str());
    push_int_field(&mut out, row.created_at);
    push_int(&mut out, row.updated_at);
    out
}

/// The leaves of a snapshot of annotations, in the order of the rows.
pub fn get_comment_leaves(comments: &Vec<CommentModel>) -> (leaves: Vec<String>)
    ensures
        leaf_texts(leaves@) == comment_leaves(comments@),
{
    let mut leaves: Vec<String> = Vec::new();
    let mut i: usize = 0;
    while i < comments.len()
        invariant
            i <= comments@.len(),
            leaves@.len() == i,
            forall|j: int| 0 <= j < i ==> leaves@[j]@ == comment_leaf(comments@[j]),
        decreases comments@.len() - i,
    {
        leaves.push(encode_comment(&comments[i]));
        i += 1;
    }
    leaves
}

/// The leaves of a snapshot of transfers, in the order of the rows.
pub fn get_tokenization_leaves(tokenizations: &Vec<TokenizationModel>) -> (leaves: Vec<String>)
    ensures
        leaf_texts(leaves@) == tokenization_leaves(tokenizations@),
{
    let mut leaves: Vec<String> = Vec::new();
    let mut i: usize = 0;
    while i < tokenizations.len()
        invariant
            i <= tokenizations@.len(),
            leaves@.len() == i,
            forall|j: int| 0 <= j < i ==> leaves@[j]@ == tokenization_leaf(tokenizations@[j]),
        decreases tokenizations@.len() - i,
    {
        leaves.push(encode_tokenization(&tokenizations[i]));
        i += 1;
    }
    leaves
}

/// The leaves of a snapshot of assets, in the order of the rows.
pub fn get_oil_token_leaves(oil_tokens: &Vec<OilTokenModel>) -> (leaves: Vec<String>)
    ensures
        leaf_texts(leaves@) == oil_token_leaves(oil_tokens@),
{
    let mut leaves: Vec<String> = Vec::new();
    let mut i: usize = 0;
    while i < oil_tokens.len()
        invariant
            i <= oil_tokens@.len(),
            leaves@.len() == i,
            forall|j: int| 0 <= j < i ==> leaves@[j]@ == oil_token_leaf(oil_tokens@[j]),
        decreases oil_tokens@.len() - i,
    {
        leaves.push(encode_oil_token(&oil_tokens[i]));
        i += 1;
    }
    leaves
}

} // verus!
