//! Snapshots of the rows of the three record domains.

use vstd::prelude::*;
use crate::decimal::DecimalValue;

verus! {

/// Where a tradable asset stands in its life.
#[derive(Clone, Copy, Debug, PartialEq, Eq)]
pub enum TokenStatus {
    Pending,
    Active,
    Sold,
    Expired,
    Cancelled,
}

impl TokenStatus {
    /// The status as stored text.
    pub open spec fn text(self) -> Seq<char> {
        match self {
            TokenStatus::Pending => "pending"@,
            TokenStatus::Active => "active"@,
            TokenStatus::Sold => "sold"@,
            TokenStatus::Expired => "expired"@,
            TokenStatus::Cancelled => "cancelled"@,
        }
    }

    pub fn as_str(&self) -> (text: &'static str)
        ensures
            text@ == self.text(),
    {
        match self {
            TokenStatus::Pending => "pending",
            TokenStatus::Active => "active",
            TokenStatus::Sold => "sold",
            TokenStatus::Expired => "expired",
            TokenStatus::Cancelled => "cancelled",
        }
    }

    /// The status that a stored text stands for; a text that names none counts as active.
    pub open spec fn of_text(text: Seq<char>) -> TokenStatus {
        if text == "pending"@ {
            TokenStatus::Pending
        } else if text == "sold"@ {
            TokenStatus::Sold
        } else if text == "expired"@ {
            TokenStatus::Expired
        } else if text == "cancelled"@ {
            TokenStatus::Cancelled
        } else {
            TokenStatus::Active
        }
    }

    /// Reads a status from its stored text; a text that names none counts as active.
    pub fn from_text(text: &str) -> (status: TokenStatus)
        ensures
            status == Self::of_text(text@),
    {
        let owned = text.to_owned();
        if owned == "pending".to_owned() {
            TokenStatus::Pending
        } else if owned == "sold".to_owned() {
            TokenStatus::Sold
        } else if owned == "expired".to_owned() {
            TokenStatus::Expired
        } else if owned == "cancelled".to_owned() {
            TokenStatus::Cancelled
        } else {
            TokenStatus::Active
        }
    }

    /// Every status, in declaration order.
    pub fn all() -> (statuses: Vec<TokenStatus>)
        ensures
            statuses@ == seq![
                TokenStatus::Pending,
                TokenStatus::Active,
                TokenStatus::Sold,
                TokenStatus::Expired,
                TokenStatus::Cancelled,
            ],
    {
        let mut statuses: Vec<TokenStatus> = Vec::new();
        statuses.push(TokenStatus::Pending);
        statuses.push(TokenStatus::Active);
        statuses.push(TokenStatus::Sold);
        statuses.push(TokenStatus::Expired);
        statuses.push(TokenStatus::Cancelled);
        statuses
    }
}

/// Reading the stored text of a status gives that status back.
pub proof fn lemma_status_text_round_trip(status: TokenStatus)
    ensures
        TokenStatus::of_text(status.text()) == status,
{
    reveal_strlit("pending");
    reveal_strlit("active");
    reveal_strlit("sold");
    reveal_strlit("expired");
    reveal_strlit("cancelled");
    assert("active"@.len() == 6 && "sold"@.len() == 4 && "cancelled"@.len() == 9);
    assert("pending"@[0] == 'p' && "expired"@[0] == 'e');
}

/// One tradable asset. Times are seconds since the Unix epoch, UTC; the two reports are
/// held as their JSON text.
#[derive(Clone, Debug, PartialEq, Eq)]
pub struct OilTokenModel {
    pub id: i32,
    pub token_id: i32,
    pub oil_type: String,
    pub grade: String,
    pub quantity: DecimalValue,
    pub unit: String,
    pub location: String,
    pub certification: String,
    pub quality_report: String,
    pub storage_conditions: String,
    pub expiry_date: i64,
    pub current_price: DecimalValue,
    pub reserve_price: DecimalValue,
    pub status: Option<TokenStatus>,
    pub owner: String,
    pub created_at: i64,
    pub updated_at: i64,
}

/// One ownership transfer of an asset.
#[derive(Clone, Debug, PartialEq, Eq)]
pub struct TokenizationModel {
    pub id: i32,
    pub oil_token_id: i32,
    pub tokenizer_id: String,
    pub amount: DecimalValue,
    pub created_at: i64,
    pub updated_at: i64,
}

/// One annotation on an asset.
#[derive(Clone, Debug, PartialEq, Eq)]
pub struct CommentModel {
    pub id: i32,
    pub oil_token_id: i32,
    pub user: String,
    pub content: String,
    pub created_at: i64,
    pub updated_at: i64,
}

} // verus!
