//! The library's model of a response envelope: exactly what the
//! validators read of the JSON-RPC reply, as plain values. The transport
//! layer converts the raw reply into these shapes; every way that reading
//! can fail is kept apart so each failure keeps its own error.

use vstd::prelude::*;

use crate::block::{Block, BlockView};
use crate::model::{JsonStoredValue, JsonStoredValueView};

verus! {

/// View of a field of the result object.
#[verifier::ext_equal]
pub enum JsonFieldView<V> {
    Missing,
    Invalid,
    Present(V),
}

/// A field of the result object: absent, present but not decodable into
/// the expected shape, or decoded.
#[derive(Debug)]
pub enum JsonField<T> {
    /// The field is not in the result object.
    Missing,
    /// The field is there but does not decode to the expected shape.
    Invalid,
    /// The decoded field.
    Present(T),
}

impl<T: View> View for JsonField<T> {
    type V = JsonFieldView<T::V>;

    open spec fn view(&self) -> JsonFieldView<T::V> {
        match self {
            JsonField::Missing => JsonFieldView::Missing,
            JsonField::Invalid => JsonFieldView::Invalid,
            JsonField::Present(t) => JsonFieldView::Present(t@),
        }
    }
}

/// View of the result object of a key/value query.
#[verifier::ext_equal]
pub struct QueryResultView {
    pub merkle_proof: JsonFieldView<Seq<u8>>,
    pub stored_value: JsonFieldView<JsonStoredValueView>,
}

/// The result object of a key/value query: the hex-encoded proof material
/// and the human-readable stored value.
#[derive(Debug)]
pub struct QueryResult {
    /// The `merkle_proof` field: a hex string, as bytes.
    pub merkle_proof: JsonField<Vec<u8>>,
    /// The `stored_value` field: the human-readable value.
    pub stored_value: JsonField<JsonStoredValue>,
}

impl View for QueryResult {
    type V = QueryResultView;

    open spec fn view(&self) -> QueryResultView {
        QueryResultView { merkle_proof: self.merkle_proof@, stored_value: self.stored_value@ }
    }
}

/// View of a key/value query response.
#[verifier::ext_equal]
pub struct QueryResponseView {
    pub result: Option<QueryResultView>,
}

/// A key/value query response: the result object, or nothing when the
/// reply carried none (an error reply, or not an object).
#[derive(Debug)]
pub struct QueryResponse {
    pub result: Option<QueryResult>,
}

impl View for QueryResponse {
    type V = QueryResponseView;

    open spec fn view(&self) -> QueryResponseView {
        QueryResponseView {
            result: match &self.result {
                None => None,
                Some(qr) => Some(qr@),
            },
        }
    }
}

/// View of the result object of a balance query.
#[verifier::ext_equal]
pub struct BalanceResultView {
    pub merkle_proof: JsonFieldView<Seq<u8>>,
    pub balance_value: JsonFieldView<Seq<u8>>,
}

/// The result object of a balance query: the hex-encoded pair of proofs
/// and the claimed balance as a decimal string.
#[derive(Debug)]
pub struct BalanceResult {
    /// The `merkle_proof` field: a hex string, as bytes.
    pub merkle_proof: JsonField<Vec<u8>>,
    /// The `balance_value` field: a decimal string, as bytes.
    pub balance_value: JsonField<Vec<u8>>,
}

impl View for BalanceResult {
    type V = BalanceResultView;

    open spec fn view(&self) -> BalanceResultView {
        BalanceResultView { merkle_proof: self.merkle_proof@, balance_value: self.balance_value@ }
    }
}

/// View of a balance query response.
#[verifier::ext_equal]
pub struct BalanceResponseView {
    pub result: Option<BalanceResultView>,
}

/// A balance query response: the result object, or nothing when the reply
/// carried none.
#[derive(Debug)]
pub struct BalanceResponse {
    pub result: Option<BalanceResult>,
}

impl View for BalanceResponse {
    type V = BalanceResponseView;

    open spec fn view(&self) -> BalanceResponseView {
        BalanceResponseView {
            result: match &self.result {
                None => None,
                Some(br) => Some(br@),
            },
        }
    }
}

/// View of the block field of a block query response.
#[verifier::ext_equal]
pub enum BlockFieldView {
    Missing,
    Invalid,
    Null,
    Present(BlockView),
}

/// The `block` field of a block query response.
#[derive(Debug)]
pub enum BlockField {
    /// The reply carried no result object, or no `block` field in it.
    Missing,
    /// The field is there but does not decode to a block.
    Invalid,
    /// The field is explicitly empty: no such block.
    Null,
    /// The decoded block.
    Present(Block),
}

impl View for BlockField {
    type V = BlockFieldView;

    open spec fn view(&self) -> BlockFieldView {
        match self {
            BlockField::Missing => BlockFieldView::Missing,
            BlockField::Invalid => BlockFieldView::Invalid,
            BlockField::Null => BlockFieldView::Null,
            BlockField::Present(b) => BlockFieldView::Present(b@),
        }
    }
}

/// View of a block query response.
#[verifier::ext_equal]
pub struct BlockResponseView {
    pub block: BlockFieldView,
}

/// A block query response, reduced to its `block` field.
#[derive(Debug)]
pub struct BlockResponse {
    pub block: BlockField,
}

impl View for BlockResponse {
    type V = BlockResponseView;

    open spec fn view(&self) -> BlockResponseView {
        BlockResponseView { block: self.block@ }
    }
}

} // verus!
