//! Selections on types that occur all over the schema.

use crate::graphql::composer::{graph_strings, selection_block, write_selection, ToGraphString};
use vstd::prelude::*;

verus! {

/// The fields of an amount of money.
#[derive(Clone, Debug)]
pub enum MoneyV2 {
    Amount,
    CurrencyCode,
}

impl ToGraphString for MoneyV2 {
    open spec fn graph_string(&self) -> Seq<char> {
        match self {
            MoneyV2::Amount => "amount"@,
            MoneyV2::CurrencyCode => "currencyCode"@,
        }
    }

    fn to_graph_string(&self) -> (res: String) {
        match self {
            MoneyV2::Amount => String::from_str("amount"),
            MoneyV2::CurrencyCode => String::from_str("currencyCode"),
        }
    }
}

/// The fields of a price range.
#[derive(Clone, Debug)]
pub enum PriceRangeV2 {
    MaxVariantPrice(Vec<MoneyV2>),
    MinVariantPrice(Vec<MoneyV2>),
}

impl ToGraphString for PriceRangeV2 {
    open spec fn graph_string(&self) -> Seq<char> {
        match self {
            PriceRangeV2::MaxVariantPrice(fields) => selection_block(
                "maxVariantPrice"@,
                graph_strings(fields@),
            ),
            PriceRangeV2::MinVariantPrice(fields) => selection_block(
                "minVariantPrice"@,
                graph_strings(fields@),
            ),
        }
    }

    fn to_graph_string(&self) -> (res: String) {
        match self {
            PriceRangeV2::MaxVariantPrice(fields) => write_selection("maxVariantPrice", fields),
            PriceRangeV2::MinVariantPrice(fields) => write_selection("minVariantPrice", fields),
        }
    }
}

} // verus!
