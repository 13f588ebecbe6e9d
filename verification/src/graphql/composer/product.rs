//! Selections on a product.

use crate::graphql::composer::global::{MoneyV2, PriceRangeV2};
use crate::graphql::composer::{graph_strings, selection_block, write_selection, ToGraphString};
use vstd::prelude::*;

verus! {

/// The fields of a product.
#[derive(Clone, Debug)]
pub enum Object {
    AvailablePublicationCount,
    ContextualPricing(Vec<ContextualPricing>),
}

impl ToGraphString for Object {
    open spec fn graph_string(&self) -> Seq<char> {
        match self {
            Object::AvailablePublicationCount => "availablePublicationCount"@,
            Object::ContextualPricing(fields) => selection_block(
                "contextualPricing"@,
                graph_strings(fields@),
            ),
        }
    }

    fn to_graph_string(&self) -> (res: String) {
        match self {
            Object::AvailablePublicationCount => String::from_str("availablePublicationCount"),
            Object::ContextualPricing(fields) => write_selection("contextualPricing", fields),
        }
    }
}

/// The fields of a product's pricing in a context.
#[derive(Clone, Debug)]
pub enum ContextualPricing {
    MaxVariantPricing(Vec<VariantContextualPricing>),
    MinVariantPricing(Vec<VariantContextualPricing>),
    PriceRange(Vec<PriceRangeV2>),
}

impl ToGraphString for ContextualPricing {
    open spec fn graph_string(&self) -> Seq<char> {
        match self {
            ContextualPricing::MaxVariantPricing(fields) => selection_block(
                "maxVariantPricing"@,
                graph_strings(fields@),
            ),
            ContextualPricing::MinVariantPricing(fields) => selection_block(
                "minVariantPricing"@,
                graph_strings(fields@),
            ),
            ContextualPricing::PriceRange(fields) => selection_block(
                "priceRange"@,
                graph_strings(fields@),
            ),
        }
    }

    fn to_graph_string(&self) -> (res: String) {
        match self {
            ContextualPricing::MaxVariantPricing(fields) => write_selection(
                "maxVariantPricing",
                fields,
            ),
            ContextualPricing::MinVariantPricing(fields) => write_selection(
                "minVariantPricing",
                fields,
            ),
            ContextualPricing::PriceRange(fields) => write_selection("priceRange", fields),
        }
    }
}

/// The fields of a variant's pricing in a context.
#[derive(Clone, Debug)]
pub enum VariantContextualPricing {
    CompareAtPrice(Vec<MoneyV2>),
    Price(Vec<MoneyV2>),
}

impl ToGraphString for VariantContextualPricing {
    open spec fn graph_string(&self) -> Seq<char> {
        match self {
            VariantContextualPricing::CompareAtPrice(fields) => selection_block(
                "compareAtPrice"@,
                graph_strings(fields@),
            ),
            VariantContextualPricing::Price(fields) => selection_block(
                "price"@,
                graph_strings(fields@),
            ),
        }
    }

    fn to_graph_string(&self) -> (res: String) {
        match self {
            VariantContextualPricing::CompareAtPrice(fields) => write_selection(
                "compareAtPrice",
                fields,
            ),
            VariantContextualPricing::Price(fields) => write_selection("price", fields),
        }
    }
}

} // verus!
