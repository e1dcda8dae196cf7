//! The unit of output: one observed price for one product page.

use vstd::prelude::*;

verus! {

/// A price record extracted from one product page.
///
/// A `PricePoint` is only ever built on the success path of the fetch state
/// machine, from a [`ExtractedData`] that a site extractor produced: the
/// source URL and the capture timestamp are always present, every other
/// field is best-effort because page layouts vary.
#[derive(Debug, Clone, PartialEq, Eq)]
pub struct PricePoint {
    /// Stable product identifier found on the page (an EAN/GTIN).
    pub product_id: String,
    /// Capture timestamp, seconds since the Unix epoch.
    pub fetched_at: u64,
    /// Price in the smallest currency unit; absent when not present or not
    /// parseable on the page.
    pub price_minor_units: Option<u64>,
    /// Whether the product is in stock; absent when not determinable.
    pub in_stock: Option<bool>,
    /// The URL the record was extracted from.
    pub source_url: String,
    /// Version tag of the extraction rules used, for downstream schema
    /// evolution.
    pub extractor_version: u16,
    /// Best-effort product name.
    pub name: Option<String>,
    /// Best-effort product image URL.
    pub image_url: Option<String>,
}

/// What a site extractor hands back on success: every field of a
/// [`PricePoint`] that comes from the page itself. The fetch state machine
/// supplies the source URL and the timestamp when it seals the record.
#[derive(Debug, Clone, PartialEq, Eq)]
pub struct ExtractedData {
    /// Stable product identifier found on the page.
    pub product_id: String,
    /// Version tag of the extraction rules that produced this data.
    pub extractor_version: u16,
    /// Price in the smallest currency unit, if found.
    pub price_minor_units: Option<u64>,
    /// Stock state, if determinable.
    pub in_stock: Option<bool>,
    /// Best-effort product name.
    pub name: Option<String>,
    /// Best-effort product image URL.
    pub image_url: Option<String>,
}

} // verus!
