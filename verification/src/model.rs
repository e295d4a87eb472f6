//! The records that the service answers with.
//!
//! Only what identifies a record is held here.

use vstd::prelude::*;

verus! {

/// What every asset has: users, worlds, avatars and props alike.
#[derive(Debug, Clone, PartialEq, Eq, Hash)]
pub struct AssetBase {
    /// The asset's identifier.
    pub id: String,
    /// The name that people see.
    pub name: String,
    /// Where the asset's picture is found.
    pub image_url: String,
}

/// An asset together with the categories that the account has put it in.
#[derive(Debug, Clone, PartialEq, Eq, Hash)]
pub struct AssetBaseWithCategories {
    /// The asset.
    pub base: AssetBase,
    /// The categories, by their names.
    pub categories: Vec<String>,
}

/// The details of an instance.
#[derive(Debug, Clone, PartialEq, Eq, Hash)]
pub struct ExtendedInstanceDetails {
    /// The instance's identifier.
    pub id: String,
    /// The name that people see.
    pub name: String,
}

} // verus!
