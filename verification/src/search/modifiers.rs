//! Modifiers: the pieces a search expression is assembled from.

use vstd::prelude::*;

use crate::search::details::{
    DateDetail, FormatDetail, KindDetail, OrientationDetail, TagDetail,
};

verus! {

/// Bounds one of the record's dates from one side.
#[derive(Clone, Copy, Debug, PartialEq, Eq, Structural)]
pub enum DateTimeModifier {
    Before(DateDetail),
    After(DateDetail),
}

/// A collection modifier directly queries media by their metadata.
#[derive(Clone, Debug)]
pub enum CollectionModifier {
    Tag(TagDetail),

    /// Searches for media within a folder with the given album path:
    /// just the folder the media is in.
    Album(String),
    Literal(String),
    DateTime(DateTimeModifier),
    Format(FormatDetail),
    Kind(KindDetail),
    Orientation(OrientationDetail),
}

/// A modifier that applies `OR`/`NOT` logic to modifier expressions.
///
/// `AND` is implied by the search itself, so it isn't provided here.
pub enum BooleanModifier {
    Not(Box<Expr>),
    Any(Vec<Expr>),
}

/// Miscellaneous modifiers that react to simple media properties.
#[derive(Clone, Copy, Debug, PartialEq, Eq, Structural)]
pub enum OtherModifier {
    Favorite,
    Untagged,
    Undated,
}

/// A specific piece of a search that evaluates to a single boolean
/// value: an expression is queried by evaluating all the modifiers it
/// owns.
pub enum Expr {
    Collection(CollectionModifier),
    Boolean(BooleanModifier),
    Other(OtherModifier),
}

} // verus!
