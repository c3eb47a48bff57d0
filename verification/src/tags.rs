//! Tags: user-facing labels carried by value inside each media record.

use vstd::prelude::*;

use crate::ident::mint_id;

verus! {

/// A "section" for tags. When a tag has a section, it is separated from
/// others by extreme differences: a vacation and anime artwork rarely
/// want the same tags.
#[derive(Clone, Debug)]
pub struct TagSection {
    name: String,
    id: u128,
}

/// The mathematical shape of a [`TagSection`].
pub struct TagSectionView {
    pub name: Seq<char>,
    pub id: u128,
}

impl View for TagSection {
    type V = TagSectionView;

    closed spec fn view(&self) -> TagSectionView {
        TagSectionView { name: self.name@, id: self.id }
    }
}

impl Default for TagSection {
    /// Creates THE default `TagSection`, simply titled "Default", under
    /// the nil identifier.
    fn default() -> (r: TagSection)
        ensures
            r@.name == "Default"@,
            r@.id == 0,
    {
        TagSection { name: String::from_str("Default"), id: 0 }
    }
}

/// A tag on a media file.
#[derive(Clone, Debug)]
pub struct Tag {
    /// A unique name describing this tag.
    ///
    /// Don't use this to find the tag: the name can change, but a tag's
    /// identifier is forever static.
    pub name: String,
    /// A unique identifier. Always use this when referencing the tag
    /// externally.
    pub uuid: u128,
    /// The section this tag belongs to.
    pub tag_section: Option<u128>,
    /// The other tags this tag "implies". For example, tags "christmas"
    /// and "halloween" would both imply the "holiday" tag.
    pub implies: Vec<u128>,
}

/// The mathematical shape of a [`Tag`].
pub struct TagView {
    pub name: Seq<char>,
    pub uuid: u128,
    pub tag_section: Option<u128>,
    pub implies: Seq<u128>,
}

impl View for Tag {
    type V = TagView;

    open spec fn view(&self) -> TagView {
        TagView {
            name: self.name@,
            uuid: self.uuid,
            tag_section: self.tag_section,
            implies: self.implies@,
        }
    }
}

impl Tag {
    /// Creates a new tag **representation** for testing.
    ///
    /// It will not be stored anywhere. The identifier is freshly minted,
    /// so nothing is promised of it.
    pub fn new_testing(name: &str) -> (r: Tag)
        ensures
            r@.name == name@,
            r@.tag_section == Some(0u128),
            r@.implies == Seq::<u128>::empty(),
    {
        let r = Tag {
            name: name.to_owned(),
            uuid: mint_id(),
            tag_section: Some(0),
            implies: Vec::new(),
        };
        proof {
            assert(r@.implies =~= Seq::<u128>::empty());
        }
        r
    }

    /// An explicit copy; every field keeps its value.
    pub fn clone_tag(&self) -> (r: Tag)
        ensures
            r@ == self@,
    {
        Tag {
            name: self.name.clone(),
            uuid: self.uuid,
            tag_section: self.tag_section,
            implies: vstd::slice::slice_to_vec(self.implies.as_slice()),
        }
    }
}

/// A stored tag row: the tag plus its row identifier.
#[derive(Clone, Debug)]
pub struct TagRecord {
    pub tag: Tag,
    pub id: u128,
}

/// A stored tag-section row: the section plus its row identifier.
#[derive(Clone, Debug)]
pub struct TagSectionRecord {
    pub section: TagSection,
    pub id: u128,
}

} // verus!
