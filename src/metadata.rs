//! The typed off-chain metadata document of an NFT (CHIP-0007 shape).
//!
//! Bytes are turned into a [`MetadataDocument`] by the JSON reader around the
//! library; everything the wallet decides from the document is here.
use vstd::prelude::*;

verus! {

/// One entry of a collection's attribute list. `kind` and `value` are
/// present only where the author wrote them as strings.
#[derive(Clone, Debug)]
pub struct CollectionAttribute {
    pub kind: Option<String>,
    pub value: Option<String>,
}

/// The collection that a document declares.
#[derive(Clone, Debug)]
pub struct Collection {
    pub id: String,
    pub name: String,
    pub attributes: Option<Vec<CollectionAttribute>>,
}

/// The document's self-declared sensitivity marker: a flag, or a list of
/// content warnings.
#[derive(Clone, Debug)]
pub enum SensitiveContent {
    Flag(bool),
    Items(Vec<String>),
}

/// A parsed off-chain metadata document.
#[derive(Clone, Debug)]
pub struct MetadataDocument {
    pub name: String,
    pub sensitive_content: Option<SensitiveContent>,
    pub collection: Option<Collection>,
}

/// Whether a sensitivity marker declares the content sensitive: a set flag,
/// or a non-empty list of warnings.
pub open spec fn marker_is_sensitive(marker: Option<SensitiveContent>) -> bool {
    match marker {
        Some(SensitiveContent::Flag(flag)) => flag,
        Some(SensitiveContent::Items(items)) => items@.len() > 0,
        None => false,
    }
}

impl MetadataDocument {
    /// Whether the document declares its content sensitive.
    pub fn is_sensitive(&self) -> (r: bool)
        ensures
            r == marker_is_sensitive(self.sensitive_content),
    {
        match &self.sensitive_content {
            Some(SensitiveContent::Flag(flag)) => *flag,
            Some(SensitiveContent::Items(items)) => items.len() > 0,
            None => false,
        }
    }
}

/// The attribute kind that names a collection's icon.
pub open spec fn icon_kind() -> Seq<char> {
    seq!['i', 'c', 'o', 'n']
}

/// Whether an attribute carries an icon: its kind is exactly `"icon"` and it
/// has a value.
pub open spec fn is_icon_attribute(a: CollectionAttribute) -> bool {
    &&& a.kind matches Some(k) && k@ == icon_kind()
    &&& a.value.is_some()
}

/// The value of the first icon attribute of `attrs`, if any.
pub open spec fn first_icon(attrs: Seq<CollectionAttribute>) -> Option<String>
    decreases attrs.len(),
{
    if attrs.len() == 0 {
        None
    } else if is_icon_attribute(attrs[0]) {
        attrs[0].value
    } else {
        first_icon(attrs.drop_first())
    }
}

/// The icon of a collection: the value of the first attribute, in list
/// order, whose kind is `"icon"` and which has a value.
pub fn find_icon(attrs: &Vec<CollectionAttribute>) -> (r: Option<String>)
    ensures
        r == first_icon(attrs@),
{
    let icon = "icon".to_owned();
    proof {
        reveal_strlit("icon");
        assert(attrs@.subrange(0, attrs@.len() as int) =~= attrs@);
    }
    let mut i: usize = 0;
    while i < attrs.len()
        invariant
            i <= attrs@.len(),
            icon@ == icon_kind(),
            first_icon(attrs@.subrange(i as int, attrs@.len() as int)) == first_icon(attrs@),
        decreases attrs@.len() - i,
    {
        let a = &attrs[i];
        let ghost rest = attrs@.subrange(i as int, attrs@.len() as int);
        assert(rest[0] == *a);
        assert(rest.drop_first() =~= attrs@.subrange(i + 1, attrs@.len() as int));
        if let (Some(kind), Some(value)) = (&a.kind, &a.value) {
            if *kind == icon {
                return Some(value.clone());
            }
        }
        i = i + 1;
    }
    assert(attrs@.subrange(i as int, attrs@.len() as int).len() == 0);
    None
}

} // verus!
