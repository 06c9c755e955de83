//! Locations: the root-to-leaf path of the value a line error refers to,
//! as a sequence of string keys and integer indices.
use vstd::prelude::*;

verus! {

/// One step of a location path: a mapping key or a sequence index.
#[derive(Debug, Clone)]
pub enum LocItem {
    Key(String),
    Index(u64),
}

pub enum LocItemView {
    Key(Seq<char>),
    Index(int),
}

impl View for LocItem {
    type V = LocItemView;

    open spec fn view(&self) -> LocItemView {
        match self {
            LocItem::Key(k) => LocItemView::Key(k@),
            LocItem::Index(i) => LocItemView::Index(*i as int),
        }
    }
}

/// A whole path, ordered root to leaf.
pub type Location = Vec<LocItem>;

/// The view of a location: the views of its items, in order.
pub open spec fn location_view(l: Seq<LocItem>) -> Seq<LocItemView> {
    l.map_values(|x: LocItem| x@)
}

} // verus!
