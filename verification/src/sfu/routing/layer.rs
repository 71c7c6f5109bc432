//! Simulcast layers of a published track.

use vstd::prelude::*;
use vstd::std_specs::cmp::PartialEqSpecImpl;

verus! {

/// Names the encoding of a published track that a packet belongs to.
#[derive(Debug, Hash)]
pub enum Layer {
    /// No layer chosen.
    Unset,
    /// The single encoding of a track that is not simulcast.
    Unicast,
    /// One simulcast encoding, named by its RID.
    Rid(String),
}

/// Mathematical value of a [`Layer`].
pub enum LayerView {
    Unset,
    Unicast,
    Rid(Seq<char>),
}

impl View for Layer {
    type V = LayerView;

    open spec fn view(&self) -> LayerView {
        match self {
            Layer::Unset => LayerView::Unset,
            Layer::Unicast => LayerView::Unicast,
            Layer::Rid(rid) => LayerView::Rid(rid@),
        }
    }
}

/// The layer that a source with restriction identifier `rid` feeds: an empty
/// identifier marks a plain, single-encoding source.
pub open spec fn layer_of_rid(rid: Seq<char>) -> LayerView {
    if rid.len() == 0 {
        LayerView::Unicast
    } else {
        LayerView::Rid(rid)
    }
}

impl Layer {
    /// Layer fed by a source whose restriction identifier is `rid`.
    pub fn from(rid: &str) -> (layer: Layer)
        ensures
            layer@ == layer_of_rid(rid@),
    {
        if rid.is_empty() {
            Layer::Unicast
        } else {
            Layer::Rid(rid.to_owned())
        }
    }
}

impl Clone for Layer {
    fn clone(&self) -> (copy: Layer)
        ensures
            copy@ == self@,
    {
        match self {
            Layer::Unset => Layer::Unset,
            Layer::Unicast => Layer::Unicast,
            Layer::Rid(rid) => Layer::Rid(rid.clone()),
        }
    }
}

impl PartialEq for Layer {
    fn eq(&self, other: &Layer) -> (same: bool) {
        match (self, other) {
            (Layer::Unset, Layer::Unset) => true,
            (Layer::Unicast, Layer::Unicast) => true,
            (Layer::Rid(a), Layer::Rid(b)) => *a == *b,
            _ => false,
        }
    }
}

impl PartialEqSpecImpl for Layer {
    open spec fn obeys_eq_spec() -> bool {
        true
    }

    open spec fn eq_spec(&self, other: &Layer) -> bool {
        self@ == other@
    }
}

impl Eq for Layer {}

} // verus!
