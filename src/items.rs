//! The data every plot item carries: its name, its identifier, and whether
//! it is highlighted or may be hovered.
use vstd::prelude::*;

verus! {

/// Relies on `egui::Id::new` and `egui::Id::value`: the identifier egui
/// derives from a name, a hash that `Id` keeps non-zero.
#[verifier::external_body]
fn id_from_name(name: &str) -> (r: u64)
    ensures
        r != 0,
{
    egui::Id::new(name).value()
}

/// Base data shared by all plot items.
#[derive(Debug, Clone)]
pub struct PlotItemBase {
    name: String,
    id: u64,
    highlight: bool,
    allow_hover: bool,
}

impl PlotItemBase {
    pub closed spec fn spec_name(&self) -> Seq<char> {
        self.name@
    }

    pub closed spec fn spec_id(&self) -> u64 {
        self.id
    }

    pub closed spec fn spec_highlight(&self) -> bool {
        self.highlight
    }

    pub closed spec fn spec_allow_hover(&self) -> bool {
        self.allow_hover
    }

    /// A base for an item of the given name, identified by that name; not
    /// highlighted, and open to hovering.
    pub fn new(name: String) -> (r: Self)
        ensures
            r.spec_name() == name@,
            r.spec_id() != 0,
            !r.spec_highlight(),
            r.spec_allow_hover(),
    {
        let id = id_from_name(name.as_str());
        PlotItemBase { name, id, highlight: false, allow_hover: true }
    }

    /// The item's name.
    pub fn name(&self) -> (r: &String)
        ensures
            r@ == self.spec_name(),
    {
        &self.name
    }

    /// The item's identifier.
    pub fn id(&self) -> (r: u64)
        ensures
            r == self.spec_id(),
    {
        self.id
    }

    /// Marks the item as highlighted.
    pub fn highlight(&mut self)
        ensures
            final(self).spec_highlight(),
            final(self).spec_name() == old(self).spec_name(),
            final(self).spec_id() == old(self).spec_id(),
            final(self).spec_allow_hover() == old(self).spec_allow_hover(),
    {
        self.highlight = true;
    }

    /// Whether the item is highlighted.
    pub fn highlighted(&self) -> (r: bool)
        ensures
            r == self.spec_highlight(),
    {
        self.highlight
    }

    /// Whether the user may hover the item.
    pub fn allow_hover(&self) -> (r: bool)
        ensures
            r == self.spec_allow_hover(),
    {
        self.allow_hover
    }

    /// Lets the user hover the item, or not.
    pub fn set_allow_hover(&mut self, hovering: bool)
        ensures
            final(self).spec_allow_hover() == hovering,
            final(self).spec_name() == old(self).spec_name(),
            final(self).spec_id() == old(self).spec_id(),
            final(self).spec_highlight() == old(self).spec_highlight(),
    {
        self.allow_hover = hovering;
    }
}

} // verus!
