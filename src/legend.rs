//! Legend bookkeeping: one entry per item name, with its color, its
//! visibility and its hover state.
use vstd::prelude::*;
use vstd::multiset::Multiset;
use vstd::utf8::encode_utf8;

use crate::color::{transparent, Color32};
use crate::placement::Corner;

verus! {

/// How to handle multiple conflicting colors for a legend item.
#[derive(Debug, Clone, Copy, PartialEq, Eq, Structural)]
pub enum ColorConflictHandling {
    PickFirst,
    PickLast,
    RemoveColor,
}

/// What the legend reads of one plot item.
#[derive(Debug, Clone)]
pub struct LegendItem {
    /// Stable identifier of the item.
    pub id: u64,
    /// Display name; items with an empty name get no legend entry.
    pub name: String,
    /// Display color.
    pub color: Color32,
}

/// One row of the legend. Items of the same name share a row.
#[derive(Debug, Clone)]
pub struct LegendEntry {
    /// Identifier of the first item that carries this name.
    pub id: u64,
    pub name: String,
    pub color: Color32,
    /// Whether the items of this name are shown.
    pub checked: bool,
    /// Whether the pointer is over this row.
    pub hovered: bool,
}

/// The color a row keeps when a further item of its name has color `new`.
pub open spec fn merge_color(h: ColorConflictHandling, current: Color32, new: Color32) -> Color32 {
    if current == new {
        current
    } else {
        match h {
            ColorConflictHandling::PickFirst => current,
            ColorConflictHandling::PickLast => new,
            ColorConflictHandling::RemoveColor => transparent(),
        }
    }
}

/// Whether some row of `es` carries the name `name`.
pub open spec fn has_name(es: Seq<LegendEntry>, name: Seq<char>) -> bool {
    exists|j: int| 0 <= j < es.len() && #[trigger] es[j].name@ == name
}

/// The row of `es` that carries the name `name`, where there is one.
pub open spec fn name_row(es: Seq<LegendEntry>, name: Seq<char>) -> int {
    choose|j: int| 0 <= j < es.len() && #[trigger] es[j].name@ == name
}

/// No two rows carry the same name.
pub open spec fn names_distinct(es: Seq<LegendEntry>) -> bool {
    forall|i: int, j: int|
        0 <= i < es.len() && 0 <= j < es.len() && i != j ==> es[i].name@ != es[j].name@
}

/// The row that the first item of a name opens.
pub open spec fn new_entry(item: LegendItem, hidden: Seq<u64>) -> LegendEntry {
    LegendEntry {
        id: item.id,
        name: item.name,
        color: item.color,
        checked: !hidden.contains(item.id),
        hovered: false,
    }
}

/// The rows after one more item: an unnamed item changes nothing, a known
/// name merges its color into its row, a new name opens a row at the end.
pub open spec fn add_item(
    es: Seq<LegendEntry>,
    item: LegendItem,
    h: ColorConflictHandling,
    hidden: Seq<u64>,
) -> Seq<LegendEntry> {
    if item.name@.len() == 0 {
        es
    } else if has_name(es, item.name@) {
        let j = name_row(es, item.name@);
        es.update(j, LegendEntry { color: merge_color(h, es[j].color, item.color), ..es[j] })
    } else {
        es.push(new_entry(item, hidden))
    }
}

/// The rows for a sequence of items, in the order in which names first appear.
pub open spec fn entries_of(
    items: Seq<LegendItem>,
    h: ColorConflictHandling,
    hidden: Seq<u64>,
) -> Seq<LegendEntry>
    decreases items.len(),
{
    if items.len() == 0 {
        Seq::empty()
    } else {
        add_item(entries_of(items.drop_last(), h, hidden), items.last(), h, hidden)
    }
}

/// Looks up the row of a name.
fn find_row(es: &Vec<LegendEntry>, name: &String) -> (r: Option<usize>)
    requires
        names_distinct(es@),
    ensures
        r.is_none() <==> !has_name(es@, name@),
        r.is_some() ==> r.unwrap() == name_row(es@, name@) && r.unwrap() < es@.len(),
{
    let mut j: usize = 0;
    while j < es.len()
        invariant
            j <= es@.len(),
            names_distinct(es@),
            forall|k: int| 0 <= k < j ==> es@[k].name@ != name@,
        decreases es@.len() - j,
    {
        if es[j].name == *name {
            proof {
                assert(es@[j as int].name@ == name@);
                assert(has_name(es@, name@));
                let c = name_row(es@, name@);
                assert(0 <= c < es@.len() && es@[c].name@ == name@);
                if c != j as int {
                    assert(es@[c].name@ != es@[j as int].name@);
                }
            }
            return Some(j);
        }
        j += 1;
    }
    None
}

/// Collects the rows for `items` in the order in which names first appear.
fn collect_entries(
    items: &Vec<LegendItem>,
    h: ColorConflictHandling,
    hidden: &Vec<u64>,
) -> (r: Vec<LegendEntry>)
    ensures
        r@ == entries_of(items@, h, hidden@),
        names_distinct(r@),
{
    let mut es: Vec<LegendEntry> = Vec::new();
    let mut i: usize = 0;
    while i < items.len()
        invariant
            i <= items@.len(),
            es@ == entries_of(items@.take(i as int), h, hidden@),
            names_distinct(es@),
        decreases items@.len() - i,
    {
        let item = &items[i];
        proof {
            assert(items@.take(i as int + 1).drop_last() == items@.take(i as int));
            assert(items@.take(i as int + 1).last() == items@[i as int]);
        }
        if !item.name.as_str().is_empty() {
            match find_row(&es, &item.name) {
                Some(j) => {
                    let current = es[j].color;
                    let color = if current == item.color {
                        current
                    } else {
                        match h {
                            ColorConflictHandling::PickFirst => current,
                            ColorConflictHandling::PickLast => item.color,
                            ColorConflictHandling::RemoveColor => Color32::transparent(),
                        }
                    };
                    let e = LegendEntry {
                        id: es[j].id,
                        name: es[j].name.clone(),
                        color,
                        checked: es[j].checked,
                        hovered: es[j].hovered,
                    };
                    es.set(j, e);
                },
                None => {
                    let checked = !contains_id(hidden, item.id);
                    es.push(
                        LegendEntry {
                            id: item.id,
                            name: item.name.clone(),
                            color: item.color,
                            checked,
                            hovered: false,
                        },
                    );
                },
            }
        }
        i += 1;
    }
    proof {
        assert(items@.take(items@.len() as int) == items@);
    }
    es
}

/// Whether `id` is among `ids`.
fn contains_id(ids: &Vec<u64>, id: u64) -> (r: bool)
    ensures
        r == ids@.contains(id),
{
    let mut k: usize = 0;
    while k < ids.len()
        invariant
            k <= ids@.len(),
            forall|m: int| 0 <= m < k ==> ids@[m] != id,
        decreases ids@.len() - k,
    {
        if ids[k] == id {
            assert(ids@[k as int] == id);
            return true;
        }
        k += 1;
    }
    false
}


/// Byte-wise lexicographic order, as `str` is ordered.
pub open spec fn bytes_le(a: Seq<u8>, b: Seq<u8>) -> bool
    decreases a.len(),
{
    if a.len() == 0 {
        true
    } else if b.len() == 0 {
        false
    } else if a[0] < b[0] {
        true
    } else if a[0] > b[0] {
        false
    } else {
        bytes_le(a.drop_first(), b.drop_first())
    }
}

/// Name `a` sorts no later than name `b`: their UTF-8 encodings compare so.
pub open spec fn name_le(a: Seq<char>, b: Seq<char>) -> bool {
    bytes_le(encode_utf8(a), encode_utf8(b))
}

/// The rows are in alphabetical order of their names.
pub open spec fn sorted_by_name(es: Seq<LegendEntry>) -> bool {
    forall|i: int, j: int| 0 <= i < j < es.len() ==> name_le(es[i].name@, es[j].name@)
}

proof fn lemma_bytes_le_total(a: Seq<u8>, b: Seq<u8>)
    ensures
        bytes_le(a, b) || bytes_le(b, a),
    decreases a.len(),
{
    if a.len() > 0 && b.len() > 0 && a[0] == b[0] {
        lemma_bytes_le_total(a.drop_first(), b.drop_first());
    }
}

proof fn lemma_bytes_le_trans(a: Seq<u8>, b: Seq<u8>, c: Seq<u8>)
    requires
        bytes_le(a, b),
        bytes_le(b, c),
    ensures
        bytes_le(a, c),
    decreases a.len(),
{
    if a.len() > 0 && b.len() > 0 && c.len() > 0 && a[0] == b[0] && b[0] == c[0] {
        lemma_bytes_le_trans(a.drop_first(), b.drop_first(), c.drop_first());
    }
}

/// Compares two names in the order of `str`.
fn name_le_exec(a: &String, b: &String) -> (r: bool)
    ensures
        r == name_le(a@, b@),
{
    let x = a.as_str().as_bytes();
    let y = b.as_str().as_bytes();
    let mut i: usize = 0;
    proof {
        assert(x@.skip(0) == x@);
        assert(y@.skip(0) == y@);
    }
    while i < x.len() && i < y.len()
        invariant
            i <= x@.len(),
            i <= y@.len(),
            x@ == encode_utf8(a@),
            y@ == encode_utf8(b@),
            bytes_le(x@, y@) == bytes_le(x@.skip(i as int), y@.skip(i as int)),
        decreases x@.len() - i,
    {
        proof {
            assert(x@.skip(i as int)[0] == x@[i as int]);
            assert(y@.skip(i as int)[0] == y@[i as int]);
        }
        if x[i] < y[i] {
            return true;
        }
        if x[i] > y[i] {
            return false;
        }
        proof {
            assert(x@.skip(i as int).drop_first() == x@.skip(i as int + 1));
            assert(y@.skip(i as int).drop_first() == y@.skip(i as int + 1));
        }
        i += 1;
    }
    i == x.len()
}

/// Orders rows alphabetically by name, keeping every row.
fn sort_by_name(es: Vec<LegendEntry>) -> (r: Vec<LegendEntry>)
    ensures
        sorted_by_name(r@),
        r@.to_multiset() == es@.to_multiset(),
{
    broadcast use vstd::seq_lib::to_multiset_len, vstd::multiset::lemma_multiset_empty_len;
    broadcast use vstd::multiset::group_multiset_axioms;

    let mut rest = es;
    let mut out: Vec<LegendEntry> = Vec::new();
    proof {
        assert(out@.to_multiset().len() == 0);
        assert(out@.to_multiset() =~= Multiset::empty());
        assert(rest@.to_multiset().add(out@.to_multiset()) =~= rest@.to_multiset());
    }
    while rest.len() > 0
        invariant
            sorted_by_name(out@),
            rest@.to_multiset().add(out@.to_multiset()) == es@.to_multiset(),
        decreases rest@.len(),
    {
        let ghost before = rest@;
        let e = rest.pop().unwrap();
        proof {
            assert(before == rest@.push(e));
        }
        let mut p: usize = 0;
        while p < out.len()
            invariant
                p <= out@.len(),
                forall|k: int| 0 <= k < p ==> name_le(#[trigger] out@[k].name@, e.name@),
            ensures
                p <= out@.len(),
                forall|k: int| 0 <= k < p ==> name_le(#[trigger] out@[k].name@, e.name@),
                p < out@.len() ==> !name_le(out@[p as int].name@, e.name@),
            decreases out@.len() - p,
        {
            if !name_le_exec(&out[p].name, &e.name) {
                break;
            }
            p += 1;
        }
        let ghost old_out = out@;
        proof {
            if p < old_out.len() {
                lemma_bytes_le_total(
                    encode_utf8(old_out[p as int].name@),
                    encode_utf8(e.name@),
                );
            }
        }
        out.insert(p, e);
        proof {
            vstd::seq_lib::to_multiset_build(rest@, e);
            assert(out@ == old_out.insert(p as int, e));
            vstd::seq_lib::to_multiset_insert(old_out, p as int, e);
            assert(rest@.to_multiset().add(out@.to_multiset()) =~= es@.to_multiset());
            assert forall|i: int, j: int| 0 <= i < j < out@.len() implies name_le(
                out@[i].name@,
                out@[j].name@,
            ) by {
                if i < p && j > p {
                    assert(out@[j] == old_out[j - 1]);
                } else if i == p && j > p + 1 {
                    assert(name_le(old_out[p as int].name@, old_out[j - 1].name@));
                    lemma_bytes_le_trans(
                        encode_utf8(e.name@),
                        encode_utf8(old_out[p as int].name@),
                        encode_utf8(old_out[j - 1].name@),
                    );
                } else if i > p {
                    assert(out@[i] == old_out[i - 1]);
                    assert(out@[j] == old_out[j - 1]);
                }
            }
        }
    }
    proof {
        assert(rest@.to_multiset().len() == 0);
        assert(rest@.to_multiset() =~= Multiset::empty());
        assert(rest@.to_multiset().add(out@.to_multiset()) =~= out@.to_multiset());
    }
    out
}


/// The configuration of a plot legend that decides its rows and their order.
#[derive(Debug, Clone)]
pub struct Legend {
    /// In which corner to place the legend.
    pub position: Corner,
    /// Rows in the order in which names first appear, rather than alphabetical.
    pub follow_insertion_order: bool,
    /// What a row shows when items of its name disagree on color.
    pub color_conflict_handling: ColorConflictHandling,
    /// Where set, overrides the hidden items that the plot remembers.
    pub hidden_items: Option<Vec<u64>>,
}

impl Default for Legend {
    fn default() -> (r: Self)
        ensures
            r.position == Corner::RightTop,
            !r.follow_insertion_order,
            r.color_conflict_handling == ColorConflictHandling::RemoveColor,
            r.hidden_items.is_none(),
    {
        Legend {
            position: Corner::RightTop,
            follow_insertion_order: false,
            color_conflict_handling: ColorConflictHandling::RemoveColor,
            hidden_items: None,
        }
    }
}

impl Legend {
    /// In which corner to place the legend.
    pub fn position(self, corner: Corner) -> (r: Self)
        ensures
            r == (Legend { position: corner, ..self }),
    {
        Legend { position: corner, ..self }
    }

    /// Overrides which items are hidden, so that the application decides.
    pub fn hidden_items(self, hidden_items: Vec<u64>) -> (r: Self)
        ensures
            r == (Legend { hidden_items: Some(hidden_items), ..self }),
    {
        Legend { hidden_items: Some(hidden_items), ..self }
    }

    /// Whether rows follow the order in which names first appear.
    pub fn follow_insertion_order(self, follow: bool) -> (r: Self)
        ensures
            r == (Legend { follow_insertion_order: follow, ..self }),
    {
        Legend { follow_insertion_order: follow, ..self }
    }

    /// How to handle conflicting colors for an item.
    pub fn color_conflict_handling(self, color_conflict_handling: ColorConflictHandling) -> (r:
        Self)
        ensures
            r == (Legend { color_conflict_handling, ..self }),
    {
        Legend { color_conflict_handling, ..self }
    }
}

/// The hidden items in force: the legend's own override, else the plot's.
pub open spec fn effective_hidden(config: Legend, remembered: Seq<u64>) -> Seq<u64> {
    match config.hidden_items {
        Some(v) => v@,
        None => remembered,
    }
}

/// The rows of a legend, as the configuration orders them.
pub open spec fn legend_rows_ok(config: Legend, items: Seq<LegendItem>, remembered: Seq<u64>, rows: Seq<
    LegendEntry,
>) -> bool {
    let es = entries_of(items, config.color_conflict_handling, effective_hidden(config, remembered));
    if config.follow_insertion_order {
        rows == es
    } else {
        sorted_by_name(rows) && rows.to_multiset() == es.to_multiset()
    }
}

/// The rows of a plot legend.
#[derive(Debug, Clone)]
pub struct LegendWidget {
    pub entries: Vec<LegendEntry>,
    pub config: Legend,
}

impl LegendWidget {
    /// Builds the legend rows for `items`; `hidden_items` are the items that
    /// the plot remembers as hidden. Items of one name share a row. Returns
    /// `None` where no item has a name.
    pub fn try_new(config: Legend, items: &Vec<LegendItem>, hidden_items: &Vec<u64>) -> (r: Option<
        Self,
    >)
        ensures
            r.is_none() <==> entries_of(
                items@,
                config.color_conflict_handling,
                effective_hidden(config, hidden_items@),
            ).len() == 0,
            r.is_some() ==> r.unwrap().config == config && legend_rows_ok(
                config,
                items@,
                hidden_items@,
                r.unwrap().entries@,
            ),
    {
        let es = match &config.hidden_items {
            Some(h) => collect_entries(items, config.color_conflict_handling, h),
            None => collect_entries(items, config.color_conflict_handling, hidden_items),
        };
        if es.len() == 0 {
            return None;
        }
        let entries = if config.follow_insertion_order {
            es
        } else {
            sort_by_name(es)
        };
        Some(LegendWidget { entries, config })
    }

    /// The identifiers of the rows that are hidden, in row order.
    pub fn hidden_items(&self) -> (r: Vec<u64>)
        ensures
            r@ == hidden_ids(self.entries@),
    {
        let mut out: Vec<u64> = Vec::new();
        let mut i: usize = 0;
        while i < self.entries.len()
            invariant
                i <= self.entries@.len(),
                out@ == hidden_ids(self.entries@.take(i as int)),
            decreases self.entries@.len() - i,
        {
            proof {
                assert(self.entries@.take(i as int + 1).drop_last() == self.entries@.take(i as int));
            }
            if !self.entries[i].checked {
                out.push(self.entries[i].id);
            }
            i += 1;
        }
        proof {
            assert(self.entries@.take(self.entries@.len() as int) == self.entries@);
        }
        out
    }

    /// The identifier of the first row under the pointer, if any.
    pub fn hovered_item(&self) -> (r: Option<u64>)
        ensures
            r.is_none() <==> forall|k: int| 0 <= k < self.entries@.len() ==> !self.entries@[k].hovered,
            r.is_some() ==> exists|k: int|
                0 <= k < self.entries@.len() && self.entries@[k].hovered && self.entries@[k].id
                    == r.unwrap() && forall|m: int| 0 <= m < k ==> !self.entries@[m].hovered,
    {
        let mut i: usize = 0;
        while i < self.entries.len()
            invariant
                i <= self.entries@.len(),
                forall|m: int| 0 <= m < i ==> !self.entries@[m].hovered,
            decreases self.entries@.len() - i,
        {
            if self.entries[i].hovered {
                return Some(self.entries[i].id);
            }
            i += 1;
        }
        None
    }
}

/// The identifiers of the unchecked rows, in row order.
pub open spec fn hidden_ids(es: Seq<LegendEntry>) -> Seq<u64>
    decreases es.len(),
{
    if es.len() == 0 {
        Seq::empty()
    } else if es.last().checked {
        hidden_ids(es.drop_last())
    } else {
        hidden_ids(es.drop_last()).push(es.last().id)
    }
}

/// A click with the primary button toggles a row; the hover state follows
/// the pointer.
pub fn handle_interaction_on_legend_item(
    clicked_by_primary: bool,
    hovered: bool,
    entry: &mut LegendEntry,
)
    ensures
        final(entry).checked == (old(entry).checked != clicked_by_primary),
        final(entry).hovered == hovered,
        final(entry).id == old(entry).id,
        final(entry).name == old(entry).name,
        final(entry).color == old(entry).color,
{
    entry.checked = entry.checked != clicked_by_primary;
    entry.hovered = hovered;
}

/// Whether the clicked row is the only one shown: every other row is hidden.
pub open spec fn only_focus_visible(clicked: u64, es: Seq<LegendEntry>) -> bool {
    forall|k: int| 0 <= k < es.len() ==> !es[k].checked || es[k].id == clicked
}

/// Alt-click on a row: shows only that row, or, where it already was the
/// only row shown, shows every row again.
pub fn handle_focus_on_legend_item(clicked_entry: u64, entries: &mut Vec<LegendEntry>)
    ensures
        final(entries)@.len() == old(entries)@.len(),
        forall|k: int|
            0 <= k < final(entries)@.len() ==> {
                let e = #[trigger] final(entries)@[k];
                let o = old(entries)@[k];
                &&& e.checked == (only_focus_visible(clicked_entry, old(entries)@) || o.id
                    == clicked_entry)
                &&& e.id == o.id
                &&& e.name == o.name
                &&& e.color == o.color
                &&& e.hovered == o.hovered
            },
{
    let mut all_hidden = true;
    let mut i: usize = 0;
    while i < entries.len()
        invariant
            i <= entries@.len(),
            entries@ == old(entries)@,
            all_hidden == forall|k: int|
                0 <= k < i ==> !entries@[k].checked || entries@[k].id == clicked_entry,
        decreases entries@.len() - i,
    {
        all_hidden = all_hidden && (!entries[i].checked || entries[i].id == clicked_entry);
        i += 1;
    }
    let mut j: usize = 0;
    while j < entries.len()
        invariant
            j <= entries@.len(),
            entries@.len() == old(entries)@.len(),
            all_hidden == only_focus_visible(clicked_entry, old(entries)@),
            forall|k: int|
                j <= k < entries@.len() ==> #[trigger] entries@[k] == old(entries)@[k],
            forall|k: int|
                0 <= k < j ==> {
                    let e = #[trigger] entries@[k];
                    let o = old(entries)@[k];
                    &&& e.checked == (all_hidden || o.id == clicked_entry)
                    &&& e.id == o.id
                    &&& e.name == o.name
                    &&& e.color == o.color
                    &&& e.hovered == o.hovered
                },
        decreases entries@.len() - j,
    {
        let id = entries[j].id;
        let name = entries[j].name.clone();
        let color = entries[j].color;
        let hovered = entries[j].hovered;
        entries.set(
            j,
            LegendEntry { id, name, color, checked: all_hidden || id == clicked_entry, hovered },
        );
        j += 1;
    }
}


/// One more item keeps the names of the rows, in their places, and adds a
/// row for a new non-empty name.
proof fn lemma_add_item_rows(
    es: Seq<LegendEntry>,
    item: LegendItem,
    h: ColorConflictHandling,
    hidden: Seq<u64>,
)
    requires
        names_distinct(es),
        forall|j: int| 0 <= j < es.len() ==> (#[trigger] es[j]).name@.len() > 0,
    ensures
        ({
            let after = add_item(es, item, h, hidden);
            &&& names_distinct(after)
            &&& after.len() >= es.len()
            &&& forall|j: int| 0 <= j < es.len() ==> (#[trigger] after[j]).name@ == es[j].name@
            &&& forall|j: int| 0 <= j < after.len() ==> (#[trigger] after[j]).name@.len() > 0
            &&& item.name@.len() > 0 ==> has_name(after, item.name@)
        }),
{
    let after = add_item(es, item, h, hidden);
    if item.name@.len() > 0 {
        if has_name(es, item.name@) {
            let j = name_row(es, item.name@);
            assert(after[j].name@ == item.name@);
        } else {
            assert(after[es.len() as int].name@ == item.name@);
        }
    }
}

/// Items of one name share one row: the rows carry distinct, non-empty
/// names, and every item with a non-empty name has a row.
pub proof fn lemma_one_row_per_name(
    items: Seq<LegendItem>,
    h: ColorConflictHandling,
    hidden: Seq<u64>,
)
    ensures
        names_distinct(entries_of(items, h, hidden)),
        forall|j: int|
            0 <= j < entries_of(items, h, hidden).len() ==> (#[trigger] entries_of(
                items,
                h,
                hidden,
            )[j]).name@.len() > 0,
        forall|i: int|
            0 <= i < items.len() && (#[trigger] items[i]).name@.len() > 0 ==> has_name(
                entries_of(items, h, hidden),
                items[i].name@,
            ),
    decreases items.len(),
{
    if items.len() > 0 {
        let prev = items.drop_last();
        lemma_one_row_per_name(prev, h, hidden);
        let es = entries_of(prev, h, hidden);
        lemma_add_item_rows(es, items.last(), h, hidden);
        let after = entries_of(items, h, hidden);
        assert forall|i: int|
            0 <= i < items.len() && (#[trigger] items[i]).name@.len() > 0 implies has_name(
            after,
            items[i].name@,
        ) by {
            if i < items.len() - 1 {
                assert(prev[i] == items[i]);
                assert(has_name(es, prev[i].name@));
                let k = choose|k: int| 0 <= k < es.len() && #[trigger] es[k].name@ == prev[i].name@;
                assert(after[k].name@ == items[i].name@);
            }
        }
    }
}

} // verus!
