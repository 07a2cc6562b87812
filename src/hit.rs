//! Nearest-element search for hover feedback. Distances arrive as order
//! keys: for a squared distance, which is never negative, the bit pattern
//! of the `f32` orders exactly as the value does.
use vstd::prelude::*;

verus! {

/// Position `i` holds a smallest key of `keys`, and no earlier position
/// holds one as small.
pub open spec fn is_first_min(keys: Seq<u32>, i: int) -> bool {
    &&& 0 <= i < keys.len()
    &&& forall|j: int| 0 <= j < keys.len() ==> keys[i] <= #[trigger] keys[j]
    &&& forall|j: int| 0 <= j < i ==> keys[i] < #[trigger] keys[j]
}

/// The position of the nearest element: the first smallest key, or `None`
/// where there are no elements.
pub fn closest_index(keys: &Vec<u32>) -> (r: Option<usize>)
    ensures
        r.is_none() <==> keys@.len() == 0,
        r.is_some() ==> is_first_min(keys@, r.unwrap() as int),
{
    if keys.len() == 0 {
        return None;
    }
    let mut best: usize = 0;
    let mut i: usize = 1;
    while i < keys.len()
        invariant
            1 <= i <= keys@.len(),
            best < i,
            forall|j: int| 0 <= j < i ==> keys@[best as int] <= #[trigger] keys@[j],
            forall|j: int| 0 <= j < best ==> keys@[best as int] < #[trigger] keys@[j],
        decreases keys@.len() - i,
    {
        if keys[i] < keys[best] {
            best = i;
        }
        i += 1;
    }
    Some(best)
}

/// What hover search knows of one plot item: whether the item may be
/// hovered, and the key of its nearest element, where it has one.
#[derive(Debug, Clone, Copy, PartialEq, Eq, Structural)]
pub struct HoverCandidate {
    pub allow_hover: bool,
    pub nearest: Option<u32>,
}

/// The item takes part in hover search with the given key.
pub open spec fn hoverable_with(c: HoverCandidate, key: u32) -> bool {
    c.allow_hover && c.nearest == Some(key)
}

/// The item takes part in hover search.
pub open spec fn hoverable(c: HoverCandidate) -> bool {
    c.allow_hover && c.nearest.is_some()
}

/// The item nearest to the pointer among those that may be hovered and
/// have an element: the first with the smallest key. `None` where no item
/// takes part, in particular for no items at all.
pub fn closest_item(items: &Vec<HoverCandidate>) -> (r: Option<usize>)
    ensures
        r.is_none() <==> forall|j: int| 0 <= j < items@.len() ==> !hoverable(#[trigger] items@[j]),
        r.is_some() ==> {
            let i = r.unwrap() as int;
            &&& 0 <= i < items@.len()
            &&& hoverable(items@[i])
            &&& forall|j: int|
                0 <= j < items@.len() && hoverable(#[trigger] items@[j]) ==> items@[i].nearest.unwrap()
                    <= items@[j].nearest.unwrap()
            &&& forall|j: int|
                0 <= j < i && hoverable(#[trigger] items@[j]) ==> items@[i].nearest.unwrap()
                    < items@[j].nearest.unwrap()
        },
{
    let mut best: Option<usize> = None;
    let mut best_key: u32 = 0;
    let mut i: usize = 0;
    while i < items.len()
        invariant
            i <= items@.len(),
            best.is_none() <==> forall|j: int| 0 <= j < i ==> !hoverable(#[trigger] items@[j]),
            best.is_some() ==> {
                let b = best.unwrap() as int;
                &&& 0 <= b < i
                &&& hoverable_with(items@[b], best_key)
                &&& forall|j: int|
                    0 <= j < i && hoverable(#[trigger] items@[j]) ==> best_key
                        <= items@[j].nearest.unwrap()
                &&& forall|j: int|
                    0 <= j < b && hoverable(#[trigger] items@[j]) ==> best_key
                        < items@[j].nearest.unwrap()
            },
        decreases items@.len() - i,
    {
        let c = items[i];
        if c.allow_hover {
            match c.nearest {
                Some(k) => {
                    let better = match best {
                        None => true,
                        Some(_) => k < best_key,
                    };
                    if better {
                        best = Some(i);
                        best_key = k;
                    }
                },
                None => {},
            }
        }
        i += 1;
    }
    best
}

/// Hit-testing finds nothing exactly where nothing can be hit: an empty
/// list of elements has no nearest one, and no items give no hovered item.
pub proof fn lemma_nothing_to_hit(keys: Seq<u32>, items: Seq<HoverCandidate>)
    requires
        keys.len() == 0,
        items.len() == 0,
    ensures
        forall|i: int| !is_first_min(keys, i),
        forall|j: int| 0 <= j < items.len() ==> !hoverable(#[trigger] items[j]),
{
}

} // verus!
