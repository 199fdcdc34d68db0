//! The values that cross between Dart and Rust, and the viewmodel that
//! Dart reads from.
use vstd::prelude::*;
use vstd::hash_map::StringHashMap;

verus! {

/// Bytes of a payload together with the name of the format that they are
/// written in (such as `messagePack` or `image`).
#[derive(Debug, Clone)]
pub struct Serialized {
    pub bytes: Vec<u8>,
    pub formula: String,
}

/// What a [`Serialized`] holds, as mathematical values.
pub struct SerializedView {
    pub bytes: Seq<u8>,
    pub formula: Seq<char>,
}

impl View for Serialized {
    type V = SerializedView;

    open spec fn view(&self) -> SerializedView {
        SerializedView { bytes: self.bytes@, formula: self.formula@ }
    }
}

impl Serialized {
    /// A copy of this payload, byte for byte.
    pub fn duplicate(&self) -> (copy: Serialized)
        ensures
            copy@ == self@,
    {
        let mut bytes: Vec<u8> = Vec::new();
        let n = self.bytes.len();
        for i in 0..n
            invariant
                n == self.bytes.len(),
                bytes@ == self.bytes@.subrange(0, i as int),
        {
            bytes.push(self.bytes[i]);
        }
        assert(bytes@ =~= self.bytes@);
        Serialized { bytes, formula: self.formula.clone() }
    }
}

} // verus!

verus! {

/// A payload shown at a place in the view, by its display address.
#[derive(Clone)]
pub struct ViewUpdate {
    pub display_address: String,
    pub serialized: Serialized,
}

/// A new payload for the viewmodel item at `item_address`.
pub struct ViewmodelUpdate {
    pub item_address: String,
    pub serialized: Serialized,
}

/// A request from the user interface for the task at `task_address`.
pub struct UserAction {
    pub task_address: String,
    pub serialized: Serialized,
}

/// What a [`ViewmodelUpdate`] holds, as mathematical values.
pub struct ViewmodelUpdateView {
    pub item_address: Seq<char>,
    pub serialized: SerializedView,
}

impl View for ViewmodelUpdate {
    type V = ViewmodelUpdateView;

    open spec fn view(&self) -> ViewmodelUpdateView {
        ViewmodelUpdateView { item_address: self.item_address@, serialized: self.serialized@ }
    }
}

/// The viewmodel as a map from item address to payload.
pub type ViewmodelMap = Map<Seq<char>, SerializedView>;

/// The views of a sequence of updates, in the same order.
pub open spec fn updates_view(updates: Seq<ViewmodelUpdate>) -> Seq<ViewmodelUpdateView> {
    updates.map_values(|u: ViewmodelUpdate| u@)
}

/// The viewmodel after `updates` were stored one after the other, first to
/// last, starting from `model`.
pub open spec fn apply_updates(model: ViewmodelMap, updates: Seq<ViewmodelUpdateView>) -> ViewmodelMap
    decreases updates.len(),
{
    if updates.len() == 0 {
        model
    } else {
        let last = updates.last();
        apply_updates(model, updates.drop_last()).insert(last.item_address, last.serialized)
    }
}

/// What a read of `address` gives back from `model`.
pub open spec fn lookup(model: ViewmodelMap, address: Seq<char>) -> Option<SerializedView> {
    if model.contains_key(address) {
        Some(model[address])
    } else {
        None
    }
}

/// The viewmodel that Dart reads: the latest payload of each item address.
pub struct Viewmodel {
    items: StringHashMap<Serialized>,
}

impl View for Viewmodel {
    type V = ViewmodelMap;

    closed spec fn view(&self) -> ViewmodelMap {
        self.items@.map_values(|s: Serialized| s@)
    }
}

impl Viewmodel {
    /// A viewmodel with no items.
    pub fn new() -> (model: Viewmodel)
        ensures
            model@ == Map::<Seq<char>, SerializedView>::empty(),
    {
        let model = Viewmodel { items: StringHashMap::new() };
        assert(model@ =~= Map::<Seq<char>, SerializedView>::empty());
        model
    }

    /// Stores the payload of `update` under its item address, replacing
    /// what was there.
    pub fn apply(&mut self, update: ViewmodelUpdate)
        ensures
            final(self)@ == old(self)@.insert(update@.item_address, update@.serialized),
    {
        let ghost u = update@;
        let ViewmodelUpdate { item_address, serialized } = update;
        self.items.insert(item_address, serialized);
        assert(self@ =~= old(self)@.insert(u.item_address, u.serialized));
    }

    /// A copy of the payload stored under `item_address`, if there is one.
    pub fn get(&self, item_address: &str) -> (found: Option<Serialized>)
        ensures
            found matches Some(s) ==> s@ == self@[item_address@],
            found is Some <==> self@.contains_key(item_address@),
    {
        match self.items.get(item_address) {
            Some(s) => Some(s.duplicate()),
            None => None,
        }
    }
}

/// Forgets every item of the viewmodel (used when Dart restarts).
pub fn clean_viewmodel(viewmodel: &mut Viewmodel)
    ensures
        final(viewmodel)@ == Map::<Seq<char>, SerializedView>::empty(),
{
    *viewmodel = Viewmodel::new();
}

/// Stores the updates that arrived since the last read, oldest first, then
/// returns a copy of the payload at `item_address`.
pub fn read_viewmodel(viewmodel: &mut Viewmodel, pending: Vec<ViewmodelUpdate>, item_address: &str) -> (found: Option<Serialized>)
    ensures
        final(viewmodel)@ == apply_updates(old(viewmodel)@, updates_view(pending@)),
        found matches Some(s) ==> lookup(final(viewmodel)@, item_address@) == Some(s@),
        found is None ==> lookup(final(viewmodel)@, item_address@) is None,
{
    let ghost start = viewmodel@;
    let ghost all = updates_view(pending@);
    for update in it: pending
        invariant
            all == updates_view(it.seq()),
            viewmodel@ == apply_updates(start, all.take(it.index() as int)),
    {
        proof {
            assert(all.take(it.index() + 1).drop_last() =~= all.take(it.index() as int));
        }
        viewmodel.apply(update);
    }
    proof {
        assert(all.take(all.len() as int) =~= all);
    }
    viewmodel.get(item_address)
}

} // verus!

verus! {

/// A read gives back the payload of the last pending update for that
/// address: if update `i` is the last one with `address`, then after the
/// updates are stored the viewmodel holds update `i`'s payload there.
pub proof fn law_read_returns_last_write(
    model: ViewmodelMap,
    updates: Seq<ViewmodelUpdateView>,
    address: Seq<char>,
    i: int,
)
    requires
        0 <= i < updates.len(),
        updates[i].item_address == address,
        forall|j: int| i < j < updates.len() ==> updates[j].item_address != address,
    ensures
        lookup(apply_updates(model, updates), address) == Some(updates[i].serialized),
    decreases updates.len(),
{
    if i < updates.len() - 1 {
        law_read_returns_last_write(model, updates.drop_last(), address, i);
    }
}

/// An address that no pending update names reads as it did before.
pub proof fn law_untouched_address_unchanged(
    model: ViewmodelMap,
    updates: Seq<ViewmodelUpdateView>,
    address: Seq<char>,
)
    requires
        forall|j: int| 0 <= j < updates.len() ==> updates[j].item_address != address,
    ensures
        lookup(apply_updates(model, updates), address) == lookup(model, address),
    decreases updates.len(),
{
    if updates.len() > 0 {
        law_untouched_address_unchanged(model, updates.drop_last(), address);
    }
}

/// Storing updates in two batches gives the same viewmodel as storing
/// them all at once: when Dart reads does not change what it sees.
pub proof fn law_batches_compose(
    model: ViewmodelMap,
    first: Seq<ViewmodelUpdateView>,
    second: Seq<ViewmodelUpdateView>,
)
    ensures
        apply_updates(apply_updates(model, first), second) == apply_updates(model, first + second),
    decreases second.len(),
{
    if second.len() > 0 {
        law_batches_compose(model, first, second.drop_last());
        assert((first + second).drop_last() =~= first + second.drop_last());
    } else {
        assert(first + second =~= first);
    }
}

/// Of two writes to one address, the later one is what a read gives back,
/// whatever other addresses were written in between or after, and whether
/// or not Dart read (stored a first batch) at any point in between.
pub proof fn law_later_write_wins(
    model: ViewmodelMap,
    before: Seq<ViewmodelUpdateView>,
    first: ViewmodelUpdateView,
    middle: Seq<ViewmodelUpdateView>,
    second: ViewmodelUpdateView,
    after: Seq<ViewmodelUpdateView>,
    split: int,
)
    requires
        first.item_address == second.item_address,
        forall|j: int| 0 <= j < after.len() ==> after[j].item_address != second.item_address,
        0 <= split <= before.len() + middle.len() + after.len() + 2,
    ensures
        ({
            let all = before + seq![first] + middle + seq![second] + after;
            lookup(apply_updates(apply_updates(model, all.take(split)), all.skip(split)), second.item_address)
                == Some(second.serialized)
        }),
{
    let all = before + seq![first] + middle + seq![second] + after;
    law_batches_compose(model, all.take(split), all.skip(split));
    assert(all.take(split) + all.skip(split) =~= all);
    let i: int = (before.len() + 1 + middle.len()) as int;
    assert(all[i] == second);
    assert forall|j: int| i < j < all.len() implies all[j].item_address != second.item_address by {
        assert(all[j] == after[j - i - 1]);
    }
    law_read_returns_last_write(model, all, second.item_address, i);
}

/// After the viewmodel is cleaned, no address reads a payload.
pub proof fn law_clean_reads_nothing(address: Seq<char>)
    ensures
        lookup(Map::<Seq<char>, SerializedView>::empty(), address) is None,
{
}

} // verus!
