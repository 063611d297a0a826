//! How the code generator takes apart the worker `impl` block: methods marked
//! `method_taskifier_worker_fn` become tasks, methods marked
//! `method_taskifier_client_fn` move to the client, and the marker attributes
//! are removed.
use vstd::prelude::*;
use super::names::{attribute_is, same_text};

verus! {

/// What the generator looks at in one item of the `impl` block.
pub struct ImplItemShape {
    /// Whether the item is a method.
    pub is_fn: bool,
    /// The path segments of each of the item's attributes, in order.
    pub attributes: Vec<Vec<String>>,
}

/// What becomes of one item of the `impl` block.
pub struct ItemPlan {
    /// The method's signature is turned into a task.
    pub is_worker: bool,
    /// The method moves from the worker to the client.
    pub is_client: bool,
    /// For each attribute of the item, whether it stays on the item.
    pub kept_attributes: Vec<bool>,
}

pub open spec fn worker_marker() -> Seq<char> {
    "method_taskifier_worker_fn"@
}

pub open spec fn client_marker() -> Seq<char> {
    "method_taskifier_client_fn"@
}

/// Whether an attribute path is exactly the identifier `name`.
pub open spec fn attribute_matches(path: Seq<String>, name: Seq<char>) -> bool {
    path.len() == 1 && path[0]@ == name
}

/// Whether an item carries the marker `name` (only methods are looked at).
pub open spec fn marked(item: ImplItemShape, name: Seq<char>) -> bool {
    item.is_fn && exists|i: int| 0 <= i < item.attributes@.len() && #[trigger] attribute_matches(item.attributes@[i]@, name)
}

/// Whether the attribute at `i` stays on the item: markers are removed from
/// methods, everything else stays.
pub open spec fn attribute_kept(item: ImplItemShape, i: int) -> bool {
    !(item.is_fn && (attribute_matches(item.attributes@[i]@, worker_marker())
        || attribute_matches(item.attributes@[i]@, client_marker())))
}

/// Plans what becomes of one item.
pub fn plan_item(item: &ImplItemShape) -> (plan: ItemPlan)
    ensures
        plan.is_worker == marked(*item, worker_marker()),
        plan.is_client == marked(*item, client_marker()),
        plan.kept_attributes@.len() == item.attributes@.len(),
        forall|i: int| 0 <= i < item.attributes@.len() ==> #[trigger] plan.kept_attributes@[i] == attribute_kept(*item, i),
{
    let mut is_worker = false;
    let mut is_client = false;
    let mut kept: Vec<bool> = Vec::new();
    let mut i: usize = 0;
    while i < item.attributes.len()
        invariant
            i <= item.attributes@.len(),
            kept@.len() == i,
            forall|k: int| 0 <= k < i ==> #[trigger] kept@[k] == attribute_kept(*item, k),
            is_worker == (item.is_fn && exists|k: int| 0 <= k < i && #[trigger] attribute_matches(item.attributes@[k]@, worker_marker())),
            is_client == (item.is_fn && exists|k: int| 0 <= k < i && #[trigger] attribute_matches(item.attributes@[k]@, client_marker())),
        decreases item.attributes@.len() - i,
    {
        let path = &item.attributes[i];
        let worker = attribute_is(path, "method_taskifier_worker_fn");
        let client = attribute_is(path, "method_taskifier_client_fn");
        assert(worker == attribute_matches(item.attributes@[i as int]@, worker_marker()));
        assert(client == attribute_matches(item.attributes@[i as int]@, client_marker()));
        if item.is_fn && worker {
            is_worker = true;
        }
        if item.is_fn && client {
            is_client = true;
        }
        kept.push(!(item.is_fn && (worker || client)));
        i = i + 1;
    }
    ItemPlan { is_worker, is_client, kept_attributes: kept }
}

/// Plans every item of the `impl` block, in order.
pub fn plan_items(items: &Vec<ImplItemShape>) -> (plans: Vec<ItemPlan>)
    ensures
        plans@.len() == items@.len(),
        forall|j: int| 0 <= j < items@.len() ==> {
            &&& (#[trigger] plans@[j]).is_worker == marked(items@[j], worker_marker())
            &&& plans@[j].is_client == marked(items@[j], client_marker())
            &&& plans@[j].kept_attributes@.len() == items@[j].attributes@.len()
            &&& forall|i: int| 0 <= i < items@[j].attributes@.len() ==> #[trigger] plans@[j].kept_attributes@[i] == attribute_kept(items@[j], i)
        },
{
    let mut plans: Vec<ItemPlan> = Vec::new();
    let mut j: usize = 0;
    while j < items.len()
        invariant
            j <= items@.len(),
            plans@.len() == j,
            forall|k: int| 0 <= k < j ==> {
                &&& (#[trigger] plans@[k]).is_worker == marked(items@[k], worker_marker())
                &&& plans@[k].is_client == marked(items@[k], client_marker())
                &&& plans@[k].kept_attributes@.len() == items@[k].attributes@.len()
                &&& forall|i: int| 0 <= i < items@[k].attributes@.len() ==> #[trigger] plans@[k].kept_attributes@[i] == attribute_kept(items@[k], i)
            },
        decreases items@.len() - j,
    {
        let plan = plan_item(&items[j]);
        plans.push(plan);
        j = j + 1;
    }
    plans
}

/// Whether any worker method is `async`; the generated executor functions are
/// then `async` too and await each method call.
pub fn has_async_method(asyncness: &Vec<bool>) -> (r: bool)
    ensures
        r == exists|i: int| 0 <= i < asyncness@.len() && #[trigger] asyncness@[i],
{
    let mut i: usize = 0;
    while i < asyncness.len()
        invariant
            i <= asyncness@.len(),
            forall|k: int| 0 <= k < i ==> !#[trigger] asyncness@[k],
        decreases asyncness@.len() - i,
    {
        if asyncness[i] {
            return true;
        }
        i = i + 1;
    }
    false
}

/// The positions of the inputs that are not the receiver (`self`): those
/// become fields of the task's parameter struct, in order.
pub fn typed_input_positions(is_receiver: &Vec<bool>) -> (r: Vec<usize>)
    ensures
        forall|k: int| 0 <= k < r@.len() ==> #[trigger] r@[k] < is_receiver@.len() && !is_receiver@[r@[k] as int],
        forall|k: int, l: int| 0 <= k < l < r@.len() ==> r@[k] < r@[l],
        forall|i: int| 0 <= i < is_receiver@.len() && !is_receiver@[i] ==> exists|k: int| 0 <= k < r@.len() && #[trigger] r@[k] == i,
{
    let mut r: Vec<usize> = Vec::new();
    let mut i: usize = 0;
    while i < is_receiver.len()
        invariant
            i <= is_receiver@.len(),
            forall|k: int| 0 <= k < r@.len() ==> #[trigger] r@[k] < i && !is_receiver@[r@[k] as int],
            forall|k: int, l: int| 0 <= k < l < r@.len() ==> r@[k] < r@[l],
            forall|m: int| 0 <= m < i && !is_receiver@[m] ==> exists|k: int| 0 <= k < r@.len() && #[trigger] r@[k] == m,
        decreases is_receiver@.len() - i,
    {
        let ghost before = r@;
        if !is_receiver[i] {
            r.push(i);
        }
        proof {
            assert forall|m: int| 0 <= m <= i && !is_receiver@[m] implies exists|k: int| 0 <= k < r@.len() && #[trigger] r@[k] == m by {
                if m < i {
                    let k = choose|k: int| 0 <= k < before.len() && #[trigger] before[k] == m;
                    assert(r@[k] == m);
                } else {
                    assert(r@[r@.len() - 1] == m);
                }
            }
        }
        i = i + 1;
    }
    r
}

} // verus!
