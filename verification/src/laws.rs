//! What holds of every collection of orders, stated over the model of
//! `order_list` and proved once for all inputs.

use vstd::prelude::*;
use crate::order_list::{
    add_item_result, after_add_item, after_delete_item, contains_id, delete_item_result,
    get_order_result, ids_distinct, is_first_with_id, lemma_first_is_position, lemma_position_of,
    lookup, orders_of, position_of, with_item, without_item,
};
use crate::order_store::{Item, Order, OrderStoreError, OrderView};

verus! {

/// A new order whose id no older order has is found under its id, exactly
/// as it was created: with the given user and without items. Ids that were
/// distinct stay distinct.
pub proof fn lemma_created_order_is_found(orders: Seq<OrderView>, id: u128, user_id: u128)
    requires
        !contains_id(orders, id),
    ensures
        lookup(orders.push(Order::empty(id, user_id)), id) == Some(Order::empty(id, user_id)),
        ids_distinct(orders) ==> ids_distinct(orders.push(Order::empty(id, user_id))),
{
    let created = Order::empty(id, user_id);
    let after = orders.push(created);
    assert forall|j: int| 0 <= j < orders.len() implies (#[trigger] after[j]).id != id by {
        assert(orders[j].id != id);
    }
    assert(is_first_with_id(after, id, orders.len() as int));
    lemma_first_is_position(after, id, orders.len() as int);
    if ids_distinct(orders) {
        assert forall|i: int, j: int| 0 <= i < j < after.len() implies (#[trigger] after[i]).id != (
        #[trigger] after[j]).id by {
            if j < orders.len() {
                assert(orders[i].id != orders[j].id);
            } else {
                assert(orders[i].id != id);
            }
        }
    }
}

/// Creating an order changes no lookup of an id that an older order has, nor
/// of any id other than the new order's.
pub proof fn lemma_create_keeps_other_lookups(orders: Seq<OrderView>, created: OrderView, id: u128)
    requires
        contains_id(orders, id) || id != created.id,
    ensures
        lookup(orders.push(created), id) == lookup(orders, id),
{
    let after = orders.push(created);
    if contains_id(orders, id) {
        lemma_position_of(orders, id);
        let p = position_of(orders, id);
        assert(after[p] == orders[p]);
        assert forall|j: int| 0 <= j < p implies (#[trigger] after[j]).id != id by {
            assert(orders[j].id != id);
        }
        assert(is_first_with_id(after, id, p));
        lemma_first_is_position(after, id, p);
    } else {
        if contains_id(after, id) {
            let k = choose|k: int| 0 <= k < after.len() && (#[trigger] after[k]).id == id;
            if k < orders.len() {
                assert(orders[k].id == id);
            }
            assert(false);
        }
    }
}

/// An id that no order has is not found: the lookup fails with
/// `OrderNotFound` carrying that id, and so do appending and deleting an
/// item, which leave the collection as it was.
pub proof fn lemma_unknown_id_fails(orders: Seq<OrderView>, id: u128, item: Item, index: usize)
    requires
        !contains_id(orders, id),
    ensures
        get_order_result(orders, id) == Err::<OrderView, OrderStoreError>(
            OrderStoreError::OrderNotFound(id),
        ),
        add_item_result(orders, id) == Err::<(), OrderStoreError>(
            OrderStoreError::OrderNotFound(id),
        ),
        after_add_item(orders, id, item) == orders,
        delete_item_result(orders, id, index) == Err::<(), OrderStoreError>(
            OrderStoreError::OrderNotFound(id),
        ),
        after_delete_item(orders, id, index) == orders,
{
}

/// In a collection without orders every id is unknown.
pub proof fn lemma_empty_has_no_order(id: u128)
    ensures
        !contains_id(Seq::<OrderView>::empty(), id),
{
}

/// Appending an item to an order that exists succeeds; afterwards the order
/// is found with the item behind its earlier items, and every other id is
/// found as before.
pub proof fn lemma_add_item_changes_one_order(
    orders: Seq<OrderView>,
    id: u128,
    item: Item,
    other: u128,
)
    requires
        contains_id(orders, id),
    ensures
        add_item_result(orders, id) == Ok::<(), OrderStoreError>(()),
        lookup(after_add_item(orders, id, item), id) == Some(
            with_item(lookup(orders, id)->0, item),
        ),
        other != id ==> lookup(after_add_item(orders, id, item), other) == lookup(orders, other),
        after_add_item(orders, id, item).len() == orders.len(),
{
    lemma_position_of(orders, id);
    let p = position_of(orders, id);
    lemma_update_keeps_lookups(orders, p, with_item(orders[p], item), id);
    lemma_update_keeps_lookups(orders, p, with_item(orders[p], item), other);
    if contains_id(orders, other) {
        lemma_position_of(orders, other);
    }
}

/// Deleting an item at a valid position succeeds; afterwards the order is
/// found without that item, and every other id is found as before. At a
/// position behind the last item the deletion fails with
/// `ItemIndexOutOfBounds` carrying the position, and nothing changes.
pub proof fn lemma_delete_item_changes_one_order(
    orders: Seq<OrderView>,
    id: u128,
    index: usize,
    other: u128,
)
    requires
        contains_id(orders, id),
    ensures
        index < lookup(orders, id)->0.items.len() ==> {
            &&& delete_item_result(orders, id, index) == Ok::<(), OrderStoreError>(())
            &&& lookup(after_delete_item(orders, id, index), id) == Some(
                without_item(lookup(orders, id)->0, index as int),
            )
        },
        index >= lookup(orders, id)->0.items.len() ==> {
            &&& delete_item_result(orders, id, index) == Err::<(), OrderStoreError>(
                OrderStoreError::ItemIndexOutOfBounds(index),
            )
            &&& after_delete_item(orders, id, index) == orders
        },
        other != id ==> lookup(after_delete_item(orders, id, index), other) == lookup(
            orders,
            other,
        ),
        after_delete_item(orders, id, index).len() == orders.len(),
{
    lemma_position_of(orders, id);
    let p = position_of(orders, id);
    if index < orders[p].items.len() {
        lemma_update_keeps_lookups(orders, p, without_item(orders[p], index as int), id);
        lemma_update_keeps_lookups(orders, p, without_item(orders[p], index as int), other);
        if contains_id(orders, other) {
            lemma_position_of(orders, other);
        }
    }
}

/// Replacing an order by one with the same id changes what a lookup finds
/// only at that position.
proof fn lemma_update_keeps_lookups(orders: Seq<OrderView>, p: int, order: OrderView, id: u128)
    requires
        0 <= p < orders.len(),
        order.id == orders[p].id,
    ensures
        contains_id(orders.update(p, order), id) == contains_id(orders, id),
        contains_id(orders, id) ==> position_of(orders.update(p, order), id) == position_of(
            orders,
            id,
        ),
        contains_id(orders, id) ==> lookup(orders.update(p, order), id) == Some(
            if position_of(orders, id) == p {
                order
            } else {
                orders[position_of(orders, id)]
            },
        ),
        !contains_id(orders, id) ==> lookup(orders.update(p, order), id).is_none(),
{
    let after = orders.update(p, order);
    assert forall|j: int| 0 <= j < orders.len() implies (#[trigger] after[j]).id == orders[j].id by {
    }
    if contains_id(orders, id) {
        lemma_position_of(orders, id);
        let q = position_of(orders, id);
        assert(after[q].id == id);
        assert forall|j: int| 0 <= j < q implies (#[trigger] after[j]).id != id by {
            assert(orders[j].id != id);
        }
        assert(is_first_with_id(after, id, q));
        lemma_first_is_position(after, id, q);
    } else {
        if contains_id(after, id) {
            let k = choose|k: int| 0 <= k < after.len() && (#[trigger] after[k]).id == id;
            assert(orders[k].id == id);
            assert(false);
        }
    }
}

/// Items come out in the order in which they went in: after appending `a`
/// and then `b` the items are the earlier ones, then `a`, then `b`.
pub proof fn lemma_items_keep_insertion_order(order: OrderView, a: Item, b: Item)
    ensures
        with_item(with_item(order, a), b).items == order.items + seq![a, b],
        with_item(with_item(order, a), b).id == order.id,
        with_item(with_item(order, a), b).user_id == order.user_id,
{
    assert(with_item(with_item(order, a), b).items =~= order.items + seq![a, b]);
}

/// Deleting an item keeps every item before it in place and moves every
/// item behind it one position towards the front. So deleting the last item
/// leaves the others as they were, and deleting the first leaves the rest in
/// their order.
pub proof fn lemma_delete_item_shifts(order: OrderView, index: int)
    requires
        0 <= index < order.items.len(),
    ensures
        without_item(order, index).items.len() == order.items.len() - 1,
        forall|k: int| 0 <= k < index ==> without_item(order, index).items[k] == order.items[k],
        forall|k: int|
            index <= k < order.items.len() - 1 ==> without_item(order, index).items[k]
                == order.items[k + 1],
        index == order.items.len() - 1 ==> without_item(order, index).items
            == order.items.drop_last(),
        index == 0 ==> without_item(order, index).items == order.items.drop_first(),
        without_item(order, index).id == order.id,
        without_item(order, index).user_id == order.user_id,
{
    let items = without_item(order, index).items;
    if index == order.items.len() - 1 {
        assert(items =~= order.items.drop_last());
    }
    if index == 0 {
        assert(items =~= order.items.drop_first());
    }
}

/// The orders of a user are those that were created for that user: a new
/// order joins the end of its own user's orders and changes no other
/// user's.
pub proof fn lemma_list_follows_creation(orders: Seq<OrderView>, created: OrderView, user_id: u128)
    ensures
        orders_of(orders.push(created), user_id) == if created.user_id == user_id {
            orders_of(orders, user_id).push(created)
        } else {
            orders_of(orders, user_id)
        },
        orders_of(Seq::<OrderView>::empty(), user_id) == Seq::<OrderView>::empty(),
{
    orders.lemma_filter_push(created, |o: OrderView| o.user_id == user_id);
    assert(orders_of(Seq::<OrderView>::empty(), user_id) =~= Seq::<OrderView>::empty()) by {
        reveal(Seq::filter);
    }
}

/// The orders listed for a user are exactly the orders of that user: each
/// listed order belongs to the user and stands in the collection, and each
/// order of the user in the collection is listed.
pub proof fn lemma_list_is_exact(orders: Seq<OrderView>, user_id: u128)
    ensures
        forall|k: int|
            0 <= k < orders_of(orders, user_id).len() ==> {
                &&& (#[trigger] orders_of(orders, user_id)[k]).user_id == user_id
                &&& orders.contains(orders_of(orders, user_id)[k])
            },
        forall|i: int|
            0 <= i < orders.len() && (#[trigger] orders[i]).user_id == user_id ==> orders_of(
                orders,
                user_id,
            ).contains(orders[i]),
{
    let pred = |o: OrderView| o.user_id == user_id;
    let listed = orders_of(orders, user_id);
    assert forall|k: int| 0 <= k < listed.len() implies {
        &&& (#[trigger] listed[k]).user_id == user_id
        &&& orders.contains(listed[k])
    } by {
        orders.lemma_filter_pred(pred, k);
        assert(listed.contains(listed[k]));
        orders.lemma_filter_contains_rev(pred, listed[k]);
    }
    assert forall|i: int|
        0 <= i < orders.len() && (#[trigger] orders[i]).user_id == user_id implies listed.contains(
        orders[i],
    ) by {
        orders.lemma_filter_contains(pred, i);
    }
}

/// One change to a collection of orders.
pub enum Change {
    /// An order is appended.
    Create { order: OrderView },
    /// An item is appended to the order `order_id`.
    AddItem { order_id: u128, item: Item },
    /// The item at `index` is deleted from the order `order_id`.
    DeleteItem { order_id: u128, index: usize },
}

/// The collection after one change. A change that fails leaves it as it
/// was.
pub open spec fn after(orders: Seq<OrderView>, change: Change) -> Seq<OrderView> {
    match change {
        Change::Create { order } => orders.push(order),
        Change::AddItem { order_id, item } => after_add_item(orders, order_id, item),
        Change::DeleteItem { order_id, index } => after_delete_item(orders, order_id, index),
    }
}

/// The collection after a run of changes, the first of `changes` first.
pub open spec fn after_all(orders: Seq<OrderView>, changes: Seq<Change>) -> Seq<OrderView>
    decreases changes.len(),
{
    if changes.len() == 0 {
        orders
    } else {
        after_all(after(orders, changes[0]), changes.drop_first())
    }
}

/// Whether `change` leaves the order `id` of `orders` alone: it creates an
/// order, or changes the items of another order, or fails.
pub open spec fn leaves_alone(orders: Seq<OrderView>, change: Change, id: u128) -> bool {
    match change {
        Change::Create { order } => true,
        Change::AddItem { order_id, item } => order_id != id || add_item_result(orders, order_id)
            is Err,
        Change::DeleteItem { order_id, index } => order_id != id || delete_item_result(
            orders,
            order_id,
            index,
        ) is Err,
    }
}

/// Whether every change of the run leaves the order `id` alone, each held
/// against the collection that the changes before it have made.
pub open spec fn all_leave_alone(orders: Seq<OrderView>, changes: Seq<Change>, id: u128) -> bool
    decreases changes.len(),
{
    changes.len() == 0 || (leaves_alone(orders, changes[0], id) && all_leave_alone(
        after(orders, changes[0]),
        changes.drop_first(),
        id,
    ))
}

/// Whether `change` touches only orders of users other than `user_id`: the
/// order that it creates, or whose items it changes, belongs to another
/// user, or it finds no order.
pub open spec fn touches_only_others(orders: Seq<OrderView>, change: Change, user_id: u128) -> bool {
    match change {
        Change::Create { order } => order.user_id != user_id,
        Change::AddItem { order_id, item } => lookup(orders, order_id) matches Some(order)
            ==> order.user_id != user_id,
        Change::DeleteItem { order_id, index } => lookup(orders, order_id) matches Some(order)
            ==> order.user_id != user_id,
    }
}

/// Whether every change of the run touches only orders of users other than
/// `user_id`, each held against the collection that the changes before it
/// have made.
pub open spec fn all_touch_only_others(
    orders: Seq<OrderView>,
    changes: Seq<Change>,
    user_id: u128,
) -> bool
    decreases changes.len(),
{
    changes.len() == 0 || (touches_only_others(orders, changes[0], user_id)
        && all_touch_only_others(after(orders, changes[0]), changes.drop_first(), user_id))
}

/// An order that exists is found unchanged after any run of changes that
/// leave it alone: creations, changes to the items of other orders, and
/// changes that fail.
pub proof fn lemma_lookup_survives_other_changes(
    orders: Seq<OrderView>,
    changes: Seq<Change>,
    id: u128,
)
    requires
        contains_id(orders, id),
        all_leave_alone(orders, changes, id),
    ensures
        lookup(after_all(orders, changes), id) == lookup(orders, id),
    decreases changes.len(),
{
    if changes.len() > 0 {
        let next = after(orders, changes[0]);
        assert(lookup(next, id) == lookup(orders, id)) by {
            match changes[0] {
                Change::Create { order } => {
                    lemma_create_keeps_other_lookups(orders, order, id);
                },
                Change::AddItem { order_id, item } => {
                    if contains_id(orders, order_id) {
                        lemma_add_item_changes_one_order(orders, order_id, item, id);
                    }
                },
                Change::DeleteItem { order_id, index } => {
                    if contains_id(orders, order_id) {
                        lemma_delete_item_changes_one_order(orders, order_id, index, id);
                    }
                },
            }
        }
        lemma_lookup_survives_other_changes(next, changes.drop_first(), id);
    }
}

/// Appending an item to an order of another user, or deleting one from it,
/// changes nothing in the list of the orders of `user_id`; nor does a
/// change that finds no order or no item.
pub proof fn lemma_list_ignores_item_changes_of_others(
    orders: Seq<OrderView>,
    order_id: u128,
    item: Item,
    index: usize,
    user_id: u128,
)
    requires
        lookup(orders, order_id) matches Some(order) ==> order.user_id != user_id,
    ensures
        orders_of(after_add_item(orders, order_id, item), user_id) == orders_of(orders, user_id),
        orders_of(after_delete_item(orders, order_id, index), user_id) == orders_of(
            orders,
            user_id,
        ),
{
    if contains_id(orders, order_id) {
        lemma_position_of(orders, order_id);
        let p = position_of(orders, order_id);
        lemma_update_keeps_other_users_list(orders, p, with_item(orders[p], item), user_id);
        if index < orders[p].items.len() {
            lemma_update_keeps_other_users_list(
                orders,
                p,
                without_item(orders[p], index as int),
                user_id,
            );
        }
    }
}

/// Replacing an order of another user by an order of another user changes
/// nothing in the list of the orders of `user_id`.
proof fn lemma_update_keeps_other_users_list(
    orders: Seq<OrderView>,
    p: int,
    order: OrderView,
    user_id: u128,
)
    requires
        0 <= p < orders.len(),
        orders[p].user_id != user_id,
        order.user_id != user_id,
    ensures
        orders_of(orders.update(p, order), user_id) == orders_of(orders, user_id),
    decreases orders.len(),
{
    let pred = |o: OrderView| o.user_id == user_id;
    let front = orders.drop_last();
    let last = orders.last();
    assert(orders =~= front.push(last));
    front.lemma_filter_push(last, pred);
    if p == orders.len() - 1 {
        assert(orders.update(p, order) =~= front.push(order));
        front.lemma_filter_push(order, pred);
    } else {
        assert(orders.update(p, order) =~= front.update(p, order).push(last));
        front.update(p, order).lemma_filter_push(last, pred);
        lemma_update_keeps_other_users_list(front, p, order, user_id);
    }
}

/// The list of the orders of a user is the same after any run of changes
/// that touch only orders of other users: creations for other users, and
/// changes to the items of their orders.
pub proof fn lemma_list_survives_changes_of_others(
    orders: Seq<OrderView>,
    changes: Seq<Change>,
    user_id: u128,
)
    requires
        all_touch_only_others(orders, changes, user_id),
    ensures
        orders_of(after_all(orders, changes), user_id) == orders_of(orders, user_id),
    decreases changes.len(),
{
    if changes.len() > 0 {
        let next = after(orders, changes[0]);
        assert(orders_of(next, user_id) == orders_of(orders, user_id)) by {
            match changes[0] {
                Change::Create { order } => {
                    lemma_list_follows_creation(orders, order, user_id);
                },
                Change::AddItem { order_id, item } => {
                    lemma_list_ignores_item_changes_of_others(orders, order_id, item, 0, user_id);
                },
                Change::DeleteItem { order_id, index } => {
                    lemma_list_ignores_item_changes_of_others(
                        orders,
                        order_id,
                        Item { product_id: 0, quantity: 0 },
                        index,
                        user_id,
                    );
                },
            }
        }
        lemma_list_survives_changes_of_others(next, changes.drop_first(), user_id);
    }
}

} // verus!
