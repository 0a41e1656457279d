use order_service::order_list::OrderList;
use order_service::order_store::{Item, Order, OrderStoreError};

const PRODUCT_A: u128 = 0x1111_0000_0000_4000_8000_0000_0000_0001;
const PRODUCT_B: u128 = 0x1111_0000_0000_4000_8000_0000_0000_0002;
const PRODUCT_C: u128 = 0x1111_0000_0000_4000_8000_0000_0000_0003;

#[test]
fn insert_new_returns_the_order_and_appends_it() {
    let mut list = OrderList::new();
    let order = list.insert_new(10, 1);
    assert_eq!(order, Order { id: 10, user_id: 1, items: vec![] });
    assert_eq!(list.get_order(10), Ok(Order { id: 10, user_id: 1, items: vec![] }));
    assert_eq!(list.list_orders(1), vec![Order { id: 10, user_id: 1, items: vec![] }]);
}

#[test]
fn create_order_gives_the_user_no_items_and_a_random_uuid() {
    let mut list = OrderList::new();
    let order = list.create_order(77);
    assert_eq!(order.user_id, 77);
    assert!(order.items.is_empty());
    assert_eq!((order.id >> 76) & 0xf, 4);
    assert_eq!((order.id >> 62) & 0x3, 2);
    assert_eq!(list.get_order(order.id), Ok(order));
}

#[test]
fn created_orders_have_different_ids() {
    let mut list = OrderList::new();
    let a = list.create_order(1);
    let b = list.create_order(1);
    let c = list.create_order(2);
    assert_ne!(a.id, b.id);
    assert_ne!(a.id, c.id);
    assert_ne!(b.id, c.id);
    assert_eq!(list.list_orders(1), vec![a, b]);
    assert_eq!(list.list_orders(2), vec![c]);
}

#[test]
fn get_order_on_unknown_id_carries_that_id() {
    let mut list = OrderList::new();
    list.insert_new(10, 1);
    assert_eq!(list.get_order(11), Err(OrderStoreError::OrderNotFound(11)));
}

#[test]
fn get_order_returns_a_copy() {
    let mut list = OrderList::new();
    list.insert_new(10, 1);
    let mut copy = list.get_order(10).unwrap();
    copy.items.push(Item { product_id: PRODUCT_A, quantity: 1 });
    copy.user_id = 99;
    assert_eq!(list.get_order(10), Ok(Order { id: 10, user_id: 1, items: vec![] }));
    let before = list.get_order(10).unwrap();
    list.add_item(10, PRODUCT_A, 5).unwrap();
    assert_eq!(before.items.len(), 0);
}

#[test]
fn get_order_finds_the_first_of_two_orders_with_one_id() {
    let mut list = OrderList::new();
    list.insert_new(10, 1);
    list.insert_new(10, 2);
    assert_eq!(list.get_order(10).unwrap().user_id, 1);
    list.add_item(10, PRODUCT_A, 3).unwrap();
    assert_eq!(list.list_orders(1)[0].items, vec![Item { product_id: PRODUCT_A, quantity: 3 }]);
    assert_eq!(list.list_orders(2)[0].items, vec![]);
}

#[test]
fn list_orders_keeps_creation_order_and_other_users_apart() {
    let mut list = OrderList::new();
    list.insert_new(10, 1);
    list.insert_new(20, 2);
    list.insert_new(30, 1);
    let of_1 = list.list_orders(1);
    assert_eq!(of_1.len(), 2);
    assert_eq!(of_1[0].id, 10);
    assert_eq!(of_1[1].id, 30);
    let of_2 = list.list_orders(2);
    assert_eq!(of_2.len(), 1);
    assert_eq!(of_2[0].id, 20);
}

#[test]
fn list_orders_of_a_user_without_orders_is_empty() {
    let mut list = OrderList::new();
    assert_eq!(list.list_orders(1), vec![]);
    list.insert_new(10, 1);
    assert_eq!(list.list_orders(2), vec![]);
}

#[test]
fn add_item_appends_in_insertion_order() {
    let mut list = OrderList::new();
    list.insert_new(10, 1);
    list.insert_new(20, 1);
    assert_eq!(list.add_item(10, PRODUCT_A, 42), Ok(()));
    assert_eq!(list.add_item(10, PRODUCT_B, 7), Ok(()));
    assert_eq!(
        list.get_order(10).unwrap().items,
        vec![Item { product_id: PRODUCT_A, quantity: 42 }, Item { product_id: PRODUCT_B, quantity: 7 }]
    );
    assert_eq!(list.get_order(20).unwrap().items, vec![]);
}

#[test]
fn add_item_accepts_any_quantity() {
    let mut list = OrderList::new();
    list.insert_new(10, 1);
    assert_eq!(list.add_item(10, PRODUCT_A, 0), Ok(()));
    assert_eq!(list.add_item(10, PRODUCT_A, -5), Ok(()));
    assert_eq!(list.add_item(10, PRODUCT_A, i32::MIN), Ok(()));
    assert_eq!(list.add_item(10, PRODUCT_A, i32::MAX), Ok(()));
    let quantities: Vec<i32> =
        list.get_order(10).unwrap().items.iter().map(|i| i.quantity).collect();
    assert_eq!(quantities, vec![0, -5, i32::MIN, i32::MAX]);
}

#[test]
fn add_item_to_unknown_order_changes_nothing() {
    let mut list = OrderList::new();
    list.insert_new(10, 1);
    list.add_item(10, PRODUCT_A, 1).unwrap();
    assert_eq!(list.add_item(11, PRODUCT_B, 2), Err(OrderStoreError::OrderNotFound(11)));
    assert_eq!(
        list.list_orders(1),
        vec![Order { id: 10, user_id: 1, items: vec![Item { product_id: PRODUCT_A, quantity: 1 }] }]
    );
}

#[test]
fn operations_on_an_empty_collection_fail_with_order_not_found() {
    let mut list = OrderList::new();
    assert_eq!(list.add_item(10, PRODUCT_A, 1), Err(OrderStoreError::OrderNotFound(10)));
    assert_eq!(list.delete_item(10, 0), Err(OrderStoreError::OrderNotFound(10)));
    assert_eq!(list.delete_item(10, usize::MAX), Err(OrderStoreError::OrderNotFound(10)));
    assert_eq!(list.get_order(10), Err(OrderStoreError::OrderNotFound(10)));
    assert_eq!(list.list_orders(1), vec![]);
}

fn three_items() -> OrderList {
    let mut list = OrderList::new();
    list.insert_new(10, 1);
    list.add_item(10, PRODUCT_A, 42).unwrap();
    list.add_item(10, PRODUCT_B, 7).unwrap();
    list.add_item(10, PRODUCT_C, 3).unwrap();
    list
}

#[test]
fn delete_item_in_the_middle_shifts_the_rest_down() {
    let mut list = three_items();
    assert_eq!(list.delete_item(10, 1), Ok(()));
    assert_eq!(
        list.get_order(10).unwrap().items,
        vec![Item { product_id: PRODUCT_A, quantity: 42 }, Item { product_id: PRODUCT_C, quantity: 3 }]
    );
}

#[test]
fn delete_first_item_keeps_the_order_of_the_rest() {
    let mut list = three_items();
    assert_eq!(list.delete_item(10, 0), Ok(()));
    assert_eq!(
        list.get_order(10).unwrap().items,
        vec![Item { product_id: PRODUCT_B, quantity: 7 }, Item { product_id: PRODUCT_C, quantity: 3 }]
    );
}

#[test]
fn delete_last_item_leaves_the_others() {
    let mut list = three_items();
    assert_eq!(list.delete_item(10, 2), Ok(()));
    assert_eq!(
        list.get_order(10).unwrap().items,
        vec![Item { product_id: PRODUCT_A, quantity: 42 }, Item { product_id: PRODUCT_B, quantity: 7 }]
    );
}

#[test]
fn delete_item_out_of_bounds_carries_the_index_and_changes_nothing() {
    let mut list = three_items();
    assert_eq!(list.delete_item(10, 3), Err(OrderStoreError::ItemIndexOutOfBounds(3)));
    assert_eq!(
        list.delete_item(10, usize::MAX),
        Err(OrderStoreError::ItemIndexOutOfBounds(usize::MAX))
    );
    assert_eq!(list.get_order(10).unwrap().items.len(), 3);
}

#[test]
fn delete_item_from_an_order_without_items_is_out_of_bounds() {
    let mut list = OrderList::new();
    list.insert_new(10, 1);
    assert_eq!(list.delete_item(10, 0), Err(OrderStoreError::ItemIndexOutOfBounds(0)));
}

#[test]
fn delete_item_from_unknown_order_is_not_found_whatever_the_index() {
    let mut list = three_items();
    assert_eq!(list.delete_item(11, 0), Err(OrderStoreError::OrderNotFound(11)));
    assert_eq!(list.delete_item(11, 7), Err(OrderStoreError::OrderNotFound(11)));
    assert_eq!(list.get_order(10).unwrap().items.len(), 3);
}

#[test]
fn indices_are_not_stable_across_deletions() {
    let mut list = three_items();
    list.delete_item(10, 0).unwrap();
    list.delete_item(10, 0).unwrap();
    assert_eq!(list.get_order(10).unwrap().items, vec![Item { product_id: PRODUCT_C, quantity: 3 }]);
    list.delete_item(10, 0).unwrap();
    assert_eq!(list.delete_item(10, 0), Err(OrderStoreError::ItemIndexOutOfBounds(0)));
}

#[test]
fn order_new_and_with_id() {
    let a = Order::with_id(5, 6);
    assert_eq!(a, Order { id: 5, user_id: 6, items: vec![] });
    let b = Order::new(6);
    let c = Order::new(6);
    assert_eq!(b.user_id, 6);
    assert!(b.items.is_empty());
    assert_eq!((b.id >> 76) & 0xf, 4);
    assert_eq!((b.id >> 62) & 0x3, 2);
    assert_ne!(b.id, c.id);
}

#[test]
fn clone_of_an_order_is_equal_and_independent() {
    let mut a = Order::with_id(5, 6);
    a.items.push(Item { product_id: PRODUCT_A, quantity: 1 });
    let b = a.clone();
    assert_eq!(a, b);
    a.items.push(Item { product_id: PRODUCT_B, quantity: 2 });
    assert_eq!(b.items.len(), 1);
}

#[test]
fn an_order_is_found_unchanged_after_calls_that_leave_it_alone() {
    let mut list = three_items();
    list.insert_new(20, 1);
    let before = list.get_order(10).unwrap();

    list.get_order(20).unwrap();
    list.list_orders(1);
    list.insert_new(30, 2);
    list.insert_new(10, 3);
    list.add_item(20, PRODUCT_A, 1).unwrap();
    list.add_item(30, PRODUCT_B, 2).unwrap();
    list.delete_item(20, 0).unwrap();
    assert_eq!(list.add_item(40, PRODUCT_A, 1), Err(OrderStoreError::OrderNotFound(40)));
    assert_eq!(list.delete_item(10, 3), Err(OrderStoreError::ItemIndexOutOfBounds(3)));
    assert_eq!(list.delete_item(40, 0), Err(OrderStoreError::OrderNotFound(40)));

    assert_eq!(list.get_order(10), Ok(before));
}

#[test]
fn a_users_list_is_unchanged_after_changes_to_other_users_orders() {
    let mut list = three_items();
    list.insert_new(20, 2);
    list.insert_new(30, 1);
    let before = list.list_orders(1);
    assert_eq!(before.len(), 2);

    list.insert_new(40, 2);
    list.insert_new(50, 3);
    list.add_item(20, PRODUCT_A, 1).unwrap();
    list.add_item(20, PRODUCT_B, 2).unwrap();
    list.add_item(50, PRODUCT_C, 3).unwrap();
    list.delete_item(20, 0).unwrap();
    assert_eq!(list.delete_item(40, 0), Err(OrderStoreError::ItemIndexOutOfBounds(0)));
    assert_eq!(list.add_item(60, PRODUCT_A, 1), Err(OrderStoreError::OrderNotFound(60)));

    assert_eq!(list.list_orders(1), before);
    assert_eq!(list.list_orders(2).len(), 2);
}
