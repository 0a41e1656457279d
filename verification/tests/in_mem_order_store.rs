use order_service::in_mem_order_store::InMemOrderStore;
use order_service::order_store::{Order, OrderStore, OrderStoreError};
use uuid::Uuid;

struct Context {
    user_id_1: u128,
    user_id_2: u128,
    in_mem_store: InMemOrderStore,
    order_1_user_1: Order,
}

fn new_id() -> u128 {
    Uuid::new_v4().as_u128()
}

fn setup() -> Context {
    let user_id_1 = new_id();
    let in_mem_store = InMemOrderStore::new();
    let order = in_mem_store.create_order(user_id_1);
    let ctx = Context {
        user_id_1,
        user_id_2: new_id(),
        in_mem_store,
        order_1_user_1: order.unwrap(),
    };
    _ = ctx.in_mem_store.create_order(ctx.user_id_2);
    _ = ctx.in_mem_store.create_order(ctx.user_id_1);

    ctx
}

#[test]
fn create_order_adds_order_to_store() {
    let ctx = setup();
    assert_eq!(ctx.in_mem_store.list_orders(ctx.user_id_1).unwrap().len(), 2);
    assert_eq!(ctx.in_mem_store.list_orders(ctx.user_id_2).unwrap().len(), 1);
}

#[test]
fn get_order_retrieves_existing_order() {
    let ctx = setup();
    if let Ok(stored_order) = ctx.in_mem_store.get_order(ctx.order_1_user_1.id) {
        assert_eq!(stored_order, ctx.order_1_user_1);
    } else {
        panic!("Order not found after being created");
    }
}

#[test]
fn get_order_returns_error_for_non_existing_order() {
    let ctx = setup();
    let order_id = new_id();
    if let Err(OrderStoreError::OrderNotFound(not_found_id)) = ctx.in_mem_store.get_order(order_id)
    {
        assert_eq!(order_id, not_found_id);
    } else {
        panic!("Unexpected order found");
    }
}

#[test]
fn item_cannot_be_added_to_non_existing_order() {
    let in_mem_store = InMemOrderStore::new();
    assert!(in_mem_store.add_item(new_id(), new_id(), 1).is_err());
}

#[test]
fn order_contains_added_item() {
    let ctx = setup();
    let product_id = new_id();
    let quantity = 42;
    if let Ok(()) = ctx
        .in_mem_store
        .add_item(ctx.order_1_user_1.id, product_id, quantity)
    {
        if let Ok(stored_order) = ctx.in_mem_store.get_order(ctx.order_1_user_1.id) {
            assert_eq!(stored_order.items.len(), 1);
            assert_eq!(stored_order.items[0].product_id, product_id);
            assert_eq!(stored_order.items[0].quantity, quantity);
        } else {
            panic!("Order not found after being created");
        }
    } else {
        panic!("Failed to add item to order");
    }
}

#[test]
fn order_contains_added_items() {
    let ctx = setup();
    let product_id_0 = new_id();
    let quantity_0 = 42;
    let product_id_1 = new_id();
    let quantity_1 = 7;
    if let (Ok(()), Ok(())) = (
        ctx.in_mem_store
            .add_item(ctx.order_1_user_1.id, product_id_0, quantity_0),
        ctx.in_mem_store
            .add_item(ctx.order_1_user_1.id, product_id_1, quantity_1),
    ) {
        if let Ok(stored_order) = ctx.in_mem_store.get_order(ctx.order_1_user_1.id) {
            assert_eq!(stored_order.items.len(), 2);
            assert_eq!(stored_order.items[0].product_id, product_id_0);
            assert_eq!(stored_order.items[0].quantity, quantity_0);
            assert_eq!(stored_order.items[1].product_id, product_id_1);
            assert_eq!(stored_order.items[1].quantity, quantity_1);
        } else {
            panic!("Order not found after being created");
        }
    } else {
        panic!("Failed to add items to order");
    }
}

#[test]
fn item_cannot_be_deleted_from_non_existing_order() {
    let in_mem_store = InMemOrderStore::new();
    assert!(in_mem_store.delete_item(new_id(), 1).is_err());
}

#[test]
fn attempt_to_delete_non_existent_item_from_order_returns_error() {
    let ctx = setup();
    let product_id_0 = new_id();
    let quantity_0 = 42;
    let product_id_1 = new_id();
    let quantity_1 = 7;
    if let (Ok(()), Ok(())) = (
        ctx.in_mem_store
            .add_item(ctx.order_1_user_1.id, product_id_0, quantity_0),
        ctx.in_mem_store
            .add_item(ctx.order_1_user_1.id, product_id_1, quantity_1),
    ) {
        if let Err(OrderStoreError::ItemIndexOutOfBounds(index)) =
            ctx.in_mem_store.delete_item(ctx.order_1_user_1.id, 2)
        {
            assert_eq!(index, 2);
        } else {
            panic!("Deleting non-existent item must produce error");
        }
    } else {
        panic!("Failed to add items to order");
    }
}

#[test]
fn last_item_can_be_deleted_from_order() {
    let ctx = setup();
    let product_id_0 = new_id();
    let quantity_0 = 42;
    let product_id_1 = new_id();
    let quantity_1 = 7;
    if let (Ok(()), Ok(())) = (
        ctx.in_mem_store
            .add_item(ctx.order_1_user_1.id, product_id_0, quantity_0),
        ctx.in_mem_store
            .add_item(ctx.order_1_user_1.id, product_id_1, quantity_1),
    ) {
        if let Ok(()) = ctx.in_mem_store.delete_item(ctx.order_1_user_1.id, 1) {
            if let Ok(stored_order) = ctx.in_mem_store.get_order(ctx.order_1_user_1.id) {
                assert_eq!(stored_order.items.len(), 1);
                assert_eq!(stored_order.items[0].product_id, product_id_0);
                assert_eq!(stored_order.items[0].quantity, quantity_0);
            } else {
                panic!("Order not found after being created");
            }
        } else {
            panic!("Failed to delete item from order");
        }
    } else {
        panic!("Failed to add items to order");
    }
}

#[test]
fn first_item_can_be_deleted_from_order() {
    let ctx = setup();
    let product_id_0 = new_id();
    let quantity_0 = 42;
    let product_id_1 = new_id();
    let quantity_1 = 7;
    if let (Ok(()), Ok(())) = (
        ctx.in_mem_store
            .add_item(ctx.order_1_user_1.id, product_id_0, quantity_0),
        ctx.in_mem_store
            .add_item(ctx.order_1_user_1.id, product_id_1, quantity_1),
    ) {
        if let Ok(()) = ctx.in_mem_store.delete_item(ctx.order_1_user_1.id, 0) {
            if let Ok(stored_order) = ctx.in_mem_store.get_order(ctx.order_1_user_1.id) {
                assert_eq!(stored_order.items.len(), 1);
                assert_eq!(stored_order.items[0].product_id, product_id_1);
                assert_eq!(stored_order.items[0].quantity, quantity_1);
            } else {
                panic!("Order not found after being created");
            }
        } else {
            panic!("Failed to delete item from order");
        }
    } else {
        panic!("Failed to add items to order");
    }
}
