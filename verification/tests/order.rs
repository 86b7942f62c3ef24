use scop::order::{is_valid_product_name, Order};

#[test]
fn new_order_keeps_its_fields() {
    let order = Order::new("Rusty Book".to_string(), 3, 2999);
    assert_eq!(order.product_name(), "Rusty Book");
    assert_eq!(order.quantity(), &3);
    assert_eq!(order.unit_price(), &2999);
    assert_eq!(order.total(), 8997);
}

#[test]
fn setters_change_one_field() {
    let mut order = Order::new("Rusty Book".to_string(), 3, 2999);
    order.set_product_name("Rust Book".to_string());
    assert_eq!(order.product_name(), "Rust Book");
    assert_eq!(order.quantity(), &3);

    order.set_quantity(2);
    assert_eq!(order.quantity(), &2);
    assert_eq!(order.unit_price(), &2999);

    order.set_unit_price(3999);
    assert_eq!(order.unit_price(), &3999);
    assert_eq!(order.total(), 7998);
}

#[test]
fn product_name_limits_count_bytes() {
    assert!(!is_valid_product_name(&String::new()));
    assert!(is_valid_product_name(&"a".repeat(300)));
    assert!(!is_valid_product_name(&"a".repeat(301)));
    // 150 two-byte characters are 300 bytes; one more is too long.
    assert!(is_valid_product_name(&"é".repeat(150)));
    assert!(!is_valid_product_name(&"é".repeat(151)));
}

#[test]
fn total_at_the_limit() {
    let order = Order::new("x".to_string(), 65537, 65535);
    assert_eq!(order.total(), u32::MAX);
}

#[test]
fn getters_give_the_last_value_set() {
    let mut order = Order::new("Pen".to_string(), 1, 100);
    order.set_quantity(4);
    order.set_product_name("Pencil".to_string());
    order.set_quantity(7);
    order.set_product_name("Ink".to_string());
    assert_eq!(order.product_name(), "Ink");
    assert_eq!(order.quantity(), &7);
    assert_eq!(order.unit_price(), &100);
    order.set_unit_price(250);
    order.set_unit_price(5);
    assert_eq!(order.unit_price(), &5);
    assert_eq!(order.product_name(), "Ink");
    assert_eq!(order.quantity(), &7);
    assert!(is_valid_product_name(order.product_name()));
}
