use backend::model::{Article, ApiResponse, Customer, Order, OrderItem, OrderStatus, OrderType};
use backend::record::Insertable;
use backend::sql::{RealNumber, SqlType, SqlValue, StoreError};

fn text(s: &str) -> SqlValue {
    SqlValue::Text(s.to_string())
}

fn sample_article() -> Article {
    Article::new(
        7,
        "Hammer".to_string(),
        RealNumber::Bits(12.5f64.to_bits()),
        "Acme".to_string(),
        40,
        Some("Tools".to_string()),
    )
}

fn sample_customer() -> Customer {
    Customer::new(
        3,
        "Ada".to_string(),
        "Lovelace".to_string(),
        "Main Street 1".to_string(),
        "London".to_string(),
        12345,
        "ada@example.org".to_string(),
    )
}

fn sample_order() -> Order {
    let items = vec![
        OrderItem::new(sample_article(), 2),
        OrderItem::new(
            Article::new(8, "Nails".to_string(), RealNumber::Bits(0.1f64.to_bits()), "Acme".to_string(), 900, None),
            150,
        ),
    ];
    Order::new(
        11,
        sample_customer(),
        items,
        "2024-05-01".to_string(),
        OrderType::Sale,
        OrderStatus::Shipped,
    )
}

#[test]
fn customer_new_keeps_fields() {
    let c = sample_customer();
    assert_eq!(c.customer_id, 3);
    assert_eq!(c.first_name, "Ada");
    assert_eq!(c.last_name, "Lovelace");
    assert_eq!(c.street, "Main Street 1");
    assert_eq!(c.location, "London");
    assert_eq!(c.zip_code, 12345);
    assert_eq!(c.email, "ada@example.org");
}

#[test]
fn article_new_keeps_fields() {
    let a = sample_article();
    assert_eq!(a.article_id, 7);
    assert_eq!(a.price, RealNumber::Bits(12.5f64.to_bits()));
    assert_eq!(a.category, Some("Tools".to_string()));
}

#[test]
fn order_type_from_str_known_and_unknown() {
    assert_eq!(OrderType::from_str("Return"), Some(OrderType::Return));
    assert_eq!(OrderType::from_str("Sale"), Some(OrderType::Sale));
    assert_eq!(OrderType::from_str("sale"), None);
    assert_eq!(OrderType::from_str(""), None);
    assert_eq!(OrderType::from_str("Sales"), None);
}

#[test]
fn order_status_from_str_known_and_unknown() {
    assert_eq!(OrderStatus::from_str("Pending"), Some(OrderStatus::Pending));
    assert_eq!(OrderStatus::from_str("Completed"), Some(OrderStatus::Completed));
    assert_eq!(OrderStatus::from_str("Shipped"), Some(OrderStatus::Shipped));
    assert_eq!(OrderStatus::from_str("Delivered"), Some(OrderStatus::Delivered));
    assert_eq!(OrderStatus::from_str("delivered"), None);
    assert_eq!(OrderStatus::from_str("Cancelled"), None);
}

#[test]
fn enum_names_read_back() {
    for t in [OrderType::Return, OrderType::Sale] {
        assert_eq!(OrderType::from_str(&t.to_string()), Some(t));
    }
    for s in [
        OrderStatus::Pending,
        OrderStatus::Completed,
        OrderStatus::Shipped,
        OrderStatus::Delivered,
    ] {
        assert_eq!(OrderStatus::from_str(&s.to_string()), Some(s));
    }
    assert_eq!(OrderType::Return.to_string(), "Return");
    assert_eq!(OrderStatus::Delivered.to_string(), "Delivered");
}

#[test]
fn article_table_layout() {
    assert_eq!(Article::table_name(), "article");
    assert_eq!(
        Article::columns(),
        vec!["article_id", "name", "price", "manufacturer", "stock", "category"]
    );
    assert_eq!(Article::id_column(), "article_id");
    assert_eq!(sample_article().id_value(), 7);
}

#[test]
fn article_values_in_column_order() {
    let a = sample_article();
    assert_eq!(
        a.values(),
        vec![
            SqlValue::Integer(7),
            text("Hammer"),
            SqlValue::Real(12.5f64.to_bits()),
            text("Acme"),
            SqlValue::Integer(40),
            text("Tools"),
        ]
    );
    let mut b = sample_article();
    b.category = None;
    assert_eq!(b.values()[5], SqlValue::Null);
}

#[test]
fn customer_values_in_column_order() {
    let c = sample_customer();
    assert_eq!(Customer::table_name(), "customer");
    assert_eq!(Customer::columns().len(), 7);
    assert_eq!(
        c.values(),
        vec![
            SqlValue::Integer(3),
            text("Ada"),
            text("Lovelace"),
            text("Main Street 1"),
            text("London"),
            SqlValue::Integer(12345),
            text("ada@example.org"),
        ]
    );
}

#[test]
fn order_values_in_column_order() {
    let o = sample_order();
    assert_eq!(Order::table_name(), "orders");
    assert_eq!(
        Order::columns(),
        vec!["order_id", "customer_id", "date", "order_type", "status"]
    );
    assert_eq!(
        o.values(),
        vec![
            SqlValue::Integer(11),
            SqlValue::Integer(3),
            text("2024-05-01"),
            text("Sale"),
            text("Shipped"),
        ]
    );
}

#[test]
fn article_reads_back_from_its_values() {
    let a = sample_article();
    assert_eq!(Article::from_row(&a.values()), Ok(sample_article()));
    let mut b = sample_article();
    b.category = None;
    let expected = b.clone();
    assert_eq!(Article::from_row(&b.values()), Ok(expected));
}

#[test]
fn customer_reads_back_from_its_values() {
    let c = sample_customer();
    assert_eq!(Customer::from_row(&c.values()), Ok(sample_customer()));
}

#[test]
fn order_reads_back_from_its_values() {
    let o = sample_order();
    let row = o.values();
    let read = Order::from_row(&row, o.customer.clone(), o.items.clone());
    assert_eq!(read, Ok(sample_order()));
}

#[test]
fn article_row_errors_name_first_bad_column() {
    let mut row = sample_article().values();
    row[1] = SqlValue::Integer(5);
    row[4] = SqlValue::Null;
    assert_eq!(
        Article::from_row(&row),
        Err(StoreError::InvalidColumnType(1, SqlType::Integer))
    );

    let row = vec![SqlValue::Integer(1), text("x")];
    assert_eq!(Article::from_row(&row), Err(StoreError::InvalidColumnIndex(2)));

    let mut row = sample_article().values();
    row[0] = SqlValue::Integer(1i64 << 40);
    assert_eq!(
        Article::from_row(&row),
        Err(StoreError::IntegralValueOutOfRange(0, 1i64 << 40))
    );

    let mut row = sample_article().values();
    row[3] = SqlValue::InvalidUtf8Text(vec![0xff, 0xfe]);
    assert_eq!(Article::from_row(&row), Err(StoreError::Utf8Error(3)));

    let mut row = sample_article().values();
    row[2] = text("12");
    assert_eq!(
        Article::from_row(&row),
        Err(StoreError::InvalidColumnType(2, SqlType::Text))
    );

    let mut row = sample_article().values();
    row[5] = SqlValue::Blob(vec![1]);
    assert_eq!(
        Article::from_row(&row),
        Err(StoreError::InvalidColumnType(5, SqlType::Blob))
    );
}

#[test]
fn customer_row_errors() {
    let mut row = sample_customer().values();
    row[5] = text("12345");
    assert_eq!(
        Customer::from_row(&row),
        Err(StoreError::InvalidColumnType(5, SqlType::Text))
    );
    let mut row = sample_customer().values();
    row[6] = SqlValue::Null;
    assert_eq!(
        Customer::from_row(&row),
        Err(StoreError::InvalidColumnType(6, SqlType::Null))
    );
}

#[test]
fn order_row_with_unknown_names() {
    let o = sample_order();
    let mut row = o.values();
    row[3] = text("Gift");
    row[4] = text("Lost");
    assert_eq!(
        Order::from_row(&row, sample_customer(), Vec::new()),
        Err(StoreError::InvalidOrderType)
    );
    let mut row = o.values();
    row[4] = text("Lost");
    assert_eq!(
        Order::from_row(&row, sample_customer(), Vec::new()),
        Err(StoreError::InvalidStatus)
    );
    let mut row = o.values();
    row[2] = SqlValue::Integer(20240501);
    row[3] = text("Gift");
    assert_eq!(
        Order::from_row(&row, sample_customer(), Vec::new()),
        Err(StoreError::InvalidColumnType(2, SqlType::Integer))
    );
}

#[test]
fn order_item_reads_from_joined_row() {
    let mut row = sample_article().values();
    row.push(SqlValue::Integer(4));
    assert_eq!(
        OrderItem::from_row(&row),
        Ok(OrderItem::new(sample_article(), 4))
    );
    let row = sample_article().values();
    assert_eq!(OrderItem::from_row(&row), Err(StoreError::InvalidColumnIndex(6)));
}

#[test]
fn error_messages() {
    assert_eq!(
        StoreError::DuplicateId(42).message(),
        Some("Item ID 42 is already beeing used.".to_string())
    );
    assert_eq!(
        StoreError::DuplicateId(-7).message(),
        Some("Item ID -7 is already beeing used.".to_string())
    );
    assert_eq!(
        StoreError::DuplicateId(i32::MIN).message(),
        Some("Item ID -2147483648 is already beeing used.".to_string())
    );
    assert_eq!(
        StoreError::InvalidOrderType.message(),
        Some("Invalid order_type".to_string())
    );
    assert_eq!(StoreError::InvalidStatus.message(), Some("Invalid status".to_string()));
    assert_eq!(StoreError::InvalidColumnIndex(3).message(), None);
}

#[test]
fn value_types() {
    assert_eq!(SqlValue::Null.data_type(), SqlType::Null);
    assert_eq!(SqlValue::Integer(1).data_type(), SqlType::Integer);
    assert_eq!(SqlValue::Real(0).data_type(), SqlType::Real);
    assert_eq!(text("a").data_type(), SqlType::Text);
    assert_eq!(SqlValue::Blob(vec![]).data_type(), SqlType::Blob);
    assert_eq!(SqlValue::InvalidUtf8Text(vec![0xff]).data_type(), SqlType::Text);
}

#[test]
fn api_response_wraps_records() {
    let r = ApiResponse::Customer(sample_customer());
    match r {
        ApiResponse::Customer(c) => assert_eq!(c.customer_id, 3),
        _ => panic!("wrong variant"),
    }
}

#[test]
fn every_record_has_one_value_per_column_id_first() {
    let a = sample_article();
    assert_eq!(a.values().len(), Article::columns().len());
    assert_eq!(Article::columns()[0], Article::id_column());
    assert_eq!(a.values()[0], SqlValue::Integer(a.id_value() as i64));
    let c = sample_customer();
    assert_eq!(c.values().len(), Customer::columns().len());
    assert_eq!(Customer::columns()[0], Customer::id_column());
    assert_eq!(c.values()[0], SqlValue::Integer(c.id_value() as i64));
    let o = sample_order();
    assert_eq!(o.values().len(), Order::columns().len());
    assert_eq!(Order::columns()[0], Order::id_column());
    assert_eq!(o.values()[0], SqlValue::Integer(o.id_value() as i64));
}

#[test]
fn integer_price_reads_as_its_float() {
    let mut row = sample_article().values();
    row[2] = SqlValue::Integer(12);
    let mut expected = sample_article();
    expected.price = RealNumber::Integer(12);
    assert_eq!(Article::from_row(&row), Ok(expected.clone()));

    row.push(SqlValue::Integer(3));
    assert_eq!(OrderItem::from_row(&row), Ok(OrderItem::new(expected.clone(), 3)));

    // Stored again, such a price is bound as the float nearest to the integer,
    // and reads back as the same price.
    let values = expected.values();
    assert_eq!(values[2], SqlValue::RealFromInteger(12));
    assert_eq!(values[2].data_type(), SqlType::Real);
    assert_eq!(Article::from_row(&values), Ok(expected));
}

#[test]
fn real_number_values() {
    assert_eq!(RealNumber::Bits(7).to_value(), SqlValue::Real(7));
    assert_eq!(RealNumber::Integer(-4).to_value(), SqlValue::RealFromInteger(-4));
}
