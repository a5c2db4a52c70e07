use backend::model::{order_items_statement, Article, Customer, Order, OrderItem, OrderStatus, OrderType};
use backend::record::{
    Insertable,
    batch_once, delete_plan, delete_statement, exists_statement, id_in_use, insert_plan,
    insert_statement, select_all_statement, select_by_id_statement, update_statement,
};
use backend::sql::{Batch, RealNumber, SqlValue, Statement, StoreError};
use backend::text::{append_decimal, append_int, append_placeholder, str_equals};

fn text(s: &str) -> SqlValue {
    SqlValue::Text(s.to_string())
}

fn customer() -> Customer {
    Customer::new(
        3,
        "Ada".to_string(),
        "Lovelace".to_string(),
        "Main Street 1".to_string(),
        "London".to_string(),
        12345,
        "ada@example.org".to_string(),
    )
}

fn article(id: i32) -> Article {
    Article::new(id, "Hammer".to_string(), RealNumber::Bits(2.0f64.to_bits()), "Acme".to_string(), 5, None)
}

fn order(items: Vec<OrderItem>) -> Order {
    Order::new(
        11,
        customer(),
        items,
        "2024-05-01".to_string(),
        OrderType::Return,
        OrderStatus::Pending,
    )
}

fn single(sql: &str, params: Vec<SqlValue>) -> Batch {
    Batch { sql: sql.to_string(), param_rows: vec![params] }
}

#[test]
fn decimal_numerals() {
    let mut s = String::new();
    append_decimal(&mut s, 0);
    assert_eq!(s, "0");
    let mut s = "n=".to_string();
    append_decimal(&mut s, 1234567890);
    assert_eq!(s, "n=1234567890");
    let mut s = String::new();
    append_decimal(&mut s, u64::MAX);
    assert_eq!(s, u64::MAX.to_string());
    let mut s = String::new();
    append_int(&mut s, -305);
    assert_eq!(s, "-305");
    let mut s = String::new();
    append_int(&mut s, i64::MIN);
    assert_eq!(s, i64::MIN.to_string());
    let mut s = String::new();
    append_placeholder(&mut s, 12);
    assert_eq!(s, "?12");
}

#[test]
fn slice_equality() {
    assert!(str_equals("Sale", "Sale"));
    assert!(!str_equals("Sale", "Sal"));
    assert!(!str_equals("Sale", "Salt"));
    assert!(str_equals("", ""));
    assert!(str_equals("größe", "größe"));
}

#[test]
fn update_statement_of_customer() {
    let c = customer();
    let st = update_statement(&c);
    assert_eq!(
        st.sql,
        "UPDATE customer SET customer_id = ?2, first_name = ?3, last_name = ?4, street = ?5, \
         location = ?6, zip_code = ?7, email = ?8 WHERE customer_id = ?1"
    );
    let mut expected = vec![SqlValue::Integer(3)];
    expected.extend(c.values());
    assert_eq!(st.params, expected);
    assert_eq!(st.params.len(), Customer::columns().len() + 1);
}

#[test]
fn update_statement_of_order() {
    let st = update_statement(&order(Vec::new()));
    assert_eq!(
        st.sql,
        "UPDATE orders SET order_id = ?2, customer_id = ?3, date = ?4, order_type = ?5, status = ?6 WHERE order_id = ?1"
    );
    assert_eq!(st.params[0], SqlValue::Integer(11));
    assert_eq!(st.params[4], text("Return"));
}

#[test]
fn select_statements() {
    let st = select_by_id_statement::<Article>(5);
    assert_eq!(
        st,
        Statement {
            sql: "SELECT article_id,name,price,manufacturer,stock,category FROM article WHERE article_id = ?1"
                .to_string(),
            params: vec![SqlValue::Integer(5)],
        }
    );
    let st = select_all_statement::<Order>();
    assert_eq!(st.sql, "SELECT order_id,customer_id,date,order_type,status FROM orders");
    assert!(st.params.is_empty());
}

#[test]
fn insert_statement_of_article() {
    let a = article(9);
    let st = insert_statement(&a);
    assert_eq!(
        st.sql,
        "INSERT INTO article (article_id, name, price, manufacturer, stock, category) VALUES (?1, ?2, ?3, ?4, ?5, ?6)"
    );
    assert_eq!(st.params, a.values());
}

#[test]
fn delete_statements() {
    let st = delete_statement::<Customer>(Some(4));
    assert_eq!(st.sql, "DELETE FROM customer WHERE customer_id = ?1");
    assert_eq!(st.params, vec![SqlValue::Integer(4)]);
    let st = delete_statement::<Article>(None);
    assert_eq!(st.sql, "DELETE FROM article");
    assert!(st.params.is_empty());
}

#[test]
fn exists_statement_of_order() {
    let st = exists_statement::<Order>(-2);
    assert_eq!(st.sql, "SELECT EXISTS(SELECT 1 FROM orders WHERE order_id = ?1)");
    assert_eq!(st.params, vec![SqlValue::Integer(-2)]);
}

#[test]
fn id_in_use_reads_the_exists_answer() {
    assert!(id_in_use(Some(vec![SqlValue::Integer(1)])));
    assert!(!id_in_use(Some(vec![SqlValue::Integer(0)])));
    assert!(!id_in_use(None));
    assert!(!id_in_use(Some(vec![])));
    assert!(!id_in_use(Some(vec![text("1")])));
    assert!(!id_in_use(Some(vec![SqlValue::Integer(1i64 << 33)])));
    assert!(id_in_use(Some(vec![SqlValue::Integer(-1)])));
}

#[test]
fn insert_plan_refuses_used_id() {
    let a = article(9);
    let plan = insert_plan(&a, true);
    assert_eq!(plan, Err(StoreError::DuplicateId(9)));
    assert_eq!(
        StoreError::DuplicateId(9).message(),
        Some("Item ID 9 is already beeing used.".to_string())
    );
}

#[test]
fn insert_plan_of_article() {
    let a = article(9);
    let plan = insert_plan(&a, false).unwrap();
    assert_eq!(plan, vec![Batch::single(insert_statement(&a))]);
}

#[test]
fn insert_plan_of_order_adds_lines() {
    let o = order(vec![OrderItem::new(article(1), 3), OrderItem::new(article(2), 5)]);
    let plan = insert_plan(&o, false).unwrap();
    assert_eq!(plan.len(), 2);
    assert_eq!(plan[0], Batch::single(insert_statement(&o)));
    assert_eq!(
        plan[1],
        Batch {
            sql: "INSERT INTO order_article (order_id, article_id, quantity) VALUES (?1, ?2, ?3)"
                .to_string(),
            param_rows: vec![
                vec![SqlValue::Integer(11), SqlValue::Integer(1), SqlValue::Integer(3)],
                vec![SqlValue::Integer(11), SqlValue::Integer(2), SqlValue::Integer(5)],
            ],
        }
    );
}

#[test]
fn insert_plan_of_order_without_items_still_prepares_lines() {
    let o = order(Vec::new());
    let plan = insert_plan(&o, false).unwrap();
    assert_eq!(plan.len(), 2);
    assert!(plan[1].param_rows.is_empty());
}

#[test]
fn delete_plan_of_article() {
    assert_eq!(
        delete_plan::<Article>(Some(9)),
        vec![
            single("DELETE FROM article WHERE article_id = ?1", vec![SqlValue::Integer(9)]),
            single("DELETE FROM order_article WHERE article_id = ?1", vec![SqlValue::Integer(9)]),
            single(
                "DELETE FROM orders WHERE order_id NOT IN (SELECT DISTINCT order_id FROM order_article)",
                vec![]
            ),
        ]
    );
    assert_eq!(
        delete_plan::<Article>(None),
        vec![single("DELETE FROM article", vec![])]
    );
}

#[test]
fn delete_plan_of_customer() {
    assert_eq!(
        delete_plan::<Customer>(Some(3)),
        vec![
            single("DELETE FROM customer WHERE customer_id = ?1", vec![SqlValue::Integer(3)]),
            single(
                "DELETE FROM order_article WHERE order_id IN (SELECT order_id FROM orders WHERE customer_id = ?1)",
                vec![SqlValue::Integer(3)]
            ),
            single("DELETE FROM orders WHERE customer_id = ?1", vec![SqlValue::Integer(3)]),
        ]
    );
    assert_eq!(
        delete_plan::<Customer>(None),
        vec![single("DELETE FROM customer", vec![])]
    );
}

#[test]
fn delete_plan_of_order() {
    assert_eq!(
        delete_plan::<Order>(Some(11)),
        vec![
            single("DELETE FROM orders WHERE order_id = ?1", vec![SqlValue::Integer(11)]),
            single("DELETE FROM order_article WHERE order_id = ?1", vec![SqlValue::Integer(11)]),
        ]
    );
    assert_eq!(
        delete_plan::<Order>(None),
        vec![
            single("DELETE FROM orders", vec![]),
            single("DELETE FROM order_article", vec![]),
        ]
    );
}

#[test]
fn order_items_query() {
    let st = order_items_statement(11);
    assert_eq!(
        st.sql,
        "SELECT a.article_id, a.name, a.price, a.manufacturer, a.stock, a.category, oa.quantity \
         FROM article a JOIN order_article oa ON a.article_id = oa.article_id WHERE oa.order_id = ?"
    );
    assert_eq!(st.params, vec![SqlValue::Integer(11)]);
}

#[test]
fn batch_helpers() {
    let b = batch_once("DELETE FROM x", vec![SqlValue::Null]);
    assert_eq!(b, single("DELETE FROM x", vec![SqlValue::Null]));
    let st = Statement { sql: "S".to_string(), params: vec![] };
    assert_eq!(Batch::single(st), single("S", vec![]));
}

#[test]
fn update_keeps_the_id() {
    let a = article(21);
    let st = update_statement(&a);
    assert!(st.sql.starts_with("UPDATE article SET article_id = ?2,"));
    assert_eq!(st.params[0], st.params[1]);
    assert_eq!(st.params[0], SqlValue::Integer(21));
}
