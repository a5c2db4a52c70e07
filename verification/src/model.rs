//! The records of the shop: articles, customers, order items and orders, how
//! each is stored as a row and how it is read back from one.
use vstd::prelude::*;
use vstd::string::*;
use crate::record::{batch_once, id_param, id_params, no_params, once, Insertable};
use crate::sql::{
    column_i32, column_optional_text, column_real, column_text, optional_text_result, read_i32,
    read_optional_text, read_real, read_text, real_value, text_result, Batch, BatchView,
    RealNumber, SqlValue, SqlValueView, Statement, StoreError,
};
use crate::text::str_equals;

verus! {

// ---------------------------------------------------------------------------
// Order type and order status

/// Whether an order sells articles or takes them back.
#[derive(Debug, Clone, Copy, PartialEq, Eq, Structural)]
pub enum OrderType {
    Return,
    Sale,
}

/// How far an order has come.
#[derive(Debug, Clone, Copy, PartialEq, Eq, Structural)]
pub enum OrderStatus {
    Pending,
    Completed,
    Shipped,
    Delivered,
}

/// The name under which an order type is stored: the variant's name.
pub open spec fn order_type_name(t: OrderType) -> Seq<char> {
    match t {
        OrderType::Return => "Return"@,
        OrderType::Sale => "Sale"@,
    }
}

/// The order type with the given name, if any.
pub open spec fn parse_order_type(s: Seq<char>) -> Option<OrderType> {
    if s == "Return"@ {
        Some(OrderType::Return)
    } else if s == "Sale"@ {
        Some(OrderType::Sale)
    } else {
        None
    }
}

/// The name under which an order status is stored: the variant's name.
pub open spec fn order_status_name(s: OrderStatus) -> Seq<char> {
    match s {
        OrderStatus::Pending => "Pending"@,
        OrderStatus::Completed => "Completed"@,
        OrderStatus::Shipped => "Shipped"@,
        OrderStatus::Delivered => "Delivered"@,
    }
}

/// The order status with the given name, if any.
pub open spec fn parse_order_status(s: Seq<char>) -> Option<OrderStatus> {
    if s == "Pending"@ {
        Some(OrderStatus::Pending)
    } else if s == "Completed"@ {
        Some(OrderStatus::Completed)
    } else if s == "Shipped"@ {
        Some(OrderStatus::Shipped)
    } else if s == "Delivered"@ {
        Some(OrderStatus::Delivered)
    } else {
        None
    }
}

impl OrderType {
    /// The order type named `s`; names are case-sensitive.
    pub fn from_str(s: &str) -> (r: Option<OrderType>)
        ensures
            r == parse_order_type(s@),
    {
        if str_equals(s, "Return") {
            Some(OrderType::Return)
        } else if str_equals(s, "Sale") {
            Some(OrderType::Sale)
        } else {
            None
        }
    }

    /// The name of this order type.
    pub fn to_string(&self) -> (r: String)
        ensures
            r@ == order_type_name(*self),
    {
        match self {
            OrderType::Return => String::from_str("Return"),
            OrderType::Sale => String::from_str("Sale"),
        }
    }
}

impl OrderStatus {
    /// The order status named `s`; names are case-sensitive.
    pub fn from_str(s: &str) -> (r: Option<OrderStatus>)
        ensures
            r == parse_order_status(s@),
    {
        if str_equals(s, "Pending") {
            Some(OrderStatus::Pending)
        } else if str_equals(s, "Completed") {
            Some(OrderStatus::Completed)
        } else if str_equals(s, "Shipped") {
            Some(OrderStatus::Shipped)
        } else if str_equals(s, "Delivered") {
            Some(OrderStatus::Delivered)
        } else {
            None
        }
    }

    /// The name of this order status.
    pub fn to_string(&self) -> (r: String)
        ensures
            r@ == order_status_name(*self),
    {
        match self {
            OrderStatus::Pending => String::from_str("Pending"),
            OrderStatus::Completed => String::from_str("Completed"),
            OrderStatus::Shipped => String::from_str("Shipped"),
            OrderStatus::Delivered => String::from_str("Delivered"),
        }
    }
}

/// Every order type reads back from its name, and a name reads as an order type
/// only if it is that type's name.
pub proof fn lemma_order_type_names(t: OrderType, s: Seq<char>)
    ensures
        parse_order_type(order_type_name(t)) == Some(t),
        parse_order_type(s) == Some(t) ==> order_type_name(t) == s,
{
    reveal_strlit("Return");
    reveal_strlit("Sale");
    assert("Return"@.len() != "Sale"@.len());
}

/// Every order status reads back from its name, and a name reads as an order
/// status only if it is that status's name.
pub proof fn lemma_order_status_names(t: OrderStatus, s: Seq<char>)
    ensures
        parse_order_status(order_status_name(t)) == Some(t),
        parse_order_status(s) == Some(t) ==> order_status_name(t) == s,
{
    reveal_strlit("Pending");
    reveal_strlit("Completed");
    reveal_strlit("Shipped");
    reveal_strlit("Delivered");
    assert("Pending"@[0] != "Completed"@[0]);
    assert("Pending"@[0] != "Shipped"@[0]);
    assert("Pending"@[0] != "Delivered"@[0]);
    assert("Completed"@[0] != "Shipped"@[0]);
    assert("Completed"@[0] != "Delivered"@[0]);
    assert("Shipped"@[0] != "Delivered"@[0]);
}

// ---------------------------------------------------------------------------
// Articles

/// An article of the shop's range.
///
/// Its price is a 64-bit floating-point number, kept here as a [`RealNumber`]:
/// its bit pattern, or the integer whose nearest float it is when the price
/// column held an integer. Nothing in this library computes with it.
#[derive(Debug, Clone, PartialEq)]
pub struct Article {
    pub article_id: i32,
    pub name: String,
    pub price: RealNumber,
    pub manufacturer: String,
    pub stock: i32,
    pub category: Option<String>,
}

/// The mathematical content of an [`Article`].
pub struct ArticleView {
    pub article_id: i32,
    pub name: Seq<char>,
    pub price: RealNumber,
    pub manufacturer: Seq<char>,
    pub stock: i32,
    pub category: Option<Seq<char>>,
}

impl View for Article {
    type V = ArticleView;

    open spec fn view(&self) -> ArticleView {
        ArticleView {
            article_id: self.article_id,
            name: self.name@,
            price: self.price,
            manufacturer: self.manufacturer@,
            stock: self.stock,
            category: self.category.deep_view(),
        }
    }
}

/// Optional text as a column value: absent text is null.
pub open spec fn optional_text_value(t: Option<Seq<char>>) -> SqlValueView {
    match t {
        Some(s) => SqlValueView::Text(s),
        None => SqlValueView::Null,
    }
}

/// The column values of an article, in column order.
pub open spec fn article_values(a: ArticleView) -> Seq<SqlValueView> {
    seq![
        SqlValueView::Integer(a.article_id as i64),
        SqlValueView::Text(a.name),
        real_value(a.price),
        SqlValueView::Text(a.manufacturer),
        SqlValueView::Integer(a.stock as i64),
        optional_text_value(a.category),
    ]
}

/// The article that a row of the article columns describes, or the error of the
/// first column, from the left, that does not read as its field's type.
pub open spec fn article_from_row(row: Seq<SqlValueView>) -> Result<ArticleView, StoreError> {
    match read_i32(row, 0) {
        Err(e) => Err(e),
        Ok(article_id) => match read_text(row, 1) {
            Err(e) => Err(e),
            Ok(name) => match read_real(row, 2) {
                Err(e) => Err(e),
                Ok(price) => match read_text(row, 3) {
                    Err(e) => Err(e),
                    Ok(manufacturer) => match read_i32(row, 4) {
                        Err(e) => Err(e),
                        Ok(stock) => match read_optional_text(row, 5) {
                            Err(e) => Err(e),
                            Ok(category) => Ok(
                                ArticleView {
                                    article_id,
                                    name,
                                    price,
                                    manufacturer,
                                    stock,
                                    category,
                                },
                            ),
                        },
                    },
                },
            },
        },
    }
}

/// The view of an article result.
pub open spec fn article_result(r: Result<Article, StoreError>) -> Result<ArticleView, StoreError> {
    match r {
        Ok(a) => Ok(a@),
        Err(e) => Err(e),
    }
}

impl Article {
    pub fn new(
        article_id: i32,
        name: String,
        price: RealNumber,
        manufacturer: String,
        stock: i32,
        category: Option<String>,
    ) -> (r: Article)
        ensures
            r == (Article { article_id, name, price, manufacturer, stock, category }),
    {
        Article { article_id, name, price, manufacturer, stock, category }
    }

    /// Reads an article from a row of its columns, in column order. The price
    /// column reads as a real value, or as an integer standing for its float.
    pub fn from_row(row: &[SqlValue]) -> (r: Result<Article, StoreError>)
        ensures
            article_result(r) == article_from_row(row.deep_view()),
    {
        let article_id = column_i32(row, 0)?;
        let name = column_text(row, 1)?;
        let price = column_real(row, 2)?;
        let manufacturer = column_text(row, 3)?;
        let stock = column_i32(row, 4)?;
        let category = column_optional_text(row, 5)?;
        Ok(Article { article_id, name, price, manufacturer, stock, category })
    }
}

fn optional_text(t: &Option<String>) -> (r: SqlValue)
    ensures
        r.deep_view() == optional_text_value(t.deep_view()),
{
    match t {
        Some(s) => SqlValue::Text(s.clone()),
        None => SqlValue::Null,
    }
}

impl Insertable for Article {
    open spec fn spec_table_name() -> Seq<char> {
        "article"@
    }

    open spec fn spec_columns() -> Seq<Seq<char>> {
        seq!["article_id"@, "name"@, "price"@, "manufacturer"@, "stock"@, "category"@]
    }

    open spec fn spec_id_column() -> Seq<char> {
        "article_id"@
    }

    open spec fn spec_id_value(&self) -> i32 {
        self.article_id
    }

    open spec fn spec_values(&self) -> Seq<SqlValueView> {
        article_values(self@)
    }

    open spec fn spec_post_insert(&self) -> Seq<BatchView> {
        Seq::empty()
    }

    /// Removing an article removes its order lines, then every order left
    /// without any line.
    open spec fn spec_post_delete(id: Option<i32>) -> Seq<BatchView> {
        match id {
            Some(v) => seq![
                once("DELETE FROM order_article WHERE article_id = ?1"@, id_param(v)),
                once(
                    "DELETE FROM orders WHERE order_id NOT IN (SELECT DISTINCT order_id FROM order_article)"@,
                    Seq::empty(),
                ),
            ],
            None => Seq::empty(),
        }
    }

    proof fn lemma_row_shape(&self) {
    }

    fn table_name() -> (r: &'static str) {
        "article"
    }

    fn columns() -> (r: Vec<&'static str>) {
        let r = vec!["article_id", "name", "price", "manufacturer", "stock", "category"];
        assert(r.deep_view() =~= Self::spec_columns());
        r
    }

    fn id_column() -> (r: &'static str) {
        "article_id"
    }

    fn id_value(&self) -> (r: i32) {
        self.article_id
    }

    fn values(&self) -> (r: Vec<SqlValue>) {
        let mut r: Vec<SqlValue> = Vec::new();
        r.push(SqlValue::Integer(self.article_id as i64));
        r.push(SqlValue::Text(self.name.clone()));
        r.push(self.price.to_value());
        r.push(SqlValue::Text(self.manufacturer.clone()));
        r.push(SqlValue::Integer(self.stock as i64));
        r.push(optional_text(&self.category));
        assert(r.deep_view() =~= self.spec_values());
        r
    }

    fn post_insert(&self) -> (r: Vec<Batch>) {
        let r: Vec<Batch> = Vec::new();
        assert(r.deep_view() =~= self.spec_post_insert());
        r
    }

    fn post_delete(id: Option<i32>) -> (r: Vec<Batch>) {
        let mut r: Vec<Batch> = Vec::new();
        match id {
            Some(v) => {
                r.push(batch_once("DELETE FROM order_article WHERE article_id = ?1", id_params(v)));
                r.push(
                    batch_once(
                        "DELETE FROM orders WHERE order_id NOT IN (SELECT DISTINCT order_id FROM order_article)",
                        no_params(),
                    ),
                );
            },
            None => {},
        }
        assert(r.deep_view() =~= Self::spec_post_delete(id));
        r
    }
}

/// What is stored of an article reads back as that article.
pub proof fn lemma_article_round_trip(a: ArticleView)
    ensures
        article_from_row(article_values(a)) == Ok::<ArticleView, StoreError>(a),
{
    let row = article_values(a);
    assert(read_optional_text(row, 5) == Ok::<Option<Seq<char>>, StoreError>(a.category));
}

// ---------------------------------------------------------------------------
// Customers

/// A customer of the shop.
#[derive(Debug, Clone, PartialEq)]
pub struct Customer {
    pub customer_id: i32,
    pub first_name: String,
    pub last_name: String,
    pub street: String,
    pub location: String,
    pub zip_code: i32,
    pub email: String,
}

/// The mathematical content of a [`Customer`].
pub struct CustomerView {
    pub customer_id: i32,
    pub first_name: Seq<char>,
    pub last_name: Seq<char>,
    pub street: Seq<char>,
    pub location: Seq<char>,
    pub zip_code: i32,
    pub email: Seq<char>,
}

impl View for Customer {
    type V = CustomerView;

    open spec fn view(&self) -> CustomerView {
        CustomerView {
            customer_id: self.customer_id,
            first_name: self.first_name@,
            last_name: self.last_name@,
            street: self.street@,
            location: self.location@,
            zip_code: self.zip_code,
            email: self.email@,
        }
    }
}

/// The column values of a customer, in column order.
pub open spec fn customer_values(c: CustomerView) -> Seq<SqlValueView> {
    seq![
        SqlValueView::Integer(c.customer_id as i64),
        SqlValueView::Text(c.first_name),
        SqlValueView::Text(c.last_name),
        SqlValueView::Text(c.street),
        SqlValueView::Text(c.location),
        SqlValueView::Integer(c.zip_code as i64),
        SqlValueView::Text(c.email),
    ]
}

/// The customer that a row of the customer columns describes, or the error of
/// the first column, from the left, that does not read as its field's type.
pub open spec fn customer_from_row(row: Seq<SqlValueView>) -> Result<CustomerView, StoreError> {
    match read_i32(row, 0) {
        Err(e) => Err(e),
        Ok(customer_id) => match read_text(row, 1) {
            Err(e) => Err(e),
            Ok(first_name) => match read_text(row, 2) {
                Err(e) => Err(e),
                Ok(last_name) => match read_text(row, 3) {
                    Err(e) => Err(e),
                    Ok(street) => match read_text(row, 4) {
                        Err(e) => Err(e),
                        Ok(location) => match read_i32(row, 5) {
                            Err(e) => Err(e),
                            Ok(zip_code) => match read_text(row, 6) {
                                Err(e) => Err(e),
                                Ok(email) => Ok(
                                    CustomerView {
                                        customer_id,
                                        first_name,
                                        last_name,
                                        street,
                                        location,
                                        zip_code,
                                        email,
                                    },
                                ),
                            },
                        },
                    },
                },
            },
        },
    }
}

/// The view of a customer result.
pub open spec fn customer_result(r: Result<Customer, StoreError>) -> Result<CustomerView, StoreError> {
    match r {
        Ok(c) => Ok(c@),
        Err(e) => Err(e),
    }
}

impl Customer {
    pub fn new(
        customer_id: i32,
        first_name: String,
        last_name: String,
        street: String,
        location: String,
        zip_code: i32,
        email: String,
    ) -> (r: Customer)
        ensures
            r == (Customer {
                customer_id,
                first_name,
                last_name,
                street,
                location,
                zip_code,
                email,
            }),
    {
        Customer { customer_id, first_name, last_name, street, location, zip_code, email }
    }

    /// Reads a customer from a row of its columns, in column order.
    pub fn from_row(row: &[SqlValue]) -> (r: Result<Customer, StoreError>)
        ensures
            customer_result(r) == customer_from_row(row.deep_view()),
    {
        let customer_id = column_i32(row, 0)?;
        let first_name = column_text(row, 1)?;
        let last_name = column_text(row, 2)?;
        let street = column_text(row, 3)?;
        let location = column_text(row, 4)?;
        let zip_code = column_i32(row, 5)?;
        let email = column_text(row, 6)?;
        Ok(Customer { customer_id, first_name, last_name, street, location, zip_code, email })
    }
}

impl Insertable for Customer {
    open spec fn spec_table_name() -> Seq<char> {
        "customer"@
    }

    open spec fn spec_columns() -> Seq<Seq<char>> {
        seq![
            "customer_id"@,
            "first_name"@,
            "last_name"@,
            "street"@,
            "location"@,
            "zip_code"@,
            "email"@,
        ]
    }

    open spec fn spec_id_column() -> Seq<char> {
        "customer_id"@
    }

    open spec fn spec_id_value(&self) -> i32 {
        self.customer_id
    }

    open spec fn spec_values(&self) -> Seq<SqlValueView> {
        customer_values(self@)
    }

    open spec fn spec_post_insert(&self) -> Seq<BatchView> {
        Seq::empty()
    }

    /// Removing a customer removes the order lines of the customer's orders, then
    /// those orders.
    open spec fn spec_post_delete(id: Option<i32>) -> Seq<BatchView> {
        match id {
            Some(v) => seq![
                once(
                    "DELETE FROM order_article WHERE order_id IN (SELECT order_id FROM orders WHERE customer_id = ?1)"@,
                    id_param(v),
                ),
                once("DELETE FROM orders WHERE customer_id = ?1"@, id_param(v)),
            ],
            None => Seq::empty(),
        }
    }

    proof fn lemma_row_shape(&self) {
    }

    fn table_name() -> (r: &'static str) {
        "customer"
    }

    fn columns() -> (r: Vec<&'static str>) {
        let r = vec![
            "customer_id",
            "first_name",
            "last_name",
            "street",
            "location",
            "zip_code",
            "email",
        ];
        assert(r.deep_view() =~= Self::spec_columns());
        r
    }

    fn id_column() -> (r: &'static str) {
        "customer_id"
    }

    fn id_value(&self) -> (r: i32) {
        self.customer_id
    }

    fn values(&self) -> (r: Vec<SqlValue>) {
        let mut r: Vec<SqlValue> = Vec::new();
        r.push(SqlValue::Integer(self.customer_id as i64));
        r.push(SqlValue::Text(self.first_name.clone()));
        r.push(SqlValue::Text(self.last_name.clone()));
        r.push(SqlValue::Text(self.street.clone()));
        r.push(SqlValue::Text(self.location.clone()));
        r.push(SqlValue::Integer(self.zip_code as i64));
        r.push(SqlValue::Text(self.email.clone()));
        assert(r.deep_view() =~= self.spec_values());
        r
    }

    fn post_insert(&self) -> (r: Vec<Batch>) {
        let r: Vec<Batch> = Vec::new();
        assert(r.deep_view() =~= self.spec_post_insert());
        r
    }

    fn post_delete(id: Option<i32>) -> (r: Vec<Batch>) {
        let mut r: Vec<Batch> = Vec::new();
        match id {
            Some(v) => {
                r.push(
                    batch_once(
                        "DELETE FROM order_article WHERE order_id IN (SELECT order_id FROM orders WHERE customer_id = ?1)",
                        id_params(v),
                    ),
                );
                r.push(batch_once("DELETE FROM orders WHERE customer_id = ?1", id_params(v)));
            },
            None => {},
        }
        assert(r.deep_view() =~= Self::spec_post_delete(id));
        r
    }
}

/// What is stored of a customer reads back as that customer.
pub proof fn lemma_customer_round_trip(c: CustomerView)
    ensures
        customer_from_row(customer_values(c)) == Ok::<CustomerView, StoreError>(c),
{
}

// ---------------------------------------------------------------------------
// Order items

/// An article and the quantity of it in an order.
#[derive(Debug, Clone, PartialEq)]
pub struct OrderItem {
    pub article: Article,
    pub quantity: i32,
}

/// The mathematical content of an [`OrderItem`].
pub struct OrderItemView {
    pub article: ArticleView,
    pub quantity: i32,
}

impl View for OrderItem {
    type V = OrderItemView;

    open spec fn view(&self) -> OrderItemView {
        OrderItemView { article: self.article@, quantity: self.quantity }
    }
}

/// The order item that a row of the order-items query describes: the article
/// columns, then the quantity.
pub open spec fn order_item_from_row(row: Seq<SqlValueView>) -> Result<OrderItemView, StoreError> {
    match article_from_row(row) {
        Err(e) => Err(e),
        Ok(article) => match read_i32(row, 6) {
            Err(e) => Err(e),
            Ok(quantity) => Ok(OrderItemView { article, quantity }),
        },
    }
}

/// The view of an order item result.
pub open spec fn order_item_result(r: Result<OrderItem, StoreError>) -> Result<
    OrderItemView,
    StoreError,
> {
    match r {
        Ok(i) => Ok(i@),
        Err(e) => Err(e),
    }
}

/// The query that lists the items of the order `?`: the article columns of each
/// ordered article, then the quantity ordered.
pub open spec fn order_items_sql() -> Seq<char> {
    "SELECT a.article_id, a.name, a.price, a.manufacturer, a.stock, a.category, oa.quantity FROM article a JOIN order_article oa ON a.article_id = oa.article_id WHERE oa.order_id = ?"@
}

impl OrderItem {
    pub fn new(article: Article, quantity: i32) -> (r: OrderItem)
        ensures
            r == (OrderItem { article, quantity }),
    {
        OrderItem { article, quantity }
    }

    /// Reads an order item from a row of the order-items query.
    pub fn from_row(row: &[SqlValue]) -> (r: Result<OrderItem, StoreError>)
        ensures
            order_item_result(r) == order_item_from_row(row.deep_view()),
    {
        let article = Article::from_row(row)?;
        let quantity = column_i32(row, 6)?;
        Ok(OrderItem { article, quantity })
    }
}

/// The query that lists the items of the order `order_id` (the query
/// `fetch_order_items` runs).
pub fn order_items_statement(order_id: i32) -> (r: Statement)
    ensures
        r.deep_view().sql == order_items_sql(),
        r.deep_view().params == id_param(order_id),
{
    let mut sql = String::new();
    sql.append(
        "SELECT a.article_id, a.name, a.price, a.manufacturer, a.stock, a.category, oa.quantity FROM article a JOIN order_article oa ON a.article_id = oa.article_id WHERE oa.order_id = ?",
    );
    let r = Statement { sql, params: id_params(order_id) };
    assert(r.deep_view().sql =~= order_items_sql());
    r
}

/// A stored article joined with a quantity reads back as the order item.
pub proof fn lemma_order_item_round_trip(item: OrderItemView)
    ensures
        order_item_from_row(
            article_values(item.article).push(SqlValueView::Integer(item.quantity as i64)),
        ) == Ok::<OrderItemView, StoreError>(item),
{
    let row = article_values(item.article).push(SqlValueView::Integer(item.quantity as i64));
    assert(row.subrange(0, 6) =~= article_values(item.article));
    assert(read_optional_text(row, 5) == Ok::<Option<Seq<char>>, StoreError>(
        item.article.category,
    ));
    assert(article_from_row(row) == Ok::<ArticleView, StoreError>(item.article));
}

// ---------------------------------------------------------------------------
// Orders

/// An order of a customer.
#[derive(Debug, Clone, PartialEq)]
pub struct Order {
    pub order_id: i32,
    pub customer: Customer,
    pub items: Vec<OrderItem>,
    pub date: String,
    pub order_type: OrderType,
    pub status: OrderStatus,
}

/// The mathematical content of an [`Order`].
pub struct OrderView {
    pub order_id: i32,
    pub customer: CustomerView,
    pub items: Seq<OrderItemView>,
    pub date: Seq<char>,
    pub order_type: OrderType,
    pub status: OrderStatus,
}

/// The views of a list of order items.
pub open spec fn items_view(items: Seq<OrderItem>) -> Seq<OrderItemView> {
    items.map_values(|i: OrderItem| i@)
}

impl View for Order {
    type V = OrderView;

    open spec fn view(&self) -> OrderView {
        OrderView {
            order_id: self.order_id,
            customer: self.customer@,
            items: items_view(self.items@),
            date: self.date@,
            order_type: self.order_type,
            status: self.status,
        }
    }
}

/// The column values of an order, in column order. The customer is stored by
/// id; the items are stored apart, one order line each.
pub open spec fn order_values(o: OrderView) -> Seq<SqlValueView> {
    seq![
        SqlValueView::Integer(o.order_id as i64),
        SqlValueView::Integer(o.customer.customer_id as i64),
        SqlValueView::Text(o.date),
        SqlValueView::Text(order_type_name(o.order_type)),
        SqlValueView::Text(order_status_name(o.status)),
    ]
}

/// The order that a row of the order columns describes, together with its
/// customer and items fetched apart; or the error of the first column, from the
/// left, that does not read as its field's type; or, when the order type and
/// then the status are not known names, the error for that.
pub open spec fn order_from_row(
    row: Seq<SqlValueView>,
    customer: CustomerView,
    items: Seq<OrderItemView>,
) -> Result<OrderView, StoreError> {
    match read_i32(row, 0) {
        Err(e) => Err(e),
        Ok(order_id) => match read_i32(row, 1) {
            Err(e) => Err(e),
            Ok(_) => match read_text(row, 2) {
                Err(e) => Err(e),
                Ok(date) => match read_text(row, 3) {
                    Err(e) => Err(e),
                    Ok(order_type_text) => match read_text(row, 4) {
                        Err(e) => Err(e),
                        Ok(status_name) => match parse_order_type(order_type_text) {
                            None => Err(StoreError::InvalidOrderType),
                            Some(order_type) => match parse_order_status(status_name) {
                                None => Err(StoreError::InvalidStatus),
                                Some(status) => Ok(
                                    OrderView { order_id, customer, items, date, order_type, status },
                                ),
                            },
                        },
                    },
                },
            },
        },
    }
}

/// The view of an order result.
pub open spec fn order_result(r: Result<Order, StoreError>) -> Result<OrderView, StoreError> {
    match r {
        Ok(o) => Ok(o@),
        Err(e) => Err(e),
    }
}

/// The statement that links one item to its order.
pub open spec fn order_line_sql() -> Seq<char> {
    "INSERT INTO order_article (order_id, article_id, quantity) VALUES (?1, ?2, ?3)"@
}

/// The parameters of the order line of one item.
pub open spec fn order_line_params(order_id: i32, item: OrderItemView) -> Seq<SqlValueView> {
    seq![
        SqlValueView::Integer(order_id as i64),
        SqlValueView::Integer(item.article.article_id as i64),
        SqlValueView::Integer(item.quantity as i64),
    ]
}

impl Order {
    pub fn new(
        order_id: i32,
        customer: Customer,
        items: Vec<OrderItem>,
        date: String,
        order_type: OrderType,
        status: OrderStatus,
    ) -> (r: Order)
        ensures
            r == (Order { order_id, customer, items, date, order_type, status }),
    {
        Order { order_id, customer, items, date, order_type, status }
    }

    /// Reads an order from a row of its columns, given its customer and its
    /// items, which are fetched apart by the ids in the row.
    pub fn from_row(row: &[SqlValue], customer: Customer, items: Vec<OrderItem>) -> (r: Result<
        Order,
        StoreError,
    >)
        ensures
            order_result(r) == order_from_row(row.deep_view(), customer@, items_view(items@)),
    {
        let order_id = column_i32(row, 0)?;
        let _customer_id = column_i32(row, 1)?;
        let date = column_text(row, 2)?;
        let order_type_text = column_text(row, 3)?;
        let status_name = column_text(row, 4)?;
        let order_type = match OrderType::from_str(order_type_text.as_str()) {
            Some(t) => t,
            None => return Err(StoreError::InvalidOrderType),
        };
        let status = match OrderStatus::from_str(status_name.as_str()) {
            Some(s) => s,
            None => return Err(StoreError::InvalidStatus),
        };
        Ok(Order { order_id, customer, items, date, order_type, status })
    }
}

impl Insertable for Order {
    open spec fn spec_table_name() -> Seq<char> {
        "orders"@
    }

    open spec fn spec_columns() -> Seq<Seq<char>> {
        seq!["order_id"@, "customer_id"@, "date"@, "order_type"@, "status"@]
    }

    open spec fn spec_id_column() -> Seq<char> {
        "order_id"@
    }

    open spec fn spec_id_value(&self) -> i32 {
        self.order_id
    }

    open spec fn spec_values(&self) -> Seq<SqlValueView> {
        order_values(self@)
    }

    /// Inserting an order adds one order line per item, in order, through one
    /// prepared statement.
    open spec fn spec_post_insert(&self) -> Seq<BatchView> {
        seq![
            BatchView {
                sql: order_line_sql(),
                param_rows: Seq::new(
                    self.items@.len(),
                    |i: int| order_line_params(self.order_id, self.items@[i]@),
                ),
            },
        ]
    }

    /// Removing an order removes its order lines; removing all orders removes
    /// all order lines.
    open spec fn spec_post_delete(id: Option<i32>) -> Seq<BatchView> {
        match id {
            Some(v) => seq![once("DELETE FROM order_article WHERE order_id = ?1"@, id_param(v))],
            None => seq![once("DELETE FROM order_article"@, Seq::empty())],
        }
    }

    proof fn lemma_row_shape(&self) {
    }

    fn table_name() -> (r: &'static str) {
        "orders"
    }

    fn columns() -> (r: Vec<&'static str>) {
        let r = vec!["order_id", "customer_id", "date", "order_type", "status"];
        assert(r.deep_view() =~= Self::spec_columns());
        r
    }

    fn id_column() -> (r: &'static str) {
        "order_id"
    }

    fn id_value(&self) -> (r: i32) {
        self.order_id
    }

    fn values(&self) -> (r: Vec<SqlValue>) {
        let mut r: Vec<SqlValue> = Vec::new();
        r.push(SqlValue::Integer(self.order_id as i64));
        r.push(SqlValue::Integer(self.customer.customer_id as i64));
        r.push(SqlValue::Text(self.date.clone()));
        r.push(SqlValue::Text(self.order_type.to_string()));
        r.push(SqlValue::Text(self.status.to_string()));
        assert(r.deep_view() =~= self.spec_values());
        r
    }

    fn post_insert(&self) -> (r: Vec<Batch>) {
        let mut param_rows: Vec<Vec<SqlValue>> = Vec::new();
        let mut i: usize = 0;
        while i < self.items.len()
            invariant
                i <= self.items@.len(),
                param_rows@.len() == i,
                forall|j: int|
                    0 <= j < i ==> #[trigger] param_rows@[j].deep_view() == order_line_params(
                        self.order_id,
                        self.items@[j]@,
                    ),
            decreases self.items@.len() - i,
        {
            let item = &self.items[i];
            let mut row: Vec<SqlValue> = Vec::new();
            row.push(SqlValue::Integer(self.order_id as i64));
            row.push(SqlValue::Integer(item.article.article_id as i64));
            row.push(SqlValue::Integer(item.quantity as i64));
            assert(row.deep_view() =~= order_line_params(self.order_id, self.items@[i as int]@));
            param_rows.push(row);
            i = i + 1;
        }
        let mut sql = String::new();
        sql.append("INSERT INTO order_article (order_id, article_id, quantity) VALUES (?1, ?2, ?3)");
        let mut r: Vec<Batch> = Vec::new();
        r.push(Batch { sql, param_rows });
        assert(r@[0].deep_view().param_rows =~= self.spec_post_insert()[0].param_rows);
        assert(r.deep_view() =~= self.spec_post_insert());
        r
    }

    fn post_delete(id: Option<i32>) -> (r: Vec<Batch>) {
        let mut r: Vec<Batch> = Vec::new();
        match id {
            Some(v) => {
                r.push(batch_once("DELETE FROM order_article WHERE order_id = ?1", id_params(v)));
            },
            None => {
                r.push(batch_once("DELETE FROM order_article", no_params()));
            },
        }
        assert(r.deep_view() =~= Self::spec_post_delete(id));
        r
    }
}

/// What is stored of an order reads back as that order, given its customer and
/// items.
pub proof fn lemma_order_round_trip(o: OrderView)
    ensures
        order_from_row(order_values(o), o.customer, o.items) == Ok::<OrderView, StoreError>(o),
{
    lemma_order_type_names(o.order_type, order_type_name(o.order_type));
    lemma_order_status_names(o.status, order_status_name(o.status));
}

/// Inserting an order is followed by one order line per item, in item order,
/// each linking the order's id to the item's article id and quantity, all through
/// one prepared statement.
pub proof fn lemma_order_lines_cover_items(o: Order)
    ensures
        o.spec_post_insert().len() == 1,
        o.spec_post_insert()[0].sql == order_line_sql(),
        o.spec_post_insert()[0].param_rows.len() == o.items@.len(),
        forall|i: int|
            0 <= i < o.items@.len() ==> #[trigger] o.spec_post_insert()[0].param_rows[i] == seq![
                SqlValueView::Integer(o.order_id as i64),
                SqlValueView::Integer(o.items@[i].article.article_id as i64),
                SqlValueView::Integer(o.items@[i].quantity as i64),
            ],
{
}

/// Whether every value bound in every batch is the integer `v`.
pub open spec fn binds_only(batches: Seq<BatchView>, v: SqlValueView) -> bool {
    forall|k: int, j: int, m: int|
        0 <= k < batches.len() && 0 <= j < batches[k].param_rows.len() && 0 <= m
            < batches[k].param_rows[j].len() ==> #[trigger] batches[k].param_rows[j][m] == v
}

/// The statements that follow the removal of a record by id bind nothing but
/// that id; those that follow the removal of all records bind nothing.
pub proof fn lemma_removal_binds_only_the_id(id: i32)
    ensures
        binds_only(Article::spec_post_delete(Some(id)), SqlValueView::Integer(id as i64)),
        binds_only(Customer::spec_post_delete(Some(id)), SqlValueView::Integer(id as i64)),
        binds_only(Order::spec_post_delete(Some(id)), SqlValueView::Integer(id as i64)),
        Article::spec_post_delete(None).len() == 0,
        Customer::spec_post_delete(None).len() == 0,
        Order::spec_post_delete(None).len() == 1,
        Order::spec_post_delete(None)[0].param_rows == seq![Seq::<SqlValueView>::empty()],
{
    let v = SqlValueView::Integer(id as i64);
    let a = Article::spec_post_delete(Some(id));
    assert forall|k: int, j: int, m: int|
        0 <= k < a.len() && 0 <= j < a[k].param_rows.len() && 0 <= m < a[k].param_rows[j].len()
        implies #[trigger] a[k].param_rows[j][m] == v by {
        assert(k == 0 || k == 1);
    }
    let c = Customer::spec_post_delete(Some(id));
    assert forall|k: int, j: int, m: int|
        0 <= k < c.len() && 0 <= j < c[k].param_rows.len() && 0 <= m < c[k].param_rows[j].len()
        implies #[trigger] c[k].param_rows[j][m] == v by {
        assert(k == 0 || k == 1);
    }
}

// ---------------------------------------------------------------------------
// Responses

/// A record handed back by the shop's interface, tagged by its kind.
#[derive(Debug, Clone, PartialEq)]
pub enum ApiResponse {
    Article(Article),
    Customer(Customer),
    Order(Order),
}

} // verus!
