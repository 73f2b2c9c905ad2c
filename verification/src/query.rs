use vstd::prelude::*;

use core::marker::PhantomData;
use smallvec::SmallVec;

use crate::sql_object::SqlObject;
use crate::sql_value::{params_view, SqlStatement, SqlValue, SqlValueView};
use crate::text::{int_decimal, push_int_decimal};

verus! {

/// The direction in which an `ORDER BY` column sorts.
#[derive(PartialEq, Eq, Copy, Clone, Debug, Structural)]
pub enum SortOrder {
    Ascending,
    Descending,
}

/// The `WHERE column = ?` constraints of a query, in a `SmallVec` with room for three.
#[verifier::external_body]
pub struct ConstraintList(SmallVec<[(&'static str, SqlValue); 3]>);

/// The `ORDER BY` columns of a query, in a `SmallVec` with room for one.
#[verifier::external_body]
pub struct OrderList(SmallVec<[(&'static str, SortOrder); 1]>);

/// The `GROUP BY` columns of a query, in a `SmallVec` with room for one.
#[verifier::external_body]
pub struct GroupList(SmallVec<[&'static str; 1]>);

/// What a constraint list holds, first pushed first.
pub uninterp spec fn constraint_items(l: ConstraintList) -> Seq<(&'static str, SqlValue)>;

/// What an order list holds, first pushed first.
pub uninterp spec fn order_items(l: OrderList) -> Seq<(&'static str, SortOrder)>;

/// What a group list holds, first pushed first.
pub uninterp spec fn group_items(l: GroupList) -> Seq<&'static str>;

/// Calls `SmallVec::new`: the list starts empty.
#[verifier::external_body]
fn constraint_list_new() -> (l: ConstraintList)
    ensures
        constraint_items(l) == Seq::<(&'static str, SqlValue)>::empty(),
{
    ConstraintList(SmallVec::new())
}

/// Calls `SmallVec::push`: the item is appended at the end.
#[verifier::external_body]
fn constraint_list_push(l: &mut ConstraintList, item: (&'static str, SqlValue))
    ensures
        constraint_items(*final(l)) == constraint_items(*old(l)).push(item),
{
    l.0.push(item)
}

/// Calls `SmallVec::as_slice`: the slice holds the items in order.
#[verifier::external_body]
fn constraint_list_as_slice(l: &ConstraintList) -> (s: &[(&'static str, SqlValue)])
    ensures
        s@ == constraint_items(*l),
{
    l.0.as_slice()
}

/// Calls `SmallVec::new`: the list starts empty.
#[verifier::external_body]
fn order_list_new() -> (l: OrderList)
    ensures
        order_items(l) == Seq::<(&'static str, SortOrder)>::empty(),
{
    OrderList(SmallVec::new())
}

/// Calls `SmallVec::push`: the item is appended at the end.
#[verifier::external_body]
fn order_list_push(l: &mut OrderList, item: (&'static str, SortOrder))
    ensures
        order_items(*final(l)) == order_items(*old(l)).push(item),
{
    l.0.push(item)
}

/// Calls `SmallVec::as_slice`: the slice holds the items in order.
#[verifier::external_body]
fn order_list_as_slice(l: &OrderList) -> (s: &[(&'static str, SortOrder)])
    ensures
        s@ == order_items(*l),
{
    l.0.as_slice()
}

/// Calls `SmallVec::new`: the list starts empty.
#[verifier::external_body]
fn group_list_new() -> (l: GroupList)
    ensures
        group_items(l) == Seq::<&'static str>::empty(),
{
    GroupList(SmallVec::new())
}

/// Calls `SmallVec::push`: the item is appended at the end.
#[verifier::external_body]
fn group_list_push(l: &mut GroupList, item: &'static str)
    ensures
        group_items(*final(l)) == group_items(*old(l)).push(item),
{
    l.0.push(item)
}

/// Calls `SmallVec::as_slice`: the slice holds the items in order.
#[verifier::external_body]
fn group_list_as_slice(l: &GroupList) -> (s: &[&'static str])
    ensures
        s@ == group_items(*l),
{
    l.0.as_slice()
}

/// What a query asks for: its `column = value` constraints, its limit, its `ORDER BY`
/// columns and its `GROUP BY` columns, each list in the order the calls added them.
pub struct QueryView {
    pub constraints: Seq<(Seq<char>, SqlValue)>,
    pub limit: Option<i64>,
    pub order: Seq<(Seq<char>, SortOrder)>,
    pub group: Seq<Seq<char>>,
}

/// The query that asks for every row.
pub open spec fn empty_query() -> QueryView {
    QueryView {
        constraints: Seq::empty(),
        limit: None,
        order: Seq::empty(),
        group: Seq::empty(),
    }
}

/// The items joined with `sep` between each two.
pub open spec fn joined(items: Seq<Seq<char>>, sep: Seq<char>) -> Seq<char>
    decreases items.len(),
{
    if items.len() == 0 {
        Seq::empty()
    } else if items.len() == 1 {
        items[0]
    } else {
        joined(items.drop_last(), sep) + sep + items.last()
    }
}

/// `SELECT * FROM table`.
pub open spec fn select_text(table: Seq<char>) -> Seq<char> {
    "SELECT * FROM "@ + table
}

/// The condition text of one constrained column.
pub open spec fn condition_text(column: Seq<char>) -> Seq<char> {
    column + " = ?"@
}

/// ` WHERE c1 = ? AND c2 = ? ...`, or nothing when there are no constraints.
pub open spec fn where_text(columns: Seq<Seq<char>>) -> Seq<char> {
    if columns.len() == 0 {
        Seq::empty()
    } else {
        " WHERE "@ + joined(columns.map_values(|c: Seq<char>| condition_text(c)), " AND "@)
    }
}

/// The keyword of a sort direction.
pub open spec fn direction_text(o: SortOrder) -> Seq<char> {
    match o {
        SortOrder::Ascending => "ASC"@,
        SortOrder::Descending => "DESC"@,
    }
}

/// The text of one sorted column.
pub open spec fn sort_key_text(key: (Seq<char>, SortOrder)) -> Seq<char> {
    key.0 + " "@ + direction_text(key.1)
}

/// ` ORDER BY c1 ASC, c2 DESC ...`, or nothing when no column is sorted.
pub open spec fn order_text(order: Seq<(Seq<char>, SortOrder)>) -> Seq<char> {
    if order.len() == 0 {
        Seq::empty()
    } else {
        " ORDER BY "@ + joined(
            order.map_values(|k: (Seq<char>, SortOrder)| sort_key_text(k)),
            ", "@,
        )
    }
}

/// ` GROUP BY c1, c2 ...`, or nothing when there is no grouping.
pub open spec fn group_text(group: Seq<Seq<char>>) -> Seq<char> {
    if group.len() == 0 {
        Seq::empty()
    } else {
        " GROUP BY "@ + joined(group, ", "@)
    }
}

/// ` LIMIT n`, or nothing without a limit.
pub open spec fn limit_text(limit: Option<i64>) -> Seq<char> {
    match limit {
        Some(n) => " LIMIT "@ + int_decimal(n as int),
        None => Seq::empty(),
    }
}

/// The names of the constrained columns.
pub open spec fn constraint_columns(q: QueryView) -> Seq<Seq<char>> {
    q.constraints.map_values(|c: (Seq<char>, SqlValue)| c.0)
}

/// The sql text of a query on `table`: its five parts joined with a space.
pub open spec fn query_text(table: Seq<char>, q: QueryView) -> Seq<char> {
    select_text(table) + " "@ + where_text(constraint_columns(q)) + " "@ + group_text(q.group)
        + " "@ + order_text(q.order) + " "@ + limit_text(q.limit)
}

/// The values of the `?` placeholders of a query, in order.
pub open spec fn query_params(q: QueryView) -> Seq<SqlValueView> {
    q.constraints.map_values(|c: (Seq<char>, SqlValue)| c.1@)
}

/// Joining one more item: the first stands alone, each later one follows a separator.
pub proof fn lemma_joined_take(items: Seq<Seq<char>>, sep: Seq<char>, i: int)
    requires
        0 <= i < items.len(),
    ensures
        joined(items.take(i + 1), sep) == (if i == 0 {
            items[0]
        } else {
            joined(items.take(i), sep) + sep + items[i]
        }),
{
    let t = items.take(i + 1);
    assert(t.drop_last() =~= items.take(i));
    assert(t.last() == items[i]);
}

/// The query with one more constraint `column = value`, as `Where` adds it.
pub open spec fn with_constraint(q: QueryView, column: Seq<char>, value: SqlValue) -> QueryView {
    QueryView { constraints: q.constraints.push((column, value)), ..q }
}

/// The constrained columns and the parameters follow the constraints one by one: the k-th
/// column of the WHERE text is the column of the k-th constraint and the k-th parameter is
/// its value.
pub proof fn lemma_constraints_in_order(q: QueryView)
    ensures
        constraint_columns(q).len() == q.constraints.len(),
        query_params(q).len() == q.constraints.len(),
        forall|k: int|
            0 <= k < q.constraints.len() ==> #[trigger] constraint_columns(q)[k]
                == q.constraints[k].0 && query_params(q)[k] == q.constraints[k].1@,
{
}

/// Each `Where` adds its condition at the end of the WHERE text and its value at the end of
/// the parameters: the first constraint opens ` WHERE c = ?`, every later one appends
/// ` AND c = ?`. So, whatever the number of constraints, the k-th `?` belongs to the k-th
/// constraint.
pub proof fn lemma_where_appends_condition(q: QueryView, column: Seq<char>, value: SqlValue)
    ensures
        where_text(constraint_columns(with_constraint(q, column, value))) == (if q.constraints.len()
            == 0 {
            " WHERE "@ + column + " = ?"@
        } else {
            where_text(constraint_columns(q)) + " AND "@ + column + " = ?"@
        }),
        query_params(with_constraint(q, column, value)) == query_params(q).push(value@),
{
    let q2 = with_constraint(q, column, value);
    let cols = constraint_columns(q);
    let cols2 = constraint_columns(q2);
    assert(cols2 =~= cols.push(column));
    let m = cols.map_values(|c: Seq<char>| condition_text(c));
    let m2 = cols2.map_values(|c: Seq<char>| condition_text(c));
    assert(m2 =~= m.push(column + " = ?"@));
    assert(m2.drop_last() =~= m);
    if q.constraints.len() == 0 {
        assert(m2.len() == 1);
    }
    assert(query_params(q2) =~= query_params(q).push(value@));
}

/// Each `OrderBy` adds its sort column at the end of the ORDER BY text, after the earlier
/// ones: the first opens ` ORDER BY c ASC` (or `DESC`), every later one appends `, c ASC`
/// (or `DESC`), so columns sort in the order they were added.
pub proof fn lemma_order_by_appends(order: Seq<(Seq<char>, SortOrder)>, column: Seq<char>, o: SortOrder)
    ensures
        order_text(order.push((column, o))) == (if order.len() == 0 {
            " ORDER BY "@ + column + " "@ + (if o == SortOrder::Ascending {
                "ASC"@
            } else {
                "DESC"@
            })
        } else {
            order_text(order) + ", "@ + column + " "@ + (if o == SortOrder::Ascending {
                "ASC"@
            } else {
                "DESC"@
            })
        }),
{
    let m = order.map_values(|k: (Seq<char>, SortOrder)| sort_key_text(k));
    let m2 = order.push((column, o)).map_values(|k: (Seq<char>, SortOrder)| sort_key_text(k));
    assert(m2 =~= m.push(sort_key_text((column, o))));
    assert(m2.drop_last() =~= m);
    if order.len() == 0 {
        assert(m2.len() == 1);
    }
}

/// Each `GroupBy` adds its column at the end of the GROUP BY text: the first opens
/// ` GROUP BY c`, every later one appends `, c`.
pub proof fn lemma_group_by_appends(group: Seq<Seq<char>>, column: Seq<char>)
    ensures
        group_text(group.push(column)) == (if group.len() == 0 {
            " GROUP BY "@ + column
        } else {
            group_text(group) + ", "@ + column
        }),
{
    assert(group.push(column).drop_last() =~= group);
}

/// A query on the table of `T`, built up by `Where`, `Limit`, `OrderBy` and `GroupBy`.
pub struct Query<T: SqlObject> {
    constraints: ConstraintList,
    limit: Option<i64>,
    order: OrderList,
    group: GroupList,
    phantom: PhantomData<T>,
}

impl<T: SqlObject> View for Query<T> {
    type V = QueryView;

    closed spec fn view(&self) -> QueryView {
        QueryView {
            constraints: constraint_items(self.constraints).map_values(
                |c: (&'static str, SqlValue)| (c.0@, c.1),
            ),
            limit: self.limit,
            order: order_items(self.order).map_values(|k: (&'static str, SortOrder)| (k.0@, k.1)),
            group: group_items(self.group).map_values(|g: &'static str| g@),
        }
    }
}

impl<T: SqlObject> Query<T> {
    /// A query for every row of the table.
    pub fn new() -> (q: Query<T>)
        ensures
            q@ == empty_query(),
    {
        let q = Query {
            constraints: constraint_list_new(),
            limit: None,
            order: order_list_new(),
            group: group_list_new(),
            phantom: PhantomData,
        };
        assert(q@.constraints =~= Seq::empty());
        assert(q@.order =~= Seq::empty());
        assert(q@.group =~= Seq::empty());
        q
    }

    fn select_string(&self) -> (s: String)
        ensures
            s@ == select_text(T::table_name()),
    {
        let mut s = String::new();
        s.append("SELECT * FROM ");
        s.append(T::get_table_name());
        s
    }

    fn constraint_string(&self) -> (s: String)
        ensures
            s@ == where_text(constraint_columns(self@)),
    {
        let items = constraint_list_as_slice(&self.constraints);
        let ghost terms = constraint_columns(self@).map_values(|c: Seq<char>| condition_text(c));
        if items.len() > 0 {
            let mut s = String::new();
            s.append(" WHERE ");
            let mut i: usize = 0;
            while i < items.len()
                invariant
                    0 <= i <= items@.len(),
                    items@ == constraint_items(self.constraints),
                    terms.len() == items@.len(),
                    terms == constraint_columns(self@).map_values(|c: Seq<char>| condition_text(c)),
                    s@ == " WHERE "@ + joined(terms.take(i as int), " AND "@),
                decreases items@.len() - i,
            {
                proof {
                    lemma_joined_take(terms, " AND "@, i as int);
                }
                if i > 0 {
                    s.append(" AND ");
                }
                s.append(items[i].0);
                s.append(" = ?");
                assert(terms[i as int] == items@[i as int].0@ + " = ?"@);
                if i > 0 {
                    assert(s@ =~= " WHERE "@ + (joined(terms.take(i as int), " AND "@) + " AND "@
                        + terms[i as int]));
                } else {
                    assert(s@ =~= " WHERE "@ + terms[i as int]);
                }
                i = i + 1;
            }
            assert(terms.take(items@.len() as int) =~= terms);
            s
        } else {
            String::new()
        }
    }

    fn limit_string(&self) -> (s: String)
        ensures
            s@ == limit_text(self@.limit),
    {
        if let Some(limit) = self.limit {
            let mut s = String::new();
            s.append(" LIMIT ");
            push_int_decimal(&mut s, limit as i128);
            s
        } else {
            String::new()
        }
    }

    fn order_string(&self) -> (s: String)
        ensures
            s@ == order_text(self@.order),
    {
        let items = order_list_as_slice(&self.order);
        let ghost terms = self@.order.map_values(|k: (Seq<char>, SortOrder)| sort_key_text(k));
        if items.len() > 0 {
            let mut s = String::new();
            s.append(" ORDER BY ");
            let mut i: usize = 0;
            while i < items.len()
                invariant
                    0 <= i <= items@.len(),
                    items@ == order_items(self.order),
                    terms.len() == items@.len(),
                    terms == self@.order.map_values(|k: (Seq<char>, SortOrder)| sort_key_text(k)),
                    s@ == " ORDER BY "@ + joined(terms.take(i as int), ", "@),
                decreases items@.len() - i,
            {
                proof {
                    lemma_joined_take(terms, ", "@, i as int);
                }
                if i > 0 {
                    s.append(", ");
                }
                let (column, order) = items[i];
                s.append(column);
                s.append(" ");
                if order == SortOrder::Ascending {
                    s.append("ASC");
                } else {
                    s.append("DESC");
                }
                assert(terms[i as int] == sort_key_text((column@, order)));
                if i > 0 {
                    assert(s@ =~= " ORDER BY "@ + (joined(terms.take(i as int), ", "@) + ", "@
                        + terms[i as int]));
                } else {
                    assert(s@ =~= " ORDER BY "@ + terms[i as int]);
                }
                i = i + 1;
            }
            assert(terms.take(items@.len() as int) =~= terms);
            s
        } else {
            String::new()
        }
    }

    fn group_string(&self) -> (s: String)
        ensures
            s@ == group_text(self@.group),
    {
        let items = group_list_as_slice(&self.group);
        let ghost terms = self@.group;
        if items.len() > 0 {
            let mut s = String::new();
            s.append(" GROUP BY ");
            let mut i: usize = 0;
            while i < items.len()
                invariant
                    0 <= i <= items@.len(),
                    items@ == group_items(self.group),
                    terms.len() == items@.len(),
                    terms == self@.group,
                    s@ == " GROUP BY "@ + joined(terms.take(i as int), ", "@),
                decreases items@.len() - i,
            {
                proof {
                    lemma_joined_take(terms, ", "@, i as int);
                }
                if i > 0 {
                    s.append(", ");
                }
                s.append(items[i]);
                assert(terms[i as int] == items@[i as int]@);
                if i > 0 {
                    assert(s@ =~= " GROUP BY "@ + (joined(terms.take(i as int), ", "@) + ", "@
                        + terms[i as int]));
                } else {
                    assert(s@ =~= " GROUP BY "@ + terms[i as int]);
                }
                i = i + 1;
            }
            assert(terms.take(items@.len() as int) =~= terms);
            s
        } else {
            String::new()
        }
    }

    /// The sql text of the query: select, constraints, grouping, order and limit, joined
    /// with a space.
    pub fn sql(&self) -> (s: String)
        ensures
            s@ == query_text(T::table_name(), self@),
    {
        let mut s = self.select_string();
        s.append(" ");
        let w = self.constraint_string();
        s.append(w.as_str());
        s.append(" ");
        let g = self.group_string();
        s.append(g.as_str());
        s.append(" ");
        let o = self.order_string();
        s.append(o.as_str());
        s.append(" ");
        let l = self.limit_string();
        s.append(l.as_str());
        s
    }

    /// The values of the `?` placeholders, in the order of the constraints.
    pub fn params(&self) -> (p: Vec<SqlValue>)
        ensures
            params_view(p@) == query_params(self@),
    {
        let items = constraint_list_as_slice(&self.constraints);
        let mut p: Vec<SqlValue> = Vec::new();
        let mut i: usize = 0;
        while i < items.len()
            invariant
                0 <= i <= items@.len(),
                items@ == constraint_items(self.constraints),
                params_view(p@) =~= query_params(self@).take(i as int),
            decreases items@.len() - i,
        {
            let v = items[i].1.clone();
            let ghost before = p@;
            p.push(v);
            proof {
                let qp = query_params(self@);
                assert(params_view(p@) =~= params_view(before).push(v@));
                assert(qp.take(i + 1) =~= qp.take(i as int).push(qp[i as int]));
            }
            i = i + 1;
        }
        assert(query_params(self@).take(items@.len() as int) =~= query_params(self@));
        p
    }

    /// The statement that runs the query: its sql text and its parameters.
    pub fn statement(&self) -> (st: SqlStatement)
        ensures
            st.sql@ == query_text(T::table_name(), self@),
            params_view(st.params@) == query_params(self@),
    {
        SqlStatement { sql: self.sql(), params: self.params() }
    }

    /// Adds the constraint `identifier = value`.
    #[allow(non_snake_case)]
    pub fn Where(self, identifier: &'static str, value: SqlValue) -> (q: Self)
        ensures
            q@ == (QueryView {
                constraints: self@.constraints.push((identifier@, value)),
                ..self@
            }),
    {
        let mut q = self;
        constraint_list_push(&mut q.constraints, (identifier, value));
        assert(q@.constraints =~= self@.constraints.push((identifier@, value)));
        q
    }

    /// Limits the number of rows to `limit`, in place of any earlier limit.
    #[allow(non_snake_case)]
    pub fn Limit(self, limit: i64) -> (q: Self)
        ensures
            q@ == (QueryView { limit: Some(limit), ..self@ }),
    {
        let mut q = self;
        q.limit = Some(limit);
        q
    }

    /// Sorts by `identifier` in the given direction, after any earlier sort columns.
    #[allow(non_snake_case)]
    pub fn OrderBy(self, identifier: &'static str, order: SortOrder) -> (q: Self)
        ensures
            q@ == (QueryView { order: self@.order.push((identifier@, order)), ..self@ }),
    {
        let mut q = self;
        order_list_push(&mut q.order, (identifier, order));
        assert(q@.order =~= self@.order.push((identifier@, order)));
        q
    }

    /// Groups by `identifier`, after any earlier group columns.
    #[allow(non_snake_case)]
    pub fn GroupBy(self, identifier: &'static str) -> (q: Self)
        ensures
            q@ == (QueryView { group: self@.group.push(identifier@), ..self@ }),
    {
        let mut q = self;
        group_list_push(&mut q.group, identifier);
        assert(q@.group =~= self@.group.push(identifier@));
        q
    }
}

} // verus!
