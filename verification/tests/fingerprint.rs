use sql_select::clause::DistinctClause;
use sql_select::clause::FromClause;
use sql_select::clause::GroupByClause;
use sql_select::clause::LimitClause;
use sql_select::clause::OffsetClause;
use sql_select::clause::OrderClause;
use sql_select::clause::SelectClause;
use sql_select::clause::WhereClause;
use sql_select::fragment::SqlFragment;
use sql_select::statement::SelectStatement;

fn pred(sql: &str, bind: &str) -> SqlFragment {
    let mut f = SqlFragment::sql(sql);
    f.push_bind(bind.to_string());
    f
}

fn orders_query(status: &str, limit: LimitClause) -> SelectStatement {
    SelectStatement::new(
        SelectClause::DefaultSelection,
        FromClause::Table(SqlFragment::sql("orders")),
        DistinctClause::NoDistinct,
        WhereClause::Predicates(vec![pred("status = ", status)]),
        OrderClause::NoOrder,
        limit,
        OffsetClause::NoOffset,
        GroupByClause::NoGroupBy,
    )
}

#[test]
fn different_bound_values_share_a_fingerprint() {
    let a = orders_query("open", LimitClause::Limit(10));
    let b = orders_query("closed", LimitClause::Limit(10));
    let ia = a.query_id();
    let ib = b.query_id();
    assert!(ia.same_as(&ib));
    assert_eq!(ia, ib);
}

#[test]
fn different_limit_values_share_a_fingerprint() {
    let a = orders_query("open", LimitClause::Limit(10));
    let b = orders_query("open", LimitClause::Limit(20));
    assert!(a.query_id().same_as(&b.query_id()));
}

#[test]
fn limit_presence_changes_the_fingerprint() {
    let a = orders_query("open", LimitClause::Limit(10));
    let b = orders_query("open", LimitClause::NoLimit);
    assert!(!a.query_id().same_as(&b.query_id()));
}

#[test]
fn predicate_count_changes_the_fingerprint() {
    let one = orders_query("open", LimitClause::NoLimit);
    let two = SelectStatement::new(
        SelectClause::DefaultSelection,
        FromClause::Table(SqlFragment::sql("orders")),
        DistinctClause::NoDistinct,
        WhereClause::Predicates(vec![pred("status = ", "open"), pred("id > ", "7")]),
        OrderClause::NoOrder,
        LimitClause::NoLimit,
        OffsetClause::NoOffset,
        GroupByClause::NoGroupBy,
    );
    assert!(!one.query_id().same_as(&two.query_id()));
}

#[test]
fn literal_sql_text_is_part_of_the_shape() {
    let a = orders_query("open", LimitClause::NoLimit);
    let b = SelectStatement::new(
        SelectClause::DefaultSelection,
        FromClause::Table(SqlFragment::sql("orders")),
        DistinctClause::NoDistinct,
        WhereClause::Predicates(vec![pred("kind = ", "open")]),
        OrderClause::NoOrder,
        LimitClause::NoLimit,
        OffsetClause::NoOffset,
        GroupByClause::NoGroupBy,
    );
    assert!(!a.query_id().same_as(&b.query_id()));
}

#[test]
fn fingerprinting_is_stable_across_calls() {
    let a = orders_query("open", LimitClause::Limit(10));
    let first = a.query_id();
    let second = a.query_id();
    assert!(first.same_as(&second));
    assert_eq!(first, second);
}

#[test]
fn fingerprint_retains_no_bound_value() {
    let a = orders_query("open", LimitClause::Limit(10));
    let id = a.query_id();
    match &id.canonical.where_clause {
        WhereClause::Predicates(ps) => {
            assert_eq!(ps.len(), 1);
        },
        WhereClause::NoWhere => panic!("where slot lost"),
    }
    assert_eq!(id.canonical.limit, LimitClause::Limit(0));
}
