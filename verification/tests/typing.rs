use sql_select::backend::Backend;
use sql_select::clause::DistinctClause;
use sql_select::clause::FromClause;
use sql_select::clause::GroupByClause;
use sql_select::clause::LimitClause;
use sql_select::clause::OffsetClause;
use sql_select::clause::OrderClause;
use sql_select::clause::SelectClause;
use sql_select::clause::WhereClause;
use sql_select::fragment::SqlFragment;
use sql_select::render::AstPass;
use sql_select::sql_type::ExpressionType;
use sql_select::sql_type::SqlType;
use sql_select::statement::SelectStatement;

fn pred(sql: &str, bind: &str) -> SqlFragment {
    let mut f = SqlFragment::sql(sql);
    f.push_bind(bind.to_string());
    f
}

fn orders_query() -> SelectStatement {
    SelectStatement::new(
        SelectClause::DefaultSelection,
        FromClause::Table(SqlFragment::sql("orders")),
        DistinctClause::NoDistinct,
        WhereClause::Predicates(vec![pred("status = ", "open")]),
        OrderClause::NoOrder,
        LimitClause::Limit(10),
        OffsetClause::NoOffset,
        GroupByClause::NoGroupBy,
    )
}

#[test]
fn scalar_backend_declares_the_select_lists_type() {
    let stmt = orders_query();
    assert_eq!(stmt.query_sql_type(), SqlType::Row);
    assert_eq!(
        stmt.expression_sql_type(Backend::Sqlite),
        ExpressionType::Scalar(SqlType::Row)
    );
    assert_eq!(
        stmt.expression_sql_type(Backend::Mysql),
        ExpressionType::Scalar(SqlType::Row)
    );
}

#[test]
fn array_backend_wraps_the_declared_type() {
    let stmt = orders_query();
    let mut pg = AstPass::new(Backend::Postgres);
    let mut lite = AstPass::new(Backend::Sqlite);
    stmt.walk_ast(&mut pg).expect("statement should render");
    stmt.walk_ast(&mut lite).expect("statement should render");
    assert_eq!(pg.sql, lite.sql);
    assert_eq!(pg.binds, lite.binds);
    assert_eq!(
        stmt.expression_sql_type(Backend::Postgres),
        ExpressionType::ArrayOf(SqlType::Row)
    );
}

#[test]
fn explicit_select_list_declares_its_own_type() {
    let stmt = SelectStatement::new(
        SelectClause::Expression(SqlFragment::sql("count(*)"), SqlType::Integer),
        FromClause::Table(SqlFragment::sql("orders")),
        DistinctClause::NoDistinct,
        WhereClause::NoWhere,
        OrderClause::NoOrder,
        LimitClause::NoLimit,
        OffsetClause::NoOffset,
        GroupByClause::NoGroupBy,
    );
    assert_eq!(stmt.query_sql_type(), SqlType::Integer);
    assert_eq!(
        stmt.expression_sql_type(Backend::Postgres),
        ExpressionType::ArrayOf(SqlType::Integer)
    );
    assert_eq!(
        stmt.expression_sql_type(Backend::Sqlite),
        ExpressionType::Scalar(SqlType::Integer)
    );
}
