use sql_select::backend::Backend;
use sql_select::clause::DistinctClause;
use sql_select::clause::FromClause;
use sql_select::clause::GroupByClause;
use sql_select::clause::LimitClause;
use sql_select::clause::OffsetClause;
use sql_select::clause::OrderClause;
use sql_select::clause::SelectClause;
use sql_select::clause::WhereClause;
use sql_select::fragment::SqlFragment;
use sql_select::render::AstPass;
use sql_select::render::QueryBuilder;
use sql_select::render::RenderError;
use sql_select::sql_type::SqlType;
use sql_select::statement::SelectStatement;

fn pred(sql: &str, bind: &str) -> SqlFragment {
    let mut f = SqlFragment::sql(sql);
    f.push_bind(bind.to_string());
    f
}

fn rendered(stmt: &SelectStatement, backend: Backend) -> String {
    let mut qb = QueryBuilder::new(backend);
    stmt.to_sql(&mut qb).expect("statement should render");
    qb.sql
}

#[test]
fn default_statement_renders_select_star() {
    let stmt = SelectStatement::simple(FromClause::Table(SqlFragment::sql("users")));
    assert_eq!(rendered(&stmt, Backend::Sqlite), "SELECT * FROM users");
}

#[test]
fn all_clauses_render_in_fixed_order() {
    let stmt = SelectStatement::new(
        SelectClause::Expression(SqlFragment::sql("dept"), SqlType::Text),
        FromClause::Table(SqlFragment::sql("emp")),
        DistinctClause::Distinct,
        WhereClause::Predicates(vec![pred("age > ", "30"), pred("name <> ", "nobody")]),
        OrderClause::OrderBy(SqlFragment::sql("dept DESC")),
        LimitClause::Limit(5),
        OffsetClause::Offset(2),
        GroupByClause::GroupBy(SqlFragment::sql("dept")),
    );
    assert_eq!(
        rendered(&stmt, Backend::Mysql),
        "SELECT DISTINCT dept FROM emp WHERE age > ? AND name <> ? \
         GROUP BY dept ORDER BY dept DESC LIMIT 5 OFFSET 2"
    );
}

#[test]
fn table_less_constant_select_has_no_from() {
    let stmt = SelectStatement::new(
        SelectClause::Expression(SqlFragment::sql("1"), SqlType::Integer),
        FromClause::NoFrom,
        DistinctClause::NoDistinct,
        WhereClause::NoWhere,
        OrderClause::NoOrder,
        LimitClause::NoLimit,
        OffsetClause::NoOffset,
        GroupByClause::NoGroupBy,
    );
    let sql = rendered(&stmt, Backend::Postgres);
    assert_eq!(sql, "SELECT 1");
    assert!(!sql.contains("FROM"));
}

#[test]
fn table_less_statement_still_renders_other_clauses() {
    let stmt = SelectStatement::new(
        SelectClause::Expression(SqlFragment::sql("random()"), SqlType::Integer),
        FromClause::NoFrom,
        DistinctClause::NoDistinct,
        WhereClause::Predicates(vec![pred("1 = ", "1")]),
        OrderClause::OrderBy(SqlFragment::sql("1")),
        LimitClause::Limit(3),
        OffsetClause::NoOffset,
        GroupByClause::NoGroupBy,
    );
    let sql = rendered(&stmt, Backend::Sqlite);
    assert_eq!(sql, "SELECT random() WHERE 1 = ? ORDER BY 1 LIMIT 3");
    assert!(!sql.contains("FROM"));
}

#[test]
fn rendering_twice_yields_identical_output() {
    let stmt = SelectStatement::new(
        SelectClause::DefaultSelection,
        FromClause::Table(SqlFragment::sql("orders")),
        DistinctClause::NoDistinct,
        WhereClause::Predicates(vec![pred("status = ", "open")]),
        OrderClause::NoOrder,
        LimitClause::Limit(10),
        OffsetClause::NoOffset,
        GroupByClause::NoGroupBy,
    );
    assert_eq!(rendered(&stmt, Backend::Sqlite), rendered(&stmt, Backend::Sqlite));
    let mut p1 = AstPass::new(Backend::Sqlite);
    let mut p2 = AstPass::new(Backend::Sqlite);
    stmt.walk_ast(&mut p1).expect("statement should render");
    stmt.walk_ast(&mut p2).expect("statement should render");
    assert_eq!(p1.sql, p2.sql);
    assert_eq!(p1.binds, p2.binds);
}

#[test]
fn text_pass_and_structured_walk_agree() {
    let stmt = SelectStatement::new(
        SelectClause::DefaultSelection,
        FromClause::Table(SqlFragment::sql("orders")),
        DistinctClause::NoDistinct,
        WhereClause::Predicates(vec![pred("status = ", "open")]),
        OrderClause::NoOrder,
        LimitClause::Limit(10),
        OffsetClause::NoOffset,
        GroupByClause::NoGroupBy,
    );
    let mut pass = AstPass::new(Backend::Sqlite);
    stmt.walk_ast(&mut pass).expect("statement should render");
    assert_eq!(pass.sql, rendered(&stmt, Backend::Sqlite));
    assert_eq!(pass.binds, vec!["open".to_string()]);
}

#[test]
fn orders_scenario_parameterized_with_one_bind() {
    let stmt = SelectStatement::new(
        SelectClause::DefaultSelection,
        FromClause::Table(SqlFragment::sql("orders")),
        DistinctClause::NoDistinct,
        WhereClause::Predicates(vec![pred("status = ", "open")]),
        OrderClause::NoOrder,
        LimitClause::Limit(10),
        OffsetClause::NoOffset,
        GroupByClause::NoGroupBy,
    );
    let mut pass = AstPass::new(Backend::Sqlite);
    stmt.walk_ast(&mut pass).expect("statement should render");
    assert_eq!(pass.sql, "SELECT * FROM orders WHERE status = ? LIMIT 10");
    assert_eq!(pass.binds, vec!["open".to_string()]);
}

#[test]
fn distinct_on_renders_only_where_supported() {
    let stmt = SelectStatement::new(
        SelectClause::DefaultSelection,
        FromClause::Table(SqlFragment::sql("emp")),
        DistinctClause::DistinctOn(SqlFragment::sql("dept")),
        WhereClause::NoWhere,
        OrderClause::NoOrder,
        LimitClause::NoLimit,
        OffsetClause::NoOffset,
        GroupByClause::NoGroupBy,
    );
    assert_eq!(
        rendered(&stmt, Backend::Postgres),
        "SELECT DISTINCT ON (dept) * FROM emp"
    );
    let mut qb = QueryBuilder::new(Backend::Sqlite);
    assert_eq!(
        stmt.to_sql(&mut qb),
        Err(RenderError::UnsupportedDialectFeature)
    );
    assert_eq!(qb.sql, "");
    let mut pass = AstPass::new(Backend::Mysql);
    assert_eq!(
        stmt.walk_ast(&mut pass),
        Err(RenderError::UnsupportedDialectFeature)
    );
    assert_eq!(pass.sql, "");
    assert!(pass.binds.is_empty());
}

#[test]
fn limit_and_offset_render_exact_decimals() {
    let stmt = SelectStatement::new(
        SelectClause::DefaultSelection,
        FromClause::Table(SqlFragment::sql("t")),
        DistinctClause::NoDistinct,
        WhereClause::NoWhere,
        OrderClause::NoOrder,
        LimitClause::Limit(0),
        OffsetClause::Offset(18446744073709551615),
        GroupByClause::NoGroupBy,
    );
    assert_eq!(
        rendered(&stmt, Backend::Sqlite),
        "SELECT * FROM t LIMIT 0 OFFSET 18446744073709551615"
    );
}

#[test]
fn default_slots_are_the_sentinels() {
    let stmt = SelectStatement::new(
        SelectClause::default(),
        FromClause::Table(SqlFragment::sql("users")),
        DistinctClause::default(),
        WhereClause::default(),
        OrderClause::default(),
        LimitClause::default(),
        OffsetClause::default(),
        GroupByClause::default(),
    );
    assert_eq!(rendered(&stmt, Backend::Sqlite), "SELECT * FROM users");
    let simple = SelectStatement::simple(FromClause::Table(SqlFragment::sql("users")));
    assert_eq!(stmt, simple);
}

#[test]
fn fragments_build_incrementally() {
    let mut f = SqlFragment::empty();
    f.push_sql("price < ");
    f.push_bind("100".to_string());
    f.push_sql(" OR price IS NULL");
    let stmt = SelectStatement::new(
        SelectClause::DefaultSelection,
        FromClause::Table(SqlFragment::sql("items")),
        DistinctClause::NoDistinct,
        WhereClause::Predicates(vec![f]),
        OrderClause::NoOrder,
        LimitClause::NoLimit,
        OffsetClause::NoOffset,
        GroupByClause::NoGroupBy,
    );
    let mut pass = AstPass::new(Backend::Sqlite);
    stmt.walk_ast(&mut pass).expect("statement should render");
    assert_eq!(pass.sql, "SELECT * FROM items WHERE price < ? OR price IS NULL");
    assert_eq!(pass.binds, vec!["100".to_string()]);
}

#[test]
fn empty_builder_keeps_backend_and_grows_in_place() {
    let stmt = SelectStatement::simple(FromClause::Table(SqlFragment::sql("a")));
    let mut qb = QueryBuilder::new(Backend::Mysql);
    stmt.to_sql(&mut qb).expect("statement should render");
    stmt.to_sql(&mut qb).expect("statement should render");
    assert_eq!(qb.backend, Backend::Mysql);
    assert_eq!(qb.sql, "SELECT * FROM aSELECT * FROM a");
}
