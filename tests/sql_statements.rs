use trade_metrics::sql::SqlQueryBuilder;

#[test]
fn test_sql_insert_statement() {
    let _builder = SqlQueryBuilder {};

    let table = "test";
    let columns = vec!["one", "two", "three", "four"];
    let sql = SqlQueryBuilder::prepare_insert_statement(table, &columns);
    assert_eq!(
        sql,
        "INSERT INTO test (one, two, three, four) VALUES ($1, $2, $3, $4)"
    );
}

#[test]
fn test_sql_update_statement() {
    let table = "test";
    let columns = vec!["one", "two", "three", "four", "local_id"];
    let sql = SqlQueryBuilder::prepare_update_statement(table, &columns);
    assert_eq!(
        sql,
        "UPDATE test SET one = $1, two = $2, three = $3, four = $4 WHERE local_id = $5"
    );
}

#[test]
fn test_sql_fetch_statement_whole_table() {
    let table = "test";
    let sql = SqlQueryBuilder::prepare_fetch_statement(table, &Vec::default());
    assert_eq!(sql, "SELECT * FROM test");
}

#[test]
fn test_sql_fetch_statement_with_filter() {
    let table = "test";
    let columns = vec!["one", "two", "three"];
    let sql = SqlQueryBuilder::prepare_fetch_statement(table, &columns);
    assert_eq!(
        sql,
        "SELECT * FROM test WHERE one = $1 AND two = $2 AND three = $3"
    );
}

#[test]
fn test_sql_delete_statement() {
    let table = "test";
    let sql = SqlQueryBuilder::prepare_delete_statement(table, &Vec::default());
    assert_eq!(sql, "DELETE FROM test");
}

#[test]
fn test_sql_delete_statement_with_filters() {
    let table = "test";
    let columns = vec!["one", "two", "three"];
    let sql = SqlQueryBuilder::prepare_delete_statement(table, &columns);
    assert_eq!(
        sql,
        "DELETE FROM test WHERE one = $1 AND two = $2 AND three = $3"
    );
}

#[test]
fn insert_statement_with_ten_columns_numbers_past_nine() {
    let columns = vec!["a", "b", "c", "d", "e", "f", "g", "h", "i", "j"];
    let sql = SqlQueryBuilder::prepare_insert_statement("t", &columns);
    assert_eq!(
        sql,
        "INSERT INTO t (a, b, c, d, e, f, g, h, i, j) VALUES ($1, $2, $3, $4, $5, $6, $7, $8, $9, $10)"
    );
}

#[test]
fn update_statement_with_key_only() {
    let sql = SqlQueryBuilder::prepare_update_statement("t", &["id"]);
    assert_eq!(sql, "UPDATE t SET  WHERE id = $1");
}

#[test]
fn fetch_statement_with_one_filter() {
    let sql = SqlQueryBuilder::prepare_fetch_statement("strategy", &["symbol"]);
    assert_eq!(sql, "SELECT * FROM strategy WHERE symbol = $1");
}
