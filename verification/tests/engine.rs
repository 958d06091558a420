use std::sync::Arc;

use datafusion::arrow::array::Int32Array;
use datafusion::arrow::array::StringArray;
use datafusion::arrow::datatypes::DataType;
use datafusion::arrow::datatypes::Field;
use datafusion::arrow::datatypes::Schema;
use datafusion::arrow::record_batch::RecordBatch;
use datafusion::arrow::util::display::array_value_to_string;
use datafusion::datasource::MemTable;

use delta_fusion::format_table;
use delta_fusion::QueryContext;
use delta_fusion::RegisterError;
use delta_fusion::RowBatch;

/// A relation with rows (year, genre, popularity):
/// (2020, pop, 50), (2020, rock, 70), (2021, pop, 90).
fn demo_table() -> MemTable {
    let schema = Arc::new(Schema::new(vec![
        Field::new("year", DataType::Int32, false),
        Field::new("genre", DataType::Utf8, false),
        Field::new("popularity", DataType::Int32, false),
    ]));
    let batch = RecordBatch::try_new(
        schema.clone(),
        vec![
            Arc::new(Int32Array::from(vec![2020, 2020, 2021])),
            Arc::new(StringArray::from(vec!["pop", "rock", "pop"])),
            Arc::new(Int32Array::from(vec![50, 70, 90])),
        ],
    )
    .unwrap();
    MemTable::try_new(schema, vec![vec![batch]]).unwrap()
}

/// A one-row relation with a single column, distinguishable from demo_table.
fn tiny_table(value: i32) -> MemTable {
    let schema = Arc::new(Schema::new(vec![Field::new("popularity", DataType::Int32, false)]));
    let batch = RecordBatch::try_new(
        schema.clone(),
        vec![Arc::new(Int32Array::from(vec![value]))],
    )
    .unwrap();
    MemTable::try_new(schema, vec![vec![batch]]).unwrap()
}

/// Submits one SQL statement against the context's session, waits for full
/// completion, and returns the column names plus every produced batch with
/// each cell rendered as text.
fn run_sql(ctx: &QueryContext, sql: &str) -> (Vec<String>, Vec<RowBatch>) {
    let rt = tokio::runtime::Builder::new_current_thread().build().unwrap();
    rt.block_on(async {
        let df = ctx.session().sql(sql).await.unwrap();
        let header: Vec<String> =
            df.schema().fields().iter().map(|f| f.name().clone()).collect();
        let batches = df.collect().await.unwrap();
        let row_batches: Vec<RowBatch> = batches
            .iter()
            .map(|b| RowBatch {
                rows: (0..b.num_rows())
                    .map(|i| {
                        (0..b.num_columns())
                            .map(|j| array_value_to_string(b.column(j), i).unwrap())
                            .collect()
                    })
                    .collect(),
            })
            .collect();
        (header, row_batches)
    })
}

fn sorted_rows(batches: &[RowBatch]) -> Vec<Vec<String>> {
    let mut rows: Vec<Vec<String>> = batches.iter().flat_map(|b| b.rows.clone()).collect();
    rows.sort();
    rows
}

fn strs(row: &[&str]) -> Vec<String> {
    row.iter().map(|s| s.to_string()).collect()
}

#[test]
fn duplicate_name_is_refused_and_distinct_names_stay_queryable() {
    let mut ctx = QueryContext::new();
    assert_eq!(ctx.register("demo".to_string(), demo_table()), Ok(()));
    assert_eq!(
        ctx.register("demo".to_string(), tiny_table(7)),
        Err(RegisterError::DuplicateName)
    );
    assert_eq!(ctx.register("demo2".to_string(), tiny_table(7)), Ok(()));
    assert_eq!(ctx.len(), 2);
    // Both names resolve, each to its own relation.
    let (_, first) = run_sql(&ctx, "select popularity from demo order by popularity");
    assert_eq!(sorted_rows(&first), vec![strs(&["50"]), strs(&["70"]), strs(&["90"])]);
    let (_, second) = run_sql(&ctx, "select popularity from demo2");
    assert_eq!(sorted_rows(&second), vec![strs(&["7"])]);
}

#[test]
fn invalid_names_are_refused_before_reaching_the_engine() {
    let mut ctx = QueryContext::new();
    assert_eq!(
        ctx.register("Demo".to_string(), tiny_table(1)),
        Err(RegisterError::InvalidName)
    );
    assert_eq!(
        ctx.register("a.b".to_string(), tiny_table(1)),
        Err(RegisterError::InvalidName)
    );
    assert_eq!(ctx.len(), 0);
}

#[test]
fn grouped_max_returns_each_group_once() {
    let mut ctx = QueryContext::new();
    ctx.register("demo".to_string(), demo_table()).unwrap();
    let (_, by_year_genre) = run_sql(
        &ctx,
        "select year, genre, max(popularity) from demo group by year, genre",
    );
    assert_eq!(
        sorted_rows(&by_year_genre),
        vec![
            strs(&["2020", "pop", "50"]),
            strs(&["2020", "rock", "70"]),
            strs(&["2021", "pop", "90"]),
        ]
    );
    let (_, by_year) = run_sql(&ctx, "select year, max(popularity) from demo group by year");
    assert_eq!(
        sorted_rows(&by_year),
        vec![strs(&["2020", "70"]), strs(&["2021", "90"])]
    );
}

#[test]
fn repeated_execution_of_the_same_sql_is_identical() {
    let mut ctx = QueryContext::new();
    ctx.register("demo".to_string(), demo_table()).unwrap();
    let sql = "select year, genre, popularity from demo order by popularity desc";
    let (header_a, batches_a) = run_sql(&ctx, sql);
    let (header_b, batches_b) = run_sql(&ctx, sql);
    assert_eq!(header_a, header_b);
    let text_a = format_table(&header_a, &batches_a).unwrap();
    let text_b = format_table(&header_b, &batches_b).unwrap();
    assert_eq!(text_a, text_b);
    // An order-insensitive query is compared row-set to row-set.
    let unordered = "select genre, max(popularity) from demo group by genre";
    let (_, first) = run_sql(&ctx, unordered);
    let (_, second) = run_sql(&ctx, unordered);
    assert_eq!(sorted_rows(&first), sorted_rows(&second));
}

#[test]
fn executed_result_formats_with_header_and_rows() {
    let mut ctx = QueryContext::new();
    ctx.register("demo".to_string(), demo_table()).unwrap();
    let (header, batches) = run_sql(
        &ctx,
        "select genre, max(popularity) as best from demo where genre = 'pop' group by genre",
    );
    let text = format_table(&header, &batches).unwrap();
    assert_eq!(text, "genre | best\npop   | 90  \n");
}

#[test]
fn a_query_against_an_unknown_table_fails() {
    let ctx = QueryContext::new();
    let rt = tokio::runtime::Builder::new_current_thread().build().unwrap();
    let failed = rt.block_on(async { ctx.session().sql("select * from demo").await.is_err() });
    assert!(failed);
}

#[test]
fn an_empty_result_still_shows_its_header() {
    let mut ctx = QueryContext::new();
    ctx.register("demo".to_string(), demo_table()).unwrap();
    let (header, batches) = run_sql(&ctx, "select genre from demo where popularity > 1000");
    let text = format_table(&header, &batches).unwrap();
    assert_eq!(text, "genre\n");
}
