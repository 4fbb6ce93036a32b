use datafusion::arrow::array::{Int64Array, UInt64Array};
use datafusion::arrow::record_batch::RecordBatch;
use datafusion::datasource::CsvFile;
use datafusion::error::DataFusionError;
use datafusion::prelude::{CsvReadOptions, ExecutionContext};
use fpl_tables::models::general::Element;
use fpl_tables::query::{classify, EngineFault, QueryError};
use fpl_tables::table::render_table;
use std::io::Cursor;
use std::sync::Arc;

fn fault_of(error: &DataFusionError) -> EngineFault {
    match error {
        DataFusionError::ArrowError(_) => EngineFault::Arrow,
        DataFusionError::ParquetError(_) => EngineFault::Parquet,
        DataFusionError::IoError(_) => EngineFault::Io,
        DataFusionError::SQL(_) => EngineFault::Sql,
        DataFusionError::NotImplemented(_) => EngineFault::NotImplemented,
        DataFusionError::Internal(_) => EngineFault::Internal,
        DataFusionError::Plan(_) => EngineFault::Plan,
        DataFusionError::Execution(_) => EngineFault::Execution,
    }
}

/// Runs the query against the written table of `rows`, registered under the
/// name `elements`, with the column types that the engine infers.
fn run(rows: &Vec<Element>, sql_text: &str) -> Result<Vec<RecordBatch>, QueryError> {
    let table = Cursor::new(render_table(rows));
    let source = CsvFile::try_new_from_reader_infer_schema(table, CsvReadOptions::new()).unwrap();
    let mut ctx = ExecutionContext::new();
    ctx.register_table("elements", Arc::new(source)).unwrap();
    let runtime = tokio::runtime::Runtime::new().unwrap();
    ctx.sql(sql_text)
        .and_then(|df| runtime.block_on(df.collect()))
        .map_err(|error| classify(fault_of(&error)))
}

fn player(id: i64, now_cost: i64) -> Element {
    Element { id, now_cost, web_name: format!("player {}", id), ..Element::default() }
}

fn integers(batches: &[RecordBatch], column: usize) -> Vec<i64> {
    let mut values = Vec::new();
    for batch in batches {
        let array = batch.column(column).as_any().downcast_ref::<Int64Array>().unwrap();
        values.extend(array.values().iter().copied());
    }
    values
}

#[test]
fn the_query_finds_the_one_element_above_the_cost() {
    let rows = vec![player(1, 50), player(2, 75)];
    let batches = run(&rows, "SELECT id, now_cost FROM elements WHERE now_cost > 60").unwrap();
    assert_eq!(batches.iter().map(|batch| batch.num_rows()).sum::<usize>(), 1);
    assert_eq!(batches[0].num_columns(), 2);
    assert_eq!(batches[0].schema().field(0).name(), "id");
    assert_eq!(batches[0].schema().field(1).name(), "now_cost");
    assert_eq!(integers(&batches, 0), vec![2]);
    assert_eq!(integers(&batches, 1), vec![75]);
}

#[test]
fn counting_the_rows_gives_the_number_of_elements() {
    for count in [1usize, 2, 7, 120] {
        let rows: Vec<Element> = (0..count).map(|i| player(i as i64, 40 + i as i64)).collect();
        let batches = run(&rows, "SELECT count(*) FROM elements").unwrap();
        let counted = batches[0].column(0).as_any().downcast_ref::<UInt64Array>().unwrap();
        assert_eq!(counted.value(0), count as u64);
    }
}

#[test]
fn a_field_that_is_quoted_counts_as_one() {
    let awkward = Element {
        web_name: "O\"Neil, J".to_string(),
        news: "out\nfor a week".to_string(),
        ..player(1, 50)
    };
    let rows = vec![awkward, player(2, 75)];
    let batches = run(&rows, "SELECT id FROM elements WHERE now_cost < 60").unwrap();
    assert_eq!(integers(&batches, 0), vec![1]);
    let all = run(&rows, "SELECT count(*) FROM elements").unwrap();
    let counted = all[0].column(0).as_any().downcast_ref::<UInt64Array>().unwrap();
    assert_eq!(counted.value(0), 2);
}

#[test]
fn a_table_that_is_not_registered_is_unresolved() {
    let rows = vec![player(1, 50)];
    assert_eq!(run(&rows, "SELECT * FROM teams").err(), Some(QueryError::Unresolved));
    assert_eq!(run(&rows, "SELECT count(*) FROM element").err(), Some(QueryError::Unresolved));
}

#[test]
fn a_column_that_is_not_there_is_unresolved() {
    let rows = vec![player(1, 50)];
    assert_eq!(run(&rows, "SELECT price FROM elements").err(), Some(QueryError::Unresolved));
}

#[test]
fn text_that_is_no_sql_does_not_parse() {
    let rows = vec![player(1, 50)];
    assert_eq!(run(&rows, "SELEC id FROM elements").err(), Some(QueryError::Parse));
    assert_eq!(run(&rows, "SELECT id FROM").err(), Some(QueryError::Parse));
}
