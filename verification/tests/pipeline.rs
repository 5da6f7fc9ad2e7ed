use std::cell::{Cell, RefCell};

use nlsql::error::AppError;
use nlsql::gemini::AIModel;
use nlsql::query_service::{QueryService, build_context};
use nlsql::repository::Repository;
use nlsql::result_set::{CellValue, ResultSet};

struct FakeModel {
    sql: Result<String, String>,
    answer: String,
    seen_sql_prompt: RefCell<Option<String>>,
    seen_interpretation: RefCell<Option<(String, String)>>,
    interpret_called: Cell<bool>,
}

impl FakeModel {
    fn new(sql: Result<&str, &str>, answer: &str) -> Self {
        FakeModel {
            sql: sql.map(str::to_string).map_err(str::to_string),
            answer: answer.to_string(),
            seen_sql_prompt: RefCell::new(None),
            seen_interpretation: RefCell::new(None),
            interpret_called: Cell::new(false),
        }
    }
}

impl AIModel for &FakeModel {
    fn generate_sql(&self, prompt: &str) -> Result<String, AppError> {
        *self.seen_sql_prompt.borrow_mut() = Some(prompt.to_string());
        self.sql.clone().map_err(AppError::AIModel)
    }

    fn interpret_results(&self, query: &str, results: &str) -> Result<String, AppError> {
        self.interpret_called.set(true);
        *self.seen_interpretation.borrow_mut() = Some((query.to_string(), results.to_string()));
        Ok(self.answer.clone())
    }
}

struct FakeRepository {
    schema: Result<String, String>,
    execute: Result<(Vec<String>, Vec<Vec<CellValue>>), String>,
    seen_query: RefCell<Option<String>>,
}

impl Repository for &FakeRepository {
    fn execute_query(&self, query: &str) -> Result<ResultSet, AppError> {
        *self.seen_query.borrow_mut() = Some(query.to_string());
        match &self.execute {
            Ok((columns, rows)) => Ok(ResultSet { columns: columns.clone(), rows: rows.clone() }),
            Err(m) => Err(AppError::SqlExecution(m.clone())),
        }
    }

    fn get_table_schema(&self, _table_name: &str) -> Result<String, AppError> {
        self.schema.clone().map_err(AppError::Database)
    }
}

#[test]
fn context_is_schema_and_question_on_two_lines() {
    assert_eq!(
        build_context("id (int4), total (float8)", "What is the total revenue?"),
        "id (int4), total (float8)\nWhat is the total revenue?"
    );
}

#[test]
fn the_generation_stage_sees_the_two_line_context() {
    let model = FakeModel::new(Ok("SELECT SUM(total) FROM orders_data"), "ok");
    let repository = FakeRepository {
        schema: Ok("id (int4), total (float8)".to_string()),
        execute: Ok((vec!["sum".to_string()], vec![vec![CellValue::Integer(5)]])),
        seen_query: RefCell::new(None),
    };
    let service = QueryService::new(&model, &repository);
    let out = service.process_query("What is the total revenue?");
    assert_eq!(out.unwrap(), "ok");
    assert_eq!(
        model.seen_sql_prompt.borrow().as_deref(),
        Some("id (int4), total (float8)\nWhat is the total revenue?")
    );
}

#[test]
fn the_whole_pipeline_hands_each_stage_the_previous_result() {
    let model = FakeModel::new(Ok("SELECT id, total FROM orders_data"), "one order of 99.5");
    let repository = FakeRepository {
        schema: Ok("id (int4), total (float8)".to_string()),
        execute: Ok((
            vec!["id".to_string(), "total".to_string()],
            vec![vec![CellValue::Integer(1), CellValue::Float("99.5".to_string())]],
        )),
        seen_query: RefCell::new(None),
    };
    let service = QueryService::new(&model, &repository);
    let answer = service.process_query("What is the total revenue?").unwrap();
    assert_eq!(answer, "one order of 99.5");
    assert_eq!(
        repository.seen_query.borrow().as_deref(),
        Some("SELECT id, total FROM orders_data")
    );
    let seen = model.seen_interpretation.borrow();
    let (query, results) = seen.as_ref().unwrap();
    assert_eq!(query, "SELECT id, total FROM orders_data");
    assert_eq!(results, "id | total\n-----------\n1 | 99.5\n");
}

#[test]
fn a_failing_execution_surfaces_without_interpretation() {
    let model = FakeModel::new(Ok("SELEC oops"), "never");
    let repository = FakeRepository {
        schema: Ok("id (int4), total (float8)".to_string()),
        execute: Err("syntax error at or near \"SELEC\"".to_string()),
        seen_query: RefCell::new(None),
    };
    let service = QueryService::new(&model, &repository);
    let err = service.process_query("What is the total revenue?").unwrap_err();
    assert!(matches!(&err, AppError::SqlExecution(m) if m.contains("SELEC")));
    assert!(!model.interpret_called.get());
}

#[test]
fn a_failing_schema_fetch_aborts_the_cycle() {
    let model = FakeModel::new(Ok("SELECT 1"), "never");
    let repository = FakeRepository {
        schema: Err("connection reset".to_string()),
        execute: Ok((Vec::new(), Vec::new())),
        seen_query: RefCell::new(None),
    };
    let service = QueryService::new(&model, &repository);
    let err = service.process_query("anything").unwrap_err();
    assert!(matches!(&err, AppError::Database(m) if m == "connection reset"));
    assert!(model.seen_sql_prompt.borrow().is_none());
}

#[test]
fn a_failing_generation_aborts_before_execution() {
    let model = FakeModel::new(Err("model unavailable"), "never");
    let repository = FakeRepository {
        schema: Ok("id (int4)".to_string()),
        execute: Ok((Vec::new(), Vec::new())),
        seen_query: RefCell::new(None),
    };
    let service = QueryService::new(&model, &repository);
    let err = service.process_query("anything").unwrap_err();
    assert!(matches!(&err, AppError::AIModel(m) if m == "model unavailable"));
    assert!(repository.seen_query.borrow().is_none());
    assert!(!model.interpret_called.get());
}

#[test]
fn an_empty_execution_result_formats_to_the_sentinel() {
    let model = FakeModel::new(Ok("SELECT id FROM orders_data WHERE id < 0"), "nothing there");
    let repository = FakeRepository {
        schema: Ok("id (int4)".to_string()),
        execute: Ok((Vec::new(), Vec::new())),
        seen_query: RefCell::new(None),
    };
    let service = QueryService::new(&model, &repository);
    service.process_query("any rows?").unwrap();
    let seen = model.seen_interpretation.borrow();
    let (_, results) = seen.as_ref().unwrap();
    assert_eq!(results, "No result found.");
}
