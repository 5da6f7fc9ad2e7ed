use nlsql::error::AppError;
use nlsql::gemini::{
    build_interpret_prompt, build_sql_prompt, extract_sql, extract_sql_checked,
    first_candidate_text, gemini_api_error,
};
use nlsql::models::{GeminiCandidate, GeminiContent, GeminiPart, GeminiRequest, GeminiResponse};

#[test]
fn extract_strips_leading_and_trailing_fences() {
    assert_eq!(extract_sql("```sql\nSELECT 1;\n```"), "SELECT 1;");
    assert_eq!(extract_sql("  ```sql SELECT * FROM orders_data ```  "), "SELECT * FROM orders_data");
}

#[test]
fn extract_tolerates_absent_fencing() {
    assert_eq!(extract_sql("SELECT 1;"), "SELECT 1;");
    assert_eq!(extract_sql("  SELECT 1;\n"), "SELECT 1;");
    assert_eq!(extract_sql(""), "");
}

#[test]
fn extract_is_idempotent_on_unfenced_input() {
    for raw in ["SELECT 1;", "  SELECT id FROM orders_data  ", "", "a\nb"] {
        let once = extract_sql(raw);
        assert_eq!(extract_sql(&once), once);
    }
}

#[test]
fn extract_handles_partial_fences() {
    assert_eq!(extract_sql("```sql SELECT 1"), "SELECT 1");
    assert_eq!(extract_sql("SELECT 1 ```"), "SELECT 1");
    assert_eq!(extract_sql("```sql"), "");
}

#[test]
fn an_empty_extraction_is_a_distinct_model_error() {
    for raw in ["```sql```", "```sql\n```", "", "   \n  "] {
        let err = extract_sql_checked(raw).unwrap_err();
        assert!(matches!(&err, AppError::AIModel(m) if m == "Empty SQL query from Gemini"));
    }
}

#[test]
fn checked_extraction_passes_a_non_empty_statement_through() {
    assert_eq!(extract_sql_checked("```sql\nSELECT 1;\n```").unwrap(), "SELECT 1;");
    assert_eq!(extract_sql_checked("SELECT 1;").unwrap(), "SELECT 1;");
}

#[test]
fn sql_prompt_carries_schema_and_question_lines() {
    let context = "id (int4), total (float8)\nWhat is the total revenue?";
    let prompt = build_sql_prompt(context);
    let expected = "You are a SQL specialist. Based on the given question on natural language, \
        generate a SQL query valid for postgres that gather data that might answer the user question. \
        Return ONLY the generated SQL query, with no additional explanation or comments.\n\n\
        Available table: orders_data\n\
        Available columns: id (int4), total (float8)\n\n\
        Question: What is the total revenue?";
    assert_eq!(prompt, expected);
}

#[test]
fn sql_prompt_without_second_line_leaves_the_question_empty() {
    let prompt = build_sql_prompt("only one line");
    assert!(prompt.ends_with("Available columns: only one line\n\nQuestion: "));
}

#[test]
fn interpret_prompt_carries_query_and_results() {
    let prompt = build_interpret_prompt("SELECT 1", "v\n--\n1\n");
    let expected = "You are a useful assistant that interprets SQL query results. \
        Based on the following SQL query and on the obtained results, \
        provide a friendly and informative portuguese answer that explains the results.\n\n\
        Query SQL: SELECT 1\n\n\
        Resultados: v\n--\n1\n\n\n\
        Provide a clearly and concise answer that a non-tech user would understand.";
    assert_eq!(prompt, expected);
}

#[test]
fn request_wraps_the_prompt_in_one_part() {
    let req = GeminiRequest::new("hello");
    assert_eq!(req.contents.len(), 1);
    assert_eq!(req.contents[0].parts.len(), 1);
    assert_eq!(req.contents[0].parts[0].text, "hello");
}

#[test]
fn missing_candidates_is_a_distinct_model_error() {
    let resp = GeminiResponse { candidates: Vec::new() };
    let err = first_candidate_text(&resp).unwrap_err();
    assert!(matches!(&err, AppError::AIModel(m) if m == "No response from Gemini"));
}

#[test]
fn missing_parts_is_a_distinct_model_error() {
    let resp = GeminiResponse {
        candidates: vec![GeminiCandidate { content: GeminiContent { parts: Vec::new() } }],
    };
    let err = first_candidate_text(&resp).unwrap_err();
    assert!(matches!(&err, AppError::AIModel(m) if m == "Empty response from Gemini"));
}

#[test]
fn the_first_part_of_the_first_candidate_wins() {
    let resp = GeminiResponse {
        candidates: vec![
            GeminiCandidate {
                content: GeminiContent {
                    parts: vec![
                        GeminiPart { text: "first".to_string() },
                        GeminiPart { text: "second".to_string() },
                    ],
                },
            },
            GeminiCandidate {
                content: GeminiContent { parts: vec![GeminiPart { text: "other".to_string() }] },
            },
        ],
    };
    assert_eq!(first_candidate_text(&resp).unwrap(), "first");
}

#[test]
fn transport_failure_carries_the_body_text() {
    let err = gemini_api_error("quota exceeded");
    assert!(matches!(&err, AppError::AIModel(m) if m == "Gemini API error: quota exceeded"));
}
