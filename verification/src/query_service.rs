use crate::error::AppError;
use crate::formatter::{format_results, formatted_spec};
use crate::gemini::AIModel;
use crate::repository::Repository;
use crate::result_set::ResultSet;
use vstd::prelude::*;

verus! {

/// The composite context handed to SQL generation: the rendered schema
/// string and the raw user question, on two lines.
pub fn build_context(schema: &str, question: &str) -> (r: String)
    ensures
        r@ == schema@ + "\n"@ + question@,
{
    schema.to_owned().concat("\n").concat(question)
}

/// The query orchestrator: drives the three-stage pipeline end to end
/// over an injected language model and an injected backend.
pub struct QueryService<A: AIModel, R: Repository> {
    ai_model: A,
    repository: R,
}

impl<A: AIModel, R: Repository> QueryService<A, R> {
    /// The injected language model.
    pub closed spec fn model(self) -> A {
        self.ai_model
    }

    /// The injected backend.
    pub closed spec fn repo(self) -> R {
        self.repository
    }

    /// Stage one happened: `schema` is a schema string this service's
    /// backend returned for the fixed table name `orders_data`.
    pub open spec fn fetched_schema(self, schema: String) -> bool {
        exists|t: &str|
            t@ == "orders_data"@ && #[trigger] call_ensures(
                <R as Repository>::get_table_schema,
                (&self.repo(), t),
                Ok::<String, AppError>(schema),
            )
    }

    /// Stage two happened: `sql` is a statement this service's model
    /// generated for the two-line context of `schema` and `question`.
    pub open spec fn generated_statement(
        self,
        schema: String,
        question: Seq<char>,
        sql: String,
    ) -> bool {
        exists|p: &str|
            p@ == schema@ + "\n"@ + question && #[trigger] call_ensures(
                <A as AIModel>::generate_sql,
                (&self.model(), p),
                Ok::<String, AppError>(sql),
            )
    }

    /// Stage three happened: `rows` is a result this service's backend
    /// returned for exactly the statement `sql`.
    pub open spec fn executed_statement(self, sql: String, rows: ResultSet) -> bool {
        exists|q: &str|
            q@ == sql@ && #[trigger] call_ensures(
                <R as Repository>::execute_query,
                (&self.repo(), q),
                Ok::<ResultSet, AppError>(rows),
            )
    }

    /// Stage four happened: `ans` is an interpretation this service's
    /// model returned for the statement `sql` and the formatted table
    /// of `rows`.
    pub open spec fn interpreted_rows(self, sql: String, rows: ResultSet, ans: String) -> bool {
        exists|q: &str, res: &str|
            q@ == sql@ && res@ == formatted_spec(rows) && #[trigger] call_ensures(
                <A as AIModel>::interpret_results,
                (&self.model(), q, res),
                Ok::<String, AppError>(ans),
            )
    }

    /// The whole chain behind a successful answer: a schema was fetched
    /// for `orders_data`, a statement was generated for the schema and
    /// the question on two lines, the backend executed that statement,
    /// and `ans` interprets that statement with its formatted rows.
    pub open spec fn pipeline_succeeded(self, question: Seq<char>, ans: String) -> bool {
        exists|schema: String, sql: String, rows: ResultSet|
            #![trigger self.generated_statement(schema, question, sql), self.executed_statement(sql, rows)]
            {
                &&& self.fetched_schema(schema)
                &&& self.generated_statement(schema, question, sql)
                &&& self.executed_statement(sql, rows)
                &&& self.interpreted_rows(sql, rows, ans)
            }
    }

    /// Stage one failed: the backend returned `e` for the fixed table.
    pub open spec fn schema_fetch_failed(self, e: AppError) -> bool {
        exists|t: &str|
            t@ == "orders_data"@ && #[trigger] call_ensures(
                <R as Repository>::get_table_schema,
                (&self.repo(), t),
                Err::<String, AppError>(e),
            )
    }

    /// Stage two failed, after a successful schema fetch: the model
    /// returned `e` for the two-line context.
    pub open spec fn generation_failed(self, question: Seq<char>, e: AppError) -> bool {
        exists|schema: String|
            #[trigger] self.fetched_schema(schema) && exists|p: &str|
                p@ == schema@ + "\n"@ + question && #[trigger] call_ensures(
                    <A as AIModel>::generate_sql,
                    (&self.model(), p),
                    Err::<String, AppError>(e),
                )
    }

    /// Stage three failed, after a successful fetch and generation:
    /// the backend returned `e` for exactly the generated statement.
    pub open spec fn execution_failed(self, question: Seq<char>, e: AppError) -> bool {
        exists|schema: String, sql: String|
            #[trigger] self.generated_statement(schema, question, sql) && self.fetched_schema(
                schema,
            ) && exists|q: &str|
                q@ == sql@ && #[trigger] call_ensures(
                    <R as Repository>::execute_query,
                    (&self.repo(), q),
                    Err::<ResultSet, AppError>(e),
                )
    }

    /// Stage four failed, after the first three succeeded: the model
    /// returned `e` for the generated statement and its formatted rows.
    pub open spec fn interpretation_failed(self, question: Seq<char>, e: AppError) -> bool {
        exists|schema: String, sql: String, rows: ResultSet|
            #![trigger self.generated_statement(schema, question, sql), self.executed_statement(sql, rows)]
            {
                &&& self.fetched_schema(schema)
                &&& self.generated_statement(schema, question, sql)
                &&& self.executed_statement(sql, rows)
                &&& exists|q: &str, res: &str|
                    q@ == sql@ && res@ == formatted_spec(rows) && #[trigger] call_ensures(
                        <A as AIModel>::interpret_results,
                        (&self.model(), q, res),
                        Err::<String, AppError>(e),
                    )
            }
    }

    /// A service over the given collaborators.
    pub fn new(ai_model: A, repository: R) -> (r: Self)
        ensures
            r.model() == ai_model,
            r.repo() == repository,
    {
        QueryService { ai_model, repository }
    }

    /// Answers one user question: fetches the schema of the fixed
    /// table `orders_data`, has the model generate SQL for the
    /// two-line context, executes it, formats the rows, and has the
    /// model interpret the formatted table.
    ///
    /// The collaborators decide every value along the way, so the
    /// contract fixes the result's provenance stage by stage: a
    /// success is an interpretation of the formatted rows of the
    /// executed, generated statement for the fetched schema; an error
    /// is the value of the first stage that failed, each later stage
    /// conditioned on every earlier one having succeeded — propagated
    /// unchanged, never manufactured here, never retried, never a
    /// partial answer.
    pub fn process_query(&self, user_query: &str) -> (r: Result<String, AppError>)
        ensures
            r matches Ok(ans) ==> self.pipeline_succeeded(user_query@, ans),
            r matches Err(e) ==> {
                ||| self.schema_fetch_failed(e)
                ||| self.generation_failed(user_query@, e)
                ||| self.execution_failed(user_query@, e)
                ||| self.interpretation_failed(user_query@, e)
            },
    {
        let table_name = "orders_data";
        let table_schema = match self.repository.get_table_schema(table_name) {
            Ok(s) => s,
            Err(e) => {
                proof {
                    assert(call_ensures(
                        <R as Repository>::get_table_schema,
                        (&self.repo(), table_name),
                        Err::<String, AppError>(e),
                    ));
                }
                return Err(e);
            },
        };
        proof {
            assert(call_ensures(
                <R as Repository>::get_table_schema,
                (&self.repo(), table_name),
                Ok::<String, AppError>(table_schema),
            ));
            assert(self.fetched_schema(table_schema));
        }
        let full_prompt = build_context(table_schema.as_str(), user_query);
        let prompt_ref = full_prompt.as_str();
        let sql_query = match self.ai_model.generate_sql(prompt_ref) {
            Ok(s) => s,
            Err(e) => {
                proof {
                    assert(call_ensures(
                        <A as AIModel>::generate_sql,
                        (&self.model(), prompt_ref),
                        Err::<String, AppError>(e),
                    ));
                    assert(self.generation_failed(user_query@, e));
                }
                return Err(e);
            },
        };
        proof {
            assert(call_ensures(
                <A as AIModel>::generate_sql,
                (&self.model(), prompt_ref),
                Ok::<String, AppError>(sql_query),
            ));
            assert(self.generated_statement(table_schema, user_query@, sql_query));
        }
        let sql_ref = sql_query.as_str();
        let rows = match self.repository.execute_query(sql_ref) {
            Ok(r) => r,
            Err(e) => {
                proof {
                    assert(call_ensures(
                        <R as Repository>::execute_query,
                        (&self.repo(), sql_ref),
                        Err::<ResultSet, AppError>(e),
                    ));
                    assert(self.execution_failed(user_query@, e));
                }
                return Err(e);
            },
        };
        proof {
            assert(call_ensures(
                <R as Repository>::execute_query,
                (&self.repo(), sql_ref),
                Ok::<ResultSet, AppError>(rows),
            ));
            assert(self.executed_statement(sql_query, rows));
        }
        let results = format_results(&rows);
        let results_ref = results.as_str();
        match self.ai_model.interpret_results(sql_ref, results_ref) {
            Ok(response) => {
                proof {
                    assert(call_ensures(
                        <A as AIModel>::interpret_results,
                        (&self.model(), sql_ref, results_ref),
                        Ok::<String, AppError>(response),
                    ));
                    assert(self.interpreted_rows(sql_query, rows, response));
                    assert(self.pipeline_succeeded(user_query@, response));
                }
                Ok(response)
            },
            Err(e) => {
                proof {
                    assert(call_ensures(
                        <A as AIModel>::interpret_results,
                        (&self.model(), sql_ref, results_ref),
                        Err::<String, AppError>(e),
                    ));
                    assert(self.interpretation_failed(user_query@, e));
                }
                Err(e)
            },
        }
    }
}

} // verus!
