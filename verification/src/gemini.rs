use crate::error::AppError;
use crate::models::GeminiResponse;
use crate::text::{
    ends_with, ends_with_spec, find_newline, first_line_spec, lemma_trim_idempotent,
    second_line_spec, starts_with, starts_with_spec, trim, trim_spec,
};
use vstd::prelude::*;

verus! {

/// The language-model capability: one single-turn text completion per
/// call. The HTTP transport implements it outside the library; tests
/// drive the pipeline through stand-ins. Either method returns the
/// model's text, or the failure of the exchange.
pub trait AIModel {
    /// Turns a context of the form `<schema>\n<question>` into SQL text.
    fn generate_sql(&self, prompt: &str) -> Result<String, AppError>;

    /// Explains a SQL query and its formatted results in natural
    /// language.
    fn interpret_results(&self, query: &str, results: &str) -> Result<String, AppError>;
}

/// `t` with one leading ```` ```sql ```` opener and one trailing
/// ```` ``` ```` closer removed, each only where present.
pub open spec fn strip_fences(t: Seq<char>) -> Seq<char> {
    let a = if starts_with_spec(t, "```sql"@) {
        t.skip("```sql"@.len() as int)
    } else {
        t
    };
    if ends_with_spec(a, "```"@) {
        a.take(a.len() - "```"@.len())
    } else {
        a
    }
}

/// What `generate_sql` makes of a raw completion: trimmed, unfenced,
/// trimmed again. Best-effort textual trimming, not a parser; a
/// completion without fencing passes through it unharmed.
pub open spec fn extract_sql_spec(s: Seq<char>) -> Seq<char> {
    trim_spec(strip_fences(trim_spec(s)))
}

/// Extracts the SQL text out of a raw model completion.
pub fn extract_sql(raw: &str) -> (r: String)
    ensures
        r@ == extract_sql_spec(raw@),
{
    proof {
        reveal_strlit("```sql");
        reveal_strlit("```");
    }
    let t = trim(raw);
    let tl = t.unicode_len();
    let a: &str = if starts_with(t, "```sql") {
        t.substring_char(6, tl)
    } else {
        t
    };
    proof {
        if starts_with_spec(t@, "```sql"@) {
            assert(a@ =~= t@.skip(6));
        }
    }
    let al = a.unicode_len();
    let b: &str = if ends_with(a, "```") {
        a.substring_char(0, al - 3)
    } else {
        a
    };
    trim(b).to_owned()
}

/// Extracts the SQL text of a raw completion and rejects an empty
/// extraction. A completion that is nothing but fencing and whitespace
/// yields no statement to run: that is a usage error, surfaced as a
/// distinct model error, never silently tolerated.
pub fn extract_sql_checked(raw: &str) -> (r: Result<String, AppError>)
    ensures
        extract_sql_spec(raw@).len() > 0 ==> (r matches Ok(s) && s@ == extract_sql_spec(raw@)),
        extract_sql_spec(raw@).len() == 0 ==> (r matches Err(AppError::AIModel(m)) && m@
            == "Empty SQL query from Gemini"@),
{
    let sql = extract_sql(raw);
    if sql.as_str().is_empty() {
        return Err(AppError::AIModel("Empty SQL query from Gemini".to_owned()));
    }
    Ok(sql)
}

/// Extraction strips the fencing: a completion whose trimmed form
/// is exactly a ```` ```sql ```` opener, a body, and a ```` ``` ````
/// closer extracts to the trimmed body.
pub proof fn lemma_extract_sql_strips_fences(s: Seq<char>, mid: Seq<char>)
    requires
        trim_spec(s) == "```sql"@ + mid + "```"@,
    ensures
        extract_sql_spec(s) == trim_spec(mid),
{
    reveal_strlit("```sql");
    reveal_strlit("```");
    let t = trim_spec(s);
    let p = "```sql"@;
    let q = "```"@;
    assert(t.take(6) =~= p);
    assert(starts_with_spec(t, p));
    let a = t.skip(6);
    assert(a =~= mid + q);
    assert(a.skip(a.len() - 3) =~= q);
    assert(ends_with_spec(a, q));
    assert(a.take(a.len() - 3) =~= mid);
}

/// Extraction is idempotent on completions free of fencing. For a
/// completion whose trimmed form neither opens nor closes a fence,
/// extraction is exactly the trim, and extracting twice changes
/// nothing beyond extracting once.
pub proof fn lemma_extract_sql_idempotent_unfenced(s: Seq<char>)
    requires
        !starts_with_spec(trim_spec(s), "```sql"@),
        !ends_with_spec(trim_spec(s), "```"@),
    ensures
        extract_sql_spec(s) == trim_spec(s),
        extract_sql_spec(extract_sql_spec(s)) == extract_sql_spec(s),
{
    let t = trim_spec(s);
    assert(strip_fences(t) == t);
    lemma_trim_idempotent(s);
}

/// The sole candidate text of a response: the text of the first part
/// of the first candidate, never an aggregate. A response without a
/// candidate, or whose first candidate has no part, is a distinct
/// model error rather than a panic.
pub fn first_candidate_text(resp: &GeminiResponse) -> (r: Result<String, AppError>)
    ensures
        resp.candidates@.len() == 0 ==> (r matches Err(AppError::AIModel(m)) && m@
            == "No response from Gemini"@),
        resp.candidates@.len() > 0 && resp.candidates@[0].content.parts@.len() == 0 ==> (r matches
            Err(AppError::AIModel(m)) && m@ == "Empty response from Gemini"@),
        resp.candidates@.len() > 0 && resp.candidates@[0].content.parts@.len() > 0 ==> (r matches
            Ok(t) && t@ == resp.candidates@[0].content.parts@[0].text@),
{
    if resp.candidates.len() == 0 {
        return Err(AppError::AIModel("No response from Gemini".to_owned()));
    }
    let first = &resp.candidates[0];
    if first.content.parts.len() == 0 {
        return Err(AppError::AIModel("Empty response from Gemini".to_owned()));
    }
    Ok(first.content.parts[0].text.clone())
}

/// The model error raised for a non-success transport status, carrying
/// the response body text.
pub fn gemini_api_error(body: &str) -> (r: AppError)
    ensures
        r matches AppError::AIModel(m) && m@ == "Gemini API error: "@ + body@,
{
    AppError::AIModel("Gemini API error: ".to_owned().concat(body))
}

/// The generation prompt: the fixed SQL-specialist template around the
/// first line of the context (the rendered schema) and its second line
/// (the user question).
pub open spec fn sql_prompt_spec(context: Seq<char>) -> Seq<char> {
    "You are a SQL specialist. Based on the given question on natural language, generate a SQL query valid for postgres that gather data that might answer the user question. Return ONLY the generated SQL query, with no additional explanation or comments.\n\nAvailable table: orders_data\nAvailable columns: "@
        + first_line_spec(context) + "\n\nQuestion: "@ + second_line_spec(context)
}

/// Builds the SQL-generation prompt out of a two-line context.
pub fn build_sql_prompt(context: &str) -> (r: String)
    ensures
        r@ == sql_prompt_spec(context@),
{
    let mut out = String::new();
    out.append(
        "You are a SQL specialist. Based on the given question on natural language, generate a SQL query valid for postgres that gather data that might answer the user question. Return ONLY the generated SQL query, with no additional explanation or comments.\n\nAvailable table: orders_data\nAvailable columns: ",
    );
    let len = context.unicode_len();
    let i = find_newline(context);
    out.append(context.substring_char(0, i));
    out.append("\n\nQuestion: ");
    if i < len {
        let rest = context.substring_char(i + 1, len);
        let j = find_newline(rest);
        out.append(rest.substring_char(0, j));
        proof {
            assert(rest@ == context@.skip(i as int + 1));
            assert(out@ =~= sql_prompt_spec(context@));
        }
    } else {
        proof {
            assert(out@ =~= sql_prompt_spec(context@));
        }
    }
    out
}

/// The interpretation prompt: the fixed assistant template around the
/// executed SQL text and the formatted results.
pub open spec fn interpret_prompt_spec(query: Seq<char>, results: Seq<char>) -> Seq<char> {
    "You are a useful assistant that interprets SQL query results. Based on the following SQL query and on the obtained results, provide a friendly and informative portuguese answer that explains the results.\n\nQuery SQL: "@
        + query + "\n\nResultados: "@ + results
        + "\n\nProvide a clearly and concise answer that a non-tech user would understand."@
}

/// Builds the result-interpretation prompt.
pub fn build_interpret_prompt(query: &str, results: &str) -> (r: String)
    ensures
        r@ == interpret_prompt_spec(query@, results@),
{
    let mut out = String::new();
    out.append(
        "You are a useful assistant that interprets SQL query results. Based on the following SQL query and on the obtained results, provide a friendly and informative portuguese answer that explains the results.\n\nQuery SQL: ",
    );
    out.append(query);
    out.append("\n\nResultados: ");
    out.append(results);
    out.append("\n\nProvide a clearly and concise answer that a non-tech user would understand.");
    proof {
        assert(out@ =~= interpret_prompt_spec(query@, results@));
    }
    out
}

} // verus!
