use vstd::prelude::*;

verus! {

/// One text part of a request or response turn.
#[derive(Clone, Debug)]
pub struct GeminiPart {
    pub text: String,
}

/// The content of one turn: its ordered text parts.
#[derive(Clone, Debug)]
pub struct GeminiContent {
    pub parts: Vec<GeminiPart>,
}

/// The body of a single-turn generation request.
#[derive(Debug)]
pub struct GeminiRequest {
    pub contents: Vec<GeminiContent>,
}

/// One candidate completion of a generation response.
#[derive(Debug)]
pub struct GeminiCandidate {
    pub content: GeminiContent,
}

/// A generation response: its candidate completions.
#[derive(Debug)]
pub struct GeminiResponse {
    pub candidates: Vec<GeminiCandidate>,
}

impl GeminiRequest {
    /// A single-turn request whose sole content part carries `prompt`.
    pub fn new(prompt: &str) -> (r: Self)
        ensures
            r.contents@.len() == 1,
            r.contents@[0].parts@.len() == 1,
            r.contents@[0].parts@[0].text@ == prompt@,
    {
        GeminiRequest {
            contents: vec![GeminiContent { parts: vec![GeminiPart { text: prompt.to_owned() }] }],
        }
    }
}

} // verus!
