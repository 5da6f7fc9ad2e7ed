use vstd::prelude::*;

verus! {

/// The two required process settings, and the generation endpoint URL
/// derived from them once at startup.
#[derive(Clone, Debug)]
pub struct Config {
    pub database_url: String,
    pub gemini_api_key: String,
    pub gemini_api_url: String,
}

impl Config {
    /// Builds the configuration from the two required settings; the
    /// generation endpoint carries the API key as a query parameter.
    pub fn new(database_url: String, gemini_api_key: String) -> (r: Config)
        ensures
            r.database_url == database_url,
            r.gemini_api_key == gemini_api_key,
            r.gemini_api_url@
                == "https://generativelanguage.googleapis.com/v1beta/models/gemini-2.0-flash:generateContent?key="@
                + gemini_api_key@,
    {
        let gemini_api_url =
            "https://generativelanguage.googleapis.com/v1beta/models/gemini-2.0-flash:generateContent?key=".to_owned().concat(
            gemini_api_key.as_str(),
        );
        Config { database_url, gemini_api_key, gemini_api_url }
    }
}

} // verus!
