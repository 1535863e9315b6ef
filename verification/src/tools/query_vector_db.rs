//! The tool that searches the vector database.

use crate::text::concat;
use crate::text::decimal;
use crate::text::push_decimal;
use crate::text::push_str;
use vstd::prelude::*;

verus! {

/// Where the database is and how texts are embedded for it.
pub struct VectorDbConfig {
    pub url: String,
    pub collection: String,
    pub embedding_model: String,
}

pub struct QueryVectorDbHandler {
    pub config: VectorDbConfig,
}

impl QueryVectorDbHandler {
    pub fn new(config: VectorDbConfig) -> (handler: Self)
        ensures
            handler.config == config,
    {
        QueryVectorDbHandler { config }
    }
}

/// The arguments of a call, as the model gives them.
pub struct QueryVectorDbArgs {
    pub query: String,
    pub platform: Option<String>,
    pub doc_type: Option<String>,
    pub limit: usize,
    pub min_likes: Option<i64>,
    pub sentiment: Option<String>,
}

pub fn default_limit() -> (n: usize)
    ensures
        n == 10,
{
    10
}

/// One condition that every result must meet.
pub enum Condition {
    /// The field holds exactly this keyword.
    Keyword { key: String, value: String },
    /// The field holds at least this number.
    AtLeast { key: String, min: i64 },
}

/// The conditions for `args`: one for each filter that is set, in the
/// order platform, kind of document, sentiment, likes.
pub open spec fn spec_conditions(args: QueryVectorDbArgs) -> Seq<(Seq<char>, Option<Seq<char>>, Option<i64>)> {
    let platform = match args.platform {
        Some(value) => seq![("platform"@, Some(value@), None::<i64>)],
        None => seq![],
    };
    let doc_type = match args.doc_type {
        Some(value) => seq![("doc_type"@, Some(value@), None::<i64>)],
        None => seq![],
    };
    let sentiment = match args.sentiment {
        Some(value) => seq![("sentiment"@, Some(value@), None::<i64>)],
        None => seq![],
    };
    let likes = match args.min_likes {
        Some(min) => seq![("likes"@, None::<Seq<char>>, Some(min))],
        None => seq![],
    };
    platform + doc_type + sentiment + likes
}

impl Condition {
    /// The condition as the field, the keyword and the least number.
    pub open spec fn view(self) -> (Seq<char>, Option<Seq<char>>, Option<i64>) {
        match self {
            Condition::Keyword { key, value } => (key@, Some(value@), None),
            Condition::AtLeast { key, min } => (key@, None, Some(min)),
        }
    }
}

/// The conditions that the search is filtered by; a search without
/// conditions has no filter.
pub fn filter_conditions(args: &QueryVectorDbArgs) -> (conditions: Vec<Condition>)
    ensures
        conditions@.map_values(|c: Condition| c.view()) == spec_conditions(*args),
{
    let mut conditions: Vec<Condition> = Vec::new();
    if let Some(platform) = &args.platform {
        conditions.push(Condition::Keyword { key: "platform".to_string(), value: platform.clone() });
    }
    if let Some(doc_type) = &args.doc_type {
        conditions.push(Condition::Keyword { key: "doc_type".to_string(), value: doc_type.clone() });
    }
    if let Some(sentiment) = &args.sentiment {
        conditions.push(
            Condition::Keyword { key: "sentiment".to_string(), value: sentiment.clone() },
        );
    }
    if let Some(min_likes) = args.min_likes {
        conditions.push(Condition::AtLeast { key: "likes".to_string(), min: min_likes });
    }
    assert(conditions@.map_values(|c: Condition| c.view()) =~= spec_conditions(*args));
    conditions
}

/// What the model is told when the search came back with `count` results,
/// written as `json_results`.
pub fn success_message(count: usize, json_results: &str) -> (text: String)
    ensures
        text@ == "Found "@ + decimal(count as nat) + " results from vector database:\n\n"@
            + json_results@,
{
    let mut text = "Found ".to_string();
    push_decimal(&mut text, count as u64);
    push_str(&mut text, " results from vector database:\n\n");
    push_str(&mut text, json_results);
    text
}

/// What the model is told when the search failed.
pub fn failure_message(cause: &str) -> (text: String)
    ensures
        text@ == "Failed to query vector database: "@ + cause@,
{
    concat("Failed to query vector database: ", cause)
}

} // verus!
