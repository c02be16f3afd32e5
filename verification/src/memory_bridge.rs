//! The memory bridge: what memory is stored for a completion, an error or a
//! user selection, and how recalled memories become context.
use std::sync::Arc;

use vstd::prelude::*;
use vstd::utf8::{char_is_scalar, encode_scalar, encode_utf8};

use crate::client::HubClient;
use crate::metadata::{MetaModel, MetaValue};
use crate::models::{HubFeatures, HubResult, Memory, RecallQuery, RecallResponse, RememberRequest};

verus! {

/// Number of bytes of a text in UTF-8.
pub open spec fn byte_len(s: Seq<char>) -> nat {
    encode_utf8(s).len()
}

/// The longest prompt, in bytes, that is stored whole.
pub open spec fn prompt_limit() -> nat {
    200
}

/// A longer prompt keeps at most this many bytes, followed by `...`.
pub open spec fn prompt_keep() -> nat {
    197
}

/// Number of bytes of one character in UTF-8.
pub open spec fn char_bytes(c: char) -> nat {
    encode_scalar(c as u32).len()
}

/// How many leading characters of `p` fit in `budget` bytes.
pub open spec fn fitting_chars(p: Seq<char>, budget: int) -> nat
    decreases p.len(),
{
    if p.len() == 0 {
        0
    } else if char_bytes(p[0]) <= budget {
        1 + fitting_chars(p.drop_first(), budget - char_bytes(p[0]))
    } else {
        0
    }
}

/// The prompt as a memory quotes it: whole when it has at most 200 bytes,
/// otherwise the longest run of leading whole characters that fits in 197
/// bytes, followed by `...`.
pub open spec fn shortened_prompt(p: Seq<char>) -> Seq<char> {
    if byte_len(p) > prompt_limit() {
        p.take(fitting_chars(p, prompt_keep() as int) as int) + "..."@
    } else {
        p
    }
}

/// The language named in a memory, or `unknown`.
pub open spec fn language_or_unknown(language: Option<Seq<char>>) -> Seq<char> {
    match language {
        Some(l) => l,
        None => "unknown"@,
    }
}

/// The view of an optional text.
pub open spec fn opt_view(o: Option<String>) -> Option<Seq<char>> {
    match o {
        Some(s) => Some(s@),
        None => None,
    }
}

/// The tags of a memory, with the language appended where there is one.
pub open spec fn tags_with_language(base: Seq<Seq<char>>, language: Option<Seq<char>>) -> Seq<Seq<char>> {
    match language {
        Some(l) => base.push(l),
        None => base,
    }
}

/// A map with `key` set to `value` where there is a value.
pub open spec fn insert_opt(m: Map<Seq<char>, MetaModel>, key: Seq<char>, value: Option<Seq<char>>) -> Map<
    Seq<char>,
    MetaModel,
> {
    match value {
        Some(v) => m.insert(key, MetaModel::Text(v)),
        None => m,
    }
}

/// The content of an error memory: the error, then the context where there is one.
pub open spec fn error_content(
    error_message: Seq<char>,
    language: Option<Seq<char>>,
    context: Option<Seq<char>>,
) -> Seq<char> {
    let base = "Completion error in "@ + language_or_unknown(language) + ": "@ + error_message;
    match context {
        Some(c) => base + " (context: "@ + c + ")"@,
        None => base,
    }
}

/// The memory stored for a completion.
pub open spec fn completion_memory_spec(
    language: Seq<char>,
    prompt: Seq<char>,
    completion: Seq<char>,
    model_name: Seq<char>,
    snippet_used: bool,
    r: RememberRequest,
) -> bool {
    &&& r@.content == "Completion in "@ + language + ": "@ + shortened_prompt(prompt)
    &&& r@.memory_type == "learning"@
    &&& r@.significance == if snippet_used {
        "high"@
    } else {
        "medium"@
    }
    &&& r@.tags == seq![language, "completion"@, model_name]
    &&& r@.metadata == Map::<Seq<char>, MetaModel>::empty().insert(
        "language"@,
        MetaModel::Text(language),
    ).insert("prompt_length"@, MetaModel::Number(byte_len(prompt))).insert(
        "completion_length"@,
        MetaModel::Number(byte_len(completion)),
    ).insert("snippet_used"@, MetaModel::Flag(snippet_used))
    &&& r@.private
}

/// The memory stored for a failed completion.
pub open spec fn error_memory_spec(
    error_message: Seq<char>,
    language: Option<Seq<char>>,
    context: Option<Seq<char>>,
    r: RememberRequest,
) -> bool {
    &&& r@.content == error_content(error_message, language, context)
    &&& r@.memory_type == "insight"@
    &&& r@.significance == "high"@
    &&& r@.tags == tags_with_language(seq!["error"@, "completion-failure"@], language)
    &&& r@.metadata == insert_opt(
        insert_opt(Map::<Seq<char>, MetaModel>::empty(), "language"@, language),
        "context"@,
        context,
    )
    &&& r@.private
}

/// The memory stored for a selected completion.
pub open spec fn selection_memory_spec(
    completion_id: Seq<char>,
    selected_text: Seq<char>,
    language: Option<Seq<char>>,
    r: RememberRequest,
) -> bool {
    &&& r@.content == "User selected completion in "@ + language_or_unknown(language)
    &&& r@.memory_type == "decision"@
    &&& r@.significance == "medium"@
    &&& r@.tags == tags_with_language(seq!["user-selection"@], language)
    &&& r@.metadata == insert_opt(
        Map::<Seq<char>, MetaModel>::empty(),
        "language"@,
        language,
    ).insert("completion_id"@, MetaModel::Text(completion_id)).insert(
        "selected_length"@,
        MetaModel::Number(byte_len(selected_text)),
    )
    &&& r@.private
}

/// The text of the query that recalls context for a language.
pub open spec fn context_query_text(language: Option<Seq<char>>) -> Seq<char> {
    match language {
        Some(l) => l + " completions patterns insights"@,
        None => "completion patterns insights"@,
    }
}

fn byte_count(s: &String) -> (n: u64)
    ensures
        n as nat == byte_len(s@),
{
    s.as_str().as_bytes().len() as u64
}

fn char_byte_count(c: char) -> (n: u64)
    ensures
        n as nat == char_bytes(c),
{
    proof {
        char_is_scalar(c);
    }
    let v = c as u32;
    if v < 0x80 {
        1
    } else if v < 0x800 {
        2
    } else if v < 0x10000 {
        3
    } else {
        4
    }
}

fn shorten_prompt(prompt: &String) -> (res: String)
    ensures
        res@ == shortened_prompt(prompt@),
{
    if prompt.as_str().as_bytes().len() <= 200 {
        return prompt.clone();
    }
    let p = prompt.as_str();
    let n = p.unicode_len();
    let ghost s = prompt@;
    let mut i: usize = 0;
    let mut used: u64 = 0;
    assert(s.skip(0) =~= s);
    loop
        invariant
            n == s.len(),
            p@ == s,
            i <= n,
            used <= 197,
            fitting_chars(s, 197) == i + fitting_chars(s.skip(i as int), 197 - used),
        ensures
            i <= n,
            fitting_chars(s, 197) == i,
        decreases n - i,
    {
        if i == n {
            assert(s.skip(i as int).len() == 0);
            break;
        }
        let c = p.get_char(i);
        let w = char_byte_count(c);
        assert(s.skip(i as int)[0] == c);
        if used + w > 197 {
            assert(fitting_chars(s.skip(i as int), 197 - used) == 0);
            break;
        }
        assert(s.skip(i as int).drop_first() =~= s.skip(i + 1));
        used = used + w;
        i = i + 1;
    }
    let head = p.substring_char(0, i);
    assert(head@ =~= s.take(i as int));
    head.to_string().concat("...")
}

/// Another handle on the same shared value (`Arc::clone`); claimed to point
/// at the same value.
#[verifier::external_body]
pub(crate) fn share<T>(a: &Arc<T>) -> (r: Arc<T>)
    ensures
        *r == **a,
{
    Arc::clone(a)
}

/// Bridge for managing memories in the hub.
pub struct MemoryBridge {
    client: Arc<HubClient>,
}

impl Clone for MemoryBridge {
    fn clone(&self) -> (res: Self)
        ensures
            res.spec_client() == self.spec_client(),
    {
        MemoryBridge { client: share(&self.client) }
    }
}

impl MemoryBridge {
    /// The client the bridge stores memories through.
    pub closed spec fn spec_client(&self) -> HubClient {
        *self.client
    }

    /// Create a new memory bridge with a hub client.
    pub fn new(client: HubClient) -> (b: Self)
        ensures
            b.spec_client() == client,
    {
        MemoryBridge { client: Arc::new(client) }
    }

    /// The client the bridge stores memories through.
    pub fn client(&self) -> (c: &HubClient)
        ensures
            *c == self.spec_client(),
    {
        &self.client
    }

    /// The features of the bridge's configuration.
    pub open spec fn spec_features(&self) -> HubFeatures {
        self.spec_client().spec_config().features
    }

    fn features(&self) -> (f: HubFeatures)
        ensures
            f == self.spec_features(),
    {
        self.client.config().features
    }

    /// The memory stored for a completion, as a learning; none where
    /// completions are not logged.
    pub fn store_completion(
        &self,
        language: String,
        prompt: String,
        completion_text: String,
        model_name: String,
        snippet_used: bool,
    ) -> (r: Option<RememberRequest>)
        ensures
            !self.spec_features().log_completions ==> r is None,
            self.spec_features().log_completions ==> (r matches Some(req)
                && completion_memory_spec(
                language@,
                prompt@,
                completion_text@,
                model_name@,
                snippet_used,
                req,
            )),
    {
        if self.features().log_completions {
            Some(Self::completion_memory(language, prompt, completion_text, model_name, snippet_used))
        } else {
            None
        }
    }

    /// The memory stored for a failed completion, as an insight; none where
    /// errors are not tracked.
    pub fn store_error(&self, error_message: String, language: Option<String>, context: Option<String>) -> (r:
        Option<RememberRequest>)
        ensures
            !self.spec_features().track_errors ==> r is None,
            self.spec_features().track_errors ==> (r matches Some(req) && error_memory_spec(
                error_message@,
                opt_view(language),
                opt_view(context),
                req,
            )),
    {
        if self.features().track_errors {
            Some(Self::error_memory(error_message, language, context))
        } else {
            None
        }
    }

    /// The memory stored for a selected completion, as a decision; none
    /// where user events are not logged.
    pub fn store_user_selection(&self, completion_id: String, selected_text: String, language: Option<String>) -> (r:
        Option<RememberRequest>)
        ensures
            !self.spec_features().log_user_events ==> r is None,
            self.spec_features().log_user_events ==> (r matches Some(req) && selection_memory_spec(
                completion_id@,
                selected_text@,
                opt_view(language),
                req,
            )),
    {
        if self.features().log_user_events {
            Some(Self::selection_memory(completion_id, selected_text, language))
        } else {
            None
        }
    }

    fn completion_memory(
        language: String,
        prompt: String,
        completion_text: String,
        model_name: String,
        snippet_used: bool,
    ) -> (r: RememberRequest)
        ensures
            completion_memory_spec(
                language@,
                prompt@,
                completion_text@,
                model_name@,
                snippet_used,
                r,
            ),
    {
        let truncated_prompt = shorten_prompt(&prompt);
        let content = "Completion in ".to_string().concat(language.as_str()).concat(": ").concat(
            truncated_prompt.as_str(),
        );
        let mut request = RememberRequest::new(content, "learning".to_string());
        request.significance = if snippet_used {
            "high".to_string()
        } else {
            "medium".to_string()
        };
        let mut tags = Vec::new();
        tags.push(language.clone());
        tags.push("completion".to_string());
        tags.push(model_name);
        request.tags = tags;
        let prompt_length = byte_count(&prompt);
        let completion_length = byte_count(&completion_text);
        request.metadata.insert("language".to_string(), MetaValue::Text(language));
        request.metadata.insert("prompt_length".to_string(), MetaValue::Number(prompt_length));
        request.metadata.insert(
            "completion_length".to_string(),
            MetaValue::Number(completion_length),
        );
        request.metadata.insert("snippet_used".to_string(), MetaValue::Flag(snippet_used));
        assert(request@.tags =~= seq![language@, "completion"@, model_name@]);
        request
    }

    fn error_memory(error_message: String, language: Option<String>, context: Option<String>) -> (r:
        RememberRequest)
        ensures
            error_memory_spec(error_message@, opt_view(language), opt_view(context), r),
    {
        let lang_text = match &language {
            Some(l) => l.clone(),
            None => "unknown".to_string(),
        };
        let mut content = "Completion error in ".to_string().concat(lang_text.as_str()).concat(
            ": ",
        ).concat(error_message.as_str());
        if let Some(ctx) = &context {
            content = content.concat(" (context: ").concat(ctx.as_str()).concat(")");
        }
        let mut request = RememberRequest::new(content, "insight".to_string());
        request.significance = "high".to_string();
        let mut tags = Vec::new();
        tags.push("error".to_string());
        tags.push("completion-failure".to_string());
        let ghost base = tags.deep_view();
        if let Some(lang) = language {
            tags.push(lang.clone());
            request.metadata.insert("language".to_string(), MetaValue::Text(lang));
        }
        request.tags = tags;
        if let Some(ctx) = context {
            request.metadata.insert("context".to_string(), MetaValue::Text(ctx));
        }
        assert(base =~= seq!["error"@, "completion-failure"@]);
        assert(request@.tags =~= tags_with_language(base, opt_view(language)));
        request
    }

    fn selection_memory(completion_id: String, selected_text: String, language: Option<String>) -> (r:
        RememberRequest)
        ensures
            selection_memory_spec(completion_id@, selected_text@, opt_view(language), r),
    {
        let lang_text = match &language {
            Some(l) => l.clone(),
            None => "unknown".to_string(),
        };
        let content = "User selected completion in ".to_string().concat(lang_text.as_str());
        let mut request = RememberRequest::new(content, "decision".to_string());
        request.significance = "medium".to_string();
        let mut tags = Vec::new();
        tags.push("user-selection".to_string());
        let ghost base = tags.deep_view();
        if let Some(lang) = language {
            tags.push(lang.clone());
            request.metadata.insert("language".to_string(), MetaValue::Text(lang));
        }
        request.tags = tags;
        request.metadata.insert("completion_id".to_string(), MetaValue::Text(completion_id));
        let selected_length = byte_count(&selected_text);
        request.metadata.insert("selected_length".to_string(), MetaValue::Number(selected_length));
        assert(base =~= seq!["user-selection"@]);
        assert(request@.tags =~= tags_with_language(base, opt_view(language)));
        request
    }

    /// The query that recalls context memories for a language.
    pub fn recall_context(language: Option<String>, limit: u32) -> (q: RecallQuery)
        ensures
            q.q@ == context_query_text(opt_view(language)),
            q.limit == limit,
            q.type_ is None,
    {
        let text = match language {
            Some(lang) => lang.concat(" completions patterns insights"),
            None => "completion patterns insights".to_string(),
        };
        RecallQuery::new(text, limit)
    }

    /// The contents of the recalled memories, in order.
    pub fn contexts(response: &RecallResponse) -> (res: Vec<String>)
        ensures
            res.deep_view() == response.memories@.map_values(|m: Memory| m.content@),
    {
        let mut res: Vec<String> = Vec::new();
        let mut i: usize = 0;
        while i < response.memories.len()
            invariant
                i <= response.memories@.len(),
                res@.len() == i,
                forall|j: int| 0 <= j < i ==> #[trigger] res@[j]@ == response.memories@[j].content@,
            decreases response.memories.len() - i,
        {
            res.push(response.memories[i].content.clone());
            i = i + 1;
        }
        assert(res.deep_view() =~= response.memories@.map_values(|m: Memory| m.content@));
        res
    }

    /// Whether the hub is healthy, from the health check's result: an error
    /// counts as not healthy.
    pub fn health_check(result: HubResult<bool>) -> (healthy: bool)
        ensures
            healthy == (result matches Ok(true)),
    {
        match result {
            Ok(h) => h,
            Err(_) => false,
        }
    }
}

} // verus!
