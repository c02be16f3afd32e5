//! Properties that hold across the library's functions.
use vstd::prelude::*;
use vstd::utf8::{encode_utf8, is_ascii_chars, is_ascii_chars_encode_utf8};

use crate::client::{RequestPlan, auth_headers, pairs, retries_made, retry_step};
use crate::config::{env_config, env_lookup, is_disabled_config, validation_spec};
use crate::event_bridge::{HubEvent, event_memory_spec};
use crate::memory_bridge::{
    byte_len, char_bytes, completion_memory_spec, error_memory_spec, fitting_chars,
    selection_memory_spec, shortened_prompt,
};
use crate::metadata::MetaModel;
use crate::models::{HubConfig, HubFeatures, NamedValue, RememberRequest, default_features_spec};
use crate::text::{all_digits, decimal, digit_char, digits_value, parse_unsigned_spec, unsigned_digits};

verus! {

proof fn lemma_encode_concat(a: Seq<char>, b: Seq<char>)
    ensures
        encode_utf8(a + b) == encode_utf8(a) + encode_utf8(b),
    decreases a.len(),
{
    if a.len() == 0 {
        assert(a + b =~= b);
        assert(encode_utf8(a) + encode_utf8(b) =~= encode_utf8(b));
    } else {
        assert((a + b).drop_first() =~= a.drop_first() + b);
        lemma_encode_concat(a.drop_first(), b);
        assert((a + b)[0] == a[0]);
        assert(encode_utf8(a + b) =~= encode_utf8(a) + encode_utf8(b));
    }
}

proof fn lemma_fitting_prefix(p: Seq<char>, budget: int)
    requires
        budget >= 0,
    ensures
        fitting_chars(p, budget) <= p.len(),
        byte_len(p.take(fitting_chars(p, budget) as int)) <= budget,
        fitting_chars(p, budget) < p.len() ==> byte_len(
            p.take(fitting_chars(p, budget) + 1int),
        ) > budget,
    decreases p.len(),
{
    let k = fitting_chars(p, budget);
    if p.len() == 0 {
        assert(p.take(0) =~= Seq::<char>::empty());
    } else if char_bytes(p[0]) <= budget {
        let rest = p.drop_first();
        let b2 = budget - char_bytes(p[0]);
        lemma_fitting_prefix(rest, b2);
        assert(p.take(k as int).drop_first() =~= rest.take(k - 1));
        assert(p.take(k as int)[0] == p[0]);
        if k < p.len() {
            assert(p.take(k + 1int).drop_first() =~= rest.take(k as int));
            assert(p.take(k + 1int)[0] == p[0]);
        }
    } else {
        assert(p.take(0) =~= Seq::<char>::empty());
        assert(p.take(1).drop_first() =~= Seq::<char>::empty());
        assert(p.take(1)[0] == p[0]);
    }
}

/// A prompt is quoted in at most 200 bytes; a prompt of at most 200 bytes
/// is quoted whole; a longer one is quoted as its longest run of leading
/// whole characters within 197 bytes, followed by `...`.
pub proof fn shortened_prompt_fits(p: Seq<char>)
    ensures
        byte_len(shortened_prompt(p)) <= 200,
        byte_len(p) <= 200 ==> shortened_prompt(p) == p,
        byte_len(p) > 200 ==> ({
            let k = fitting_chars(p, 197);
            &&& k <= p.len()
            &&& shortened_prompt(p) == p.take(k as int) + "..."@
            &&& byte_len(p.take(k as int)) <= 197
            &&& k < p.len() ==> byte_len(p.take(k + 1int)) > 197
        }),
{
    if byte_len(p) > 200 {
        lemma_fitting_prefix(p, 197);
        let dots = "..."@;
        reveal_strlit("...");
        assert(is_ascii_chars(dots));
        is_ascii_chars_encode_utf8(dots);
        lemma_encode_concat(p.take(fitting_chars(p, 197) as int), dots);
    }
}

proof fn lemma_digit_char(d: nat)
    requires
        d < 10,
    ensures
        '0' <= digit_char(d) <= '9',
        digit_char(d) as nat - 48 == d,
{
}

proof fn lemma_decimal_digits(n: nat)
    ensures
        decimal(n).len() > 0,
        all_digits(decimal(n)),
        digits_value(decimal(n)) == n,
    decreases n,
{
    if n < 10 {
        lemma_digit_char(n);
        assert(decimal(n).drop_last() =~= Seq::<char>::empty());
        assert(digits_value(Seq::<char>::empty()) == 0);
        assert(decimal(n).last() == digit_char(n));
        assert(digits_value(decimal(n)) == digits_value(decimal(n).drop_last()) * 10 + (digit_char(n) as nat - 48) as nat);
    } else {
        lemma_decimal_digits(n / 10);
        lemma_digit_char(n % 10);
        assert(decimal(n).drop_last() =~= decimal(n / 10));
        assert(decimal(n).last() == digit_char(n % 10));
        assert((n / 10) * 10 + n % 10 == n);
        assert(digits_value(decimal(n)) == digits_value(decimal(n / 10)) * 10 + (n % 10));
        let d = decimal(n);
        assert forall|i: int| 0 <= i < d.len() implies '0' <= #[trigger] d[i] <= '9' by {
            if i < d.len() - 1 {
                assert(d[i] == decimal(n / 10)[i]);
            }
        }
    }
}

/// Reading back the decimal notation of a number gives the number, for every
/// number that fits.
pub proof fn decimal_round_trip(n: nat, max: nat)
    requires
        n <= max,
    ensures
        parse_unsigned_spec(decimal(n), max) == Some(n),
{
    lemma_decimal_digits(n);
    let d = decimal(n);
    assert('0' <= d[0] <= '9');
    assert(unsigned_digits(d) == d);
}

/// A configuration that is not enabled always passes validation.
pub proof fn disabled_config_is_valid(cfg: HubConfig)
    requires
        !cfg.enabled,
    ensures
        validation_spec(cfg) == Ok::<(), Seq<char>>(()),
{
}

/// Where `LOVE_UNLIMITED_ENABLED` is `false`, the configuration is the
/// disabled one, whatever else the environment holds.
pub proof fn env_disabled_gives_disabled(vars: Seq<NamedValue>, cfg: HubConfig)
    requires
        env_lookup(vars, "LOVE_UNLIMITED_ENABLED"@) == Some("false"@),
        env_config(vars, cfg),
    ensures
        is_disabled_config(cfg),
        validation_spec(cfg) == Ok::<(), Seq<char>>(()),
{
    reveal_strlit("false");
    reveal_strlit("true");
    assert("false"@.len() != "true"@.len());
}

/// True when `name` belongs to the integration: it starts with `LOVE_UNLIMITED_`.
pub open spec fn integration_variable(name: Seq<char>) -> bool {
    name.len() >= 15 && name.subrange(0, 15) == "LOVE_UNLIMITED_"@
}

proof fn lemma_lookup_absent(vars: Seq<NamedValue>, name: Seq<char>)
    requires
        forall|i: int| 0 <= i < vars.len() ==> #[trigger] vars[i].name@ != name,
    ensures
        env_lookup(vars, name) is None,
    decreases vars.len(),
{
    if vars.len() > 0 {
        assert forall|i: int| 0 <= i < vars.drop_first().len() implies #[trigger] vars.drop_first()[i].name@ != name by {
            assert(vars.drop_first()[i] == vars[i + 1]);
        }
        lemma_lookup_absent(vars.drop_first(), name);
    }
}

/// With none of the integration's variables set, the configuration is the
/// documented default: enabled, on `http://localhost:9003`, without a key,
/// with a 5 s timeout, 3 retries and the default features.
pub proof fn empty_env_gives_defaults(vars: Seq<NamedValue>, cfg: HubConfig)
    requires
        forall|i: int| 0 <= i < vars.len() ==> !integration_variable(#[trigger] vars[i].name@),
        env_config(vars, cfg),
    ensures
        cfg.enabled,
        cfg.hub_url@ == "http://localhost:9003"@,
        cfg.api_key@.len() == 0,
        cfg.timeout_secs == 5,
        cfg.max_retries == 3,
        default_features_spec(cfg.features),
{
    reveal_strlit("LOVE_UNLIMITED_");
    reveal_strlit("LOVE_UNLIMITED_ENABLED");
    reveal_strlit("LOVE_UNLIMITED_URL");
    reveal_strlit("LOVE_UNLIMITED_KEY");
    reveal_strlit("LOVE_UNLIMITED_TIMEOUT");
    reveal_strlit("LOVE_UNLIMITED_MAX_RETRIES");
    reveal_strlit("LOVE_UNLIMITED_LOG_COMPLETIONS");
    reveal_strlit("LOVE_UNLIMITED_LOG_USER_EVENTS");
    reveal_strlit("LOVE_UNLIMITED_TRACK_ERRORS");
    reveal_strlit("LOVE_UNLIMITED_ENRICH_CONTEXT");
    reveal_strlit("");
    assert(integration_variable("LOVE_UNLIMITED_ENABLED"@)) by {
        assert("LOVE_UNLIMITED_ENABLED"@.subrange(0, 15) =~= "LOVE_UNLIMITED_"@);
    }
    assert(integration_variable("LOVE_UNLIMITED_URL"@)) by {
        assert("LOVE_UNLIMITED_URL"@.subrange(0, 15) =~= "LOVE_UNLIMITED_"@);
    }
    assert(integration_variable("LOVE_UNLIMITED_KEY"@)) by {
        assert("LOVE_UNLIMITED_KEY"@.subrange(0, 15) =~= "LOVE_UNLIMITED_"@);
    }
    assert(integration_variable("LOVE_UNLIMITED_TIMEOUT"@)) by {
        assert("LOVE_UNLIMITED_TIMEOUT"@.subrange(0, 15) =~= "LOVE_UNLIMITED_"@);
    }
    assert(integration_variable("LOVE_UNLIMITED_MAX_RETRIES"@)) by {
        assert("LOVE_UNLIMITED_MAX_RETRIES"@.subrange(0, 15) =~= "LOVE_UNLIMITED_"@);
    }
    assert(integration_variable("LOVE_UNLIMITED_LOG_COMPLETIONS"@)) by {
        assert("LOVE_UNLIMITED_LOG_COMPLETIONS"@.subrange(0, 15) =~= "LOVE_UNLIMITED_"@);
    }
    assert(integration_variable("LOVE_UNLIMITED_LOG_USER_EVENTS"@)) by {
        assert("LOVE_UNLIMITED_LOG_USER_EVENTS"@.subrange(0, 15) =~= "LOVE_UNLIMITED_"@);
    }
    assert(integration_variable("LOVE_UNLIMITED_TRACK_ERRORS"@)) by {
        assert("LOVE_UNLIMITED_TRACK_ERRORS"@.subrange(0, 15) =~= "LOVE_UNLIMITED_"@);
    }
    assert(integration_variable("LOVE_UNLIMITED_ENRICH_CONTEXT"@)) by {
        assert("LOVE_UNLIMITED_ENRICH_CONTEXT"@.subrange(0, 15) =~= "LOVE_UNLIMITED_"@);
    }
    lemma_lookup_absent(vars, "LOVE_UNLIMITED_ENABLED"@);
    lemma_lookup_absent(vars, "LOVE_UNLIMITED_URL"@);
    lemma_lookup_absent(vars, "LOVE_UNLIMITED_KEY"@);
    lemma_lookup_absent(vars, "LOVE_UNLIMITED_TIMEOUT"@);
    lemma_lookup_absent(vars, "LOVE_UNLIMITED_MAX_RETRIES"@);
    lemma_lookup_absent(vars, "LOVE_UNLIMITED_LOG_COMPLETIONS"@);
    lemma_lookup_absent(vars, "LOVE_UNLIMITED_LOG_USER_EVENTS"@);
    lemma_lookup_absent(vars, "LOVE_UNLIMITED_TRACK_ERRORS"@);
    lemma_lookup_absent(vars, "LOVE_UNLIMITED_ENRICH_CONTEXT"@);
}

/// Every memory the bridge builds is private: completions, errors and
/// selections alike.
pub proof fn bridge_memories_are_private(
    language: Seq<char>,
    prompt: Seq<char>,
    completion: Seq<char>,
    model_name: Seq<char>,
    snippet_used: bool,
    learning: RememberRequest,
    error_message: Seq<char>,
    error_language: Option<Seq<char>>,
    context: Option<Seq<char>>,
    insight: RememberRequest,
    completion_id: Seq<char>,
    selected_text: Seq<char>,
    selection_language: Option<Seq<char>>,
    decision: RememberRequest,
)
    requires
        completion_memory_spec(language, prompt, completion, model_name, snippet_used, learning),
        error_memory_spec(error_message, error_language, context, insight),
        selection_memory_spec(completion_id, selected_text, selection_language, decision),
    ensures
        learning@.private,
        insight@.private,
        decision@.private,
{
}

/// Every memory stored for an event is private, and a memory is stored
/// exactly for completions while completions are logged and for selections
/// while user events are logged.
pub proof fn event_memories_are_private(features: HubFeatures, event: HubEvent, r: Option<RememberRequest>)
    requires
        event_memory_spec(features, event, r),
    ensures
        r matches Some(req) ==> req@.private,
        r is Some <==> ((event is Completion && features.log_completions) || (event is Select
            && features.log_user_events)),
{
}

proof fn lemma_retries_made(max: nat, done: nat)
    requires
        done <= max,
    ensures
        retries_made(max, done) == max - done,
    decreases max - done,
{
    if done < max {
        lemma_retries_made(max, done + 1);
    }
}

/// When every send of a request fails, the retry steps, started from no
/// retries, allow exactly `max` retries: one request is sent at most
/// `max + 1` times.
pub proof fn retries_are_bounded(max: nat)
    ensures
        retries_made(max, 0) == max,
        retry_step(max, max) is None,
{
    lemma_retries_made(max, 0);
}

/// `suffix` ends `s`.
pub open spec fn ends_with(s: Seq<char>, suffix: Seq<char>) -> bool {
    suffix.len() <= s.len() && s.subrange(s.len() - suffix.len(), s.len() as int) == suffix
}

/// `prefix` starts `s`.
pub open spec fn starts_with(s: Seq<char>, prefix: Seq<char>) -> bool {
    prefix.len() <= s.len() && s.subrange(0, prefix.len() as int) == prefix
}

proof fn lemma_ascii_len(s: Seq<char>)
    requires
        is_ascii_chars(s),
    ensures
        byte_len(s) == s.len(),
{
    is_ascii_chars_encode_utf8(s);
}

/// An enabled configuration uses the URL and the key that the environment
/// sets, and the defaults `http://localhost:9003` and no key only where they
/// are unset; a timeout written in decimal is read back as that number.
pub proof fn env_settings_are_used(vars: Seq<NamedValue>, cfg: HubConfig, timeout: nat)
    requires
        env_config(vars, cfg),
        cfg.enabled,
    ensures
        env_lookup(vars, "LOVE_UNLIMITED_URL"@) matches Some(u) ==> cfg.hub_url@ == u,
        env_lookup(vars, "LOVE_UNLIMITED_URL"@) is None ==> cfg.hub_url@
            == "http://localhost:9003"@,
        env_lookup(vars, "LOVE_UNLIMITED_KEY"@) matches Some(k) ==> cfg.api_key@ == k,
        env_lookup(vars, "LOVE_UNLIMITED_KEY"@) is None ==> cfg.api_key@.len() == 0,
        timeout <= u64::MAX && env_lookup(vars, "LOVE_UNLIMITED_TIMEOUT"@) == Some(decimal(timeout))
            ==> cfg.timeout_secs == timeout,
{
    reveal_strlit("");
    if timeout <= u64::MAX {
        decimal_round_trip(timeout, u64::MAX as nat);
    }
}

/// A completion memory quotes the language and records, under four
/// distinct names, the language, the byte lengths of the prompt and of the
/// completion text (each its own), and whether a snippet was used.
pub proof fn completion_memory_records_its_inputs(
    language: Seq<char>,
    prompt: Seq<char>,
    completion: Seq<char>,
    model_name: Seq<char>,
    snippet_used: bool,
    r: RememberRequest,
)
    requires
        completion_memory_spec(language, prompt, completion, model_name, snippet_used, r),
    ensures
        starts_with(r@.content, "Completion in "@ + language + ": "@),
        r@.memory_type == "learning"@,
        r@.tags.len() == 3 && r@.tags[0] == language && r@.tags[2] == model_name,
        r@.metadata.dom().len() == 4,
        r@.metadata.contains_key("language"@) && r@.metadata["language"@] == MetaModel::Text(
            language,
        ),
        r@.metadata.contains_key("prompt_length"@) && r@.metadata["prompt_length"@]
            == MetaModel::Number(encode_utf8(prompt).len()),
        r@.metadata.contains_key("completion_length"@) && r@.metadata["completion_length"@]
            == MetaModel::Number(encode_utf8(completion).len()),
        r@.metadata.contains_key("snippet_used"@) && r@.metadata["snippet_used"@]
            == MetaModel::Flag(snippet_used),
        r@.private,
{
    reveal_strlit("language");
    reveal_strlit("prompt_length");
    reveal_strlit("completion_length");
    reveal_strlit("snippet_used");
    let head = "Completion in "@ + language + ": "@;
    assert(r@.content.subrange(0, head.len() as int) =~= head);
    let m = r@.metadata;
    assert("language"@.len() == 8);
    assert("prompt_length"@.len() == 13);
    assert("completion_length"@.len() == 17);
    assert("snippet_used"@.len() == 12);
    let s0 = Set::<Seq<char>>::empty();
    let s1 = s0.insert("language"@);
    let s2 = s1.insert("prompt_length"@);
    let s3 = s2.insert("completion_length"@);
    let s4 = s3.insert("snippet_used"@);
    assert(s1.len() == 1);
    assert(!s1.contains("prompt_length"@));
    assert(s2.len() == 2);
    assert(!s2.contains("completion_length"@));
    assert(s3.len() == 3);
    assert(!s3.contains("snippet_used"@));
    assert(s4.len() == 4);
    assert(m.dom() =~= s4);
}

/// An error memory quotes the message and, where one is given, ends with the
/// context; the context is recorded under `context` and the language, where
/// one is given, under `language`, each independently of the other.
pub proof fn error_memory_records_its_inputs(
    error_message: Seq<char>,
    language: Option<Seq<char>>,
    context: Option<Seq<char>>,
    r: RememberRequest,
)
    requires
        error_memory_spec(error_message, language, context, r),
    ensures
        starts_with(r@.content, "Completion error in "@),
        context is None ==> ends_with(r@.content, ": "@ + error_message),
        context matches Some(c) ==> ends_with(
            r@.content,
            ": "@ + error_message + " (context: "@ + c + ")"@,
        ),
        context matches Some(c) ==> r@.metadata.contains_key("context"@) && r@.metadata["context"@]
            == MetaModel::Text(c),
        context is None ==> !r@.metadata.contains_key("context"@),
        language matches Some(l) ==> r@.metadata.contains_key("language"@) && r@.metadata["language"@]
            == MetaModel::Text(l) && r@.tags.last() == l,
        language is None ==> !r@.metadata.contains_key("language"@),
        r@.memory_type == "insight"@,
        r@.significance == "high"@,
        r@.private,
{
    reveal_strlit("language");
    reveal_strlit("context");
    reveal_strlit("unknown");
    assert("language"@.len() != "context"@.len());
    let lang = match language {
        Some(l) => l,
        None => "unknown"@,
    };
    let head = "Completion error in "@;
    let tail = match context {
        Some(c) => ": "@ + error_message + " (context: "@ + c + ")"@,
        None => ": "@ + error_message,
    };
    assert(r@.content =~= head + lang + tail);
    assert(r@.content.subrange(0, head.len() as int) =~= head);
    assert(r@.content.subrange(r@.content.len() - tail.len(), r@.content.len() as int) =~= tail);
}

/// A selection event, while user events are logged, is stored as a decision
/// that records that event's completion id under `completion_id` and the
/// byte length of `Selected`, 8, under `selected_length`.
pub proof fn select_event_records_its_completion_id(
    features: HubFeatures,
    completion_id: String,
    r: Option<RememberRequest>,
)
    requires
        features.log_user_events,
        event_memory_spec(features, HubEvent::Select { completion_id }, r),
    ensures
        r matches Some(req) && req@.memory_type == "decision"@ && req@.metadata.contains_key(
            "completion_id"@,
        ) && req@.metadata["completion_id"@] == MetaModel::Text(completion_id@)
            && req@.metadata.contains_key("selected_length"@) && req@.metadata["selected_length"@]
            == MetaModel::Number(8) && req@.private,
{
    reveal_strlit("Selected");
    reveal_strlit("completion_id");
    reveal_strlit("selected_length");
    reveal_strlit("language");
    assert("completion_id"@.len() != "selected_length"@.len());
    let sel = "Selected"@;
    assert(sel.len() == 8);
    assert(is_ascii_chars(sel)) by {
        assert forall|i: int| 0 <= i < sel.len() implies '\0' <= #[trigger] sel[i] <= '\u{7f}' by {
            assert(i == 0 || i == 1 || i == 2 || i == 3 || i == 4 || i == 5 || i == 6 || i == 7);
        }
    }
    lemma_ascii_len(sel);
    let req = r->0;
    assert(req@.metadata["completion_id"@] == MetaModel::Text(completion_id@));
    assert(req@.metadata["selected_length"@] == MetaModel::Number(byte_len(sel)));
}

/// A completion event, while completions are logged, records the byte length
/// of its first choice (or 0 without choices) as the completion length, and
/// that a snippet was used exactly when there was a choice.
pub proof fn completion_event_records_its_first_choice(
    features: HubFeatures,
    event: HubEvent,
    r: Option<RememberRequest>,
)
    requires
        features.log_completions,
        event is Completion,
        event_memory_spec(features, event, r),
    ensures
        r matches Some(req) && req@.metadata.contains_key("completion_length"@)
            && req@.metadata.contains_key("snippet_used"@) && match event {
            HubEvent::Completion { choices, .. } => {
                &&& req@.metadata["completion_length"@] == MetaModel::Number(
                    if choices@.len() > 0 {
                        encode_utf8(choices@[0]@).len()
                    } else {
                        0
                    },
                )
                &&& req@.metadata["snippet_used"@] == MetaModel::Flag(choices@.len() > 0)
            },
            _ => false,
        },
{
    reveal_strlit("");
    reveal_strlit("completion_length");
    reveal_strlit("snippet_used");
    match event {
        HubEvent::Completion { language, prompt, choices, .. } => {
            let req = r->0;
            let first = if choices@.len() > 0 {
                choices@[0]@
            } else {
                ""@
            };
            completion_memory_records_its_inputs(
                language@,
                prompt@,
                first,
                "tabby"@,
                choices@.len() > 0,
                req,
            );
            if choices@.len() == 0 {
                assert(encode_utf8(""@) =~= Seq::<u8>::empty());
            }
        },
        _ => {},
    }
}

/// Every request that carries the API key carries it in exactly one
/// `X-API-Key` header, first, with the configured key as it is: the same
/// header for recall (without a body) as for remember (with one).
pub proof fn requests_send_the_key_as_is(key: Seq<char>, p: RequestPlan, json: bool)
    requires
        pairs(p.headers@) == auth_headers(key, json),
    ensures
        p.headers@.len() >= 1,
        p.headers@[0].name@ == "X-API-Key"@,
        p.headers@[0].value@ == key,
        forall|i: int| 1 <= i < p.headers@.len() ==> p.headers@[i].name@ != "X-API-Key"@,
        !json ==> p.headers@.len() == 1,
        auth_headers(key, true)[0] == auth_headers(key, false)[0],
{
    reveal_strlit("X-API-Key");
    reveal_strlit("Content-Type");
    assert(auth_headers(key, json).len() >= 1);
    assert(pairs(p.headers@).len() == p.headers@.len());
    assert(pairs(p.headers@)[0] == (p.headers@[0].name@, p.headers@[0].value@));
    if json {
        assert(pairs(p.headers@)[1] == (p.headers@[1].name@, p.headers@[1].value@));
        assert("Content-Type"@[0] != "X-API-Key"@[0]);
    }
}

/// A selection memory records, under two distinct names, the completion id
/// it was given and the byte length of the selected text; the language,
/// where one is given, is its last tag and is recorded under `language`.
pub proof fn selection_memory_records_its_inputs(
    completion_id: Seq<char>,
    selected_text: Seq<char>,
    language: Option<Seq<char>>,
    r: RememberRequest,
)
    requires
        selection_memory_spec(completion_id, selected_text, language, r),
    ensures
        r@.memory_type == "decision"@,
        r@.metadata.contains_key("completion_id"@) && r@.metadata["completion_id"@]
            == MetaModel::Text(completion_id),
        r@.metadata.contains_key("selected_length"@) && r@.metadata["selected_length"@]
            == MetaModel::Number(encode_utf8(selected_text).len()),
        language matches Some(l) ==> r@.metadata.contains_key("language"@) && r@.metadata["language"@]
            == MetaModel::Text(l) && r@.tags.last() == l,
        language is None ==> !r@.metadata.contains_key("language"@) && r@.tags.len() == 1,
        r@.private,
{
    reveal_strlit("completion_id");
    reveal_strlit("selected_length");
    reveal_strlit("language");
    assert("completion_id"@.len() != "selected_length"@.len());
    assert("language"@.len() != "completion_id"@.len());
    assert("language"@.len() != "selected_length"@.len());
}

/// A recall request asks for the query text as it is, and its limit, read
/// back as a number, is the query's limit.
pub proof fn recall_query_reads_back(p: RequestPlan, q: Seq<char>, limit: u32)
    requires
        pairs(p.query@) == seq![("q"@, q), ("limit"@, decimal(limit as nat))],
    ensures
        p.query@.len() == 2,
        p.query@[0].value@ == q,
        parse_unsigned_spec(p.query@[1].value@, u32::MAX as nat) == Some(limit as nat),
{
    assert(pairs(p.query@).len() == p.query@.len());
    assert(pairs(p.query@)[0] == (p.query@[0].name@, p.query@[0].value@));
    assert(pairs(p.query@)[1] == (p.query@[1].name@, p.query@[1].value@));
    decimal_round_trip(limit as nat, u32::MAX as nat);
}

} // verus!
