//! The stub adapter and the routing decisions of the AI service: which
//! registered adapter answers a chat request, which adapters a model listing
//! covers, and how provider configuration is stored and read back.

use vstd::prelude::*;
use crate::ai::types::{ChatMessage, ChatResponse, ChatRole, ModelInfo, ProviderInfo, TokenUsage};
use crate::base::types::{lemma_wire_name_injective, AiProvider};
use crate::db::error::DbError;
use crate::text::hex_digit;
use crate::text::{contains, contains_seq, equals, texts};

verus! {

/// A test adapter that returns canned responses.
pub struct StubAdapter {
    provider: AiProvider,
    model_id: String,
    response_text: String,
}

/// The adapter name each provider is registered under.
pub open spec fn adapter_name_of(p: AiProvider) -> Seq<char> {
    match p {
        AiProvider::OpenAI => "openai"@,
        AiProvider::Anthropic => "anthropic"@,
        AiProvider::Google => "google"@,
        AiProvider::Ollama => "ollama"@,
        AiProvider::Zhipu => "zhipu"@,
        AiProvider::Custom => "custom"@,
    }
}

impl StubAdapter {
    /// The provider the stub stands for.
    pub closed spec fn provider_of(&self) -> AiProvider {
        self.provider
    }

    /// The model the stub reports.
    pub closed spec fn model_of(&self) -> Seq<char> {
        self.model_id@
    }

    /// The reply the stub gives.
    pub closed spec fn reply_of(&self) -> Seq<char> {
        self.response_text@
    }

    /// Create a new stub adapter.
    pub fn new(provider: AiProvider, model_id: &str, response_text: &str) -> (r: Self)
        ensures
            r.provider_of() == provider,
            r.model_of() == model_id@,
            r.reply_of() == response_text@,
    {
        StubAdapter {
            provider,
            model_id: String::from_str(model_id),
            response_text: String::from_str(response_text),
        }
    }

    /// The adapter's name.
    pub fn name(&self) -> (r: &'static str)
        ensures
            r@ == adapter_name_of(self.provider_of()),
    {
        match self.provider {
            AiProvider::OpenAI => "openai",
            AiProvider::Anthropic => "anthropic",
            AiProvider::Google => "google",
            AiProvider::Ollama => "ollama",
            AiProvider::Zhipu => "zhipu",
            AiProvider::Custom => "custom",
        }
    }

    /// The canned chat response: the reply text from the assistant, 10
    /// prompt and 20 completion tokens, the stub's model and provider.
    pub fn chat_reply(&self) -> (r: ChatResponse)
        ensures
            r.message.role == ChatRole::Assistant,
            r.message.content@ == self.reply_of(),
            r.usage.prompt_tokens == 10,
            r.usage.completion_tokens == 20,
            r.usage.total_tokens == 30,
            r.model@ == self.model_of(),
            r.provider == self.provider_of(),
    {
        ChatResponse {
            message: ChatMessage { role: ChatRole::Assistant, content: self.response_text.clone() },
            usage: TokenUsage::new(10, 20),
            model: self.model_id.clone(),
            provider: self.provider,
        }
    }

    /// The models the stub offers: its one model, named by its id.
    pub fn models(&self) -> (r: Vec<ModelInfo>)
        ensures
            r@.len() == 1,
            r@[0].id@ == self.model_of(),
            r@[0].display_name@ == self.model_of(),
            r@[0].provider == self.provider_of(),
    {
        let mut v = Vec::new();
        v.push(ModelInfo { id: self.model_id.clone(), display_name: self.model_id.clone(), provider: self.provider });
        v
    }
}

/// A requested model and an adapter name go together when either contains
/// the other.
pub open spec fn model_matches(model: Seq<char>, name: Seq<char>) -> bool {
    contains_seq(model, name) || contains_seq(name, model)
}

/// The text of an optional string.
pub open spec fn opt_text(o: Option<&str>) -> Option<Seq<char>> {
    match o {
        Some(s) => Some(s@),
        None => None,
    }
}

/// The predicate "goes with model `m`".
pub open spec fn goes_with(m: Seq<char>) -> spec_fn(Seq<char>) -> bool {
    |n: Seq<char>| model_matches(m, n)
}

/// The predicate "is the text `t`".
pub open spec fn is_text(t: Seq<char>) -> spec_fn(Seq<char>) -> bool {
    |n: Seq<char>| n == t
}

/// The first index at or after `i` whose name satisfies `p`.
pub open spec fn first_from(names: Seq<Seq<char>>, p: spec_fn(Seq<char>) -> bool, i: int) -> Option<int>
    decreases names.len() - i,
{
    if i < 0 || i >= names.len() {
        None
    } else if p(names[i]) {
        Some(i)
    } else {
        first_from(names, p, i + 1)
    }
}

/// The adapter of the first provider (in the given order, from `j` on)
/// that some adapter is named after, taking the first adapter of that name.
pub open spec fn first_provider_match(names: Seq<Seq<char>>, providers: Seq<Seq<char>>, j: int) -> Option<int>
    decreases providers.len() - j,
{
    if j < 0 || j >= providers.len() {
        None
    } else {
        match first_from(names, is_text(providers[j]), 0) {
            Some(i) => Some(i),
            None => first_provider_match(names, providers, j + 1),
        }
    }
}

/// Which adapter answers a chat request: with a model requested, the first
/// adapter that goes with it; otherwise (or when none does) the adapter of
/// the highest-priority enabled provider; failing that, the first adapter.
pub open spec fn route(names: Seq<Seq<char>>, providers: Seq<Seq<char>>, model: Option<Seq<char>>) -> Option<int> {
    let by_model = match model {
        Some(m) => first_from(names, goes_with(m), 0),
        None => None,
    };
    match by_model {
        Some(i) => Some(i),
        None => match first_provider_match(names, providers, 0) {
            Some(i) => Some(i),
            None => if names.len() > 0 { Some(0) } else { None },
        },
    }
}

proof fn lemma_first_from_skip(names: Seq<Seq<char>>, p: spec_fn(Seq<char>) -> bool, i: int, k: int)
    requires
        0 <= i <= k <= names.len(),
        forall|j: int| i <= j < k ==> !p(#[trigger] names[j]),
    ensures
        first_from(names, p, i) == first_from(names, p, k),
    decreases k - i,
{
    if i < k {
        lemma_first_from_skip(names, p, i + 1, k);
    }
}

proof fn lemma_first_from_found(names: Seq<Seq<char>>, p: spec_fn(Seq<char>) -> bool, i: int)
    requires
        0 <= i,
    ensures
        first_from(names, p, i) matches Some(k) ==> i <= k < names.len() && p(names[k]) && forall|j: int|
            i <= j < k ==> !p(#[trigger] names[j]),
        first_from(names, p, i) is None ==> forall|j: int| i <= j < names.len() ==> !p(#[trigger] names[j]),
    decreases names.len() - i,
{
    if i < names.len() && !p(names[i]) {
        lemma_first_from_found(names, p, i + 1);
    }
}

proof fn lemma_first_provider_found(names: Seq<Seq<char>>, providers: Seq<Seq<char>>, j: int)
    requires
        0 <= j,
    ensures
        first_provider_match(names, providers, j) is None ==> forall|k: int, i: int|
            j <= k < providers.len() && 0 <= i < names.len() ==> names[i] != providers[k],
        first_provider_match(names, providers, j) matches Some(i) ==> exists|k: int|
            j <= k < providers.len() && first_from(names, is_text(providers[k]), 0) == Some(i) && forall|
                k2: int,
                i2: int,
            | j <= k2 < k && 0 <= i2 < names.len() ==> names[i2] != providers[k2],
    decreases providers.len() - j,
{
    if j < providers.len() {
        lemma_first_from_found(names, is_text(providers[j]), 0);
        lemma_first_provider_found(names, providers, j + 1);
        if first_from(names, is_text(providers[j]), 0) is None {
            if let Some(i) = first_provider_match(names, providers, j) {
                let k = choose|k: int|
                    j + 1 <= k < providers.len() && first_from(names, is_text(providers[k]), 0) == Some(i)
                        && forall|k2: int, i2: int|
                        j + 1 <= k2 < k && 0 <= i2 < names.len() ==> names[i2] != providers[k2];
                assert forall|k2: int, i2: int| j <= k2 < k && 0 <= i2 < names.len() implies names[i2]
                    != providers[k2] by {
                    if k2 == j {
                        assert(!is_text(providers[j])(names[i2]));
                    }
                }
            }
        }
    }
}

/// Whichever model is requested, a non-empty list of adapters always yields
/// an adapter, one of the list; only an empty list yields none.
pub proof fn lemma_route_total(names: Seq<Seq<char>>, providers: Seq<Seq<char>>, model: Option<Seq<char>>)
    ensures
        names.len() > 0 <==> route(names, providers, model) is Some,
        route(names, providers, model) matches Some(i) ==> 0 <= i < names.len(),
{
    lemma_first_provider_found(names, providers, 0);
    if let Some(m) = model {
        lemma_first_from_found(names, goes_with(m), 0);
    }
    if let Some(i) = first_provider_match(names, providers, 0) {
        let k = choose|k: int|
            0 <= k < providers.len() && first_from(names, is_text(providers[k]), 0) == Some(i) && forall|
                k2: int,
                i2: int,
            | 0 <= k2 < k && 0 <= i2 < names.len() ==> names[i2] != providers[k2];
        lemma_first_from_found(names, is_text(providers[k]), 0);
    }
}

/// With a model requested, the first adapter whose name goes with the model
/// answers; when no adapter's name goes with it, the choice is the one made
/// with no model requested.
pub proof fn lemma_route_by_model(names: Seq<Seq<char>>, providers: Seq<Seq<char>>, m: Seq<char>)
    ensures
        (exists|i: int| 0 <= i < names.len() && model_matches(m, #[trigger] names[i])) ==> (route(
            names,
            providers,
            Some(m),
        ) matches Some(i) && 0 <= i < names.len() && model_matches(m, names[i]) && forall|j: int|
            0 <= j < i ==> !model_matches(m, #[trigger] names[j])),
        (forall|i: int| 0 <= i < names.len() ==> !model_matches(m, #[trigger] names[i])) ==> route(
            names,
            providers,
            Some(m),
        ) == route(names, providers, None),
{
    lemma_first_from_found(names, goes_with(m), 0);
    if exists|i: int| 0 <= i < names.len() && model_matches(m, #[trigger] names[i]) {
        let i = choose|i: int| 0 <= i < names.len() && model_matches(m, #[trigger] names[i]);
        assert(goes_with(m)(names[i]));
    }
}

/// With no model requested (or none that an adapter goes with), the adapter
/// of the highest-priority enabled provider answers: if provider `j` is the
/// first whose name some adapter has, the chosen adapter is the first one of
/// that name; if no provider's name is registered, the first adapter answers.
pub proof fn lemma_route_by_priority(names: Seq<Seq<char>>, providers: Seq<Seq<char>>, j: int)
    ensures
        0 <= j < providers.len() && (exists|i: int| 0 <= i < names.len() && names[i] == providers[j])
            && (forall|k: int, i: int| 0 <= k < j && 0 <= i < names.len() ==> names[i] != providers[k])
            ==> (route(names, providers, None) matches Some(i) && 0 <= i < names.len() && names[i]
            == providers[j] && forall|i2: int| 0 <= i2 < i ==> names[i2] != providers[j]),
        (forall|k: int, i: int| 0 <= k < providers.len() && 0 <= i < names.len() ==> names[i] != providers[k])
            && names.len() > 0 ==> route(names, providers, None) == Some(0int),
{
    lemma_first_provider_found(names, providers, 0);
    if let Some(i) = first_provider_match(names, providers, 0) {
        let k = choose|k: int|
            0 <= k < providers.len() && first_from(names, is_text(providers[k]), 0) == Some(i) && forall|
                k2: int,
                i2: int,
            | 0 <= k2 < k && 0 <= i2 < names.len() ==> names[i2] != providers[k2];
        lemma_first_from_found(names, is_text(providers[k]), 0);
        if 0 <= j < providers.len() && (exists|i: int| 0 <= i < names.len() && names[i] == providers[j])
            && (forall|k: int, i: int| 0 <= k < j && 0 <= i < names.len() ==> names[i] != providers[k]) {
            let w = choose|w: int| 0 <= w < names.len() && names[w] == providers[j];
            if k < j {
                assert(names[i] == providers[k]);
            } else if k > j {
                assert(names[w] != providers[j]);
            }
            assert forall|i2: int| 0 <= i2 < i implies names[i2] != providers[j] by {
                assert(!is_text(providers[k])(names[i2]));
            }
        }
    } else {
        if 0 <= j < providers.len() && (exists|i: int| 0 <= i < names.len() && names[i] == providers[j]) {
            let w = choose|w: int| 0 <= w < names.len() && names[w] == providers[j];
            assert(names[w] != providers[j]);
        }
    }
}

/// Pick the adapter for a chat request, given the adapters' names in
/// registration order, the provider types of the enabled providers in
/// priority order, and the requested model.
pub fn resolve_adapter(names: &Vec<String>, providers: &Vec<String>, model: Option<&str>) -> (r: Option<usize>)
    ensures
        r matches Some(i) ==> route(texts(names@), texts(providers@), opt_text(model)) == Some(i as int),
        r is None ==> route(texts(names@), texts(providers@), opt_text(model)) is None,
        names@.len() > 0 <==> r is Some,
        r matches Some(i) ==> i < names@.len(),
{
    let ghost ns = texts(names@);
    let ghost ps = texts(providers@);
    proof {
        lemma_route_total(ns, ps, opt_text(model));
    }
    if let Some(m) = model {
        let ghost p = goes_with(m@);
        let mut i: usize = 0;
        while i < names.len()
            invariant
                i <= names.len(),
                ns == texts(names@),
                p == goes_with(m@),
                opt_text(model) == Some(m@),
                first_from(ns, p, 0) == first_from(ns, p, i as int),
            decreases names.len() - i,
        {
            let name = names[i].as_str();
            if contains(m, name) || contains(name, m) {
                assert(p(ns[i as int]));
                assert(first_from(ns, p, i as int) == Some(i as int));
                assert(opt_text(model) == Some(m@));
                return Some(i);
            }
            proof {
                assert(!p(ns[i as int]));
                lemma_first_from_skip(ns, p, i as int, i + 1);
            }
            i = i + 1;
        }
    }
    assert(match opt_text(model) { Some(m) => first_from(ns, goes_with(m), 0), None => None } is None);
    let mut j: usize = 0;
    while j < providers.len()
        invariant
            j <= providers.len(),
            ns == texts(names@),
            ps == texts(providers@),
            match opt_text(model) { Some(m) => first_from(ns, goes_with(m), 0), None => None } is None,
            first_provider_match(ns, ps, 0) == first_provider_match(ns, ps, j as int),
        decreases providers.len() - j,
    {
        let ghost q = is_text(ps[j as int]);
        let mut i: usize = 0;
        while i < names.len()
            invariant
                i <= names.len(),
                j < providers.len(),
                ns == texts(names@),
                ps == texts(providers@),
                match opt_text(model) { Some(m) => first_from(ns, goes_with(m), 0), None => None } is None,
                q == is_text(ps[j as int]),
                first_provider_match(ns, ps, 0) == first_provider_match(ns, ps, j as int),
                first_from(ns, q, 0) == first_from(ns, q, i as int),
            decreases names.len() - i,
        {
            if equals(names[i].as_str(), providers[j].as_str()) {
                assert(q(ns[i as int]));
                return Some(i);
            }
            proof {
                assert(!q(ns[i as int]));
                lemma_first_from_skip(ns, q, i as int, i + 1);
            }
            i = i + 1;
        }
        j = j + 1;
    }

    if names.len() > 0 {
        Some(0)
    } else {
        None
    }
}

/// An adapter is listed when no provider filter is given or its name is
/// the filter.
pub open spec fn listed(name: Seq<char>, filter: Option<Seq<char>>) -> bool {
    match filter {
        Some(f) => name == f,
        None => true,
    }
}

/// The indices, in order, of the adapters a model listing covers.
pub fn listed_adapters(names: &Vec<String>, filter: Option<&str>) -> (r: Vec<usize>)
    ensures
        forall|k: int| 0 <= k < r@.len() ==> r@[k] < names@.len() && listed(
            names@[r@[k] as int]@,
            match filter { Some(f) => Some(f@), None => None },
        ),
        forall|k1: int, k2: int| 0 <= k1 < k2 < r@.len() ==> r@[k1] < r@[k2],
        forall|i: int|
            0 <= i < names@.len() && listed(names@[i]@, match filter { Some(f) => Some(f@), None => None })
                ==> r@.contains(i as usize),
{
    let ghost fv = match filter { Some(f) => Some(f@), None => None };
    let mut r: Vec<usize> = Vec::new();
    let mut i: usize = 0;
    while i < names.len()
        invariant
            i <= names.len(),
            fv == match filter { Some(f) => Some(f@), None => None::<Seq<char>> },
            forall|k: int| 0 <= k < r@.len() ==> r@[k] < i && listed(names@[r@[k] as int]@, fv),
            forall|k1: int, k2: int| 0 <= k1 < k2 < r@.len() ==> r@[k1] < r@[k2],
            forall|x: int| 0 <= x < i && listed(names@[x]@, fv) ==> r@.contains(x as usize),
        decreases names.len() - i,
    {
        let keep = match filter {
            Some(f) => equals(names[i].as_str(), f),
            None => true,
        };
        if keep {
            let ghost before = r@;
            r.push(i);
            proof {
                assert forall|x: int| 0 <= x < i + 1 && listed(names@[x]@, fv) implies r@.contains(x as usize) by {
                    if x < i {
                        let w = choose|w: int| 0 <= w < before.len() && before[w] == x as usize;
                        assert(r@[w] == x as usize);
                    } else {
                        assert(r@[r@.len() - 1] == x as usize);
                    }
                }
            }
        }
        i = i + 1;
    }
    r
}

/// How a JSON string writes one character: `"` and `\\` behind a
/// backslash; backspace, form feed, newline, carriage return and tab as
/// `\\b`, `\\f`, `\\n`, `\\r`, `\\t`; the other control characters below
/// U+0020 as `\\u00` and two lower-case hex digits; anything else as itself.
pub open spec fn json_escape_char(c: char) -> Seq<char> {
    if c == '"' {
        seq!['\\', '"']
    } else if c == '\\' {
        seq!['\\', '\\']
    } else if c == '\u{8}' {
        seq!['\\', 'b']
    } else if c == '\u{c}' {
        seq!['\\', 'f']
    } else if c == '\n' {
        seq!['\\', 'n']
    } else if c == '\r' {
        seq!['\\', 'r']
    } else if c == '\t' {
        seq!['\\', 't']
    } else if (c as u32) < 0x20 {
        seq!['\\', 'u', '0', '0', hex_digit((c as u32 / 16) as nat), hex_digit((c as u32 % 16) as nat)]
    } else {
        seq![c]
    }
}

/// The characters of `s`, each escaped as a JSON string writes it.
pub open spec fn json_escape(s: Seq<char>) -> Seq<char>
    decreases s.len(),
{
    if s.len() == 0 {
        Seq::empty()
    } else {
        json_escape(s.drop_last()) + json_escape_char(s.last())
    }
}

/// The JSON text of the string `s`: its escaped characters between double
/// quotes.
pub open spec fn json_string_text(s: Seq<char>) -> Seq<char> {
    seq!['"'] + json_escape(s) + seq!['"']
}

/// No character of `s` needs escaping in a JSON string: none is `"`, `\\`
/// or a control character below U+0020.
pub open spec fn json_plain(s: Seq<char>) -> bool {
    forall|i: int| 0 <= i < s.len() ==> (#[trigger] s[i] != '"') && s[i] != '\\' && (s[i] as u32) >= 0x20
}

/// A plain string is its own escaping.
pub proof fn lemma_plain_escape(s: Seq<char>)
    requires
        json_plain(s),
    ensures
        json_escape(s) == s,
    decreases s.len(),
{
    if s.len() > 0 {
        let front = s.drop_last();
        assert forall|i: int| 0 <= i < front.len() implies (#[trigger] front[i] != '"') && front[i] != '\\' && (front[i] as u32) >= 0x20 by {
            assert(front[i] == s[i]);
        }
        lemma_plain_escape(front);
        assert(s[s.len() - 1] == s.last());
        assert(front + seq![s.last()] =~= s);
    }
}

/// Calls `serde_json::to_string` on a string, which cannot fail there: the
/// text is the string's JSON text, `json_string_text` of the input.
#[verifier::external_body]
fn json_quote(s: &str) -> (r: String)
    ensures
        r@ == json_string_text(s@),
{
    serde_json::to_string(s).unwrap_or_default()
}

/// `text` is a plain string between double quotes, with nothing around.
pub open spec fn is_plain_quoted(text: Seq<char>) -> bool {
    &&& text.len() >= 2
    &&& text[0] == '"'
    &&& text[text.len() - 1] == '"'
    &&& json_plain(text.subrange(1, text.len() - 1))
}

/// What parsing `text` as a JSON string gives: the string, or `None` when
/// `text` is not a JSON string.
pub uninterp spec fn json_string_value(text: Seq<char>) -> Option<Seq<char>>;

/// Calls `serde_json::from_str::<String>`; the outcome is named
/// `json_string_value` of the input. A plain string between quotes parses
/// to the characters between them.
#[verifier::external_body]
fn json_unquote(text: &str) -> (r: Option<String>)
    ensures
        r matches Some(s) ==> json_string_value(text@) == Some(s@),
        r is None ==> json_string_value(text@) is None,
        is_plain_quoted(text@) ==> r is Some && r->Some_0@ == text@.subrange(1, text@.len() - 1),
{
    serde_json::from_str::<String>(text).ok()
}

/// The string that the JSON text `text` holds: the characters between the
/// quotes of a plain quoted string, and otherwise what parsing gives.
pub open spec fn json_string_of(text: Seq<char>) -> Option<Seq<char>> {
    if is_plain_quoted(text) {
        Some(text.subrange(1, text.len() - 1))
    } else {
        json_string_value(text)
    }
}

/// The columns a provider's configuration is stored as.
#[derive(Debug, Clone)]
pub struct ProviderRowValues {
    pub provider_id: String,
    pub provider_type: String,
    pub display_name: String,
    pub is_enabled: i32,
    pub priority: i32,
}

/// The stored columns of a provider: its wire name as the id, the JSON text
/// of the wire name as the type, the display name, 1 or 0 for enabled, and
/// the priority.
pub fn provider_row_values(p: &ProviderInfo) -> (r: ProviderRowValues)
    ensures
        r.provider_id@ == p.provider_type.wire_name_of(),
        r.provider_type@ == json_string_text(p.provider_type.wire_name_of()),
        r.display_name == p.display_name,
        r.is_enabled == (if p.is_enabled { 1i32 } else { 0i32 }),
        r.priority == p.priority,
{
    let name = p.provider_type.wire_name();
    ProviderRowValues {
        provider_id: String::from_str(name),
        provider_type: json_quote(name),
        display_name: p.display_name.clone(),
        is_enabled: if p.is_enabled { 1 } else { 0 },
        priority: p.priority,
    }
}

/// The provider a stored type column names: the provider whose wire name
/// the JSON string holds, or `Custom` when it holds none.
pub open spec fn provider_of_type_text(text: Seq<char>) -> AiProvider {
    match json_string_of(text) {
        Some(s) => if exists|p: AiProvider| p.wire_name_of() == s {
            choose|p: AiProvider| p.wire_name_of() == s
        } else {
            AiProvider::Custom
        },
        None => AiProvider::Custom,
    }
}

/// Read a provider back from its stored type column.
pub fn provider_from_type_text(text: &str) -> (r: AiProvider)
    ensures
        r == provider_of_type_text(text@),
{
    match json_unquote(text) {
        Some(s) => match AiProvider::from_wire_name(s.as_str()) {
            Some(p) => {
                proof {
                    let q = choose|q: AiProvider| q.wire_name_of() == s@;
                    lemma_wire_name_injective(p, q);
                }
                p
            },
            None => AiProvider::Custom,
        },
        None => AiProvider::Custom,
    }
}

/// Provider info read back from stored columns.
pub fn provider_info_from_row(provider_type: &str, display_name: String, is_enabled: i32, priority: i32) -> (r: ProviderInfo)
    ensures
        r.provider_type == provider_of_type_text(provider_type@),
        r.display_name == display_name,
        r.is_enabled == (is_enabled == 1),
        r.priority == priority,
{
    ProviderInfo {
        provider_type: provider_from_type_text(provider_type),
        display_name,
        is_enabled: is_enabled == 1,
        priority,
    }
}

/// The adapter name that a stored type column routes to: the adapter name
/// of the provider it names.
pub open spec fn stored_adapter_name(text: Seq<char>) -> Seq<char> {
    adapter_name_of(provider_of_type_text(text))
}

/// A wire name needs no escaping in JSON.
proof fn lemma_wire_name_plain(p: AiProvider)
    ensures
        json_plain(p.wire_name_of()),
{
    reveal_strlit("open_a_i");
    reveal_strlit("anthropic");
    reveal_strlit("google");
    reveal_strlit("ollama");
    reveal_strlit("zhipu");
    reveal_strlit("custom");
    let w = p.wire_name_of();
    assert forall|i: int| 0 <= i < w.len() implies (#[trigger] w[i] != '"') && w[i] != '\\' && (w[i] as u32) >= 0x20 by {
        match p {
            AiProvider::OpenAI => {},
            AiProvider::Anthropic => {},
            AiProvider::Google => {},
            AiProvider::Ollama => {},
            AiProvider::Zhipu => {},
            AiProvider::Custom => {},
        }
    }
}

/// A provider's stored type column reads back as that provider, and so
/// routes to the adapter registered under its name.
pub proof fn lemma_stored_type_round_trip(p: AiProvider)
    ensures
        provider_of_type_text(json_string_text(p.wire_name_of())) == p,
        stored_adapter_name(json_string_text(p.wire_name_of())) == adapter_name_of(p),
{
    let w = p.wire_name_of();
    lemma_wire_name_plain(p);
    lemma_plain_escape(w);
    let t = json_string_text(w);
    assert(t.subrange(1, t.len() - 1) =~= w);
    assert(is_plain_quoted(t));
    assert(json_string_of(t) == Some(w));
    let q = choose|q: AiProvider| q.wire_name_of() == w;
    lemma_wire_name_injective(p, q);
}

/// The adapter name that a stored type column routes to.
pub fn adapter_name_from_type_text(text: &str) -> (r: &'static str)
    ensures
        r@ == stored_adapter_name(text@),
{
    match provider_from_type_text(text) {
        AiProvider::OpenAI => "openai",
        AiProvider::Anthropic => "anthropic",
        AiProvider::Google => "google",
        AiProvider::Ollama => "ollama",
        AiProvider::Zhipu => "zhipu",
        AiProvider::Custom => "custom",
    }
}

/// The adapter names, in order, that the stored type columns of the
/// enabled providers route to; these are what `resolve_adapter` takes as
/// its providers.
pub fn routing_names(stored_types: &Vec<String>) -> (r: Vec<String>)
    ensures
        r@.len() == stored_types@.len(),
        forall|i: int| 0 <= i < r@.len() ==> (#[trigger] r@[i])@ == stored_adapter_name(stored_types@[i]@),
{
    let mut out: Vec<String> = Vec::new();
    let mut i: usize = 0;
    while i < stored_types.len()
        invariant
            i <= stored_types@.len(),
            out@.len() == i,
            forall|k: int| 0 <= k < i ==> (#[trigger] out@[k])@ == stored_adapter_name(stored_types@[k]@),
        decreases stored_types.len() - i,
    {
        let name = adapter_name_from_type_text(stored_types[i].as_str());
        out.push(String::from_str(name));
        i = i + 1;
    }
    out
}

/// Whether a stored role text names a role.
pub open spec fn known_role(text: Seq<char>) -> bool {
    text == "system"@ || text == "user"@ || text == "assistant"@
}

/// Chat history read back from stored `(role, content)` rows, in order. A
/// row whose role text names no role fails the whole read with
/// `unknown role: <text>`, reported for the first such row.
pub fn history_from_rows(rows: Vec<(String, String)>) -> (r: Result<Vec<ChatMessage>, DbError>)
    ensures
        r is Ok <==> forall|i: int| 0 <= i < rows@.len() ==> known_role((#[trigger] rows@[i]).0@),
        r matches Ok(v) ==> v@.len() == rows@.len() && forall|i: int|
            0 <= i < rows@.len() ==> (#[trigger] v@[i]).role.text_of() == rows@[i].0@ && v@[i].content
                == rows@[i].1,
        r matches Err(e) ==> exists|i: int|
            0 <= i < rows@.len() && !known_role((#[trigger] rows@[i]).0@) && (forall|j: int|
                0 <= j < i ==> known_role(rows@[j].0@)) && (e matches DbError::Query(m) && m@
                == "unknown role: "@ + rows@[i].0@),
{
    let mut out: Vec<ChatMessage> = Vec::new();
    let mut i: usize = 0;
    while i < rows.len()
        invariant
            i <= rows@.len(),
            out@.len() == i,
            forall|j: int| 0 <= j < i ==> known_role((#[trigger] rows@[j]).0@),
            forall|j: int|
                0 <= j < i ==> (#[trigger] out@[j]).role.text_of() == rows@[j].0@ && out@[j].content
                    == rows@[j].1,
        decreases rows.len() - i,
    {
        let row = &rows[i];
        match ChatRole::from_text(row.0.as_str()) {
            Some(role) => {
                out.push(ChatMessage { role, content: row.1.clone() });
            },
            None => {
                let m = String::from_str("unknown role: ").concat(row.0.as_str());
                return Err(DbError::Query(m));
            },
        }
        i = i + 1;
    }
    Ok(out)
}

} // verus!
