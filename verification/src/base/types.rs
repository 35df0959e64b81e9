//! Shared domain types.

use vstd::prelude::*;

verus! {

/// Supported AI providers.
#[derive(Debug, Clone, Copy, PartialEq, Eq, Hash, Structural)]
pub enum AiProvider {
    OpenAI,
    Anthropic,
    Google,
    Ollama,
    Zhipu,
    Custom,
}

impl AiProvider {
    /// The wire name of each provider: the variant name in snake case
    /// (an underscore before every interior capital, all lower-cased).
    pub open spec fn wire_name_of(self) -> Seq<char> {
        match self {
            AiProvider::OpenAI => "open_a_i"@,
            AiProvider::Anthropic => "anthropic"@,
            AiProvider::Google => "google"@,
            AiProvider::Ollama => "ollama"@,
            AiProvider::Zhipu => "zhipu"@,
            AiProvider::Custom => "custom"@,
        }
    }

    /// The wire name of this provider.
    pub fn wire_name(&self) -> (r: &'static str)
        ensures
            r@ == self.wire_name_of(),
    {
        match self {
            AiProvider::OpenAI => "open_a_i",
            AiProvider::Anthropic => "anthropic",
            AiProvider::Google => "google",
            AiProvider::Ollama => "ollama",
            AiProvider::Zhipu => "zhipu",
            AiProvider::Custom => "custom",
        }
    }

    /// The provider whose wire name is `name`, if any.
    pub fn from_wire_name(name: &str) -> (r: Option<AiProvider>)
        ensures
            r matches Some(p) ==> p.wire_name_of() == name@,
            r is None ==> forall|p: AiProvider| p.wire_name_of() != name@,
    {
        let all = [
            AiProvider::OpenAI,
            AiProvider::Anthropic,
            AiProvider::Google,
            AiProvider::Ollama,
            AiProvider::Zhipu,
            AiProvider::Custom,
        ];
        let mut i: usize = 0;
        while i < 6
            invariant
                i <= 6,
                all@ == seq![
                    AiProvider::OpenAI,
                    AiProvider::Anthropic,
                    AiProvider::Google,
                    AiProvider::Ollama,
                    AiProvider::Zhipu,
                    AiProvider::Custom,
                ],
                forall|j: int| 0 <= j < i ==> all@[j].wire_name_of() != name@,
            decreases 6 - i,
        {
            let p = all[i];
            if crate::text::equals(p.wire_name(), name) {
                return Some(p);
            }
            i = i + 1;
        }
        assert forall|p: AiProvider| p.wire_name_of() != name@ by {
            match p {
                AiProvider::OpenAI => assert(all@[0] == p),
                AiProvider::Anthropic => assert(all@[1] == p),
                AiProvider::Google => assert(all@[2] == p),
                AiProvider::Ollama => assert(all@[3] == p),
                AiProvider::Zhipu => assert(all@[4] == p),
                AiProvider::Custom => assert(all@[5] == p),
            }
        }
        None
    }
}

/// Model routing resolution result.
#[derive(Debug, Clone, PartialEq, Eq)]
pub struct ResolvedProvider {
    /// The selected AI provider.
    pub provider: AiProvider,
    /// The model identifier. Empty string means provider default.
    pub model: String,
}

/// Distinct providers have distinct wire names, so reading a provider back
/// from its wire name (`AiProvider::from_wire_name`) gives the provider.
pub proof fn lemma_wire_name_injective(a: AiProvider, b: AiProvider)
    requires
        a.wire_name_of() == b.wire_name_of(),
    ensures
        a == b,
{
    reveal_strlit("open_a_i");
    reveal_strlit("anthropic");
    reveal_strlit("google");
    reveal_strlit("ollama");
    reveal_strlit("zhipu");
    reveal_strlit("custom");
    let t = a.wire_name_of();
    let u = b.wire_name_of();
    assert(t.len() == u.len());
    assert(t[0] == u[0]);
    assert(t[1] == u[1]);
    assert(t[t.len() - 1] == u[u.len() - 1]);
}

} // verus!
