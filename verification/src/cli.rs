//! Command-line level choices of the tool: the HTTP method, the metrics
//! plugins, and the tool object itself.

use vstd::prelude::*;

verus! {

/// HTTP method of the benchmark requests.
#[derive(Debug, Copy, Clone, PartialEq, Eq, PartialOrd, Ord, Structural)]
pub enum HttpMethod {
    Get,
    Post,
}

/// The metrics plugins that can be selected.
#[derive(Debug, Copy, Clone, PartialEq, Eq, Structural)]
pub enum PluginKind {
    Basic,
    LlamaCpp,
}

/// A plugin name that names no plugin.
#[derive(Debug)]
pub enum PluginError {
    /// Holds the name, lower-cased.
    NotAvailable(String),
}

/// ASCII lower-casing of one character: `A`..`Z` become `a`..`z`, every
/// other character is kept.
pub open spec fn ascii_lower(c: char) -> char {
    if 'A' <= c && c <= 'Z' {
        ((c as u32) + 32) as char
    } else {
        c
    }
}

/// ASCII lower-casing of a text, character by character.
pub open spec fn ascii_lowercase(s: Seq<char>) -> Seq<char> {
    s.map_values(|c: char| ascii_lower(c))
}

/// The plugin that an already lower-cased name selects.
pub open spec fn plugin_named(name: Seq<char>) -> Option<PluginKind> {
    if name == seq!['b', 'a', 's', 'i', 'c'] {
        Some(PluginKind::Basic)
    } else if name == seq!['l', 'l', 'a', 'm', 'a', 'c', 'p', 'p'] {
        Some(PluginKind::LlamaCpp)
    } else {
        None
    }
}

/// The plugin that a name selects; names are compared without regard to
/// ASCII case.
pub open spec fn plugin_of(name: Seq<char>) -> Option<PluginKind> {
    plugin_named(ascii_lowercase(name))
}

/// Lower-casing a lower-cased text changes nothing.
pub proof fn lemma_ascii_lowercase_idempotent(s: Seq<char>)
    ensures
        ascii_lowercase(ascii_lowercase(s)) == ascii_lowercase(s),
{
    assert forall|i: int| 0 <= i < s.len() implies #[trigger] ascii_lower(ascii_lower(s[i]))
        == ascii_lower(s[i]) by {
        let c = s[i];
        if 'A' <= c && c <= 'Z' {
            assert(('A' as u32) <= (c as u32) <= ('Z' as u32));
            assert((((c as u32) + 32) as char) as u32 == (c as u32) + 32);
        }
    }
    assert(ascii_lowercase(ascii_lowercase(s)) =~= ascii_lowercase(s));
}

/// Plugin selection ignores ASCII case: a name and its lower-cased form
/// select the same plugin, or both none.
pub proof fn lemma_plugin_of_ignores_case(name: Seq<char>)
    ensures
        plugin_of(ascii_lowercase(name)) == plugin_of(name),
{
    lemma_ascii_lowercase_idempotent(name);
}

/// Exactly two names select a plugin, compared after ASCII lower-casing:
/// `basic` selects the basic plugin and `llamacpp` the llama.cpp plugin;
/// every other name is refused.
pub proof fn lemma_plugin_names(name: Seq<char>)
    ensures
        plugin_of(name) == Some(PluginKind::Basic) <==> ascii_lowercase(name) == "basic"@,
        plugin_of(name) == Some(PluginKind::LlamaCpp) <==> ascii_lowercase(name) == "llamacpp"@,
        plugin_of(name) is None <==> (ascii_lowercase(name) != "basic"@ && ascii_lowercase(name)
            != "llamacpp"@),
{
    reveal_strlit("basic");
    reveal_strlit("llamacpp");
    assert("basic"@ =~= seq!['b', 'a', 's', 'i', 'c']);
    assert("llamacpp"@ =~= seq!['l', 'l', 'a', 'm', 'a', 'c', 'p', 'p']);
}

/// Calls `str::to_ascii_lowercase` of std. Its documentation: ASCII letters
/// `A` to `Z` are mapped to `a` to `z`, every other character is unchanged.
#[verifier::external_body]
fn to_ascii_lowercase(s: &str) -> (r: String)
    ensures
        r@ == ascii_lowercase(s@),
{
    s.to_ascii_lowercase()
}

impl PluginError {
    /// The lower-cased name that was refused.
    pub open spec fn name(&self) -> Seq<char> {
        match self {
            PluginError::NotAvailable(name) => name@,
        }
    }

    /// The message shown to the user: `Plugin <name> not available.`
    pub fn message(&self) -> (r: String)
        ensures
            r@ == "Plugin "@ + self.name() + " not available."@,
    {
        match self {
            PluginError::NotAvailable(name) => {
                let mut r = "Plugin ".to_owned();
                r.append(name.as_str());
                r.append(" not available.");
                r
            },
        }
    }
}

/// Selects the plugin that `name` names, without regard to ASCII case.
pub fn plugin_kind(name: &String) -> (r: Result<PluginKind, PluginError>)
    ensures
        r matches Ok(k) ==> plugin_of(name@) == Some(k),
        r matches Err(e) ==> plugin_of(name@) is None && e.name() == ascii_lowercase(name@),
{
    let lowered = to_ascii_lowercase(name.as_str());
    let basic = "basic".to_owned();
    let llamacpp = "llamacpp".to_owned();
    proof {
        reveal_strlit("basic");
        reveal_strlit("llamacpp");
        assert("basic"@ =~= seq!['b', 'a', 's', 'i', 'c']);
        assert("llamacpp"@ =~= seq!['l', 'l', 'a', 'm', 'a', 'c', 'p', 'p']);
    }
    if lowered == basic {
        Ok(PluginKind::Basic)
    } else if lowered == llamacpp {
        Ok(PluginKind::LlamaCpp)
    } else {
        Err(PluginError::NotAvailable(lowered))
    }
}

/// Selects the plugins named on the command line, in their order. The
/// first name that selects no plugin is refused.
pub fn parse_plugins(plugins: &Vec<String>) -> (r: Result<Vec<PluginKind>, PluginError>)
    ensures
        r is Ok <==> forall|i: int| 0 <= i < plugins.len() ==> (#[trigger] plugin_of(plugins@[i]@)) is Some,
        r matches Ok(kinds) ==> kinds.len() == plugins.len() && forall|i: int|
            0 <= i < plugins.len() ==> Some(#[trigger] kinds@[i]) == plugin_of(plugins@[i]@),
        r matches Err(e) ==> exists|i: int|
            0 <= i < plugins.len() && (#[trigger] plugin_of(plugins@[i]@)) is None
                && e.name() == ascii_lowercase(plugins@[i]@)
                && forall|j: int| 0 <= j < i ==> (#[trigger] plugin_of(plugins@[j]@)) is Some,
{
    let mut kinds: Vec<PluginKind> = Vec::new();
    let mut i: usize = 0;
    while i < plugins.len()
        invariant
            i <= plugins.len(),
            kinds.len() == i,
            forall|j: int| 0 <= j < i ==> (#[trigger] plugin_of(plugins@[j]@)) == Some(kinds@[j]),
        decreases plugins.len() - i,
    {
        match plugin_kind(&plugins[i]) {
            Ok(k) => {
                kinds.push(k);
            },
            Err(e) => {
                return Err(e);
            },
        }
        i = i + 1;
    }
    Ok(kinds)
}

/// The benchmarking tool.
pub struct Panca {}

impl Panca {
    /// Creates the tool.
    pub fn new() -> (r: Self)
        ensures
            r == (Panca {}),
    {
        Panca {}
    }
}

impl Default for Panca {
    fn default() -> (r: Self)
        ensures
            r == (Panca {}),
    {
        Self::new()
    }
}

} // verus!
