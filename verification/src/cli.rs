//! The greeting computation and the options it is computed from.

use vstd::prelude::*;

verus! {

/// The greeting for an optional name, as a sequence of characters:
/// `"Hello, "` + the name verbatim + `"!"` when a name is present,
/// and the literal `"Hello, world!"` when it is absent.
pub open spec fn greeting(name: Option<Seq<char>>) -> Seq<char> {
    match name {
        Some(n) => "Hello, "@ + n + "!"@,
        None => "Hello, world!"@,
    }
}

/// The options the greeting is computed from: at most one name.
#[derive(Debug)]
pub struct Cli {
    /// Name to greet; `None` falls back to `"world"`.
    pub name: Option<String>,
}

impl Cli {
    /// Produce the greeting for the provided name, defaulting to "world".
    #[must_use]
    pub fn run(&self) -> (r: String)
        ensures
            r@ == greeting(self.name.deep_view()),
    {
        let mut out = String::from_str("Hello, ");
        match &self.name {
            Some(n) => out.append(n.as_str()),
            None => {
                out.append("world");
            }
        }
        out.append("!");
        proof {
            if self.name is None {
                reveal_strlit("Hello, ");
                reveal_strlit("world");
                reveal_strlit("!");
                reveal_strlit("Hello, world!");
                assert("Hello, "@ + "world"@ + "!"@ =~= "Hello, world!"@);
            }
        }
        out
    }
}

/// Law: the operation is pure. Two results obtained from the same options
/// are identical, character for character.
pub proof fn lemma_run_deterministic(c: Cli, r1: String, r2: String)
    requires
        r1@ == greeting(c.name.deep_view()),
        r2@ == greeting(c.name.deep_view()),
    ensures
        r1@ == r2@,
{
}

/// Law: a supplied name appears verbatim and contiguously in the greeting,
/// between the prefix `"Hello, "` and the trailing `"!"`.
pub proof fn lemma_name_embedded(name: Seq<char>)
    ensures
        greeting(Some(name)).len() == name.len() as int + 8,
        greeting(Some(name)).subrange(0, 7) == "Hello, "@,
        greeting(Some(name)).subrange(7, name.len() as int + 7) == name,
        greeting(Some(name)).subrange(name.len() as int + 7, name.len() as int + 8) == "!"@,
{
    reveal_strlit("Hello, ");
    reveal_strlit("!");
    assert(greeting(Some(name)).subrange(0, 7) =~= "Hello, "@);
    assert(greeting(Some(name)).subrange(7, name.len() as int + 7) =~= name);
    assert(greeting(Some(name)).subrange(name.len() as int + 7, name.len() as int + 8) =~= "!"@);
}

} // verus!
