use vstd::prelude::*;
use vstd::string::StringExecFns;

verus! {

/// The closed set of ecosystems a flake can be generated for.
#[derive(Clone, Copy, Debug, PartialEq, Eq, Structural)]
pub enum Language {
    Agnostic,
    Rust,
    Go,
    Python,
    Typescript,
    Cpp,
    Terraform,
    Elixir,
}

/// The tag under which an ecosystem is named on the command line and in
/// template identifiers.
pub open spec fn lang_name(l: Language) -> Seq<char> {
    match l {
        Language::Agnostic => "agnostic"@,
        Language::Rust => "rust"@,
        Language::Go => "go"@,
        Language::Python => "python"@,
        Language::Typescript => "typescript"@,
        Language::Cpp => "cpp"@,
        Language::Terraform => "terraform"@,
        Language::Elixir => "elixir"@,
    }
}

/// Every ecosystem, in declaration order.
pub open spec fn all_languages() -> Seq<Language> {
    seq![
        Language::Agnostic,
        Language::Rust,
        Language::Go,
        Language::Python,
        Language::Typescript,
        Language::Cpp,
        Language::Terraform,
        Language::Elixir,
    ]
}

/// Suffix of every template identifier.
pub open spec fn template_suffix() -> Seq<char> {
    ".template"@
}

impl Language {
    /// The ecosystem's tag, e.g. `"rust"`.
    pub fn name(&self) -> (r: String)
        ensures
            r@ == lang_name(*self),
    {
        match self {
            Language::Agnostic => String::from_str("agnostic"),
            Language::Rust => String::from_str("rust"),
            Language::Go => String::from_str("go"),
            Language::Python => String::from_str("python"),
            Language::Typescript => String::from_str("typescript"),
            Language::Cpp => String::from_str("cpp"),
            Language::Terraform => String::from_str("terraform"),
            Language::Elixir => String::from_str("elixir"),
        }
    }

    /// Same as [`Language::name`].
    pub fn to_string(&self) -> (r: String)
        ensures
            r@ == lang_name(*self),
    {
        self.name()
    }

    /// All ecosystems, in declaration order.
    pub fn all() -> (r: Vec<Language>)
        ensures
            r@ == all_languages(),
    {
        let r = vec![
            Language::Agnostic,
            Language::Rust,
            Language::Go,
            Language::Python,
            Language::Typescript,
            Language::Cpp,
            Language::Terraform,
            Language::Elixir,
        ];
        assert(r@ =~= all_languages());
        r
    }

    /// The ecosystem whose tag is `tag`, if any.
    pub fn from_name(tag: &str) -> (r: Option<Language>)
        ensures
            r matches Some(l) ==> lang_name(l) == tag@,
            r is None ==> forall|l: Language| lang_name(l) != tag@,
    {
        let all = Language::all();
        let wanted = String::from_str(tag);
        let mut i: usize = 0;
        while i < all.len()
            invariant
                all@ == all_languages(),
                wanted@ == tag@,
                i <= all@.len(),
                forall|j: int| 0 <= j < i ==> lang_name(#[trigger] all_languages()[j]) != tag@,
            decreases all@.len() - i,
        {
            let l = all[i];
            if l.name() == wanted {
                return Some(l);
            }
            i = i + 1;
        }
        proof {
            assert forall|l: Language| lang_name(l) != tag@ by {
                let k: int = match l {
                    Language::Agnostic => 0,
                    Language::Rust => 1,
                    Language::Go => 2,
                    Language::Python => 3,
                    Language::Typescript => 4,
                    Language::Cpp => 5,
                    Language::Terraform => 6,
                    Language::Elixir => 7,
                };
                assert(all_languages()[k] == l);
            }
        }
        None
    }

    /// Identifier of the flake template for this ecosystem: its tag followed
    /// by `.template`.
    pub fn template_name(&self) -> (r: String)
        ensures
            r@ == lang_name(*self) + template_suffix(),
    {
        let mut s = self.name();
        s.append(".template");
        s
    }
}

} // verus!
