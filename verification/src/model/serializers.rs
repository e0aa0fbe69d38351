//! Languages and organisations: how each is written to and read from the API.

use crate::errors::Error;
use crate::json::FromJson;
use crate::json::Json;
use crate::json::JsonValue;
use crate::text::text_key;
use crate::text::text_key_of;
use vstd::prelude::*;
use vstd::std_specs::convert::TryFromSpecImpl;
use vstd::string::StringExecFns;

verus! {

/// What language to filter videos by.
#[non_exhaustive]
#[derive(Debug, PartialEq, Eq, PartialOrd, Ord, Hash)]
pub enum Language {
    /// Include all languages.
    All,
    /// Only English videos.
    English,
    /// Only Spanish videos.
    Spanish,
    /// Only Indonesian videos.
    Indonesian,
    /// Only Japanese videos.
    Japanese,
    /// Only Korean videos.
    Korean,
    /// Only Russian videos.
    Russian,
    /// Only Chinese videos.
    Chinese,
    /// Other language, please open a pull request to add support for it!
    Other(String),
}

impl Clone for Language {
    fn clone(&self) -> (r: Self)
        ensures
            r == *self,
    {
        match self {
            Language::All => Language::All,
            Language::English => Language::English,
            Language::Spanish => Language::Spanish,
            Language::Indonesian => Language::Indonesian,
            Language::Japanese => Language::Japanese,
            Language::Korean => Language::Korean,
            Language::Russian => Language::Russian,
            Language::Chinese => Language::Chinese,
            Language::Other(text) => Language::Other(text.clone()),
        }
    }
}

impl Language {
    /// Whether `name` is the code of one of the named variants.
    pub open spec fn is_known(name: Seq<char>) -> bool {
        name == "all"@ || name == "en"@ || name == "es"@ || name == "id"@ || name == "ja"@ || name == "ko"@ || name == "ru"@ || name == "zh"@
    }

    /// The code under which the language travels to and from the API, and is shown.
    pub open spec fn spec_as_str(self) -> Seq<char> {
        match self {
            Language::All => "all"@,
            Language::English => "en"@,
            Language::Spanish => "es"@,
            Language::Indonesian => "id"@,
            Language::Japanese => "ja"@,
            Language::Korean => "ko"@,
            Language::Russian => "ru"@,
            Language::Chinese => "zh"@,
            Language::Other(text) => text@,
        }
    }

    /// Whether `value` is what the code `name` reads as: the variant named so,
    /// or `Other` with `name` where no variant is.
    pub open spec fn named(name: Seq<char>, value: Language) -> bool {
        value.spec_as_str() == name && (value is Other <==> !Self::is_known(name))
    }

    /// The code under which the language travels to and from the API, and is shown.
    pub fn as_str(&self) -> (r: &str)
        ensures
            r@ == self.spec_as_str(),
    {
        match self {
            Language::All => "all",
            Language::English => "en",
            Language::Spanish => "es",
            Language::Indonesian => "id",
            Language::Japanese => "ja",
            Language::Korean => "ko",
            Language::Russian => "ru",
            Language::Chinese => "zh",
            Language::Other(text) => text.as_str(),
        }
    }

    /// The code of the language, as a string of its own.
    pub fn to_string(&self) -> (r: String)
        ensures
            r@ == self.spec_as_str(),
    {
        self.as_str().to_owned()
    }

    /// Reads a language from its code; a code that no variant bears is kept as
    /// `Other`.
    pub fn from_name(name: &str) -> (r: Language)
        ensures
            Self::named(name@, r),
    {
        proof {
            Self::lemma_names_differ();
        }
        if name.eq("all") {
            Language::All
        } else if name.eq("en") {
            Language::English
        } else if name.eq("es") {
            Language::Spanish
        } else if name.eq("id") {
            Language::Indonesian
        } else if name.eq("ja") {
            Language::Japanese
        } else if name.eq("ko") {
            Language::Korean
        } else if name.eq("ru") {
            Language::Russian
        } else if name.eq("zh") {
            Language::Chinese
        } else {
            Language::Other(name.to_owned())
        }
    }

    /// No two variants bear the same code.
    pub proof fn lemma_names_differ()
        ensures
            forall|a: Language, b: Language|
                !(a is Other) && !(b is Other) && a.spec_as_str() == b.spec_as_str() ==> a == b,
    {
        reveal_strlit("all");
        assert("all"@ =~= seq!['a', 'l', 'l']);
        reveal_strlit("en");
        assert("en"@ =~= seq!['e', 'n']);
        reveal_strlit("es");
        assert("es"@ =~= seq!['e', 's']);
        reveal_strlit("id");
        assert("id"@ =~= seq!['i', 'd']);
        reveal_strlit("ja");
        assert("ja"@ =~= seq!['j', 'a']);
        reveal_strlit("ko");
        assert("ko"@ =~= seq!['k', 'o']);
        reveal_strlit("ru");
        assert("ru"@ =~= seq!['r', 'u']);
        reveal_strlit("zh");
        assert("zh"@ =~= seq!['z', 'h']);
    }

    /// A language is read back from its own code, unless it is an `Other` that holds
    /// the code of a named variant.
    pub proof fn lemma_name_round_trip(self)
        requires
            self matches Language::Other(text) ==> !Self::is_known(text@),
        ensures
            Self::named(self.spec_as_str(), self),
    {
    }
}

impl std::str::FromStr for Language {
    type Err = Error;

    fn from_str(s: &str) -> (r: Result<Self, Error>)
        ensures
            r matches Ok(value) && Language::named(s@, value),
    {
        Ok(Language::from_name(s))
    }
}

impl TryFrom<String> for Language {
    type Error = Error;

    fn try_from(value: String) -> (r: Result<Self, Error>)
        ensures
            r matches Ok(read) && Language::named(value@, read),
    {
        Ok(Language::from_name(value.as_str()))
    }
}

impl TryFromSpecImpl<String> for Language {
    /// What `try_from` gives is stated on `try_from` itself, as a relation.
    open spec fn obeys_try_from_spec() -> bool {
        false
    }

    open spec fn try_from_spec(value: String) -> Result<Self, Error> {
        arbitrary()
    }
}

impl<'a> TryFrom<&'a str> for Language {
    type Error = Error;

    fn try_from(value: &'a str) -> (r: Result<Self, Error>)
        ensures
            r matches Ok(read) && Language::named(value@, read),
    {
        Ok(Language::from_name(value))
    }
}

impl<'a> TryFromSpecImpl<&'a str> for Language {
    /// What `try_from` gives is stated on `try_from` itself, as a relation.
    open spec fn obeys_try_from_spec() -> bool {
        false
    }

    open spec fn try_from_spec(value: &'a str) -> Result<Self, Error> {
        arbitrary()
    }
}

impl FromJson for Language {
    /// Any string.
    open spec fn accepts(doc: Json) -> bool {
        doc is Text
    }

    open spec fn decodes_to(doc: Json, value: Self) -> bool {
        doc matches Json::Text(name) && Self::named(name, value)
    }

    open spec fn spec_expected() -> Seq<char> {
        "Language"@
    }

    fn expected() -> (name: &'static str) {
        "Language"
    }

    fn from_json(doc: &JsonValue) -> (r: Option<Self>) {
        match doc.as_str() {
            Some(name) => Some(Self::from_name(name)),
            None => None,
        }
    }
}

/// Which organization the VTuber(s) are a part of.
#[non_exhaustive]
#[derive(Debug, PartialEq, Eq, PartialOrd, Ord, Hash)]
pub enum Organisation {
    /// VTubers from [Hololive Production](https://en.hololive.tv/)
    Hololive,
    /// VTubers from [Nijisanji](https://www.nijisanji.jp/en/)
    Nijisanji,
    /// VTubers not part of any organization.
    Independents,
    /// Organization not covered by other variants, please submit a pull request to add them!
    Other(String),
}

impl Clone for Organisation {
    fn clone(&self) -> (r: Self)
        ensures
            r == *self,
    {
        match self {
            Organisation::Hololive => Organisation::Hololive,
            Organisation::Nijisanji => Organisation::Nijisanji,
            Organisation::Independents => Organisation::Independents,
            Organisation::Other(text) => Organisation::Other(text.clone()),
        }
    }
}

impl Organisation {
    /// Whether `name` is the name of one of the named variants.
    pub open spec fn is_known(name: Seq<char>) -> bool {
        name == "Hololive"@ || name == "Nijisanji"@ || name == "Independents"@
    }

    /// The name under which the organisation travels to and from the API, and is shown.
    pub open spec fn spec_as_str(self) -> Seq<char> {
        match self {
            Organisation::Hololive => "Hololive"@,
            Organisation::Nijisanji => "Nijisanji"@,
            Organisation::Independents => "Independents"@,
            Organisation::Other(text) => text@,
        }
    }

    /// Whether `value` is what the name `name` reads as: the variant named so,
    /// or `Other` with `name` where no variant is.
    pub open spec fn named(name: Seq<char>, value: Organisation) -> bool {
        value.spec_as_str() == name && (value is Other <==> !Self::is_known(name))
    }

    /// The name under which the organisation travels to and from the API, and is shown.
    pub fn as_str(&self) -> (r: &str)
        ensures
            r@ == self.spec_as_str(),
    {
        match self {
            Organisation::Hololive => "Hololive",
            Organisation::Nijisanji => "Nijisanji",
            Organisation::Independents => "Independents",
            Organisation::Other(text) => text.as_str(),
        }
    }

    /// The name of the organisation, as a string of its own.
    pub fn to_string(&self) -> (r: String)
        ensures
            r@ == self.spec_as_str(),
    {
        self.as_str().to_owned()
    }

    /// Reads a organisation from its name; a name that no variant bears is kept as
    /// `Other`.
    pub fn from_name(name: &str) -> (r: Organisation)
        ensures
            Self::named(name@, r),
    {
        proof {
            Self::lemma_names_differ();
        }
        if name.eq("Hololive") {
            Organisation::Hololive
        } else if name.eq("Nijisanji") {
            Organisation::Nijisanji
        } else if name.eq("Independents") {
            Organisation::Independents
        } else {
            Organisation::Other(name.to_owned())
        }
    }

    /// No two variants bear the same name.
    pub proof fn lemma_names_differ()
        ensures
            forall|a: Organisation, b: Organisation|
                !(a is Other) && !(b is Other) && a.spec_as_str() == b.spec_as_str() ==> a == b,
    {
        reveal_strlit("Hololive");
        assert("Hololive"@ =~= seq!['H', 'o', 'l', 'o', 'l', 'i', 'v', 'e']);
        reveal_strlit("Nijisanji");
        assert("Nijisanji"@ =~= seq!['N', 'i', 'j', 'i', 's', 'a', 'n', 'j', 'i']);
        reveal_strlit("Independents");
        assert("Independents"@ =~= seq!['I', 'n', 'd', 'e', 'p', 'e', 'n', 'd', 'e', 'n', 't', 's']);
    }

    /// A organisation is read back from its own name, unless it is an `Other` that holds
    /// the name of a named variant.
    pub proof fn lemma_name_round_trip(self)
        requires
            self matches Organisation::Other(text) ==> !Self::is_known(text@),
        ensures
            Self::named(self.spec_as_str(), self),
    {
    }
}

impl Organisation {
    /// Whether the two are the same organisation: the same variant, and for
    /// `Other` the same name.
    pub open spec fn spec_same(self, other: Organisation) -> bool {
        self.spec_as_str() == other.spec_as_str() && (self is Other) == (other is Other)
    }

    /// Whether the two are the same organisation.
    pub fn same_as(&self, other: &Organisation) -> (r: bool)
        ensures
            r == self.spec_same(*other),
    {
        let named = match (self, other) {
            (Organisation::Other(_), Organisation::Other(_)) => true,
            (Organisation::Other(_), _) => false,
            (_, Organisation::Other(_)) => false,
            _ => true,
        };
        named && self.as_str().eq(other.as_str())
    }

    /// How the organisation is written into a key: `?` for one that is kept
    /// by its name alone and `!` for a known one, and then the name.
    pub open spec fn spec_key(self) -> Seq<char> {
        (if self is Other {
            "?"@
        } else {
            "!"@
        }) + text_key(self.spec_as_str())
    }

    /// Writes the organisation behind `key` as it stands in a key.
    pub fn feed(&self, key: &mut String)
        ensures
            final(key)@ == old(key)@ + self.spec_key(),
    {
        let mut part = String::new();
        match self {
            Organisation::Other(_) => {
                part.append("?");
                assert(part@ =~= "?"@);
            },
            _ => {
                part.append("!");
                assert(part@ =~= "!"@);
            },
        }
        part.append(text_key_of(self.as_str()).as_str());
        key.append(part.as_str());
    }

    /// Organisations that are the same are written alike into a key.
    pub proof fn lemma_same_have_one_key(self, other: Organisation)
        requires
            self.spec_same(other),
        ensures
            self.spec_key() == other.spec_key(),
    {
    }
}

impl std::str::FromStr for Organisation {
    type Err = Error;

    fn from_str(s: &str) -> (r: Result<Self, Error>)
        ensures
            r matches Ok(value) && Organisation::named(s@, value),
    {
        Ok(Organisation::from_name(s))
    }
}

impl TryFrom<String> for Organisation {
    type Error = Error;

    fn try_from(value: String) -> (r: Result<Self, Error>)
        ensures
            r matches Ok(read) && Organisation::named(value@, read),
    {
        Ok(Organisation::from_name(value.as_str()))
    }
}

impl TryFromSpecImpl<String> for Organisation {
    /// What `try_from` gives is stated on `try_from` itself, as a relation.
    open spec fn obeys_try_from_spec() -> bool {
        false
    }

    open spec fn try_from_spec(value: String) -> Result<Self, Error> {
        arbitrary()
    }
}

impl<'a> TryFrom<&'a str> for Organisation {
    type Error = Error;

    fn try_from(value: &'a str) -> (r: Result<Self, Error>)
        ensures
            r matches Ok(read) && Organisation::named(value@, read),
    {
        Ok(Organisation::from_name(value))
    }
}

impl<'a> TryFromSpecImpl<&'a str> for Organisation {
    /// What `try_from` gives is stated on `try_from` itself, as a relation.
    open spec fn obeys_try_from_spec() -> bool {
        false
    }

    open spec fn try_from_spec(value: &'a str) -> Result<Self, Error> {
        arbitrary()
    }
}

impl FromJson for Organisation {
    /// Any string.
    open spec fn accepts(doc: Json) -> bool {
        doc is Text
    }

    open spec fn decodes_to(doc: Json, value: Self) -> bool {
        doc matches Json::Text(name) && Self::named(name, value)
    }

    open spec fn spec_expected() -> Seq<char> {
        "Organisation"@
    }

    fn expected() -> (name: &'static str) {
        "Organisation"
    }

    fn from_json(doc: &JsonValue) -> (r: Option<Self>) {
        match doc.as_str() {
            Some(name) => Some(Self::from_name(name)),
            None => None,
        }
    }
}

} // verus!
