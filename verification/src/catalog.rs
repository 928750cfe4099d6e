//! Message catalogs: mappings from the decimal numeral of an error code to a
//! human-readable message, one for the codes shared by all services and one
//! for the codes of a single service.

use crate::decimal::{code_to_string, decimal, lemma_decimal_injective};
use std::collections::HashMap;
use vstd::hash_map::StringHashMap;
use vstd::prelude::*;

verus! {

/// Which of the two catalogs holds the messages of a code.
#[derive(Debug, Clone, Copy, PartialEq, Eq, Structural)]
pub enum CatalogKind {
    /// Codes that mean the same in every service.
    Global,
    /// Codes of one service only.
    Service,
}

/// First code of the global range.
pub const GLOBAL_CODES_START: u16 = 1000;

/// First code after the global range.
pub const GLOBAL_CODES_END: u16 = 2000;

/// A code is global when it lies in `[1000, 2000)`.
pub open spec fn is_global_code(code: u16) -> bool {
    GLOBAL_CODES_START <= code < GLOBAL_CODES_END
}

/// The catalog that is consulted for `code`.
pub open spec fn kind_of(code: u16) -> CatalogKind {
    if is_global_code(code) {
        CatalogKind::Global
    } else {
        CatalogKind::Service
    }
}

/// The view of an optional string.
pub open spec fn text_of(s: Option<String>) -> Option<Seq<char>> {
    match s {
        Some(t) => Some(t@),
        None => None,
    }
}

impl CatalogKind {
    /// The catalog that is consulted for `code`.
    pub fn of(code: u16) -> (kind: CatalogKind)
        ensures
            kind == kind_of(code),
    {
        if code >= GLOBAL_CODES_START && code < GLOBAL_CODES_END {
            CatalogKind::Global
        } else {
            CatalogKind::Service
        }
    }

    /// Name of the environment variable that may hold the path of this
    /// catalog's file.
    pub open spec fn spec_path_variable(self) -> Seq<char> {
        match self {
            CatalogKind::Global => "GLOBAL_ERROR_FILE_PATH"@,
            CatalogKind::Service => "SERVICE_ERROR_FILE_PATH"@,
        }
    }

    /// Path of this catalog's file when none is configured.
    pub open spec fn spec_default_path(self) -> Seq<char> {
        match self {
            CatalogKind::Global => "error.json"@,
            CatalogKind::Service => "apps/rust_forge_boilerplate/error.json"@,
        }
    }

    /// Path of this catalog's file: the configured one, or the default.
    pub open spec fn spec_file_path(self, configured: Option<Seq<char>>) -> Seq<char> {
        match configured {
            Some(path) => path,
            None => self.spec_default_path(),
        }
    }

    /// Name of the environment variable that may hold the path of this
    /// catalog's file.
    pub fn path_variable(&self) -> (name: &'static str)
        ensures
            name@ == self.spec_path_variable(),
    {
        match self {
            CatalogKind::Global => "GLOBAL_ERROR_FILE_PATH",
            CatalogKind::Service => "SERVICE_ERROR_FILE_PATH",
        }
    }

    /// Path of this catalog's file when none is configured.
    pub fn default_path(&self) -> (path: &'static str)
        ensures
            path@ == self.spec_default_path(),
    {
        match self {
            CatalogKind::Global => "error.json",
            CatalogKind::Service => "apps/rust_forge_boilerplate/error.json",
        }
    }

    /// Path of this catalog's file: `configured` where it is present, else
    /// the default path of this kind.
    pub fn file_path(&self, configured: Option<String>) -> (path: String)
        ensures
            path@ == self.spec_file_path(text_of(configured)),
    {
        match configured {
            Some(path) => path,
            None => String::from_str(self.default_path()),
        }
    }
}

/// What `serde_json::from_str::<HashMap<String, String>>` makes of a text:
/// the mapping it decodes, or `None` where it reports an error.
pub uninterp spec fn json_string_map(text: Seq<char>) -> Option<Map<Seq<char>, Seq<char>>>;

/// The mapping that a list of key and message pairs stands for; where a key
/// comes twice, the later pair counts.
pub open spec fn pairs_to_map(pairs: Seq<(String, String)>) -> Map<Seq<char>, Seq<char>>
    decreases pairs.len(),
{
    if pairs.len() == 0 {
        Map::empty()
    } else {
        pairs_to_map(pairs.drop_last()).insert(pairs.last().0@, pairs.last().1@)
    }
}

/// The catalog that a decoding result stands for: the decoded mapping, or the
/// empty mapping where decoding failed.
pub open spec fn catalog_of(decoded: Option<Map<Seq<char>, Seq<char>>>) -> Map<
    Seq<char>,
    Seq<char>,
> {
    match decoded {
        Some(messages) => messages,
        None => Map::empty(),
    }
}

/// The message that a catalog holds for `code`, if any: the entry under the
/// decimal numeral of the code.
pub open spec fn lookup(messages: Map<Seq<char>, Seq<char>>, code: u16) -> Option<Seq<char>> {
    if messages.contains_key(decimal(code as nat)) {
        Some(messages[decimal(code as nat)])
    } else {
        None
    }
}

/// Calls `serde_json::from_str` to decode `text` as a JSON object whose values
/// are all strings, and hands the entries out as pairs. The contract names the
/// decoded mapping `json_string_map(text)` and claims that decoding fails
/// exactly where that name is `None`, and that the pairs stand for that
/// mapping otherwise. Nothing is claimed about the order of the pairs.
#[verifier::external_body]
fn decode_string_map(text: &str) -> (decoded: Option<Vec<(String, String)>>)
    ensures
        decoded is Some <==> json_string_map(text@) is Some,
        decoded matches Some(pairs) ==> json_string_map(text@) == Some(pairs_to_map(pairs@)),
{
    serde_json::from_str::<HashMap<String, String>>(text).ok().map(|m| m.into_iter().collect())
}

/// An immutable mapping from the decimal numeral of an error code to its
/// message.
pub struct Catalog {
    entries: StringHashMap<String>,
}

impl View for Catalog {
    type V = Map<Seq<char>, Seq<char>>;

    closed spec fn view(&self) -> Map<Seq<char>, Seq<char>> {
        self.entries@.map_values(|message: String| message@)
    }
}

impl Catalog {
    /// The catalog without entries.
    pub fn new() -> (catalog: Catalog)
        ensures
            catalog@ == Map::<Seq<char>, Seq<char>>::empty(),
    {
        let entries: StringHashMap<String> = StringHashMap::new();
        let catalog = Catalog { entries };
        assert(catalog@ =~= Map::<Seq<char>, Seq<char>>::empty());
        catalog
    }

    /// The catalog with one entry for each pair; where a key comes twice, the
    /// later pair counts.
    pub fn from_pairs(pairs: Vec<(String, String)>) -> (catalog: Catalog)
        ensures
            catalog@ == pairs_to_map(pairs@),
    {
        let mut catalog = Catalog::new();
        let mut i: usize = 0;
        proof {
            assert(pairs@.take(0) =~= Seq::<(String, String)>::empty());
        }
        while i < pairs.len()
            invariant
                i <= pairs.len(),
                catalog@ == pairs_to_map(pairs@.take(i as int)),
            decreases pairs.len() - i,
        {
            let key = pairs[i].0.clone();
            let message = pairs[i].1.clone();
            let ghost before = catalog@;
            catalog.entries.insert(key, message);
            proof {
                assert(pairs@.take(i as int + 1).drop_last() =~= pairs@.take(i as int));
                assert(catalog@ =~= before.insert(pairs@[i as int].0@, pairs@[i as int].1@));
            }
            i += 1;
        }
        proof {
            assert(pairs@.take(pairs.len() as int) =~= pairs@);
        }
        catalog
    }

    /// The catalog that a decoding result stands for: the decoded entries, or
    /// no entries where decoding failed.
    pub fn from_decoded(decoded: Option<Vec<(String, String)>>) -> (catalog: Catalog)
        ensures
            catalog@ == match decoded {
                Some(pairs) => pairs_to_map(pairs@),
                None => Map::<Seq<char>, Seq<char>>::empty(),
            },
    {
        match decoded {
            Some(pairs) => Catalog::from_pairs(pairs),
            None => Catalog::new(),
        }
    }

    /// Decodes the text of a catalog file: a JSON object from the decimal
    /// numeral of a code to its message. A text that is no such object gives
    /// the catalog without entries.
    pub fn parse(text: &str) -> (catalog: Catalog)
        ensures
            catalog@ == catalog_of(json_string_map(text@)),
    {
        Catalog::from_decoded(decode_string_map(text))
    }

    /// The message that the catalog holds for `code`, if any.
    pub fn get(&self, code: u16) -> (message: Option<String>)
        ensures
            text_of(message) == lookup(self@, code),
    {
        let key = code_to_string(code);
        match self.entries.get(key.as_str()) {
            Some(message) => Some(message.clone()),
            None => None,
        }
    }
}

/// The two catalogs that messages are resolved from.
pub struct Catalogs<'a> {
    /// Messages of the global codes.
    pub global: &'a Catalog,
    /// Messages of the codes of this service.
    pub service: &'a Catalog,
}

/// What a pair of catalogs holds.
pub struct CatalogsView {
    /// Messages of the global codes.
    pub global: Map<Seq<char>, Seq<char>>,
    /// Messages of the codes of this service.
    pub service: Map<Seq<char>, Seq<char>>,
}

impl CatalogsView {
    /// The catalog of the given kind.
    pub open spec fn select(self, kind: CatalogKind) -> Map<Seq<char>, Seq<char>> {
        match kind {
            CatalogKind::Global => self.global,
            CatalogKind::Service => self.service,
        }
    }
}

impl<'a> View for Catalogs<'a> {
    type V = CatalogsView;

    open spec fn view(&self) -> CatalogsView {
        CatalogsView { global: self.global@, service: self.service@ }
    }
}

impl<'a> Catalogs<'a> {
    /// Pairs the catalog of the global codes with that of the service's own.
    pub fn new(global: &'a Catalog, service: &'a Catalog) -> (catalogs: Catalogs<'a>)
        ensures
            catalogs@ == (CatalogsView { global: global@, service: service@ }),
    {
        Catalogs { global, service }
    }

    /// The catalog of the given kind.
    pub fn select(&self, kind: CatalogKind) -> (catalog: &'a Catalog)
        ensures
            catalog@ == self@.select(kind),
    {
        match kind {
            CatalogKind::Global => self.global,
            CatalogKind::Service => self.service,
        }
    }
}

/// The message for `code`: the entry of the catalog that the code's range
/// selects, or `fallback` where that catalog has none.
pub open spec fn resolve(catalogs: CatalogsView, code: u16, fallback: Seq<char>) -> Seq<char> {
    match lookup(catalogs.select(kind_of(code)), code) {
        Some(message) => message,
        None => fallback,
    }
}

/// Resolves `code` to its message: codes in `[1000, 2000)` are looked up in
/// the global catalog, all others in the service catalog; a code without an
/// entry gives `fallback` unchanged.
pub fn get_error_message(catalogs: &Catalogs, code: u16, fallback: &str) -> (message: String)
    ensures
        message@ == resolve(catalogs@, code, fallback@),
{
    match catalogs.select(CatalogKind::of(code)).get(code) {
        Some(message) => message,
        None => String::from_str(fallback),
    }
}

/// Different codes are kept under different keys: an entry for one code
/// changes the message of no other code.
pub proof fn lemma_entry_of_one_code_leaves_the_others(
    messages: Map<Seq<char>, Seq<char>>,
    code: u16,
    message: Seq<char>,
    other: u16,
)
    requires
        other != code,
    ensures
        decimal(other as nat) != decimal(code as nat),
        lookup(messages.insert(decimal(code as nat), message), other) == lookup(messages, other),
        lookup(messages.insert(decimal(code as nat), message), code) == Some(message),
{
    if decimal(other as nat) == decimal(code as nat) {
        lemma_decimal_injective(other as nat, code as nat);
    }
}

/// Resolving a global code consults the global catalog alone: two pairs of
/// catalogs with the same global catalog give the same message, whatever
/// their service catalogs hold.
pub proof fn lemma_global_code_ignores_service_catalog(
    catalogs: CatalogsView,
    other: CatalogsView,
    code: u16,
    fallback: Seq<char>,
)
    requires
        1000 <= code < 2000,
        catalogs.global == other.global,
    ensures
        resolve(catalogs, code, fallback) == resolve(other, code, fallback),
        resolve(catalogs, code, fallback) == match lookup(catalogs.global, code) {
            Some(message) => message,
            None => fallback,
        },
{
}

/// Resolving a code outside the global range consults the service catalog
/// alone: two pairs of catalogs with the same service catalog give the same
/// message, whatever their global catalogs hold.
pub proof fn lemma_service_code_ignores_global_catalog(
    catalogs: CatalogsView,
    other: CatalogsView,
    code: u16,
    fallback: Seq<char>,
)
    requires
        !(1000 <= code < 2000),
        catalogs.service == other.service,
    ensures
        resolve(catalogs, code, fallback) == resolve(other, code, fallback),
        resolve(catalogs, code, fallback) == match lookup(catalogs.service, code) {
            Some(message) => message,
            None => fallback,
        },
{
}

} // verus!
