//! Results that come whole or page by page.

use crate::json::all_accepted;
use crate::json::all_decoded;
use crate::json::decode_items;
use crate::json::FromJson;
use crate::json::Json;
use crate::json::JsonValue;
use crate::text::decimal_text;
use crate::text::lemma_parse_decimal_text;
use crate::text::parse_u32_spec;
use vstd::prelude::*;
use vstd::std_specs::convert::FromSpecImpl;

verus! {

/// The total of a page, which the API returns as either a number or a string
/// of digits.
#[derive(Debug, Clone, Copy, PartialEq, Eq, Structural, PartialOrd, Ord, Hash)]
pub enum PaginatedTotal {
    /// The total returned as an `u32`.
    U32(u32),
    /// The total returned as a `String`, parsed into an `u32`.
    String(u32),
}

impl PaginatedTotal {
    /// The total as a number, however it was written.
    pub open spec fn spec_value(self) -> u32 {
        match self {
            PaginatedTotal::U32(n) => n,
            PaginatedTotal::String(n) => n,
        }
    }

    /// The total as a number, however it was written.
    pub fn value(self) -> (n: u32)
        ensures
            n == self.spec_value(),
    {
        match self {
            PaginatedTotal::U32(n) => n,
            PaginatedTotal::String(n) => n,
        }
    }

    /// The total that `doc` holds: a number where `doc` is one that fits, else
    /// the number written in the string that `doc` is.
    pub open spec fn spec_from_json(doc: Json) -> Option<PaginatedTotal> {
        match doc.as_u32() {
            Some(n) => Some(PaginatedTotal::U32(n)),
            None => match doc.as_u32_text() {
                Some(n) => Some(PaginatedTotal::String(n)),
                None => None,
            },
        }
    }
}

impl From<PaginatedTotal> for u32 {
    fn from(total: PaginatedTotal) -> (n: u32) {
        total.value()
    }
}

impl FromSpecImpl<PaginatedTotal> for u32 {
    open spec fn obeys_from_spec() -> bool {
        true
    }

    open spec fn from_spec(total: PaginatedTotal) -> u32 {
        total.spec_value()
    }
}

impl FromJson for PaginatedTotal {
    open spec fn accepts(doc: Json) -> bool {
        Self::spec_from_json(doc) is Some
    }

    open spec fn decodes_to(doc: Json, value: Self) -> bool {
        Self::spec_from_json(doc) == Some(value)
    }

    open spec fn spec_expected() -> Seq<char> {
        "PaginatedTotal"@
    }

    fn expected() -> (name: &'static str) {
        "PaginatedTotal"
    }

    fn from_json(doc: &JsonValue) -> (r: Option<Self>) {
        match doc.as_u32() {
            Some(n) => Some(PaginatedTotal::U32(n)),
            None => match doc.as_u32_text() {
                Some(n) => Some(PaginatedTotal::String(n)),
                None => None,
            },
        }
    }
}

/// A paginated result.
#[derive(Debug, Clone, PartialEq, Eq, PartialOrd, Ord, Hash)]
pub enum PaginatedResult<T> {
    /// All items that matched the criteria.
    Items(Vec<T>),
    /// A paginated result.
    Page {
        /// How many items in total matched the criteria.
        total: PaginatedTotal,
        /// `limit` items, offset by `offset`.
        items: Vec<T>,
    },
}

impl<T> PaginatedResult<T> {
    /// The items of the response, in the order received.
    pub open spec fn spec_items(self) -> Seq<T> {
        match self {
            PaginatedResult::Items(items) => items@,
            PaginatedResult::Page { items, .. } => items@,
        }
    }

    /// The items of the response, as the vector that holds them.
    pub open spec fn spec_into_items(self) -> Vec<T> {
        match self {
            PaginatedResult::Items(items) => items,
            PaginatedResult::Page { items, .. } => items,
        }
    }

    /// The total that came with the response, as a number, where it is a page.
    pub open spec fn spec_total(self) -> Option<u32> {
        match self {
            PaginatedResult::Items(_) => None,
            PaginatedResult::Page { total, .. } => Some(total.spec_value()),
        }
    }

    /// Get the items from the response.
    #[must_use]
    pub fn items(&self) -> (r: &[T])
        ensures
            r@ == self.spec_items(),
    {
        match self {
            PaginatedResult::Items(items) => items.as_slice(),
            PaginatedResult::Page { items, .. } => items.as_slice(),
        }
    }

    /// Convert response into a [`Vec<T>`].
    #[must_use]
    pub fn into_items(self) -> (r: Vec<T>)
        ensures
            r == self.spec_into_items(),
            r@ == self.spec_items(),
    {
        match self {
            PaginatedResult::Items(items) => items,
            PaginatedResult::Page { items, .. } => items,
        }
    }

    /// The total that came with the response, as a number, where it is a page.
    pub fn total(&self) -> (r: Option<u32>)
        ensures
            r == self.spec_total(),
    {
        match self {
            PaginatedResult::Items(_) => None,
            PaginatedResult::Page { total, .. } => Some(total.value()),
        }
    }
}

impl<T> From<PaginatedResult<T>> for Vec<T> {
    fn from(result: PaginatedResult<T>) -> (r: Vec<T>) {
        result.into_items()
    }
}

impl<T> FromSpecImpl<PaginatedResult<T>> for Vec<T> {
    open spec fn obeys_from_spec() -> bool {
        true
    }

    open spec fn from_spec(result: PaginatedResult<T>) -> Vec<T> {
        result.spec_into_items()
    }
}

impl<T> IntoIterator for PaginatedResult<T> {
    type Item = T;

    type IntoIter = std::vec::IntoIter<T>;

    fn into_iter(self) -> (r: std::vec::IntoIter<T>)
        ensures
            vstd::std_specs::vec::into_iter_elts(r) == self.spec_items(),
    {
        self.into_items().into_iter()
    }
}

impl<T> std::ops::Deref for PaginatedResult<T> {
    type Target = [T];

    fn deref(&self) -> (r: &[T])
        ensures
            r@ == self.spec_items(),
    {
        self.items()
    }
}

impl<T: FromJson> PaginatedResult<T> {
    /// Whether `doc` is a page: an object with a total under `total`, and
    /// under `items`, where it has that member, an array of items.
    pub open spec fn is_page(doc: Json) -> bool {
        &&& doc is Object
        &&& doc.field("total"@) matches Some(total)
        &&& PaginatedTotal::accepts(total)
        &&& doc.field("items"@) matches Some(items) ==> Vec::<T>::accepts(items)
    }
}

impl<T: FromJson> FromJson for PaginatedResult<T> {
    /// An array of items, or a page.
    open spec fn accepts(doc: Json) -> bool {
        match doc {
            Json::List(docs) => all_accepted::<T>(docs),
            _ => Self::is_page(doc),
        }
    }

    /// An array gives `Items` with what its items hold; a page gives `Page`
    /// with its total and with what its items hold, none where the object has
    /// no `items`.
    open spec fn decodes_to(doc: Json, value: Self) -> bool {
        match doc {
            Json::List(docs) => value matches PaginatedResult::Items(items) && all_decoded::<T>(
                docs,
                items@,
            ),
            _ => {
                &&& value matches PaginatedResult::Page { total, items }
                &&& PaginatedTotal::spec_from_json(doc.field("total"@)->0) == Some(total)
                &&& match doc.field("items"@) {
                    Some(held) => Vec::<T>::decodes_to(held, items),
                    None => items@.len() == 0,
                }
            },
        }
    }

    open spec fn spec_expected() -> Seq<char> {
        "PaginatedResult"@
    }

    fn expected() -> (name: &'static str) {
        "PaginatedResult"
    }

    fn from_json(doc: &JsonValue) -> (r: Option<Self>) {
        match doc.as_array() {
            Some(docs) => {
                assert(doc@->List_0 =~= docs@.map_values(|d: JsonValue| d@));
                match decode_items::<T>(docs) {
                    Some(items) => Some(PaginatedResult::Items(items)),
                    None => None,
                }
            },
            None => {
                if !doc.is_object() {
                    return None;
                }
                let total = match doc.get("total") {
                    Some(held) => match PaginatedTotal::from_json(held) {
                        Some(total) => total,
                        None => {
                            return None;
                        },
                    },
                    None => {
                        return None;
                    },
                };
                let items: Vec<T> = match doc.get("items") {
                    Some(held) => match Vec::<T>::from_json(held) {
                        Some(items) => items,
                        None => {
                            return None;
                        },
                    },
                    None => Vec::new(),
                };
                Some(PaginatedResult::Page { total, items })
            },
        }
    }
}

/// A page's total is read alike from a number and from the string of digits
/// that denotes the same number: whatever else the two objects hold, both
/// decode to a page whose total is that number.
pub proof fn lemma_total_shape_tolerance<T: FromJson>(
    with_number: Json,
    with_text: Json,
    n: u32,
    digits: Seq<char>,
    from_number: PaginatedResult<T>,
    from_text: PaginatedResult<T>,
)
    requires
        with_number is Object,
        with_text is Object,
        with_number.field("total"@) == Some(Json::PosInt(n as u64)),
        with_text.field("total"@) == Some(Json::Text(digits)),
        parse_u32_spec(digits) == Some(n),
        PaginatedResult::<T>::decodes_to(with_number, from_number),
        PaginatedResult::<T>::decodes_to(with_text, from_text),
    ensures
        from_number.spec_total() == Some(n),
        from_text.spec_total() == Some(n),
        from_number is Page,
        from_text is Page,
{
}

/// The decimal numeral of a number is a string of digits that denotes it, so
/// a total written as that numeral is accepted and reads as the number.
pub proof fn lemma_total_from_numeral(n: u32)
    ensures
        PaginatedTotal::spec_from_json(Json::Text(decimal_text(n as nat))) == Some(
            PaginatedTotal::String(n),
        ),
        PaginatedTotal::spec_from_json(Json::PosInt(n as u64)) == Some(PaginatedTotal::U32(n)),
{
    lemma_parse_decimal_text(n);
}

/// Whether an object with a total is accepted as a page depends on its
/// `items` alone, not on how the total is written.
pub proof fn lemma_page_accepted_either_way<T: FromJson>(
    with_number: Json,
    with_text: Json,
    n: u32,
    digits: Seq<char>,
)
    requires
        with_number is Object,
        with_text is Object,
        with_number.field("total"@) == Some(Json::PosInt(n as u64)),
        with_text.field("total"@) == Some(Json::Text(digits)),
        parse_u32_spec(digits) == Some(n),
        with_number.field("items"@) == with_text.field("items"@),
    ensures
        PaginatedResult::<T>::accepts(with_number) == PaginatedResult::<T>::accepts(with_text),
{
}

} // verus!
