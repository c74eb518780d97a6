//! The item mapping: the catalogue of all items with what the game says of
//! each.

use vstd::prelude::*;
use serde_json::Value;
use crate::decode::{
    DecodeError,
    bool_of, optional, read_bool, read_optional_u32, read_text, required, text_of, u32_of,
};
use crate::json::{as_array, document, field, get, parse, shape, Shape};
use crate::types::ItemId;

verus! {

/// What the game says of one item.
#[derive(Debug, Clone)]
pub struct MappingItem {
    pub examine: String,
    pub id: ItemId,
    pub members: bool,
    pub low_alch: Option<u32>,
    pub limit: Option<u32>,
    pub value: Option<u32>,
    pub high_alch: Option<u32>,
    pub icon: String,
    pub name: String,
}

/// Why the item mapping cannot be given.
#[derive(Debug, Clone, Copy, PartialEq, Eq, Structural)]
pub enum MappingError {
    /// The body does not decode.
    Decode(DecodeError),
}

/// What a [`MappingItem`] holds.
pub struct MappingItemView {
    pub examine: Seq<char>,
    pub id: ItemId,
    pub members: bool,
    pub low_alch: Option<u32>,
    pub limit: Option<u32>,
    pub value: Option<u32>,
    pub high_alch: Option<u32>,
    pub icon: Seq<char>,
    pub name: Seq<char>,
}

impl View for MappingItem {
    type V = MappingItemView;

    open spec fn view(&self) -> MappingItemView {
        MappingItemView {
            examine: self.examine@,
            id: self.id,
            members: self.members,
            low_alch: self.low_alch,
            limit: self.limit,
            value: self.value,
            high_alch: self.high_alch,
            icon: self.icon@,
            name: self.name@,
        }
    }
}

/// The identifier that `v` stands for, where it stands for one.
pub open spec fn item_id_of(v: Value) -> Option<ItemId> {
    match ItemId::of_value(v) {
        Ok(id) => Some(id),
        Err(_) => None,
    }
}

impl MappingItem {
    /// What the value `v` decodes to: an object whose fields `examine`,
    /// `icon` and `name` are strings, whose field `id` is an item
    /// identifier, whose field `members` is a boolean, and whose fields
    /// `lowalch`, `highalch`, `limit` and `value` are numbers of 32 bits,
    /// each of these four absent or `null` at will.
    pub open spec fn of(v: Value) -> Option<MappingItemView> {
        match (
            required(field(v, "examine"@), |x: Value| text_of(x)),
            required(field(v, "id"@), |x: Value| item_id_of(x)),
            required(field(v, "members"@), |x: Value| bool_of(x)),
            optional(field(v, "lowalch"@), |x: Value| u32_of(x)),
            optional(field(v, "limit"@), |x: Value| u32_of(x)),
            optional(field(v, "value"@), |x: Value| u32_of(x)),
            optional(field(v, "highalch"@), |x: Value| u32_of(x)),
            required(field(v, "icon"@), |x: Value| text_of(x)),
            required(field(v, "name"@), |x: Value| text_of(x)),
        ) {
            (
                Some(examine),
                Some(id),
                Some(members),
                Some(low_alch),
                Some(limit),
                Some(value),
                Some(high_alch),
                Some(icon),
                Some(name),
            ) => Some(
                MappingItemView {
                    examine,
                    id,
                    members,
                    low_alch,
                    limit,
                    value,
                    high_alch,
                    icon,
                    name,
                },
            ),
            _ => None,
        }
    }

    /// Reads one item of the catalogue.
    pub fn from_value(v: &Value) -> (r: Option<MappingItem>)
        ensures
            match Self::of(*v) {
                Some(item) => r matches Some(x) && x@ == item,
                None => r is None,
            },
    {
        let examine = match get(v, "examine") {
            Some(x) => match read_text(x) {
                Some(x) => x,
                None => {
                    return None;
                },
            },
            None => {
                return None;
            },
        };
        let id = match get(v, "id") {
            Some(x) => match ItemId::from_value(x) {
                Ok(x) => x,
                Err(_) => {
                    return None;
                },
            },
            None => {
                return None;
            },
        };
        let members = match get(v, "members") {
            Some(x) => match read_bool(x) {
                Some(x) => x,
                None => {
                    return None;
                },
            },
            None => {
                return None;
            },
        };
        let low_alch = match read_optional_u32(get(v, "lowalch")) {
            Some(x) => x,
            None => {
                return None;
            },
        };
        let limit = match read_optional_u32(get(v, "limit")) {
            Some(x) => x,
            None => {
                return None;
            },
        };
        let value = match read_optional_u32(get(v, "value")) {
            Some(x) => x,
            None => {
                return None;
            },
        };
        let high_alch = match read_optional_u32(get(v, "highalch")) {
            Some(x) => x,
            None => {
                return None;
            },
        };
        let icon = match get(v, "icon") {
            Some(x) => match read_text(x) {
                Some(x) => x,
                None => {
                    return None;
                },
            },
            None => {
                return None;
            },
        };
        let name = match get(v, "name") {
            Some(x) => match read_text(x) {
                Some(x) => x,
                None => {
                    return None;
                },
            },
            None => {
                return None;
            },
        };
        Some(MappingItem { examine, id, members, low_alch, limit, value, high_alch, icon, name })
    }
}

/// The catalogue that the document `v` decodes to, in the order of `v`:
/// an array of which every element is an item.
pub open spec fn catalogue_of(v: Value) -> Option<Seq<MappingItemView>> {
    match shape(v) {
        Shape::Array(items) => if forall|i: int|
            0 <= i < items.len() ==> MappingItem::of(#[trigger] items[i]) is Some {
            Some(Seq::new(items.len(), |i: int| MappingItem::of(items[i])->0))
        } else {
            None
        },
        _ => None,
    }
}

/// What [`mapping`] makes of `body`.
pub open spec fn mapping_of(body: Seq<u8>) -> Result<Seq<MappingItemView>, MappingError> {
    match document(body) {
        None => Err(MappingError::Decode(DecodeError::Syntax)),
        Some(v) => match catalogue_of(v) {
            Some(s) => Ok(s),
            None => Err(MappingError::Decode(DecodeError::Shape)),
        },
    }
}

/// What a list of items holds, item by item.
pub open spec fn views(items: Seq<MappingItem>) -> Seq<MappingItemView> {
    Seq::new(items.len(), |i: int| items[i]@)
}

/// Reads a parsed body into the catalogue.
pub fn catalogue(v: &Value) -> (r: Option<Vec<MappingItem>>)
    ensures
        match catalogue_of(*v) {
            Some(s) => r matches Some(list) && views(list@) == s,
            None => r is None,
        },
{
    let items = match as_array(v) {
        Some(items) => items,
        None => {
            return None;
        },
    };
    let mut list: Vec<MappingItem> = Vec::new();
    let mut i: usize = 0;
    while i < items.len()
        invariant
            i <= items.len(),
            shape(*v) == Shape::Array(items@),
            list@.len() == i,
            forall|j: int| 0 <= j < i ==> MappingItem::of(#[trigger] items@[j]) == Some(list@[j]@),
        decreases items.len() - i,
    {
        match MappingItem::from_value(&items[i]) {
            Some(item) => {
                list.push(item);
            },
            None => {
                return None;
            },
        }
        i = i + 1;
    }
    assert(views(list@) =~= Seq::new(items@.len(), |j: int| MappingItem::of(items@[j])->0));
    Some(list)
}

/// The URL of the item mapping.
pub fn mapping_url(base_url: &str) -> (r: String)
    ensures
        r@ == base_url@ + "/mapping"@,
{
    let mut url = base_url.to_owned();
    url.append("/mapping");
    url
}

/// Reads the body of the item mapping: the items, in the order of the
/// body.
pub fn mapping(body: &[u8]) -> (r: Result<Vec<MappingItem>, MappingError>)
    ensures
        match mapping_of(body@) {
            Ok(s) => r matches Ok(list) && views(list@) == s,
            Err(e) => r is Err && r->Err_0 == e,
        },
{
    let v = match parse(body) {
        Ok(v) => v,
        Err(_) => {
            return Err(MappingError::Decode(DecodeError::Syntax));
        },
    };
    match catalogue(&v) {
        Some(list) => Ok(list),
        None => Err(MappingError::Decode(DecodeError::Shape)),
    }
}

} // verus!
