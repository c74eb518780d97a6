//! The identifier by which every record of the price service is keyed.

use vstd::prelude::*;
use serde_json::Value;
use crate::decimal::{
    all_digits, decimal, digits_value, lemma_text_u32_of_decimal, parse_u32, text_u32,
    unsigned_part,
};
use crate::decode::DecodeError;
use crate::json::{as_str, as_u64, document, is_number, parse, shape, Shape};

verus! {

/// The numeric identifier of a tradeable item.
#[derive(Debug, Clone, Copy, PartialEq, Eq, Hash, Structural)]
pub struct ItemId(u32);

/// Why a JSON value is not an item identifier.
#[derive(Debug, Clone, Copy, PartialEq, Eq, Structural)]
pub enum ItemIdError {
    /// A number that is no integer from zero to `u32::MAX`.
    OutOfRange,
    /// A string that is not the decimal text of such an integer.
    Format,
    /// Neither a number nor a string.
    Type,
}

impl ItemId {
    /// The identifier of the number `id`.
    pub closed spec fn spec_new(id: u32) -> Self {
        ItemId(id)
    }

    /// The number that the identifier wraps.
    pub closed spec fn spec_id(&self) -> u32 {
        self.0
    }

    /// Makes the identifier of the number `id`.
    #[verifier::when_used_as_spec(spec_new)]
    pub fn new(id: u32) -> (r: Self)
        ensures
            r == Self::spec_new(id),
            r.spec_id() == id,
    {
        ItemId(id)
    }

    /// The number that the identifier was made of.
    #[verifier::when_used_as_spec(spec_id)]
    pub fn id(&self) -> (r: u32)
        ensures
            r == self.spec_id(),
            *self == Self::spec_new(r),
    {
        self.0
    }

    /// An identifier is the number it was made of, and nothing else.
    pub proof fn lemma_new_id(n: u32, id: ItemId)
        ensures
            ItemId::new(n).id() == n,
            ItemId::new(id.id()) == id,
    {
    }

    /// What [`ItemId::from_u64`] makes of `value`.
    pub open spec fn of_u64(value: u64) -> Result<ItemId, ItemIdError> {
        if value <= u32::MAX {
            Ok(ItemId::new(value as u32))
        } else {
            Err(ItemIdError::OutOfRange)
        }
    }

    /// What [`ItemId::from_text`] makes of `text`.
    pub open spec fn of_text(text: Seq<char>) -> Result<ItemId, ItemIdError> {
        match text_u32(text) {
            Some(n) => Ok(ItemId::new(n)),
            None => Err(ItemIdError::Format),
        }
    }

    /// What [`ItemId::from_value`] makes of `v`: a number has to be an
    /// integer of 32 bits without a sign, a string has to write one in
    /// decimal, and nothing else is an identifier.
    pub open spec fn of_value(v: Value) -> Result<ItemId, ItemIdError> {
        match shape(v) {
            Shape::Number(Some(i)) if 0 <= i <= u32::MAX => Ok(ItemId::new(i as u32)),
            Shape::Number(_) => Err(ItemIdError::OutOfRange),
            Shape::Text(s) => Self::of_text(s),
            _ => Err(ItemIdError::Type),
        }
    }

    /// What [`ItemId::from_json`] makes of `body`.
    pub open spec fn of_json(body: Seq<u8>) -> Result<ItemId, DecodeError> {
        match document(body) {
            None => Err(DecodeError::Syntax),
            Some(v) => match Self::of_value(v) {
                Ok(id) => Ok(id),
                Err(_) => Err(DecodeError::Shape),
            },
        }
    }

    /// The identifier that a number of 64 bits stands for, if it fits.
    pub fn from_u64(value: u64) -> (r: Result<ItemId, ItemIdError>)
        ensures
            r == Self::of_u64(value),
    {
        if value <= 0xffff_ffff {
            Ok(ItemId::new(value as u32))
        } else {
            Err(ItemIdError::OutOfRange)
        }
    }

    /// The identifier that `text` writes in decimal.
    pub fn from_text(text: &str) -> (r: Result<ItemId, ItemIdError>)
        ensures
            r == Self::of_text(text@),
    {
        match parse_u32(text) {
            Some(n) => Ok(ItemId::new(n)),
            None => Err(ItemIdError::Format),
        }
    }

    /// The identifier that a JSON value stands for, be it a number or a
    /// string.
    pub fn from_value(v: &Value) -> (r: Result<ItemId, ItemIdError>)
        ensures
            r == Self::of_value(*v),
    {
        if is_number(v) {
            match as_u64(v) {
                Some(n) => Self::from_u64(n),
                None => Err(ItemIdError::OutOfRange),
            }
        } else {
            match as_str(v) {
                Some(text) => Self::from_text(text),
                None => Err(ItemIdError::Type),
            }
        }
    }

    /// The identifier that a JSON document stands for.
    pub fn from_json(body: &[u8]) -> (r: Result<ItemId, DecodeError>)
        ensures
            r == Self::of_json(body@),
    {
        match parse(body) {
            Err(_) => Err(DecodeError::Syntax),
            Ok(v) => match Self::from_value(&v) {
                Ok(id) => Ok(id),
                Err(_) => Err(DecodeError::Shape),
            },
        }
    }

    /// A number and the string that writes it in decimal decode to the same
    /// identifier, the one of that number.
    pub proof fn lemma_number_and_text_agree(number: Value, text: Value, n: u32)
        requires
            shape(number) == Shape::Number(Some(n as int)),
            shape(text) == Shape::Text(decimal(n as nat)),
        ensures
            Self::of_value(number) == Ok::<ItemId, ItemIdError>(ItemId::new(n)),
            Self::of_value(text) == Self::of_value(number),
            ItemId::new(n).id() == n,
    {
        lemma_text_u32_of_decimal(n);
    }

    /// A number that is negative, beyond 32 bits or no integer decodes to
    /// no identifier, and neither does a string that, a leading plus sign
    /// apart, is empty, holds anything but digits, or writes a number
    /// beyond 32 bits.
    pub proof fn lemma_rejects(v: Value)
        ensures
            shape(v) == Shape::Number(None) ==> Self::of_value(v) == Err::<ItemId, ItemIdError>(
                ItemIdError::OutOfRange,
            ),
            (shape(v) matches Shape::Number(Some(i)) && (i < 0 || i > u32::MAX)) ==> Self::of_value(
                v,
            ) == Err::<ItemId, ItemIdError>(ItemIdError::OutOfRange),
            (shape(v) matches Shape::Text(s) && (unsigned_part(s).len() == 0 || !all_digits(
                unsigned_part(s),
            ) || digits_value(unsigned_part(s)) > u32::MAX)) ==> Self::of_value(v) == Err::<
                ItemId,
                ItemIdError,
            >(ItemIdError::Format),
    {
    }
}

} // verus!
