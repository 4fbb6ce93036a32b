//! Decoding a JSON document into a value.
//!
//! Decoding is all or nothing: a document either is accepted and gives the
//! one value that agrees with it, or it is malformed and gives no value.

use crate::error::DecodeError;
use crate::json::{docs_of, lemma_docs_of, Doc, Json};
use crate::models::general::Amount;
use vstd::prelude::*;

verus! {

/// A value that can be decoded from a JSON document.
pub trait Decode: Sized {
    /// Whether `d` is a document of this type.
    spec fn accepts(d: Doc) -> bool;

    /// Whether this value is the one that `d` describes.
    spec fn agrees(&self, d: Doc) -> bool;

    /// Decodes `j`, or reports that it is malformed.
    fn decode(j: &Json) -> (r: Result<Self, DecodeError>)
        ensures
            match r {
                Ok(x) => Self::accepts(j@) && x.agrees(j@),
                Err(e) => e == DecodeError::Malformed && !Self::accepts(j@),
            },
    ;
}

/// Whether the record `d` has a member under `key` that is a document of
/// type `T`.
pub open spec fn holds<T: Decode>(d: Doc, key: Seq<char>) -> bool {
    d.member(key) matches Some(x) && T::accepts(x)
}

/// Whether `value` is what the record `d` holds under `key`.
pub open spec fn held<T: Decode>(d: Doc, key: Seq<char>, value: T) -> bool {
    d.member(key) matches Some(x) && value.agrees(x)
}

/// Whether the record `d` has no member under `key`, or one that is null or
/// a document of type `T`.
pub open spec fn may_hold<T: Decode>(d: Doc, key: Seq<char>) -> bool {
    match d.member(key) {
        None => true,
        Some(x) => Option::<T>::accepts(x),
    }
}

/// Whether `value` is what the record `d` holds under `key`: nothing where
/// the member is missing or null.
pub open spec fn may_be_held<T: Decode>(d: Doc, key: Seq<char>, value: Option<T>) -> bool {
    match d.member(key) {
        None => value is None,
        Some(x) => value.agrees(x),
    }
}

/// Decodes the member that must stand under `key`.
pub fn required<T: Decode>(j: &Json, key: &str) -> (r: Result<T, DecodeError>)
    ensures
        match r {
            Ok(x) => holds::<T>(j@, key@) && held(j@, key@, x),
            Err(e) => e == DecodeError::Malformed && !holds::<T>(j@, key@),
        },
{
    match j.member(key) {
        Some(inner) => T::decode(inner),
        None => Err(DecodeError::Malformed),
    }
}

/// Decodes the member that may stand under `key`.
pub fn optional<T: Decode>(j: &Json, key: &str) -> (r: Result<Option<T>, DecodeError>)
    ensures
        match r {
            Ok(x) => may_hold::<T>(j@, key@) && may_be_held(j@, key@, x),
            Err(e) => e == DecodeError::Malformed && !may_hold::<T>(j@, key@),
        },
{
    match j.member(key) {
        Some(inner) => Option::<T>::decode(inner),
        None => Ok(None),
    }
}

impl Decode for i64 {
    open spec fn accepts(d: Doc) -> bool {
        d is Int
    }

    open spec fn agrees(&self, d: Doc) -> bool {
        d == Doc::Int(*self)
    }

    fn decode(j: &Json) -> (r: Result<i64, DecodeError>) {
        match j {
            Json::Int(n) => Ok(*n),
            _ => Err(DecodeError::Malformed),
        }
    }
}

impl Decode for String {
    open spec fn accepts(d: Doc) -> bool {
        d is Text
    }

    open spec fn agrees(&self, d: Doc) -> bool {
        d == Doc::Text(self@)
    }

    fn decode(j: &Json) -> (r: Result<String, DecodeError>) {
        match j {
            Json::Text(t) => Ok(t.clone()),
            _ => Err(DecodeError::Malformed),
        }
    }
}

impl Decode for Amount {
    open spec fn accepts(d: Doc) -> bool {
        d is Int || d is Real
    }

    open spec fn agrees(&self, d: Doc) -> bool {
        match self {
            Amount::Whole(n) => d == Doc::Int(*n),
            Amount::Decimal(t) => d == Doc::Real(t@),
        }
    }

    fn decode(j: &Json) -> (r: Result<Amount, DecodeError>) {
        match j {
            Json::Int(n) => Ok(Amount::Whole(*n)),
            Json::Real(t) => Ok(Amount::Decimal(t.clone())),
            _ => Err(DecodeError::Malformed),
        }
    }
}

impl<T: Decode> Decode for Option<T> {
    open spec fn accepts(d: Doc) -> bool {
        d is Null || T::accepts(d)
    }

    open spec fn agrees(&self, d: Doc) -> bool {
        match self {
            None => d is Null,
            Some(x) => !(d is Null) && x.agrees(d),
        }
    }

    fn decode(j: &Json) -> (r: Result<Option<T>, DecodeError>) {
        match j {
            Json::Null => Ok(None),
            _ => match T::decode(j) {
                Ok(x) => Ok(Some(x)),
                Err(e) => Err(e),
            },
        }
    }
}

impl<T: Decode> Decode for Vec<T> {
    open spec fn accepts(d: Doc) -> bool {
        d matches Doc::List(items) && forall|i: int|
            0 <= i < items.len() ==> T::accepts(#[trigger] items[i])
    }

    open spec fn agrees(&self, d: Doc) -> bool {
        d matches Doc::List(items) && self@.len() == items.len() && forall|i: int|
            0 <= i < items.len() ==> (#[trigger] self@[i]).agrees(items[i])
    }

    fn decode(j: &Json) -> (r: Result<Vec<T>, DecodeError>) {
        match j {
            Json::List(items) => {
                let ghost docs = docs_of(items@);
                proof {
                    lemma_docs_of(items@);
                    assert(j@ == Doc::List(docs));
                }
                let mut out: Vec<T> = Vec::new();
                let mut i: usize = 0;
                while i < items.len()
                    invariant
                        i <= items@.len(),
                        j@ == Doc::List(docs),
                        docs.len() == items@.len(),
                        forall|k: int| 0 <= k < items@.len() ==> #[trigger] docs[k] == items@[k]@,
                        out@.len() == i,
                        forall|k: int| 0 <= k < i ==> T::accepts(#[trigger] docs[k]),
                        forall|k: int| 0 <= k < i ==> (#[trigger] out@[k]).agrees(docs[k]),
                    decreases items@.len() - i,
                {
                    match T::decode(&items[i]) {
                        Ok(x) => {
                            out.push(x);
                        },
                        Err(e) => {
                            proof {
                                assert(!T::accepts(docs[i as int]));
                                assert(j@->List_0 == docs);
                            }
                            return Err(e);
                        },
                    }
                    i += 1;
                }
                Ok(out)
            },
            _ => Err(DecodeError::Malformed),
        }
    }
}

} // verus!
