//! Types of other crates (and of `core`) that the library holds or passes on
//! without looking inside them. Each declaration only makes the type usable in
//! verified signatures and fields; nothing is claimed about its contents.
use vstd::prelude::*;

verus! {

/// A universally unique identifier (`uuid::Uuid`), carried as an opaque value.
#[verifier::external_type_specification]
#[verifier::external_body]
pub struct ExUuid(uuid::Uuid);

/// `Clone` of `uuid::Uuid`, which is derived on a `Copy` type: the clone
/// is the same UUID.
pub assume_specification[ <uuid::Uuid as Clone>::clone ](u: &uuid::Uuid) -> (r: uuid::Uuid)
    ensures
        r == *u,
;

/// An ISO 639 language (`isolang::Language`), carried as an opaque value.
#[verifier::external_type_specification]
#[verifier::external_body]
pub struct ExLanguage(isolang::Language);

/// `Clone` of `isolang::Language`, which is derived on a `Copy` enum: the
/// clone is the same language.
pub assume_specification[ <isolang::Language as Clone>::clone ](l: &isolang::Language) -> (r:
    isolang::Language)
    ensures
        r == *l,
;

/// The HTTP client of `reqwest`, carried as an opaque value.
#[verifier::external_type_specification]
#[verifier::external_body]
pub struct ExHttpClient(reqwest::Client);

/// An error reported by `reqwest`.
#[verifier::external_type_specification]
#[verifier::external_body]
pub struct ExHttpError(reqwest::Error);

/// An error reported by `serde_json`.
#[verifier::external_type_specification]
#[verifier::external_body]
pub struct ExJsonError(serde_json::Error);

/// An error reported by `chrono` when a date or time string does not parse.
#[verifier::external_type_specification]
#[verifier::external_body]
pub struct ExDateParseError(chrono::ParseError);

/// An error reported by `chrono_tz` when a time zone name is unknown.
#[verifier::external_type_specification]
#[verifier::external_body]
pub struct ExTimezoneParseError(chrono_tz::ParseError);

} // verus!
