//! Catalog row types — brands, printers, toners and drums — and the request
//! shapes of the catalog endpoints with their structural validation. The
//! catalogs own these rows; the ledger only ever mutates a toner's or drum's
//! `stock` field.

use vstd::prelude::*;
use vstd::string::*;

use crate::error::{ApiError, ValidationCode};
use crate::ids::{fresh_uuid, is_uuid, spec_is_uuid};

verus! {

/// `rust_decimal::Decimal` carries an item's price. The crate's logic never
/// reads into a price; values pass through opaquely.
#[verifier::external_type_specification]
#[verifier::external_body]
pub struct ExDecimal(rust_decimal::Decimal);

/// A brand row.
pub struct Brand {
    pub id: String,
    pub name: String,
}

impl Brand {
    /// A new row under a freshly generated id.
    pub fn new(name: &str) -> (r: Brand)
        ensures
            spec_is_uuid(r.id@),
            r.name@ == name@,
    {
        Brand { id: fresh_uuid(), name: String::from_str(name) }
    }
}

/// A printer row. `brand`, `toner` and `drum` reference the brand row and the
/// currently assigned consumables; a movement's item is independent of them.
pub struct Printer {
    pub id: String,
    pub name: String,
    pub model: String,
    pub brand: String,
    pub toner: String,
    pub drum: String,
}

impl Printer {
    /// A new row under a freshly generated id.
    pub fn new(name: &str, model: &str, brand: String, toner: String, drum: String) -> (r:
        Printer)
        ensures
            spec_is_uuid(r.id@),
            r.name@ == name@,
            r.model@ == model@,
            r.brand == brand,
            r.toner == toner,
            r.drum == drum,
    {
        Printer {
            id: fresh_uuid(),
            name: String::from_str(name),
            model: String::from_str(model),
            brand,
            toner,
            drum,
        }
    }
}

/// A toner row; `stock` is the mutable on-hand count the ledger maintains.
pub struct Toner {
    pub id: String,
    pub name: String,
    pub stock: Option<i32>,
    pub price: Option<rust_decimal::Decimal>,
}

impl Toner {
    /// A new row under a freshly generated id.
    pub fn new(name: &str, stock: Option<i32>, price: Option<rust_decimal::Decimal>) -> (r:
        Toner)
        ensures
            spec_is_uuid(r.id@),
            r.name@ == name@,
            r.stock == stock,
            r.price == price,
    {
        Toner { id: fresh_uuid(), name: String::from_str(name), stock, price }
    }
}

impl Default for Toner {
    /// A placeholder row: fresh id, name "Unknown", no stock, no price.
    fn default() -> (r: Toner)
        ensures
            spec_is_uuid(r.id@),
            r.name@ == "Unknown"@,
            r.stock is None,
            r.price is None,
    {
        Toner {
            id: fresh_uuid(),
            name: String::from_str("Unknown"),
            stock: None,
            price: None,
        }
    }
}

/// A drum row; `stock` is the mutable on-hand count the ledger maintains.
pub struct Drum {
    pub id: String,
    pub name: String,
    pub stock: Option<i32>,
    pub price: Option<rust_decimal::Decimal>,
}

impl Drum {
    /// A new row under a freshly generated id.
    pub fn new(name: &str, stock: Option<i32>, price: Option<rust_decimal::Decimal>) -> (r:
        Drum)
        ensures
            spec_is_uuid(r.id@),
            r.name@ == name@,
            r.stock == stock,
            r.price == price,
    {
        Drum { id: fresh_uuid(), name: String::from_str(name), stock, price }
    }
}

impl Default for Drum {
    /// A placeholder row: fresh id, name "Unknown", no stock, no price.
    fn default() -> (r: Drum)
        ensures
            spec_is_uuid(r.id@),
            r.name@ == "Unknown"@,
            r.stock is None,
            r.price is None,
    {
        Drum {
            id: fresh_uuid(),
            name: String::from_str("Unknown"),
            stock: None,
            price: None,
        }
    }
}

/// Body of `POST /brands`.
pub struct CreateBrandRequest {
    pub name: String,
}

impl CreateBrandRequest {
    /// Structural checks, before any state is touched: the name must have at
    /// least three characters.
    pub fn validate(&self) -> (r: Result<(), ApiError>)
        ensures
            r is Ok <==> self.name@.len() >= 3,
            r is Err ==> r == Err::<(), ApiError>(
                ApiError::ValidationError(ValidationCode::NameTooShort),
            ),
    {
        if self.name.as_str().unicode_len() < 3 {
            Err(ApiError::ValidationError(ValidationCode::NameTooShort))
        } else {
            Ok(())
        }
    }
}

/// Body of `PUT /brands`.
pub struct UpdateBrandRequest {
    pub id: String,
    pub name: String,
}

impl UpdateBrandRequest {
    /// Structural checks: well-formed id, then name length.
    pub fn validate(&self) -> (r: Result<(), ApiError>)
        ensures
            r is Ok <==> spec_is_uuid(self.id@) && self.name@.len() >= 3,
            !spec_is_uuid(self.id@) ==> r == Err::<(), ApiError>(
                ApiError::ValidationError(ValidationCode::InvalidUuid),
            ),
            spec_is_uuid(self.id@) && self.name@.len() < 3 ==> r == Err::<(), ApiError>(
                ApiError::ValidationError(ValidationCode::NameTooShort),
            ),
    {
        if !is_uuid(self.id.as_str()) {
            Err(ApiError::ValidationError(ValidationCode::InvalidUuid))
        } else if self.name.as_str().unicode_len() < 3 {
            Err(ApiError::ValidationError(ValidationCode::NameTooShort))
        } else {
            Ok(())
        }
    }
}

/// Body of `POST /printers`.
pub struct CreatePrinterRequest {
    pub name: String,
    pub model: String,
    pub brand: String,
    pub toner: String,
    pub drum: String,
}

impl CreatePrinterRequest {
    /// Structural checks: name and model length, then the three referenced
    /// ids, in field order.
    pub fn validate(&self) -> (r: Result<(), ApiError>)
        ensures
            r is Ok <==> self.name@.len() >= 3 && self.model@.len() >= 3 && spec_is_uuid(
                self.brand@,
            ) && spec_is_uuid(self.toner@) && spec_is_uuid(self.drum@),
            self.name@.len() < 3 ==> r == Err::<(), ApiError>(
                ApiError::ValidationError(ValidationCode::NameTooShort),
            ),
            self.name@.len() >= 3 && self.model@.len() < 3 ==> r == Err::<(), ApiError>(
                ApiError::ValidationError(ValidationCode::ModelTooShort),
            ),
            self.name@.len() >= 3 && self.model@.len() >= 3 && r is Err ==> r == Err::<
                (),
                ApiError,
            >(ApiError::ValidationError(ValidationCode::InvalidUuid)),
    {
        if self.name.as_str().unicode_len() < 3 {
            Err(ApiError::ValidationError(ValidationCode::NameTooShort))
        } else if self.model.as_str().unicode_len() < 3 {
            Err(ApiError::ValidationError(ValidationCode::ModelTooShort))
        } else if !is_uuid(self.brand.as_str()) || !is_uuid(self.toner.as_str()) || !is_uuid(
            self.drum.as_str(),
        ) {
            Err(ApiError::ValidationError(ValidationCode::InvalidUuid))
        } else {
            Ok(())
        }
    }
}

/// Body of `PUT /printers`; absent fields are left unchanged.
pub struct UpdatePrinterRequest {
    pub id: String,
    pub name: Option<String>,
    pub model: Option<String>,
    pub brand: Option<String>,
    pub toner: Option<String>,
    pub drum: Option<String>,
}

impl UpdatePrinterRequest {
    /// Whether every supplied reference field is a well-formed id.
    pub open spec fn refs_well_formed(self) -> bool {
        &&& (self.brand matches Some(b) ==> spec_is_uuid(b@))
        &&& (self.toner matches Some(t) ==> spec_is_uuid(t@))
        &&& (self.drum matches Some(d) ==> spec_is_uuid(d@))
    }

    /// Structural checks: well-formed target id, supplied name and model
    /// lengths, then every supplied reference id.
    pub fn validate(&self) -> (r: Result<(), ApiError>)
        ensures
            r is Ok <==> spec_is_uuid(self.id@) && (self.name matches Some(n) ==> n@.len() >= 3)
                && (self.model matches Some(m) ==> m@.len() >= 3) && self.refs_well_formed(),
            !spec_is_uuid(self.id@) ==> r == Err::<(), ApiError>(
                ApiError::ValidationError(ValidationCode::InvalidUuid),
            ),
            spec_is_uuid(self.id@) && (self.name matches Some(n) && n@.len() < 3) ==> r == Err::<
                (),
                ApiError,
            >(ApiError::ValidationError(ValidationCode::NameTooShort)),
    {
        if !is_uuid(self.id.as_str()) {
            return Err(ApiError::ValidationError(ValidationCode::InvalidUuid));
        }
        if let Some(n) = &self.name {
            if n.as_str().unicode_len() < 3 {
                return Err(ApiError::ValidationError(ValidationCode::NameTooShort));
            }
        }
        if let Some(m) = &self.model {
            if m.as_str().unicode_len() < 3 {
                return Err(ApiError::ValidationError(ValidationCode::ModelTooShort));
            }
        }
        if let Some(b) = &self.brand {
            if !is_uuid(b.as_str()) {
                return Err(ApiError::ValidationError(ValidationCode::InvalidUuid));
            }
        }
        if let Some(t) = &self.toner {
            if !is_uuid(t.as_str()) {
                return Err(ApiError::ValidationError(ValidationCode::InvalidUuid));
            }
        }
        if let Some(d) = &self.drum {
            if !is_uuid(d.as_str()) {
                return Err(ApiError::ValidationError(ValidationCode::InvalidUuid));
            }
        }
        Ok(())
    }
}

/// Body of `POST /supplies/toners`.
pub struct CreateTonerRequest {
    pub name: String,
    pub stock: Option<i32>,
    pub price: Option<rust_decimal::Decimal>,
}

impl CreateTonerRequest {
    /// Structural checks: name length, then a non-negative stock if supplied.
    pub fn validate(&self) -> (r: Result<(), ApiError>)
        ensures
            r is Ok <==> self.name@.len() >= 3 && (self.stock matches Some(s) ==> s >= 0),
            self.name@.len() < 3 ==> r == Err::<(), ApiError>(
                ApiError::ValidationError(ValidationCode::NameTooShort),
            ),
            self.name@.len() >= 3 && r is Err ==> r == Err::<(), ApiError>(
                ApiError::ValidationError(ValidationCode::NegativeStock),
            ),
    {
        if self.name.as_str().unicode_len() < 3 {
            return Err(ApiError::ValidationError(ValidationCode::NameTooShort));
        }
        if let Some(s) = self.stock {
            if s < 0 {
                return Err(ApiError::ValidationError(ValidationCode::NegativeStock));
            }
        }
        Ok(())
    }
}

/// Body of `PUT /supplies/toners`; absent fields are left unchanged.
pub struct UpdateTonerRequest {
    pub id: String,
    pub name: Option<String>,
    pub stock: Option<i32>,
    pub price: Option<rust_decimal::Decimal>,
}

impl UpdateTonerRequest {
    /// Structural checks: well-formed id, supplied name length, non-negative
    /// supplied stock.
    pub fn validate(&self) -> (r: Result<(), ApiError>)
        ensures
            r is Ok <==> spec_is_uuid(self.id@) && (self.name matches Some(n) ==> n@.len() >= 3)
                && (self.stock matches Some(s) ==> s >= 0),
            !spec_is_uuid(self.id@) ==> r == Err::<(), ApiError>(
                ApiError::ValidationError(ValidationCode::InvalidUuid),
            ),
    {
        if !is_uuid(self.id.as_str()) {
            return Err(ApiError::ValidationError(ValidationCode::InvalidUuid));
        }
        if let Some(n) = &self.name {
            if n.as_str().unicode_len() < 3 {
                return Err(ApiError::ValidationError(ValidationCode::NameTooShort));
            }
        }
        if let Some(s) = self.stock {
            if s < 0 {
                return Err(ApiError::ValidationError(ValidationCode::NegativeStock));
            }
        }
        Ok(())
    }
}

/// Body of `POST /supplies/drums`.
pub struct CreateDrumRequest {
    pub name: String,
    pub stock: Option<i32>,
    pub price: Option<rust_decimal::Decimal>,
}

impl CreateDrumRequest {
    /// Structural checks: name length, then a non-negative stock if supplied.
    pub fn validate(&self) -> (r: Result<(), ApiError>)
        ensures
            r is Ok <==> self.name@.len() >= 3 && (self.stock matches Some(s) ==> s >= 0),
            self.name@.len() < 3 ==> r == Err::<(), ApiError>(
                ApiError::ValidationError(ValidationCode::NameTooShort),
            ),
            self.name@.len() >= 3 && r is Err ==> r == Err::<(), ApiError>(
                ApiError::ValidationError(ValidationCode::NegativeStock),
            ),
    {
        if self.name.as_str().unicode_len() < 3 {
            return Err(ApiError::ValidationError(ValidationCode::NameTooShort));
        }
        if let Some(s) = self.stock {
            if s < 0 {
                return Err(ApiError::ValidationError(ValidationCode::NegativeStock));
            }
        }
        Ok(())
    }
}

/// Body of `PUT /supplies/drums`; absent fields are left unchanged.
pub struct UpdateDrumRequest {
    pub id: String,
    pub name: Option<String>,
    pub stock: Option<i32>,
    pub price: Option<rust_decimal::Decimal>,
}

impl UpdateDrumRequest {
    /// Structural checks: well-formed id, supplied name length, non-negative
    /// supplied stock.
    pub fn validate(&self) -> (r: Result<(), ApiError>)
        ensures
            r is Ok <==> spec_is_uuid(self.id@) && (self.name matches Some(n) ==> n@.len() >= 3)
                && (self.stock matches Some(s) ==> s >= 0),
            !spec_is_uuid(self.id@) ==> r == Err::<(), ApiError>(
                ApiError::ValidationError(ValidationCode::InvalidUuid),
            ),
    {
        if !is_uuid(self.id.as_str()) {
            return Err(ApiError::ValidationError(ValidationCode::InvalidUuid));
        }
        if let Some(n) = &self.name {
            if n.as_str().unicode_len() < 3 {
                return Err(ApiError::ValidationError(ValidationCode::NameTooShort));
            }
        }
        if let Some(s) = self.stock {
            if s < 0 {
                return Err(ApiError::ValidationError(ValidationCode::NegativeStock));
            }
        }
        Ok(())
    }
}

/// Body of `DELETE /movements` (and of the other delete endpoints): just the
/// id of the row to remove.
pub struct DeleteRequest {
    pub id: String,
}

/// Body of `DELETE /supplies/drums`.
pub struct DeleteDrumRequest {
    pub id: String,
}

} // verus!
