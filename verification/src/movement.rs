//! The movement ledger's row type, the denormalized read shapes, and the
//! request bodies of the movement endpoints with their structural validation.

use vstd::prelude::*;
use vstd::string::*;

use crate::clock::now_millis;
use crate::error::{ApiError, ValidationCode};
use crate::ids::{fresh_uuid, is_uuid, spec_is_uuid};

verus! {

/// One ledger row: an append-only record of a stock change tied to a printer
/// and to exactly one catalog item (a toner or a drum). `item_id` is a
/// polymorphic reference, resolved against both item catalogs; `created_at`
/// is milliseconds since the Unix epoch, set once at creation.
pub struct Movement {
    pub id: String,
    pub printer_id: String,
    pub item_id: String,
    pub quantity: i32,
    pub created_at: i64,
}

impl Movement {
    /// A new row under a freshly generated id, stamped with the current time.
    pub fn new(printer_id: &str, item_id: &str, quantity: i32) -> (r: Movement)
        ensures
            spec_is_uuid(r.id@),
            r.printer_id@ == printer_id@,
            r.item_id@ == item_id@,
            r.quantity == quantity,
    {
        Movement {
            id: fresh_uuid(),
            printer_id: String::from_str(printer_id),
            item_id: String::from_str(item_id),
            quantity,
            created_at: now_millis(),
        }
    }
}

/// Printer columns denormalized into a movement read.
#[derive(Debug, PartialEq, Eq)]
pub struct PrinterDetails {
    pub id: String,
    pub name: String,
    pub model: String,
}

/// Item columns denormalized into a movement read, from whichever of the two
/// item catalogs the movement's `item_id` matches.
#[derive(Debug, PartialEq, Eq)]
pub struct ItemDetails {
    pub id: String,
    pub name: String,
}

/// One movement as the read path returns it: the row joined with its printer
/// and its resolved item.
#[derive(Debug, PartialEq, Eq)]
pub struct MovementDetails {
    pub id: String,
    pub printer: PrinterDetails,
    pub item: ItemDetails,
    pub quantity: i32,
    pub created_at: i64,
}

/// Body of `POST /movements`.
pub struct CreateMovementRequest {
    pub printer_id: String,
    pub item_id: String,
    pub quantity: i32,
}

impl CreateMovementRequest {
    /// Whether both referenced ids are well-formed.
    pub open spec fn ids_well_formed(self) -> bool {
        spec_is_uuid(self.printer_id@) && spec_is_uuid(self.item_id@)
    }

    /// Structural checks, before any state is touched: both ids must be
    /// well-formed. The quantity is checked later, by the write path itself.
    pub fn validate(&self) -> (r: Result<(), ApiError>)
        ensures
            r is Ok <==> self.ids_well_formed(),
            r is Err ==> r == Err::<(), ApiError>(
                ApiError::ValidationError(ValidationCode::InvalidUuid),
            ),
    {
        if !is_uuid(self.printer_id.as_str()) || !is_uuid(self.item_id.as_str()) {
            Err(ApiError::ValidationError(ValidationCode::InvalidUuid))
        } else {
            Ok(())
        }
    }
}

/// Body of `PUT /movements`; absent fields are left unchanged.
pub struct UpdateMovementRequest {
    pub id: String,
    pub printer_id: Option<String>,
    pub item_id: Option<String>,
    pub quantity: Option<i32>,
}

impl UpdateMovementRequest {
    /// Whether the target id and every supplied reference are well-formed.
    pub open spec fn ids_well_formed(self) -> bool {
        &&& spec_is_uuid(self.id@)
        &&& (self.printer_id matches Some(p) ==> spec_is_uuid(p@))
        &&& (self.item_id matches Some(it) ==> spec_is_uuid(it@))
    }

    /// Structural checks, before any state is touched: the target id and
    /// every supplied reference must be well-formed.
    pub fn validate(&self) -> (r: Result<(), ApiError>)
        ensures
            r is Ok <==> self.ids_well_formed(),
            r is Err ==> r == Err::<(), ApiError>(
                ApiError::ValidationError(ValidationCode::InvalidUuid),
            ),
    {
        if !is_uuid(self.id.as_str()) {
            return Err(ApiError::ValidationError(ValidationCode::InvalidUuid));
        }
        if let Some(p) = &self.printer_id {
            if !is_uuid(p.as_str()) {
                return Err(ApiError::ValidationError(ValidationCode::InvalidUuid));
            }
        }
        if let Some(it) = &self.item_id {
            if !is_uuid(it.as_str()) {
                return Err(ApiError::ValidationError(ValidationCode::InvalidUuid));
            }
        }
        Ok(())
    }
}

} // verus!
