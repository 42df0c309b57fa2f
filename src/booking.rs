//! One submission from end to end: map the fields, save the record, and render
//! the page that reports the outcome.
use vstd::prelude::*;
use crate::appointment::{map_consultation, map_grooming, Appointment};
use crate::page::{failed_page, failed_page_html, saved_page, saved_page_html};
use crate::record::{mapping_outcome, AppointmentKind, ValidationError};
use crate::store::{save, ConnectionPool, RecordId, StorageError};

verus! {

/// Why a submission was not saved.
#[derive(Clone, Debug, PartialEq, Eq)]
pub enum SubmitError {
    /// The submission lacked a required field.
    Validation(ValidationError),
    /// The record could not be written.
    Storage(StorageError),
}

/// Maps a submission of `kind` onto an appointment of that kind.
pub fn map_submission(kind: AppointmentKind, pairs: &Vec<(String, String)>) -> (r: Result<
    Appointment,
    ValidationError,
>)
    ensures
        match r {
            Ok(a) => a.kind() == kind && mapping_outcome(pairs@, kind) == Ok::<
                Seq<Seq<char>>,
                Seq<char>,
            >(a.field_values()),
            Err(e) => mapping_outcome(pairs@, kind) == Err::<Seq<Seq<char>>, Seq<char>>(
                e.field_name(),
            ),
        },
{
    match kind {
        AppointmentKind::Grooming => match map_grooming(pairs) {
            Ok(g) => Ok(Appointment::Grooming(g)),
            Err(e) => Err(e),
        },
        AppointmentKind::Consultation => match map_consultation(pairs) {
            Ok(c) => Ok(Appointment::Consultation(c)),
            Err(e) => Err(e),
        },
    }
}

/// Handles one submission of `kind`: maps `pairs` onto a record, saves it
/// through `pool`, and renders the page for the outcome. A missing field saves
/// nothing and names the first missing field in column order; a saved record is
/// echoed field by field; any failure renders the plain failure page.
pub fn submit(pool: &ConnectionPool, kind: AppointmentKind, pairs: &Vec<(String, String)>) -> (r: (
    Result<RecordId, SubmitError>,
    String,
))
    ensures
        mapping_outcome(pairs@, kind) matches Err(name) ==> r.0 matches Err(
            SubmitError::Validation(e),
        ) && e.field_name() == name && r.1@ == failed_page_html(kind),
        mapping_outcome(pairs@, kind) matches Ok(vals) ==> (r.0 is Ok ==> r.1@ == saved_page_html(
            kind,
            vals,
        )) && (r.0 is Err ==> r.0->Err_0 is Storage && r.1@ == failed_page_html(kind)),
{
    match map_submission(kind, pairs) {
        Err(e) => (Err(SubmitError::Validation(e)), failed_page(kind)),
        Ok(record) => match save(pool, &record) {
            Ok(id) => (Ok(id), saved_page(&record)),
            Err(e) => (Err(SubmitError::Storage(e)), failed_page(kind)),
        },
    }
}

} // verus!
