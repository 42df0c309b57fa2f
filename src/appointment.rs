//! Typed appointment records and the mappers that build them from a submission.
use vstd::prelude::*;
use crate::record::{collect_fields, mapping_outcome, AppointmentKind, ValidationError, FIELD_COUNT};

verus! {

/// A grooming (bath and trim) appointment, as stored in its table.
#[derive(Clone, Debug, PartialEq, Eq)]
pub struct GroomingAppointment {
    pub owner_name: String,
    pub owner_document_id: String,
    pub owner_phone: String,
    pub pet_name: String,
    pub reason: String,
    pub date: String,
    pub time: String,
}

/// A veterinary consultation appointment, as stored in its table.
#[derive(Clone, Debug, PartialEq, Eq)]
pub struct ConsultationAppointment {
    pub owner_name: String,
    pub owner_document_id: String,
    pub owner_phone: String,
    pub pet: String,
    pub reason: String,
    pub date: String,
    pub time: String,
}

/// Either kind of appointment, as handed to the writer.
#[derive(Clone, Debug, PartialEq, Eq)]
pub enum Appointment {
    Grooming(GroomingAppointment),
    Consultation(ConsultationAppointment),
}

impl GroomingAppointment {
    /// The record's fields in the table's column order.
    pub open spec fn field_values(self) -> Seq<Seq<char>> {
        seq![
            self.owner_name@,
            self.owner_document_id@,
            self.owner_phone@,
            self.pet_name@,
            self.reason@,
            self.date@,
            self.time@,
        ]
    }
}

impl ConsultationAppointment {
    /// The record's fields in the table's column order.
    pub open spec fn field_values(self) -> Seq<Seq<char>> {
        seq![
            self.owner_name@,
            self.owner_document_id@,
            self.owner_phone@,
            self.pet@,
            self.reason@,
            self.date@,
            self.time@,
        ]
    }
}

impl Appointment {
    pub open spec fn kind(self) -> AppointmentKind {
        match self {
            Appointment::Grooming(_) => AppointmentKind::Grooming,
            Appointment::Consultation(_) => AppointmentKind::Consultation,
        }
    }

    /// The record's fields in its table's column order.
    pub open spec fn field_values(self) -> Seq<Seq<char>> {
        match self {
            Appointment::Grooming(g) => g.field_values(),
            Appointment::Consultation(c) => c.field_values(),
        }
    }

    /// The kind of this appointment, which decides its table.
    pub fn appointment_kind(&self) -> (r: AppointmentKind)
        ensures
            r == self.kind(),
    {
        match self {
            Appointment::Grooming(_) => AppointmentKind::Grooming,
            Appointment::Consultation(_) => AppointmentKind::Consultation,
        }
    }

    /// The record's fields in its table's column order, as bound to the insert.
    pub fn values(&self) -> (r: Vec<String>)
        ensures
            r@.len() == FIELD_COUNT,
            r@.map_values(|s: String| s@) == self.field_values(),
    {
        let r = match self {
            Appointment::Grooming(g) => vec![
                g.owner_name.clone(),
                g.owner_document_id.clone(),
                g.owner_phone.clone(),
                g.pet_name.clone(),
                g.reason.clone(),
                g.date.clone(),
                g.time.clone(),
            ],
            Appointment::Consultation(c) => vec![
                c.owner_name.clone(),
                c.owner_document_id.clone(),
                c.owner_phone.clone(),
                c.pet.clone(),
                c.reason.clone(),
                c.date.clone(),
                c.time.clone(),
            ],
        };
        assert(r@.map_values(|s: String| s@) =~= self.field_values());
        r
    }
}

/// Maps a grooming submission onto a record: fails on the first required field
/// (in column order) that was not submitted, otherwise copies every value as is.
pub fn map_grooming(pairs: &Vec<(String, String)>) -> (r: Result<GroomingAppointment, ValidationError>)
    ensures
        match r {
            Ok(g) => mapping_outcome(pairs@, AppointmentKind::Grooming) == Ok::<
                Seq<Seq<char>>,
                Seq<char>,
            >(g.field_values()),
            Err(e) => mapping_outcome(pairs@, AppointmentKind::Grooming) == Err::<
                Seq<Seq<char>>,
                Seq<char>,
            >(e.field_name()),
        },
{
    let v = match collect_fields(pairs, AppointmentKind::Grooming) {
        Ok(v) => v,
        Err(e) => {
            return Err(e);
        },
    };
    let g = GroomingAppointment {
        owner_name: v[0].clone(),
        owner_document_id: v[1].clone(),
        owner_phone: v[2].clone(),
        pet_name: v[3].clone(),
        reason: v[4].clone(),
        date: v[5].clone(),
        time: v[6].clone(),
    };
    assert(g.field_values() =~= v@.map_values(|s: String| s@));
    Ok(g)
}

/// Maps a consultation submission onto a record: fails on the first required
/// field (in column order) that was not submitted, otherwise copies every value
/// as is.
pub fn map_consultation(pairs: &Vec<(String, String)>) -> (r: Result<
    ConsultationAppointment,
    ValidationError,
>)
    ensures
        match r {
            Ok(c) => mapping_outcome(pairs@, AppointmentKind::Consultation) == Ok::<
                Seq<Seq<char>>,
                Seq<char>,
            >(c.field_values()),
            Err(e) => mapping_outcome(pairs@, AppointmentKind::Consultation) == Err::<
                Seq<Seq<char>>,
                Seq<char>,
            >(e.field_name()),
        },
{
    let v = match collect_fields(pairs, AppointmentKind::Consultation) {
        Ok(v) => v,
        Err(e) => {
            return Err(e);
        },
    };
    let c = ConsultationAppointment {
        owner_name: v[0].clone(),
        owner_document_id: v[1].clone(),
        owner_phone: v[2].clone(),
        pet: v[3].clone(),
        reason: v[4].clone(),
        date: v[5].clone(),
        time: v[6].clone(),
    };
    assert(c.field_values() =~= v@.map_values(|s: String| s@));
    Ok(c)
}

} // verus!
