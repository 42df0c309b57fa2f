//! The two appointment records, their ordered column lists, and the mapping
//! from a decoded form submission onto them.
use vstd::prelude::*;
use crate::fields::{field_value, find_field};

verus! {

/// Number of submitted fields that make up an appointment.
pub const FIELD_COUNT: usize = 7;

/// The two kinds of appointment; each is stored in a table of its own.
#[derive(Clone, Copy, Debug, PartialEq, Eq, Structural)]
pub enum AppointmentKind {
    Grooming,
    Consultation,
}

/// Name of the column (and of the form field) at position `i` for `kind`, in the
/// table's fixed column order. Both kinds share every column but the fourth.
pub open spec fn column_name(kind: AppointmentKind, i: int) -> Seq<char> {
    if i == 0 {
        "nome"@
    } else if i == 1 {
        "cpf"@
    } else if i == 2 {
        "celular"@
    } else if i == 3 {
        match kind {
            AppointmentKind::Grooming => "nome_pet"@,
            AppointmentKind::Consultation => "pet"@,
        }
    } else if i == 4 {
        "motivo"@
    } else if i == 5 {
        "data"@
    } else {
        "horario"@
    }
}

/// The ordered column list of `kind`'s table.
pub open spec fn columns(kind: AppointmentKind) -> Seq<Seq<char>> {
    Seq::new(FIELD_COUNT as nat, |i: int| column_name(kind, i))
}

/// Name of the table that holds records of `kind`.
pub open spec fn table_name(kind: AppointmentKind) -> Seq<char> {
    match kind {
        AppointmentKind::Grooming => "banho_tosa"@,
        AppointmentKind::Consultation => "consulta"@,
    }
}

impl AppointmentKind {
    /// The column at position `i` of this kind's table.
    pub fn column(self, i: usize) -> (r: &'static str)
        requires
            i < FIELD_COUNT,
        ensures
            r@ == column_name(self, i as int),
    {
        if i == 0 {
            "nome"
        } else if i == 1 {
            "cpf"
        } else if i == 2 {
            "celular"
        } else if i == 3 {
            match self {
                AppointmentKind::Grooming => "nome_pet",
                AppointmentKind::Consultation => "pet",
            }
        } else if i == 4 {
            "motivo"
        } else if i == 5 {
            "data"
        } else {
            "horario"
        }
    }

    /// The table that holds records of this kind.
    pub fn table(self) -> (r: &'static str)
        ensures
            r@ == table_name(self),
    {
        match self {
            AppointmentKind::Grooming => "banho_tosa",
            AppointmentKind::Consultation => "consulta",
        }
    }
}

/// Why a submission could not be mapped onto a record.
#[derive(Clone, Debug, PartialEq, Eq)]
pub enum ValidationError {
    /// A required field was not submitted; holds its name.
    MissingField(String),
}

impl ValidationError {
    /// The name of the field this error reports.
    pub open spec fn field_name(self) -> Seq<char> {
        match self {
            ValidationError::MissingField(name) => name@,
        }
    }
}

/// The first position, from `j` on, whose column has no submitted value.
pub open spec fn missing_from(pairs: Seq<(String, String)>, kind: AppointmentKind, j: int) -> Option<
    int,
>
    decreases FIELD_COUNT - j,
{
    if j < 0 || j >= FIELD_COUNT {
        None
    } else if field_value(pairs, column_name(kind, j)) is None {
        Some(j)
    } else {
        missing_from(pairs, kind, j + 1)
    }
}

/// The submitted values of `kind`'s columns, in column order.
pub open spec fn submitted_values(pairs: Seq<(String, String)>, kind: AppointmentKind) -> Seq<
    Seq<char>,
> {
    Seq::new(FIELD_COUNT as nat, |i: int| field_value(pairs, column_name(kind, i))->Some_0)
}

/// What mapping `pairs` onto a record of `kind` gives: the name of the first
/// column (in column order) that was not submitted, or else the submitted
/// values of all columns, in column order and unchanged.
pub open spec fn mapping_outcome(pairs: Seq<(String, String)>, kind: AppointmentKind) -> Result<
    Seq<Seq<char>>,
    Seq<char>,
> {
    match missing_from(pairs, kind, 0) {
        Some(j) => Err(column_name(kind, j)),
        None => Ok(submitted_values(pairs, kind)),
    }
}

proof fn lemma_missing_from_skip(pairs: Seq<(String, String)>, kind: AppointmentKind, j: int)
    requires
        0 <= j < FIELD_COUNT,
        field_value(pairs, column_name(kind, j)) is Some,
    ensures
        missing_from(pairs, kind, j) == missing_from(pairs, kind, j + 1),
{
}

/// Collects the values of `kind`'s columns from `pairs`, in column order.
pub fn collect_fields(pairs: &Vec<(String, String)>, kind: AppointmentKind) -> (r: Result<
    Vec<String>,
    ValidationError,
>)
    ensures
        r is Ok ==> r->Ok_0@.len() == FIELD_COUNT,
        match r {
            Ok(v) => mapping_outcome(pairs@, kind) == Ok::<Seq<Seq<char>>, Seq<char>>(
                v@.map_values(|s: String| s@),
            ),
            Err(e) => mapping_outcome(pairs@, kind) == Err::<Seq<Seq<char>>, Seq<char>>(
                e.field_name(),
            ),
        },
{
    let mut vals: Vec<String> = Vec::new();
    let mut i: usize = 0;
    while i < FIELD_COUNT
        invariant
            i <= FIELD_COUNT,
            vals@.len() == i,
            missing_from(pairs@, kind, 0) == missing_from(pairs@, kind, i as int),
            forall|k: int| 0 <= k < i ==> (field_value(pairs@, column_name(kind, k)) is Some),
            forall|k: int|
                0 <= k < i ==> vals@[k]@ == field_value(pairs@, column_name(kind, k))->Some_0,
        decreases FIELD_COUNT - i,
    {
        let name = kind.column(i);
        match find_field(pairs, name) {
            None => {
                return Err(ValidationError::MissingField(name.to_string()));
            },
            Some(v) => {
                proof {
                    lemma_missing_from_skip(pairs@, kind, i as int);
                }
                let ghost before = vals@;
                vals.push(v);
                assert forall|k: int| 0 <= k <= i implies vals@[k]@ == field_value(
                    pairs@,
                    column_name(kind, k),
                )->Some_0 by {
                    if k < i {
                        assert(vals@[k] == before[k]);
                    }
                }
            },
        }
        i = i + 1;
    }
    assert(vals@.map_values(|s: String| s@) =~= submitted_values(pairs@, kind));
    Ok(vals)
}

proof fn lemma_missing_from_none(pairs: Seq<(String, String)>, kind: AppointmentKind, j: int)
    requires
        0 <= j <= FIELD_COUNT,
        forall|i: int| j <= i < FIELD_COUNT ==> (field_value(pairs, column_name(kind, i)) is Some),
    ensures
        missing_from(pairs, kind, j) is None,
    decreases FIELD_COUNT - j,
{
    if j < FIELD_COUNT {
        lemma_missing_from_none(pairs, kind, j + 1);
    }
}

proof fn lemma_missing_from_some(
    pairs: Seq<(String, String)>,
    kind: AppointmentKind,
    j: int,
    k: int,
)
    requires
        0 <= j <= k < FIELD_COUNT,
        field_value(pairs, column_name(kind, k)) is None,
    ensures
        missing_from(pairs, kind, j) matches Some(m) && j <= m <= k && field_value(
            pairs,
            column_name(kind, m),
        ) is None && forall|i: int|
            j <= i < m ==> (field_value(pairs, column_name(kind, i)) is Some),
    decreases k - j,
{
    if field_value(pairs, column_name(kind, j)) is Some {
        lemma_missing_from_some(pairs, kind, j + 1, k);
    }
}

/// A submission that holds every required field maps onto a record whose
/// fields are the submitted values, unchanged, each in its column.
pub proof fn lemma_complete_submission_maps_verbatim(
    pairs: Seq<(String, String)>,
    kind: AppointmentKind,
)
    requires
        forall|i: int| 0 <= i < FIELD_COUNT ==> (field_value(pairs, column_name(kind, i)) is Some),
    ensures
        mapping_outcome(pairs, kind) matches Ok(vals) && vals.len() == FIELD_COUNT && forall|i: int|
            0 <= i < FIELD_COUNT ==> field_value(pairs, column_name(kind, i)) == Some(vals[i]),
{
    lemma_missing_from_none(pairs, kind, 0);
}

/// A submission that lacks a required field fails with `MissingField`, naming a
/// required field that is absent; when that field is the only one absent, the
/// error names exactly it.
pub proof fn lemma_missing_field_is_named(
    pairs: Seq<(String, String)>,
    kind: AppointmentKind,
    k: int,
)
    requires
        0 <= k < FIELD_COUNT,
        field_value(pairs, column_name(kind, k)) is None,
    ensures
        mapping_outcome(pairs, kind) matches Err(name) && field_value(pairs, name) is None && (
        exists|j: int| 0 <= j <= k && name == column_name(kind, j)),
        (forall|i: int|
            0 <= i < FIELD_COUNT && i != k ==> (field_value(pairs, column_name(kind, i)) is Some))
            ==> mapping_outcome(pairs, kind) == Err::<Seq<Seq<char>>, Seq<char>>(
            column_name(kind, k),
        ),
{
    lemma_missing_from_some(pairs, kind, 0, k);
    let m = missing_from(pairs, kind, 0)->Some_0;
    assert(column_name(kind, m) == column_name(kind, m));
}

} // verus!
