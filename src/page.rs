//! The HTML pages that report the outcome of a submission.
use vstd::prelude::*;
use crate::appointment::Appointment;
use crate::record::{AppointmentKind, FIELD_COUNT};

verus! {

/// The label shown beside the field at column position `i` of `kind`.
pub open spec fn field_label(kind: AppointmentKind, i: int) -> Seq<char> {
    if i == 0 {
        "Nome"@
    } else if i == 1 {
        "CPF"@
    } else if i == 2 {
        "Celular"@
    } else if i == 3 {
        match kind {
            AppointmentKind::Grooming => "Nome Pet"@,
            AppointmentKind::Consultation => "Pet"@,
        }
    } else if i == 4 {
        "Motivo"@
    } else if i == 5 {
        "Data"@
    } else {
        "Horário"@
    }
}

/// The heading of the page that confirms a saved appointment of `kind`.
pub open spec fn saved_heading(kind: AppointmentKind) -> Seq<char> {
    match kind {
        AppointmentKind::Grooming => "Agendamento de Banho e Tosa salvo com sucesso!"@,
        AppointmentKind::Consultation => "Agendamento de Consulta salvo com sucesso!"@,
    }
}

/// The heading of the page that reports a failed submission of `kind`.
pub open spec fn failed_heading(kind: AppointmentKind) -> Seq<char> {
    match kind {
        AppointmentKind::Grooming => "Erro ao salvar Banho e Tosa."@,
        AppointmentKind::Consultation => "Erro ao salvar agendamento."@,
    }
}

/// One labelled paragraph per field, for the first `n` fields of `values`.
pub open spec fn field_paragraphs(kind: AppointmentKind, values: Seq<Seq<char>>, n: nat) -> Seq<
    char,
>
    decreases n,
{
    if n == 0 {
        Seq::empty()
    } else {
        field_paragraphs(kind, values, (n - 1) as nat) + "<p><strong>"@ + field_label(kind, n - 1)
            + ":</strong> "@ + values[n - 1] + "</p>"@
    }
}

/// The page that confirms a saved appointment of `kind` and echoes its
/// fields, each as submitted.
pub open spec fn saved_page_html(kind: AppointmentKind, values: Seq<Seq<char>>) -> Seq<char> {
    "<h1>"@ + saved_heading(kind) + "</h1>"@ + field_paragraphs(kind, values, FIELD_COUNT as nat)
        + "<p><a href=\"/\">Voltar</a></p>"@
}

/// The page that reports a failed submission of `kind`, with no detail of the
/// cause.
pub open spec fn failed_page_html(kind: AppointmentKind) -> Seq<char> {
    "<h1>"@ + failed_heading(kind) + "</h1><p><a href=\"/\">Voltar</a></p>"@
}

impl AppointmentKind {
    /// The label shown beside the field at column position `i`.
    pub fn label(self, i: usize) -> (r: &'static str)
        requires
            i < FIELD_COUNT,
        ensures
            r@ == field_label(self, i as int),
    {
        if i == 0 {
            "Nome"
        } else if i == 1 {
            "CPF"
        } else if i == 2 {
            "Celular"
        } else if i == 3 {
            match self {
                AppointmentKind::Grooming => "Nome Pet",
                AppointmentKind::Consultation => "Pet",
            }
        } else if i == 4 {
            "Motivo"
        } else if i == 5 {
            "Data"
        } else {
            "Horário"
        }
    }
}

/// Renders the page that confirms that `record` was saved.
pub fn saved_page(record: &Appointment) -> (r: String)
    ensures
        r@ == saved_page_html(record.kind(), record.field_values()),
{
    let kind = record.appointment_kind();
    let values = record.values();
    let ghost vals = values@.map_values(|s: String| s@);
    let mut body = String::new();
    let mut i: usize = 0;
    while i < FIELD_COUNT
        invariant
            i <= FIELD_COUNT,
            values@.len() == FIELD_COUNT,
            vals == values@.map_values(|s: String| s@),
            body@ == field_paragraphs(kind, vals, i as nat),
        decreases FIELD_COUNT - i,
    {
        body.append("<p><strong>");
        body.append(kind.label(i));
        body.append(":</strong> ");
        body.append(values[i].as_str());
        body.append("</p>");
        i = i + 1;
        assert(body@ =~= field_paragraphs(kind, vals, i as nat));
    }
    let mut page = String::new();
    page.append("<h1>");
    match kind {
        AppointmentKind::Grooming => page.append("Agendamento de Banho e Tosa salvo com sucesso!"),
        AppointmentKind::Consultation => page.append("Agendamento de Consulta salvo com sucesso!"),
    }
    page.append("</h1>");
    page.append(body.as_str());
    page.append("<p><a href=\"/\">Voltar</a></p>");
    assert(page@ =~= saved_page_html(kind, vals));
    page
}

/// Renders the page that reports a failed submission of `kind`.
pub fn failed_page(kind: AppointmentKind) -> (r: String)
    ensures
        r@ == failed_page_html(kind),
{
    let mut page = String::new();
    page.append("<h1>");
    match kind {
        AppointmentKind::Grooming => page.append("Erro ao salvar Banho e Tosa."),
        AppointmentKind::Consultation => page.append("Erro ao salvar agendamento."),
    }
    page.append("</h1><p><a href=\"/\">Voltar</a></p>");
    assert(page@ =~= failed_page_html(kind));
    page
}

} // verus!
