use petcare_booking::appointment::{Appointment, ConsultationAppointment, GroomingAppointment};
use petcare_booking::page::{failed_page, saved_page};
use petcare_booking::record::AppointmentKind;
use petcare_booking::statement::{create_table_statement, insert_statement};
use petcare_booking::store::prepared_insert;

fn ana() -> GroomingAppointment {
    GroomingAppointment {
        owner_name: "Ana".to_string(),
        owner_document_id: "111".to_string(),
        owner_phone: "999".to_string(),
        pet_name: "Rex".to_string(),
        reason: "bath".to_string(),
        date: "2024-05-01".to_string(),
        time: "10:00".to_string(),
    }
}

#[test]
fn grooming_table_schema() {
    assert_eq!(
        create_table_statement(AppointmentKind::Grooming),
        "CREATE TABLE IF NOT EXISTS banho_tosa (id INTEGER PRIMARY KEY AUTOINCREMENT, \
         nome TEXT NOT NULL, cpf TEXT NOT NULL, celular TEXT NOT NULL, nome_pet TEXT NOT NULL, \
         motivo TEXT NOT NULL, data TEXT NOT NULL, horario TEXT NOT NULL)"
    );
}

#[test]
fn consultation_table_schema() {
    assert_eq!(
        create_table_statement(AppointmentKind::Consultation),
        "CREATE TABLE IF NOT EXISTS consulta (id INTEGER PRIMARY KEY AUTOINCREMENT, \
         nome TEXT NOT NULL, cpf TEXT NOT NULL, celular TEXT NOT NULL, pet TEXT NOT NULL, \
         motivo TEXT NOT NULL, data TEXT NOT NULL, horario TEXT NOT NULL)"
    );
}

#[test]
fn insert_statements_bind_every_column() {
    assert_eq!(
        insert_statement(AppointmentKind::Grooming),
        "INSERT INTO banho_tosa (nome, cpf, celular, nome_pet, motivo, data, horario) \
         VALUES (?, ?, ?, ?, ?, ?, ?)"
    );
    assert_eq!(
        insert_statement(AppointmentKind::Consultation),
        "INSERT INTO consulta (nome, cpf, celular, pet, motivo, data, horario) \
         VALUES (?, ?, ?, ?, ?, ?, ?)"
    );
}

#[test]
fn prepared_insert_pairs_statement_and_values() {
    let (sql, params) = prepared_insert(&Appointment::Grooming(ana()));
    assert_eq!(sql, insert_statement(AppointmentKind::Grooming));
    assert_eq!(params, vec!["Ana", "111", "999", "Rex", "bath", "2024-05-01", "10:00"]);
}

#[test]
fn saved_page_echoes_grooming_fields() {
    assert_eq!(
        saved_page(&Appointment::Grooming(ana())),
        "<h1>Agendamento de Banho e Tosa salvo com sucesso!</h1>\
         <p><strong>Nome:</strong> Ana</p>\
         <p><strong>CPF:</strong> 111</p>\
         <p><strong>Celular:</strong> 999</p>\
         <p><strong>Nome Pet:</strong> Rex</p>\
         <p><strong>Motivo:</strong> bath</p>\
         <p><strong>Data:</strong> 2024-05-01</p>\
         <p><strong>Horário:</strong> 10:00</p>\
         <p><a href=\"/\">Voltar</a></p>"
    );
}

#[test]
fn saved_page_echoes_consultation_fields() {
    let c = ConsultationAppointment {
        owner_name: "Bia".to_string(),
        owner_document_id: "222".to_string(),
        owner_phone: "888".to_string(),
        pet: "Tom".to_string(),
        reason: "vaccine".to_string(),
        date: "2024-06-02".to_string(),
        time: "14:30".to_string(),
    };
    let page = saved_page(&Appointment::Consultation(c));
    assert!(page.starts_with("<h1>Agendamento de Consulta salvo com sucesso!</h1>"));
    assert!(page.contains("<p><strong>Pet:</strong> Tom</p>"));
    assert!(page.contains("<p><strong>Horário:</strong> 14:30</p>"));
}

#[test]
fn failure_pages() {
    assert_eq!(
        failed_page(AppointmentKind::Grooming),
        "<h1>Erro ao salvar Banho e Tosa.</h1><p><a href=\"/\">Voltar</a></p>"
    );
    assert_eq!(
        failed_page(AppointmentKind::Consultation),
        "<h1>Erro ao salvar agendamento.</h1><p><a href=\"/\">Voltar</a></p>"
    );
}
