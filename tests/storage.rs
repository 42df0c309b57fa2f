use std::sync::Arc;

use petcare_booking::appointment::{Appointment, ConsultationAppointment, GroomingAppointment};
use petcare_booking::booking::{submit, SubmitError};
use petcare_booking::page::{failed_page, saved_page};
use petcare_booking::record::{AppointmentKind, ValidationError};
use petcare_booking::store::{
    ensure_schema, insert_record, save, ConnectionPool, PoolError, StorageError,
};

fn pairs(items: &[(&str, &str)]) -> Vec<(String, String)> {
    items.iter().map(|(k, v)| (k.to_string(), v.to_string())).collect()
}

fn fresh_pool(max_size: u32) -> ConnectionPool {
    let pool = ConnectionPool::in_memory(max_size).unwrap();
    let conn = pool.acquire().unwrap();
    ensure_schema(&conn).unwrap();
    pool
}

fn grooming(n: usize) -> Appointment {
    Appointment::Grooming(GroomingAppointment {
        owner_name: format!("owner {}", n),
        owner_document_id: format!("{}", n),
        owner_phone: "999".to_string(),
        pet_name: format!("pet {}", n),
        reason: "bath".to_string(),
        date: "2024-05-01".to_string(),
        time: "10:00".to_string(),
    })
}

fn consultation() -> Appointment {
    Appointment::Consultation(ConsultationAppointment {
        owner_name: "Bia".to_string(),
        owner_document_id: "222".to_string(),
        owner_phone: "888".to_string(),
        pet: "Tom".to_string(),
        reason: "vaccine".to_string(),
        date: "2024-06-02".to_string(),
        time: "14:30".to_string(),
    })
}

#[test]
fn zero_capacity_pool_is_refused() {
    assert!(matches!(ConnectionPool::in_memory(0), Err(PoolError::Init)));
    assert!(matches!(ConnectionPool::open("unused.db", 0), Err(PoolError::Init)));
}

#[test]
fn schema_creation_is_idempotent() {
    let pool = fresh_pool(1);
    let conn = pool.acquire().unwrap();
    assert_eq!(ensure_schema(&conn), Ok(()));
    assert_eq!(ensure_schema(&conn), Ok(()));
}

#[test]
fn ids_increase_within_each_table() {
    let pool = fresh_pool(2);
    assert_eq!(save(&pool, &grooming(1)), Ok(1));
    assert_eq!(save(&pool, &grooming(2)), Ok(2));
    assert_eq!(save(&pool, &consultation()), Ok(1));
    assert_eq!(save(&pool, &grooming(3)), Ok(3));
    assert_eq!(save(&pool, &consultation()), Ok(2));
}

#[test]
fn insert_without_schema_fails_to_write() {
    let pool = ConnectionPool::in_memory(1).unwrap();
    assert_eq!(save(&pool, &grooming(1)), Err(StorageError::WriteFailed));
    let conn = pool.acquire().unwrap();
    assert_eq!(insert_record(&conn, &consultation()), Err(StorageError::WriteFailed));
}

#[test]
fn released_connection_is_leased_again() {
    let pool = ConnectionPool::in_memory(1).unwrap();
    {
        let conn = pool.acquire().unwrap();
        ensure_schema(&conn).unwrap();
    }
    let conn = pool.acquire().unwrap();
    assert_eq!(insert_record(&conn, &grooming(1)), Ok(1));
    drop(conn);
    let again = pool.acquire().unwrap();
    assert_eq!(insert_record(&again, &grooming(2)), Ok(2));
}

#[test]
fn fifty_parallel_grooming_saves() {
    let pool = Arc::new(fresh_pool(1));
    let rt = tokio::runtime::Runtime::new().unwrap();
    let mut ids: Vec<i64> = rt.block_on(async {
        let mut handles = Vec::new();
        for n in 0..50 {
            let pool = pool.clone();
            handles.push(tokio::task::spawn_blocking(move || save(&pool, &grooming(n))));
        }
        let mut ids = Vec::new();
        for h in handles {
            ids.push(h.await.unwrap().unwrap());
        }
        ids
    });
    ids.sort();
    assert_eq!(ids, (1..=50).collect::<Vec<i64>>());
    assert_eq!(save(&pool, &grooming(50)), Ok(51));
}

#[test]
fn grooming_submission_is_saved_and_echoed() {
    let pool = fresh_pool(1);
    let fields = pairs(&[
        ("nome", "Ana"),
        ("cpf", "111"),
        ("celular", "999"),
        ("nome_pet", "Rex"),
        ("motivo", "bath"),
        ("data", "2024-05-01"),
        ("horario", "10:00"),
    ]);
    let (outcome, page) = submit(&pool, AppointmentKind::Grooming, &fields);
    assert_eq!(outcome, Ok(1));
    let expected = Appointment::Grooming(GroomingAppointment {
        owner_name: "Ana".to_string(),
        owner_document_id: "111".to_string(),
        owner_phone: "999".to_string(),
        pet_name: "Rex".to_string(),
        reason: "bath".to_string(),
        date: "2024-05-01".to_string(),
        time: "10:00".to_string(),
    });
    assert_eq!(page, saved_page(&expected));
    assert!(page.contains("<p><strong>Nome Pet:</strong> Rex</p>"));
}

#[test]
fn consultation_without_pet_saves_nothing() {
    let pool = fresh_pool(1);
    let fields = pairs(&[
        ("nome", "Bia"),
        ("cpf", "222"),
        ("celular", "888"),
        ("motivo", "vaccine"),
        ("data", "2024-06-02"),
        ("horario", "14:30"),
    ]);
    let (outcome, page) = submit(&pool, AppointmentKind::Consultation, &fields);
    assert_eq!(
        outcome,
        Err(SubmitError::Validation(ValidationError::MissingField("pet".to_string())))
    );
    assert_eq!(page, failed_page(AppointmentKind::Consultation));
    assert_eq!(save(&pool, &consultation()), Ok(1));
}

#[test]
fn storage_failure_renders_failure_page() {
    let pool = ConnectionPool::in_memory(1).unwrap();
    let fields = pairs(&[
        ("nome", "Ana"),
        ("cpf", "111"),
        ("celular", "999"),
        ("nome_pet", "Rex"),
        ("motivo", "bath"),
        ("data", "2024-05-01"),
        ("horario", "10:00"),
    ]);
    let (outcome, page) = submit(&pool, AppointmentKind::Grooming, &fields);
    assert_eq!(outcome, Err(SubmitError::Storage(StorageError::WriteFailed)));
    assert_eq!(page, failed_page(AppointmentKind::Grooming));
}
