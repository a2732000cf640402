use backend::error::{response_status, AppError};
use backend::routes::students::{
    create_student, list_students, student_created, CreateStudentRequest, NewStudent, Student,
    INSERT_STUDENT_SQL, LIST_STUDENTS_SQL,
};

fn request(name: &str, grade_level: Option<&str>) -> CreateStudentRequest {
    CreateStudentRequest {
        name: name.to_string(),
        grade_level: grade_level.map(|g| g.to_string()),
    }
}

fn student(id: i64, name: &str) -> Student {
    Student {
        id,
        name: name.to_string(),
        grade_level: None,
        created_at: "2024-01-01 00:00:00".to_string(),
    }
}

#[test]
fn whitespace_only_name_is_a_bad_request() {
    let outcome = create_student(request("   ", None));
    assert_eq!(outcome, Err(AppError::BadRequest("name is required".to_string())));
    assert_eq!(response_status(&outcome), 400);
    let response = outcome.unwrap_err().into_response();
    assert_eq!(response.status, 400);
    assert_eq!(response.body.error, "bad request: name is required");
}

#[test]
fn empty_and_blank_names_are_rejected() {
    for name in ["", " ", "\t", "\n \r\n", "\u{a0}\u{2003}"] {
        let outcome = create_student(request(name, Some("5")));
        assert_eq!(outcome, Err(AppError::BadRequest("name is required".to_string())));
    }
}

#[test]
fn valid_name_is_inserted_trimmed() {
    let outcome = create_student(request("  Ada Lovelace \n", Some("7")));
    assert_eq!(
        outcome,
        Ok(NewStudent { name: "Ada Lovelace".to_string(), grade_level: Some("7".to_string()) })
    );
}

#[test]
fn grade_level_is_optional_and_kept_as_sent() {
    assert_eq!(
        create_student(request("Ada", None)),
        Ok(NewStudent { name: "Ada".to_string(), grade_level: None })
    );
    assert_eq!(
        create_student(request("Ada", Some("  7 "))),
        Ok(NewStudent { name: "Ada".to_string(), grade_level: Some("  7 ".to_string()) })
    );
}

#[test]
fn created_record_is_the_row_the_store_returned() {
    let row = Student {
        id: 42,
        name: "Ada".to_string(),
        grade_level: Some("7".to_string()),
        created_at: "2024-05-05 10:00:00".to_string(),
    };
    let outcome = student_created(Ok(row.clone()));
    assert_eq!(response_status(&outcome), 200);
    assert_eq!(outcome, Ok(row));
}

#[test]
fn failed_insert_is_a_database_error() {
    let outcome = student_created(Err("UNIQUE constraint failed".to_string()));
    assert_eq!(outcome, Err(AppError::Db("UNIQUE constraint failed".to_string())));
    assert_eq!(response_status(&outcome), 500);
}

#[test]
fn listing_keeps_the_rows_in_store_order() {
    let rows = vec![student(1, "Ada"), student(2, "Grace"), student(5, "Edsger")];
    let outcome = list_students(Ok(rows.clone()));
    assert_eq!(response_status(&outcome), 200);
    assert_eq!(outcome, Ok(rows));
}

#[test]
fn listing_nothing_is_an_empty_list() {
    assert_eq!(list_students(Ok(Vec::new())), Ok(Vec::new()));
}

#[test]
fn unreachable_store_fails_the_listing() {
    let outcome = list_students(Err("unable to open database file".to_string()));
    assert_eq!(outcome, Err(AppError::Db("unable to open database file".to_string())));
    assert_eq!(response_status(&outcome), 500);
    assert_eq!(outcome.unwrap_err().into_response().body.error, "database error");
}

#[test]
fn statements_ask_for_what_the_handlers_promise() {
    assert!(LIST_STUDENTS_SQL.ends_with("ORDER BY id ASC"));
    assert!(INSERT_STUDENT_SQL.starts_with("INSERT INTO students(name, grade_level)"));
    assert!(INSERT_STUDENT_SQL.ends_with("RETURNING id, name, grade_level, created_at"));
}
