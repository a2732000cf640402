//! Listing and creating students.
//!
//! Each handler is the decision around one statement run on the store. The
//! caller runs the statement and hands back what the store answered, with a
//! failure as the driver's description of it.

use crate::error::{store_outcome, AppError, AppErrorView};
use crate::text::{is_blank, lemma_trimmed_bounds, lemma_trimmed_empty_iff_blank, trim, trimmed, white_space};
use vstd::prelude::*;
use vstd::string::StringExecFns;

verus! {

/// The statement behind `list_students`: every student, by ascending id.
pub const LIST_STUDENTS_SQL: &'static str =
    "SELECT id, name, grade_level, created_at FROM students ORDER BY id ASC";

/// The statement behind `create_student`. It binds the name, then the grade
/// level, and hands back the new row with the id and the timestamp that the
/// store assigned.
pub const INSERT_STUDENT_SQL: &'static str =
    "INSERT INTO students(name, grade_level) VALUES(?, ?) RETURNING id, name, grade_level, created_at";

/// A learner record as the store holds it.
#[derive(Clone, Debug, PartialEq, Eq)]
pub struct Student {
    pub id: i64,
    pub name: String,
    pub grade_level: Option<String>,
    pub created_at: String,
}

/// What a caller sends to create a student.
#[derive(Clone, Debug, PartialEq, Eq)]
pub struct CreateStudentRequest {
    pub name: String,
    pub grade_level: Option<String>,
}

/// A validated student, ready to be bound to `INSERT_STUDENT_SQL`.
#[derive(Clone, Debug, PartialEq, Eq)]
pub struct NewStudent {
    pub name: String,
    pub grade_level: Option<String>,
}

/// The name a student is stored under, for the name a caller sent: the name
/// without its surrounding whitespace, or none where nothing is left of it.
pub open spec fn accepted_name(name: Seq<char>) -> Option<Seq<char>> {
    if trimmed(name).len() == 0 {
        None
    } else {
        Some(trimmed(name))
    }
}

/// The rows are in strictly ascending order of their ids.
pub open spec fn ascending_by_id(rows: Seq<Student>) -> bool {
    forall|i: int, j: int| 0 <= i < j < rows.len() ==> rows[i].id < rows[j].id
}

/// Exactly the blank names are rejected.
pub proof fn lemma_blank_names_are_rejected(name: Seq<char>)
    ensures
        accepted_name(name) is None <==> is_blank(name),
{
    lemma_trimmed_empty_iff_blank(name);
}

/// A name with anything but whitespace in it is accepted, and the student is
/// stored under the trimmed name: a stretch of the name as sent that is not
/// empty and neither begins nor ends with whitespace.
pub proof fn lemma_accepted_name_is_trimmed(name: Seq<char>)
    requires
        trimmed(name).len() > 0,
    ensures
        accepted_name(name) == Some(trimmed(name)),
        !white_space(trimmed(name).first()),
        !white_space(trimmed(name).last()),
        exists|from: int, to: int|
            0 <= from < to <= name.len() && trimmed(name) == #[trigger] name.subrange(from, to),
{
    let (from, to) = lemma_trimmed_bounds(name);
    assert(trimmed(name) == name.subrange(from, to));
}

/// Lists the students: the rows that `LIST_STUDENTS_SQL` fetched, as the
/// store gave them, or a `Db` error if it could not. The handler never
/// reorders: rows that came in ascending order of id leave in it.
pub fn list_students(fetched: Result<Vec<Student>, String>) -> (outcome: Result<
    Vec<Student>,
    AppError,
>)
    ensures
        match fetched {
            Ok(rows) => outcome == Ok::<Vec<Student>, AppError>(rows),
            Err(detail) => outcome matches Err(e) && e@ == AppErrorView::Db(detail@),
        },
        fetched matches Ok(rows) && ascending_by_id(rows@) ==> (outcome matches Ok(listed)
            && ascending_by_id(listed@)),
{
    store_outcome(fetched)
}

/// Validates a request to create a student. A name that is empty once its
/// surrounding whitespace is gone is rejected, and nothing is to be
/// inserted; otherwise the row to insert carries the trimmed name and the
/// grade level as sent.
pub fn create_student(payload: CreateStudentRequest) -> (outcome: Result<NewStudent, AppError>)
    ensures
        match accepted_name(payload.name@) {
            Some(name) => outcome matches Ok(row) && row.name@ == name && row.grade_level
                == payload.grade_level,
            None => outcome matches Err(e) && e@ == AppErrorView::BadRequest(
                "name is required"@,
            ),
        },
{
    let name = trim(payload.name.as_str());
    if name.is_empty() {
        return Err(AppError::BadRequest(String::from_str("name is required")));
    }
    Ok(NewStudent { name: String::from_str(name), grade_level: payload.grade_level })
}

/// Finishes a creation: the row that `INSERT_STUDENT_SQL` handed back is
/// the created record, or a `Db` error if the insert failed.
pub fn student_created(inserted: Result<Student, String>) -> (outcome: Result<Student, AppError>)
    ensures
        match inserted {
            Ok(row) => outcome == Ok::<Student, AppError>(row),
            Err(detail) => outcome matches Err(e) && e@ == AppErrorView::Db(detail@),
        },
{
    store_outcome(inserted)
}

} // verus!
