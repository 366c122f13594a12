use vstd::prelude::*;

use crate::columns::{choose_text, choose_value, updated_text, updated_value};
use crate::errors::AppError;

verus! {

/// A course row as the service stores and reports it.  The creation
/// timestamp is carried as seconds since the Unix epoch; every column past
/// `name` is nullable in the course table.
#[derive(Clone, Debug, PartialEq)]
pub struct Course {
    pub teacher_id: i32,
    pub id: i32,
    pub name: String,
    pub time: Option<i64>,
    pub description: Option<String>,
    pub format: Option<String>,
    pub structure: Option<String>,
    pub duration: Option<String>,
    pub price: Option<i32>,
    pub language: Option<String>,
    pub level: Option<String>,
}

/// The payload for creating a course: the id and the timestamp are assigned
/// by the database, everything else comes from the client.
#[derive(Clone, Debug, PartialEq)]
pub struct CourseCreation {
    pub teacher_id: i32,
    pub name: String,
    pub description: Option<String>,
    pub format: Option<String>,
    pub structure: Option<String>,
    pub duration: Option<String>,
    pub price: Option<i32>,
    pub language: Option<String>,
    pub level: Option<String>,
}

/// A partial update of a course: each field is applied only where present.
#[derive(Clone, Debug, PartialEq)]
pub struct CourseUpdate {
    pub name: Option<String>,
    pub description: Option<String>,
    pub format: Option<String>,
    pub structure: Option<String>,
    pub duration: Option<String>,
    pub price: Option<i32>,
    pub language: Option<String>,
    pub level: Option<String>,
}

impl Course {
    /// Whether this course is `current` with `update` merged over it.  The
    /// keys and the timestamp are untouched; the name takes the update field
    /// where present; every nullable column ends up present, holding the
    /// update field where sent and otherwise the current column with NULL
    /// read as the empty string (zero for the price).
    pub open spec fn is_merged(&self, current: Course, update: CourseUpdate) -> bool {
        &&& self.teacher_id == current.teacher_id
        &&& self.id == current.id
        &&& self.time == current.time
        &&& self.name@ == updated_text(update.name.deep_view(), Some(current.name@))
        &&& self.description.deep_view() == Some(
            updated_text(update.description.deep_view(), current.description.deep_view()),
        )
        &&& self.format.deep_view() == Some(
            updated_text(update.format.deep_view(), current.format.deep_view()),
        )
        &&& self.structure.deep_view() == Some(
            updated_text(update.structure.deep_view(), current.structure.deep_view()),
        )
        &&& self.duration.deep_view() == Some(
            updated_text(update.duration.deep_view(), current.duration.deep_view()),
        )
        &&& self.price == Some(updated_value(update.price, current.price))
        &&& self.language.deep_view() == Some(
            updated_text(update.language.deep_view(), current.language.deep_view()),
        )
        &&& self.level.deep_view() == Some(
            updated_text(update.level.deep_view(), current.level.deep_view()),
        )
    }

    /// The merge step of a partial course update: combine the row currently
    /// stored with the fields the client sent.  The result is exactly what
    /// the service writes back, so after the update every nullable column is
    /// present — an absent update field over a NULL column leaves the empty
    /// string (zero for the price) behind.
    pub fn merge_update(current: &Course, update: &CourseUpdate) -> (c: Course)
        ensures
            c.is_merged(*current, *update),
    {
        let name: String = match &update.name {
            Some(n) => n.clone(),
            None => current.name.clone(),
        };
        Course {
            teacher_id: current.teacher_id,
            id: current.id,
            name,
            time: current.time,
            description: Some(choose_text(&update.description, &current.description)),
            format: Some(choose_text(&update.format, &current.format)),
            structure: Some(choose_text(&update.structure, &current.structure)),
            duration: Some(choose_text(&update.duration, &current.duration)),
            price: Some(choose_value(&update.price, &current.price)),
            language: Some(choose_text(&update.language, &current.language)),
            level: Some(choose_text(&update.level, &current.level)),
        }
    }
}

/// Applying the same partial update a second time changes nothing: once the
/// merged course is stored, merging the update over the stored row yields
/// the merge of the original row again.
pub proof fn lemma_merge_update_idempotent(
    first: Course,
    second: Course,
    current: Course,
    update: CourseUpdate,
)
    requires
        first.is_merged(current, update),
        second.is_merged(first, update),
    ensures
        second.is_merged(current, update),
{
}

/// Decide the outcome of a single-course lookup: a fetched row is returned
/// as it is, a missing row is reported as `NotFound`.
pub fn course_or_not_found(row: Option<Course>) -> (r: Result<Course, AppError>)
    ensures
        match r {
            Ok(c) => row == Some(c),
            Err(e) => {
                &&& row is None
                &&& e is NotFound
                &&& e.spec_message() == "Course not found"@
            },
        },
{
    match row {
        Some(c) => Ok(c),
        None => Err(AppError::NotFound(String::from_str("Course not found"))),
    }
}

} // verus!
