use vstd::prelude::*;

use crate::columns::{choose_text, clone_or_empty, text_or_empty, updated_text};
use crate::errors::AppError;

verus! {

/// A teacher as the service reports it: every field present, absent columns
/// already replaced by the empty string.
#[derive(Clone, Debug, PartialEq)]
pub struct Teacher {
    pub id: i32,
    pub name: String,
    pub url_picture: String,
    pub profile: String,
}

/// The payload for creating a teacher.
#[derive(Clone, Debug, PartialEq)]
pub struct TeacherCreation {
    pub name: String,
    pub url_picture: String,
    pub profile: String,
}

/// A partial update of a teacher: each field is applied only where present.
#[derive(Clone, Debug, PartialEq)]
pub struct TeacherUpdate {
    pub name: Option<String>,
    pub url_picture: Option<String>,
    pub profile: Option<String>,
}

/// A raw teacher row as the database hands it out: every text column of the
/// teacher table is nullable.
#[derive(Clone, Debug, PartialEq)]
pub struct TeacherRow {
    pub id: i32,
    pub name: Option<String>,
    pub url_picture: Option<String>,
    pub profile: Option<String>,
}

impl Teacher {
    /// Whether this teacher is exactly what `row` maps to: the same id, and
    /// each text column taken over with NULL read as the empty string.
    pub open spec fn is_from_row(&self, row: TeacherRow) -> bool {
        &&& self.id == row.id
        &&& self.name@ == text_or_empty(row.name.deep_view())
        &&& self.url_picture@ == text_or_empty(row.url_picture.deep_view())
        &&& self.profile@ == text_or_empty(row.profile.deep_view())
    }

    /// Whether this teacher is `row` with `update` merged over it: each
    /// present update field replaces the column, each absent one keeps the
    /// column, with NULL read as the empty string.
    pub open spec fn is_merged(&self, row: TeacherRow, update: TeacherUpdate) -> bool {
        &&& self.id == row.id
        &&& self.name@ == updated_text(update.name.deep_view(), row.name.deep_view())
        &&& self.url_picture@ == updated_text(
            update.url_picture.deep_view(),
            row.url_picture.deep_view(),
        )
        &&& self.profile@ == updated_text(update.profile.deep_view(), row.profile.deep_view())
    }

    /// The row the database holds once this teacher has been written back:
    /// every column present.
    pub open spec fn as_row(&self) -> TeacherRow {
        TeacherRow {
            id: self.id,
            name: Some(self.name),
            url_picture: Some(self.url_picture),
            profile: Some(self.profile),
        }
    }

    /// Map a raw row to the model, replacing each NULL column by "".
    pub fn from_row(row: &TeacherRow) -> (t: Teacher)
        ensures
            t.is_from_row(*row),
    {
        Teacher {
            id: row.id,
            name: clone_or_empty(&row.name),
            url_picture: clone_or_empty(&row.url_picture),
            profile: clone_or_empty(&row.profile),
        }
    }

    /// The merge step of a partial teacher update: the row currently stored
    /// is combined with the fields the client sent, and the result is what
    /// the service writes back.
    pub fn merge_update(row: &TeacherRow, update: &TeacherUpdate) -> (t: Teacher)
        ensures
            t.is_merged(*row, *update),
    {
        Teacher {
            id: row.id,
            name: choose_text(&update.name, &row.name),
            url_picture: choose_text(&update.url_picture, &row.url_picture),
            profile: choose_text(&update.profile, &row.profile),
        }
    }
}

/// An update that sends no field at all acts exactly like reading the row
/// back: the merged teacher is the row's own model.
pub proof fn lemma_empty_update_is_row_model(t: Teacher, row: TeacherRow, update: TeacherUpdate)
    requires
        update.name is None,
        update.url_picture is None,
        update.profile is None,
        t.is_merged(row, update),
    ensures
        t.is_from_row(row),
{
}

/// Applying the same partial update a second time changes nothing: once the
/// merged teacher is stored, merging the update over the stored row yields
/// the merge of the original row again.
pub proof fn lemma_merge_update_idempotent(
    first: Teacher,
    second: Teacher,
    row: TeacherRow,
    update: TeacherUpdate,
)
    requires
        first.is_merged(row, update),
        second.is_merged(first.as_row(), update),
    ensures
        second.is_merged(row, update),
{
}

/// Map every fetched teacher row to its model.  An empty result set means no
/// teacher exists at all and is reported as `NotFound`, exactly as the
/// listing endpoint answers it.
pub fn teachers_from_rows(rows: &Vec<TeacherRow>) -> (r: Result<Vec<Teacher>, AppError>)
    ensures
        match r {
            Ok(teachers) => {
                &&& rows@.len() > 0
                &&& teachers@.len() == rows@.len()
                &&& forall|i: int|
                    0 <= i < rows@.len() ==> teachers@[i].is_from_row(rows@[i])
            },
            Err(e) => {
                &&& rows@.len() == 0
                &&& e is NotFound
                &&& e.spec_message() == "No teachers found"@
            },
        },
{
    let mut teachers: Vec<Teacher> = Vec::new();
    let mut i: usize = 0;
    while i < rows.len()
        invariant
            i <= rows@.len(),
            teachers@.len() == i,
            forall|j: int| 0 <= j < i ==> teachers@[j].is_from_row(rows@[j]),
        decreases rows@.len() - i,
    {
        teachers.push(Teacher::from_row(&rows[i]));
        i = i + 1;
    }
    if teachers.len() == 0 {
        Err(AppError::NotFound(String::from_str("No teachers found")))
    } else {
        Ok(teachers)
    }
}

/// Decide the outcome of a single-teacher lookup: a fetched row maps to its
/// model, a missing row is reported as `NotFound`.
pub fn teacher_or_not_found(row: Option<TeacherRow>) -> (r: Result<Teacher, AppError>)
    ensures
        match r {
            Ok(t) => row matches Some(found) && t.is_from_row(found),
            Err(e) => {
                &&& row is None
                &&& e is NotFound
                &&& e.spec_message() == "Teacher ID not found"@
            },
        },
{
    match row {
        Some(found) => Ok(Teacher::from_row(&found)),
        None => Err(AppError::NotFound(String::from_str("Teacher ID not found"))),
    }
}

} // verus!
