use webservice::errors::AppError;
use webservice::teacher::{
    teacher_or_not_found, teachers_from_rows, Teacher, TeacherRow, TeacherUpdate,
};

fn sample_teacher_row() -> TeacherRow {
    TeacherRow {
        id: 1,
        name: Some(String::from("First Teacher")),
        url_picture: Some(String::from("http://example.net/1.png")),
        profile: Some(String::from("A teacher")),
    }
}

#[test]
fn teacher_from_row_keeps_present_columns() {
    let t = Teacher::from_row(&sample_teacher_row());
    assert_eq!(t.id, 1);
    assert_eq!(t.name, "First Teacher");
    assert_eq!(t.url_picture, "http://example.net/1.png");
    assert_eq!(t.profile, "A teacher");
}

#[test]
fn teacher_from_row_defaults_null_columns_to_empty() {
    let row = TeacherRow { id: 7, name: None, url_picture: None, profile: None };
    let t = Teacher::from_row(&row);
    assert_eq!(t.id, 7);
    assert_eq!(t.name, "");
    assert_eq!(t.url_picture, "");
    assert_eq!(t.profile, "");
}

#[test]
fn teacher_merge_update_present_fields_win() {
    let update = TeacherUpdate {
        name: Some(String::from("Renamed Teacher")),
        url_picture: None,
        profile: Some(String::from("An updated profile")),
    };
    let t = Teacher::merge_update(&sample_teacher_row(), &update);
    assert_eq!(t.id, 1);
    assert_eq!(t.name, "Renamed Teacher");
    assert_eq!(t.url_picture, "http://example.net/1.png");
    assert_eq!(t.profile, "An updated profile");
}

#[test]
fn teacher_merge_update_absent_field_over_null() {
    let row = TeacherRow {
        id: 2,
        name: Some(String::from("Second Teacher")),
        url_picture: None,
        profile: None,
    };
    let update = TeacherUpdate { name: None, url_picture: None, profile: None };
    let t = Teacher::merge_update(&row, &update);
    assert_eq!(t.id, 2);
    assert_eq!(t.name, "Second Teacher");
    assert_eq!(t.url_picture, "");
    assert_eq!(t.profile, "");
}

#[test]
fn listing_no_rows_is_not_found() {
    let rows: Vec<TeacherRow> = Vec::new();
    match teachers_from_rows(&rows) {
        Ok(_) => panic!("an empty result set must be reported as an error"),
        Err(e) => {
            assert!(matches!(e, AppError::NotFound(_)));
            assert_eq!(e.error_message(), "No teachers found");
            assert_eq!(e.status_code(), 404);
        }
    }
}

#[test]
fn listing_maps_every_row() {
    let rows = vec![
        sample_teacher_row(),
        TeacherRow { id: 2, name: None, url_picture: None, profile: None },
    ];
    let teachers = teachers_from_rows(&rows).expect("two rows must map to two teachers");
    assert_eq!(teachers.len(), 2);
    assert_eq!(teachers[0].id, 1);
    assert_eq!(teachers[0].name, "First Teacher");
    assert_eq!(teachers[1].id, 2);
    assert_eq!(teachers[1].name, "");
    assert_eq!(teachers[1].url_picture, "");
    assert_eq!(teachers[1].profile, "");
}

#[test]
fn teacher_lookup_found_row_maps_to_model() {
    let t = teacher_or_not_found(Some(sample_teacher_row())).expect("a fetched row must map");
    assert_eq!(t.id, 1);
    assert_eq!(t.name, "First Teacher");
}

#[test]
fn teacher_lookup_missing_row_is_not_found() {
    match teacher_or_not_found(None) {
        Ok(_) => panic!("a missing row must be reported as an error"),
        Err(e) => {
            assert!(matches!(e, AppError::NotFound(_)));
            assert_eq!(e.error_message(), "Teacher ID not found");
            assert_eq!(e.status_code(), 404);
        }
    }
}

#[test]
fn teacher_empty_update_equals_from_row() {
    let row = TeacherRow {
        id: 4,
        name: Some(String::from("Fourth Teacher")),
        url_picture: None,
        profile: Some(String::from("A profile")),
    };
    let update = TeacherUpdate { name: None, url_picture: None, profile: None };
    assert_eq!(Teacher::merge_update(&row, &update), Teacher::from_row(&row));
}

#[test]
fn teacher_merge_update_twice_changes_nothing() {
    let update = TeacherUpdate {
        name: Some(String::from("Renamed Teacher")),
        url_picture: None,
        profile: None,
    };
    let first = Teacher::merge_update(&sample_teacher_row(), &update);
    let stored = TeacherRow {
        id: first.id,
        name: Some(first.name.clone()),
        url_picture: Some(first.url_picture.clone()),
        profile: Some(first.profile.clone()),
    };
    let second = Teacher::merge_update(&stored, &update);
    assert_eq!(second, first);
}
