use vstd::prelude::*;

verus! {

/// The text a nullable database column contributes to a model: its content
/// where present, the empty string where the column is NULL.
pub open spec fn text_or_empty(column: Option<Seq<char>>) -> Seq<char> {
    match column {
        Some(s) => s,
        None => Seq::empty(),
    }
}

/// What a text column holds after a partial update: the update field where
/// present, else the current column with NULL read as the empty string.
pub open spec fn updated_text(update: Option<Seq<char>>, current: Option<Seq<char>>) -> Seq<char> {
    match update {
        Some(s) => s,
        None => text_or_empty(current),
    }
}

/// The number a nullable integer column contributes: its value where present,
/// zero where the column is NULL.
pub open spec fn value_or_zero(column: Option<i32>) -> i32 {
    match column {
        Some(v) => v,
        None => 0,
    }
}

/// What an integer column holds after a partial update: the update field
/// where present, else the current column with NULL read as zero.
pub open spec fn updated_value(update: Option<i32>, current: Option<i32>) -> i32 {
    match update {
        Some(v) => v,
        None => value_or_zero(current),
    }
}

/// Clone the content of a nullable text column, defaulting NULL to "".
pub fn clone_or_empty(column: &Option<String>) -> (r: String)
    ensures
        r@ == text_or_empty(column.deep_view()),
{
    match column {
        Some(s) => s.clone(),
        None => String::new(),
    }
}

/// Pick the update field where present, else fall back to the current column.
pub fn choose_text(update: &Option<String>, current: &Option<String>) -> (r: String)
    ensures
        r@ == updated_text(update.deep_view(), current.deep_view()),
{
    match update {
        Some(s) => s.clone(),
        None => clone_or_empty(current),
    }
}

/// Pick the update value where present, else fall back to the current column.
pub fn choose_value(update: &Option<i32>, current: &Option<i32>) -> (r: i32)
    ensures
        r == updated_value(*update, *current),
{
    match update {
        Some(v) => *v,
        None => match current {
            Some(v) => *v,
            None => 0,
        },
    }
}

} // verus!
