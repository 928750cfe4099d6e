//! Storage failures and the application errors that they are reported as.

use crate::error::{AppError, AppErrorView, BAD_REQUEST_CODE, INTERNAL_ERROR_CODE};
use crate::text::{
    count, join, join_range, lemma_join_of_split_replaces_separator, lemma_split_at_separator,
    lemma_split_len, lemma_split_without_separator, replace, split, split_on,
};
use vstd::prelude::*;

verus! {

/// A failure of the storage layer, as far as `map_db_error` reads it.
#[derive(Debug, Clone)]
pub enum StorageError {
    /// The database engine reported an error.
    Database {
        /// The engine's error code, where it gave one.
        code: Option<String>,
        /// The name of the constraint that was violated, where there is one.
        constraint: Option<String>,
        /// The description of the failure.
        description: String,
    },
    /// Any other failure, such as a lost connection or a timeout.
    Other {
        /// The description of the failure.
        description: String,
    },
}

/// What a `StorageError` holds.
pub enum StorageErrorView {
    /// The database engine reported an error.
    Database { code: Option<Seq<char>>, constraint: Option<Seq<char>>, description: Seq<char> },
    /// Any other failure.
    Other { description: Seq<char> },
}

impl View for StorageError {
    type V = StorageErrorView;

    open spec fn view(&self) -> StorageErrorView {
        match self {
            StorageError::Database { code, constraint, description } => StorageErrorView::Database {
                code: match code {
                    Some(c) => Some(c@),
                    None => None,
                },
                constraint: match constraint {
                    Some(c) => Some(c@),
                    None => None,
                },
                description: description@,
            },
            StorageError::Other { description } => StorageErrorView::Other {
                description: description@,
            },
        }
    }
}

/// The engine code of a violated uniqueness constraint.
pub open spec fn unique_violation_code() -> Seq<char> {
    "23505"@
}

/// The failure is a violated uniqueness constraint: a database error whose
/// engine code is `23505`.
pub open spec fn is_unique_violation(err: StorageErrorView) -> bool {
    err matches StorageErrorView::Database { code, .. } && code == Some(unique_violation_code())
}

/// The name of the violated constraint; the empty name where the failure
/// names none.
pub open spec fn constraint_name(err: StorageErrorView) -> Seq<char> {
    match err {
        StorageErrorView::Database { constraint: Some(name), .. } => name,
        _ => Seq::<char>::empty(),
    }
}

/// The description of the failure.
pub open spec fn description_of(err: StorageErrorView) -> Seq<char> {
    match err {
        StorageErrorView::Database { description, .. } => description,
        StorageErrorView::Other { description } => description,
    }
}

/// The field label that a constraint name stands for. The name is split on
/// `_`. With fewer than three parts the label is the whole name. Otherwise
/// the first and the last part are dropped and the parts between them are
/// joined with single spaces.
pub open spec fn field_label(constraint: Seq<char>) -> Seq<char> {
    let parts = split(constraint, '_');
    if parts.len() < 3 {
        constraint
    } else {
        join(parts.subrange(1, parts.len() - 1), seq![' '])
    }
}

/// The message that reports a conflict on the field of a constraint.
pub open spec fn conflict_message(constraint: Seq<char>) -> Seq<char> {
    field_label(constraint) + " already exists"@
}

/// The application error that a storage failure is reported as: a violated
/// uniqueness constraint is a bad request (code 1001, status 400) that names
/// the field; anything else is an internal error (code 1000, status 500) with
/// the failure's description as its message.
pub open spec fn translate(err: StorageErrorView) -> AppErrorView {
    if is_unique_violation(err) {
        AppErrorView {
            code: 1001,
            message: conflict_message(constraint_name(err)),
            transport_status: 400,
        }
    } else {
        AppErrorView { code: 1000, message: description_of(err), transport_status: 500 }
    }
}

/// The field label that a constraint name stands for.
pub fn field_label_of(constraint: &str) -> (label: String)
    ensures
        label@ == field_label(constraint@),
{
    let parts = split_on(constraint, '_');
    if parts.len() < 3 {
        String::from_str(constraint)
    } else {
        proof {
            reveal_strlit(" ");
            assert(" "@ =~= seq![' ']);
        }
        join_range(&parts, 1, parts.len() - 1, " ")
    }
}

/// Whether an engine code is that of a violated uniqueness constraint.
fn is_unique_violation_code(code: &Option<String>) -> (unique: bool)
    ensures
        unique == match code {
            Some(c) => c@ == unique_violation_code(),
            None => false,
        },
{
    match code {
        Some(c) => {
            let expected = String::from_str("23505");
            *c == expected
        },
        None => false,
    }
}

/// The application error that a storage failure is reported as.
pub fn map_db_error(err: StorageError) -> (error: AppError)
    ensures
        error@ == translate(err@),
{
    match err {
        StorageError::Database { code, constraint, description } => {
            if is_unique_violation_code(&code) {
                let name = match constraint {
                    Some(name) => name,
                    None => String::new(),
                };
                let mut message = field_label_of(name.as_str());
                message.append(" already exists");
                AppError::from_parts(BAD_REQUEST_CODE, message, Some(400))
            } else {
                AppError::from_parts(INTERNAL_ERROR_CODE, description, Some(500))
            }
        },
        StorageError::Other { description } => AppError::from_parts(INTERNAL_ERROR_CODE, description, Some(500)),
    }
}

/// A failure that is no database error is reported as an internal error with
/// the failure's description.
pub proof fn lemma_other_failure_is_internal_error(description: Seq<char>)
    ensures
        translate((StorageErrorView::Other { description })) == (AppErrorView {
            code: 1000,
            message: description,
            transport_status: 500,
        }),
{
}

/// A constraint name with fewer than two underscores is its own label.
pub proof fn lemma_short_name_is_its_own_label(constraint: Seq<char>)
    requires
        count(constraint, '_') < 2,
    ensures
        field_label(constraint) == constraint,
{
    lemma_split_len(constraint, '_');
}

/// A constraint name with two underscores or more stands for what lies
/// between its first and its last underscore, with every underscore there
/// replaced by a space.
pub proof fn lemma_label_is_the_middle_with_spaces(constraint: Seq<char>, first: int, last: int)
    requires
        0 <= first < last < constraint.len(),
        constraint[first] == '_',
        constraint[last] == '_',
        forall|i: int| 0 <= i < first ==> constraint[i] != '_',
        forall|i: int| last < i < constraint.len() ==> constraint[i] != '_',
    ensures
        field_label(constraint) == replace(constraint.subrange(first + 1, last), '_', ' '),
{
    let head = constraint.subrange(0, first);
    let middle = constraint.subrange(first + 1, last);
    let tail = constraint.subrange(last + 1, constraint.len() as int);
    assert(constraint =~= head + seq!['_'] + (middle + seq!['_'] + tail));
    lemma_split_at_separator(head, middle + seq!['_'] + tail, '_');
    lemma_split_at_separator(middle, tail, '_');
    lemma_split_without_separator(head, '_');
    lemma_split_without_separator(tail, '_');
    lemma_split_len(middle, '_');
    let parts = split(constraint, '_');
    assert(parts =~= seq![head] + (split(middle, '_') + seq![tail]));
    assert(parts.subrange(1, parts.len() - 1) =~= split(middle, '_'));
    lemma_join_of_split_replaces_separator(middle, '_', ' ');
}

} // verus!
