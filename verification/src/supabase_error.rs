//! The remote data service's failure taxonomy, and the helpers that read
//! table and column names out of its human-readable error text. The text
//! sniffing is best effort by construction: anything unmatched falls into a
//! generic variant, never into success.

use vstd::prelude::*;
use vstd::string::StrSliceExecFns;
use vstd::string::StringExecFns;
use crate::strutil::spec_split;
use crate::strutil::spec_dec_digits;
use crate::strutil::u64_to_dec;
use crate::strutil::str_split;
use crate::strutil::lemma_split_len;

verus! {

#[derive(Debug)]
pub enum SupabaseError {
    HttpError { status: u16, message: String },
    JsonError { message: String },
    NetworkError { message: String },
    ValidationError { field: String, reason: String },
    AuthError { message: String },
    TableNotFound { table: String },
    ColumnNotFound { table: String, column: String },
    QueryError { message: String },
    InsertConflict { message: String },
    RateLimited { message: String },
    SerializationError { message: String },
    NotFound,
    MultipleResults,
    ConfigError { message: String },
}

/// The mathematical value of a remote failure.
pub enum SupabaseErrorView {
    HttpError { status: u16, message: Seq<char> },
    JsonError { message: Seq<char> },
    NetworkError { message: Seq<char> },
    ValidationError { field: Seq<char>, reason: Seq<char> },
    AuthError { message: Seq<char> },
    TableNotFound { table: Seq<char> },
    ColumnNotFound { table: Seq<char>, column: Seq<char> },
    QueryError { message: Seq<char> },
    InsertConflict { message: Seq<char> },
    RateLimited { message: Seq<char> },
    SerializationError { message: Seq<char> },
    NotFound,
    MultipleResults,
    ConfigError { message: Seq<char> },
}

impl View for SupabaseError {
    type V = SupabaseErrorView;

    open spec fn view(&self) -> SupabaseErrorView {
        match self {
            SupabaseError::HttpError { status, message } => SupabaseErrorView::HttpError {
                status: *status,
                message: message@,
            },
            SupabaseError::JsonError { message } => SupabaseErrorView::JsonError {
                message: message@,
            },
            SupabaseError::NetworkError { message } => SupabaseErrorView::NetworkError {
                message: message@,
            },
            SupabaseError::ValidationError { field, reason } => SupabaseErrorView::ValidationError {
                field: field@,
                reason: reason@,
            },
            SupabaseError::AuthError { message } => SupabaseErrorView::AuthError {
                message: message@,
            },
            SupabaseError::TableNotFound { table } => SupabaseErrorView::TableNotFound {
                table: table@,
            },
            SupabaseError::ColumnNotFound { table, column } => SupabaseErrorView::ColumnNotFound {
                table: table@,
                column: column@,
            },
            SupabaseError::QueryError { message } => SupabaseErrorView::QueryError {
                message: message@,
            },
            SupabaseError::InsertConflict { message } => SupabaseErrorView::InsertConflict {
                message: message@,
            },
            SupabaseError::RateLimited { message } => SupabaseErrorView::RateLimited {
                message: message@,
            },
            SupabaseError::SerializationError { message } => SupabaseErrorView::SerializationError {
                message: message@,
            },
            SupabaseError::NotFound => SupabaseErrorView::NotFound,
            SupabaseError::MultipleResults => SupabaseErrorView::MultipleResults,
            SupabaseError::ConfigError { message } => SupabaseErrorView::ConfigError {
                message: message@,
            },
        }
    }
}

/// The failures the remote service answers for itself, as opposed to
/// transport or server breakdowns.
pub open spec fn spec_is_client_error(e: SupabaseErrorView) -> bool {
    ||| e is ValidationError
    ||| e is AuthError
    ||| e is TableNotFound
    ||| e is ColumnNotFound
    ||| e is QueryError
    ||| e is InsertConflict
    ||| e is SerializationError
    ||| e is NotFound
    ||| e is MultipleResults
    ||| e is ConfigError
}

pub open spec fn spec_is_not_found(e: SupabaseErrorView) -> bool {
    e is NotFound || e is TableNotFound
}

impl SupabaseError {
    pub fn is_client_error(&self) -> (r: bool)
        ensures
            r == spec_is_client_error(self@),
    {
        match self {
            SupabaseError::ValidationError { .. } => true,
            SupabaseError::AuthError { .. } => true,
            SupabaseError::TableNotFound { .. } => true,
            SupabaseError::ColumnNotFound { .. } => true,
            SupabaseError::QueryError { .. } => true,
            SupabaseError::InsertConflict { .. } => true,
            SupabaseError::SerializationError { .. } => true,
            SupabaseError::NotFound => true,
            SupabaseError::MultipleResults => true,
            SupabaseError::ConfigError { .. } => true,
            _ => false,
        }
    }

    pub fn is_server_error(&self) -> (r: bool)
        ensures
            r == (self@ matches SupabaseErrorView::HttpError { status, .. }
                && 500 <= status <= 599),
    {
        match self {
            SupabaseError::HttpError { status, .. } => 500 <= *status && *status <= 599,
            _ => false,
        }
    }

    pub fn is_network_error(&self) -> (r: bool)
        ensures
            r == (self@ is NetworkError),
    {
        match self {
            SupabaseError::NetworkError { .. } => true,
            _ => false,
        }
    }

    pub fn is_auth_error(&self) -> (r: bool)
        ensures
            r == (self@ is AuthError),
    {
        match self {
            SupabaseError::AuthError { .. } => true,
            _ => false,
        }
    }

    pub fn is_not_found(&self) -> (r: bool)
        ensures
            r == spec_is_not_found(self@),
    {
        match self {
            SupabaseError::NotFound => true,
            SupabaseError::TableNotFound { .. } => true,
            _ => false,
        }
    }
}

/// The text a remote failure reads as.
pub open spec fn spec_supabase_message(e: SupabaseErrorView) -> Seq<char> {
    match e {
        SupabaseErrorView::HttpError { status, message } => "HTTP error "@ + spec_dec_digits(
            status as nat,
        ) + ": "@ + message,
        SupabaseErrorView::JsonError { message } => "JSON parse error: "@ + message,
        SupabaseErrorView::NetworkError { message } => "Network error: "@ + message,
        SupabaseErrorView::ValidationError { field, reason } => "Validation error: "@ + field
            + " - "@ + reason,
        SupabaseErrorView::AuthError { message } => "Authentication error: "@ + message,
        SupabaseErrorView::TableNotFound { table } => "Table not found: "@ + table,
        SupabaseErrorView::ColumnNotFound { table, column } => "Column not found: "@ + column
            + " in table "@ + table,
        SupabaseErrorView::QueryError { message } => "Query error: "@ + message,
        SupabaseErrorView::InsertConflict { message } => "Insert conflict: "@ + message,
        SupabaseErrorView::RateLimited { message } => "Rate limited: "@ + message,
        SupabaseErrorView::SerializationError { message } => "Serialization error: "@ + message,
        SupabaseErrorView::NotFound => "No results found"@,
        SupabaseErrorView::MultipleResults => "Multiple results found when expecting single result"@,
        SupabaseErrorView::ConfigError { message } => "Configuration error: "@ + message,
    }
}

impl SupabaseError {
    /// The failure rendered as text, one fixed phrase per variant.
    pub fn message(&self) -> (r: String)
        ensures
            r@ == spec_supabase_message(self@),
    {
        match self {
            SupabaseError::HttpError { status, message } => {
                let mut s = "HTTP error ".to_owned();
                let d = u64_to_dec(*status as u64);
                s.append(d.as_str());
                s.append(": ");
                s.append(message.as_str());
                proof {
                    assert(s@ =~= spec_supabase_message(self@));
                }
                s
            },
            SupabaseError::JsonError { message } => {
                let mut s = "JSON parse error: ".to_owned();
                s.append(message.as_str());
                proof {
                    assert(s@ =~= spec_supabase_message(self@));
                }
                s
            },
            SupabaseError::NetworkError { message } => {
                let mut s = "Network error: ".to_owned();
                s.append(message.as_str());
                proof {
                    assert(s@ =~= spec_supabase_message(self@));
                }
                s
            },
            SupabaseError::ValidationError { field, reason } => {
                let mut s = "Validation error: ".to_owned();
                s.append(field.as_str());
                s.append(" - ");
                s.append(reason.as_str());
                proof {
                    assert(s@ =~= spec_supabase_message(self@));
                }
                s
            },
            SupabaseError::AuthError { message } => {
                let mut s = "Authentication error: ".to_owned();
                s.append(message.as_str());
                proof {
                    assert(s@ =~= spec_supabase_message(self@));
                }
                s
            },
            SupabaseError::TableNotFound { table } => {
                let mut s = "Table not found: ".to_owned();
                s.append(table.as_str());
                proof {
                    assert(s@ =~= spec_supabase_message(self@));
                }
                s
            },
            SupabaseError::ColumnNotFound { table, column } => {
                let mut s = "Column not found: ".to_owned();
                s.append(column.as_str());
                s.append(" in table ");
                s.append(table.as_str());
                proof {
                    assert(s@ =~= spec_supabase_message(self@));
                }
                s
            },
            SupabaseError::QueryError { message } => {
                let mut s = "Query error: ".to_owned();
                s.append(message.as_str());
                proof {
                    assert(s@ =~= spec_supabase_message(self@));
                }
                s
            },
            SupabaseError::InsertConflict { message } => {
                let mut s = "Insert conflict: ".to_owned();
                s.append(message.as_str());
                proof {
                    assert(s@ =~= spec_supabase_message(self@));
                }
                s
            },
            SupabaseError::RateLimited { message } => {
                let mut s = "Rate limited: ".to_owned();
                s.append(message.as_str());
                proof {
                    assert(s@ =~= spec_supabase_message(self@));
                }
                s
            },
            SupabaseError::SerializationError { message } => {
                let mut s = "Serialization error: ".to_owned();
                s.append(message.as_str());
                proof {
                    assert(s@ =~= spec_supabase_message(self@));
                }
                s
            },
            SupabaseError::NotFound => "No results found".to_owned(),
            SupabaseError::MultipleResults => {
                "Multiple results found when expecting single result".to_owned()
            },
            SupabaseError::ConfigError { message } => {
                let mut s = "Configuration error: ".to_owned();
                s.append(message.as_str());
                proof {
                    assert(s@ =~= spec_supabase_message(self@));
                }
                s
            },
        }
    }
}

/// The table name inside quoted error text: the piece of the first quoted
/// segment after its last dot, present exactly when the text holds a quote.
pub open spec fn spec_extract_table_name(msg: Seq<char>) -> Option<Seq<char>> {
    let parts = spec_split(msg, '"');
    if parts.len() < 2 {
        None
    } else {
        Some(spec_split(parts[1], '.').last())
    }
}

/// The column and table named by quoted error text: the first quoted
/// segment is the column, the second one (after its last dot) the table;
/// absent when fewer than four quote-separated pieces exist or either name
/// is empty.
pub open spec fn spec_extract_table_and_column(msg: Seq<char>) -> Option<(Seq<char>, Seq<char>)> {
    let parts = spec_split(msg, '"');
    if parts.len() < 4 {
        None
    } else {
        let column = parts[1];
        let table = spec_split(parts[3], '.').last();
        if table.len() > 0 && column.len() > 0 {
            Some((table, column))
        } else {
            None
        }
    }
}

pub fn extract_table_name(message: &str) -> (r: Option<String>)
    ensures
        r.deep_view() == spec_extract_table_name(message@),
{
    let parts = str_split(message, '"');
    if parts.len() < 2 {
        return None;
    }
    proof {
        assert(parts.deep_view()[1] == parts@[1]@);
    }
    let sub = str_split(parts[1].as_str(), '.');
    proof {
        lemma_split_len(parts@[1]@, '.');
        assert(sub.deep_view()[sub.deep_view().len() - 1] == sub@[sub@.len() - 1]@);
    }
    let last = sub[sub.len() - 1].clone();
    Some(last)
}

pub fn extract_table_and_column(message: &str) -> (r: Option<(String, String)>)
    ensures
        r.deep_view() == spec_extract_table_and_column(message@),
{
    let parts = str_split(message, '"');
    if parts.len() < 4 {
        return None;
    }
    proof {
        assert(parts.deep_view()[1] == parts@[1]@);
        assert(parts.deep_view()[3] == parts@[3]@);
    }
    let column = parts[1].clone();
    let sub = str_split(parts[3].as_str(), '.');
    proof {
        lemma_split_len(parts@[3]@, '.');
        assert(sub.deep_view()[sub.deep_view().len() - 1] == sub@[sub@.len() - 1]@);
    }
    let table = sub[sub.len() - 1].clone();
    if table.as_str().unicode_len() > 0 && column.as_str().unicode_len() > 0 {
        Some((table, column))
    } else {
        None
    }
}

} // verus!
