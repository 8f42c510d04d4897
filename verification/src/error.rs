//! Errors of the application.
use vstd::prelude::*;

verus! {

/// Why an operation failed. Each variant carries the text shown to the user.
#[derive(Debug)]
pub enum AppError {
    /// Something that was asked for does not exist.
    NotFound(String),
    /// The request is refused as it stands.
    InvalidInput(String),
    /// The application or a service behind it misbehaved.
    Internal(String),
    /// The database refused or failed an operation.
    Database(String),
    /// The connection to a server failed.
    Ssh(String),
}

/// Result of an operation of the application.
pub type AppResult<T> = Result<T, AppError>;

/// The mathematical content of an `AppError`.
pub enum ErrorView {
    NotFound(Seq<char>),
    InvalidInput(Seq<char>),
    Internal(Seq<char>),
    Database(Seq<char>),
    Ssh(Seq<char>),
}

impl View for AppError {
    type V = ErrorView;

    open spec fn view(&self) -> ErrorView {
        match *self {
            AppError::NotFound(t) => ErrorView::NotFound(t@),
            AppError::InvalidInput(t) => ErrorView::InvalidInput(t@),
            AppError::Internal(t) => ErrorView::Internal(t@),
            AppError::Database(t) => ErrorView::Database(t@),
            AppError::Ssh(t) => ErrorView::Ssh(t@),
        }
    }
}

/// The mathematical content of a result.
pub open spec fn result_view<T: View>(r: AppResult<T>) -> Result<T::V, ErrorView> {
    match r {
        Ok(v) => Ok(v@),
        Err(e) => Err(e@),
    }
}

impl ErrorView {
    /// The text that an error carries.
    pub open spec fn text(self) -> Seq<char> {
        match self {
            ErrorView::NotFound(t) => t,
            ErrorView::InvalidInput(t) => t,
            ErrorView::Internal(t) => t,
            ErrorView::Database(t) => t,
            ErrorView::Ssh(t) => t,
        }
    }
}

impl AppError {
    /// The text of the error.
    pub fn to_string(&self) -> (r: String)
        ensures
            r@ == self@.text(),
    {
        match self {
            AppError::NotFound(t) => t.clone(),
            AppError::InvalidInput(t) => t.clone(),
            AppError::Internal(t) => t.clone(),
            AppError::Database(t) => t.clone(),
            AppError::Ssh(t) => t.clone(),
        }
    }
}

/// An error keeps its sort and its text, whatever they are, and its text is what it shows.
pub proof fn law_errors_show_their_text(t: String)
    ensures
        AppError::NotFound(t)@ == ErrorView::NotFound(t@),
        AppError::InvalidInput(t)@ == ErrorView::InvalidInput(t@),
        AppError::Internal(t)@ == ErrorView::Internal(t@),
        AppError::Database(t)@ == ErrorView::Database(t@),
        AppError::Ssh(t)@ == ErrorView::Ssh(t@),
        AppError::NotFound(t)@.text() == t@,
        AppError::InvalidInput(t)@.text() == t@,
        AppError::Internal(t)@.text() == t@,
        AppError::Database(t)@.text() == t@,
        AppError::Ssh(t)@.text() == t@,
{
}

/// A result is seen as what it holds: the value of a success, the error of a failure.
pub proof fn law_results_are_seen_as_they_are<T: View>(value: T, e: AppError)
    ensures
        result_view(Ok::<T, AppError>(value)) == Ok::<T::V, ErrorView>(value@),
        result_view(Err::<T, AppError>(e)) == Err::<T::V, ErrorView>(e@),
{
}

} // verus!
