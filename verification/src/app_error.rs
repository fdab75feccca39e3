//! The errors of the service functions.

use vstd::prelude::*;

verus! {

#[derive(Clone, Debug)]
pub enum AppError {
    /// What the user handed in is not acceptable.
    InvalidInput(String),
    /// What is stored cannot be read or used.
    Database(String),
}

/// An [`AppError`] with its text as a sequence of characters.
pub enum AppErrorView {
    InvalidInput(Seq<char>),
    Database(Seq<char>),
}

impl View for AppError {
    type V = AppErrorView;

    open spec fn view(&self) -> AppErrorView {
        match self {
            AppError::InvalidInput(s) => AppErrorView::InvalidInput(s@),
            AppError::Database(s) => AppErrorView::Database(s@),
        }
    }
}

/// The outcome of a function that returns a text or an error.
pub open spec fn text_outcome(r: Result<String, AppError>) -> Result<Seq<char>, AppErrorView> {
    match r {
        Ok(s) => Ok(s@),
        Err(e) => Err(e@),
    }
}

/// The outcome of a function that returns a plain value or an error.
pub open spec fn outcome<T>(r: Result<T, AppError>) -> Result<T, AppErrorView> {
    match r {
        Ok(v) => Ok(v),
        Err(e) => Err(e@),
    }
}

impl AppError {
    /// A copy of the error.
    pub fn duplicate(&self) -> (r: AppError)
        ensures
            r@ == self@,
    {
        match self {
            AppError::InvalidInput(s) => AppError::InvalidInput(s.clone()),
            AppError::Database(s) => AppError::Database(s.clone()),
        }
    }
}

} // verus!
