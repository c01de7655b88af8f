//! Errors that the API answers with.

use vstd::prelude::*;

verus! {

#[derive(Debug)]
pub enum AppError {
    BadRequest(String),
    NotFound(String),
    Internal(String),
    ServiceUnavailable(String),
}

pub enum AppErrorView {
    BadRequest(Seq<char>),
    NotFound(Seq<char>),
    Internal(Seq<char>),
    ServiceUnavailable(Seq<char>),
}

impl View for AppError {
    type V = AppErrorView;

    open spec fn view(&self) -> AppErrorView {
        match self {
            AppError::BadRequest(m) => AppErrorView::BadRequest(m@),
            AppError::NotFound(m) => AppErrorView::NotFound(m@),
            AppError::Internal(m) => AppErrorView::Internal(m@),
            AppError::ServiceUnavailable(m) => AppErrorView::ServiceUnavailable(m@),
        }
    }
}

} // verus!
