//! The errors that end a request or the start-up of the gateway.

use crate::handlers::reply::{make_reply, reply_with_header, Reply};
use vstd::prelude::*;
use vstd::string::*;

verus! {

/// An error of the gateway. Where it stands for an error of another layer,
/// it holds that error's message.
#[derive(Debug)]
pub enum AppError {
    /// A request to an upstream registry failed.
    UpstreamRequest(String),
    /// The TLS configuration could not be loaded.
    TlsConfig(String),
    /// The TLS library refused the configuration.
    Rustls(String),
    /// The client's request is malformed.
    InvalidRequest(String),
    /// Reading or writing failed.
    Io(String),
}

/// The texts of an `AppError`.
pub enum AppErrorView {
    UpstreamRequest(Seq<char>),
    TlsConfig(Seq<char>),
    Rustls(Seq<char>),
    InvalidRequest(Seq<char>),
    Io(Seq<char>),
}

impl View for AppError {
    type V = AppErrorView;

    open spec fn view(&self) -> AppErrorView {
        match self {
            AppError::UpstreamRequest(detail) => AppErrorView::UpstreamRequest(detail@),
            AppError::TlsConfig(detail) => AppErrorView::TlsConfig(detail@),
            AppError::Rustls(detail) => AppErrorView::Rustls(detail@),
            AppError::InvalidRequest(detail) => AppErrorView::InvalidRequest(detail@),
            AppError::Io(detail) => AppErrorView::Io(detail@),
        }
    }
}

/// The status that answers each error: 400 for a malformed request, 500 for
/// everything else.
pub open spec fn error_status(error: AppError) -> u16 {
    match error {
        AppError::InvalidRequest(_) => 400,
        _ => 500,
    }
}

/// The text that describes each error to the client.
pub open spec fn error_text(error: AppError) -> Seq<char> {
    match error {
        AppError::UpstreamRequest(_) => "Upstream registry request failed"@,
        AppError::TlsConfig(detail) => "TLS configuration failed to load: "@ + detail@,
        AppError::Rustls(_) => "Rustls error"@,
        AppError::InvalidRequest(detail) => "Invalid client request: "@ + detail@,
        AppError::Io(_) => "I/O error"@,
    }
}

impl AppError {
    /// The HTTP status of the error.
    pub fn status_code(&self) -> (status: u16)
        ensures
            status == error_status(*self),
    {
        match self {
            AppError::InvalidRequest(_) => 400,
            _ => 500,
        }
    }

    /// The description of the error.
    pub fn message(&self) -> (text: String)
        ensures
            text@ == error_text(*self),
    {
        match self {
            AppError::UpstreamRequest(_) => "Upstream registry request failed".to_string(),
            AppError::TlsConfig(detail) => {
                let mut text = "TLS configuration failed to load: ".to_string();
                text.append(detail.as_str());
                text
            },
            AppError::Rustls(_) => "Rustls error".to_string(),
            AppError::InvalidRequest(detail) => {
                let mut text = "Invalid client request: ".to_string();
                text.append(detail.as_str());
                text
            },
            AppError::Io(_) => "I/O error".to_string(),
        }
    }

    /// The response that reports the error: its status and its description as plain text.
    pub fn error_response(&self) -> (reply: Reply)
        ensures
            reply@ == reply_with_header(
                error_status(*self),
                "Content-Type"@,
                "text/plain; charset=utf-8"@,
                error_text(*self),
            ),
    {
        make_reply(
            self.status_code(),
            "Content-Type",
            "text/plain; charset=utf-8".to_string(),
            self.message(),
        )
    }
}

} // verus!
