//! The error type that every operation of the crate reports.

use vstd::prelude::*;
use vstd::string::*;

verus! {

/// The coarse kind of a failure, enough for a caller to choose its wording
/// without reading the message.
#[derive(Debug, Clone, Copy, PartialEq, Eq, Structural)]
pub enum ErrorType {
    FileSystem,
    InvalidPath,
    PermissionDenied,
    Configuration,
    Unknown,
}

/// A failure: a human-readable message and its kind.
#[derive(Debug, Clone, PartialEq, Eq)]
pub struct AppError {
    pub message: String,
    pub error_type: ErrorType,
}

/// The result of an operation that may fail.
pub type AppResult<T> = Result<T, AppError>;

/// The mathematical content of an [`AppError`].
pub struct AppErrorView {
    pub message: Seq<char>,
    pub error_type: ErrorType,
}

impl View for AppError {
    type V = AppErrorView;

    open spec fn view(&self) -> AppErrorView {
        AppErrorView { message: self.message@, error_type: self.error_type }
    }
}

/// The label under which a kind is shown to the user.
pub open spec fn type_label(error_type: ErrorType) -> Seq<char> {
    match error_type {
        ErrorType::FileSystem => "文件系统错误"@,
        ErrorType::InvalidPath => "无效路径"@,
        ErrorType::PermissionDenied => "权限不足"@,
        ErrorType::Configuration => "配置错误"@,
        ErrorType::Unknown => "未知错误"@,
    }
}

/// What [`AppError::to_string`] renders: the label, a colon and the message.
pub open spec fn rendered(error: AppErrorView) -> Seq<char> {
    type_label(error.error_type) + ": "@ + error.message
}

impl AppError {
    pub fn new(message: &str, error_type: ErrorType) -> (error: Self)
        ensures
            error@ == (AppErrorView { message: message@, error_type }),
    {
        AppError { message: message.to_owned(), error_type }
    }

    pub fn file_system(message: &str) -> (error: Self)
        ensures
            error@ == (AppErrorView { message: message@, error_type: ErrorType::FileSystem }),
    {
        Self::new(message, ErrorType::FileSystem)
    }

    pub fn invalid_path(message: &str) -> (error: Self)
        ensures
            error@ == (AppErrorView { message: message@, error_type: ErrorType::InvalidPath }),
    {
        Self::new(message, ErrorType::InvalidPath)
    }

    pub fn permission_denied(message: &str) -> (error: Self)
        ensures
            error@ == (AppErrorView {
                message: message@,
                error_type: ErrorType::PermissionDenied,
            }),
    {
        Self::new(message, ErrorType::PermissionDenied)
    }

    pub fn configuration(message: &str) -> (error: Self)
        ensures
            error@ == (AppErrorView { message: message@, error_type: ErrorType::Configuration }),
    {
        Self::new(message, ErrorType::Configuration)
    }

    /// The label of this error's kind.
    pub fn error_type_str(&self) -> (label: &'static str)
        ensures
            label@ == type_label(self.error_type),
    {
        match self.error_type {
            ErrorType::FileSystem => "文件系统错误",
            ErrorType::InvalidPath => "无效路径",
            ErrorType::PermissionDenied => "权限不足",
            ErrorType::Configuration => "配置错误",
            ErrorType::Unknown => "未知错误",
        }
    }

    /// Renders the error for display: `<label>: <message>`.
    pub fn to_string(&self) -> (text: String)
        ensures
            text@ == rendered(self@),
    {
        let mut text = String::from_str(self.error_type_str());
        text.append(": ");
        text.append(self.message.as_str());
        text
    }
}

/// The kinds of input/output failure that are told apart.
#[derive(Debug, Clone, Copy, PartialEq, Eq, Structural)]
pub enum IoFailureKind {
    /// Nothing was found at the path.
    NotFound,
    /// The operation was not permitted.
    PermissionDenied,
    /// Any other failure.
    Other,
}

/// An input/output failure as the host reports it: its kind, and its account
/// of what happened.
#[derive(Debug, Clone, PartialEq, Eq)]
pub struct IoFailure {
    pub kind: IoFailureKind,
    pub detail: String,
}

/// The mathematical content of an [`IoFailure`].
pub struct IoFailureView {
    pub kind: IoFailureKind,
    pub detail: Seq<char>,
}

impl View for IoFailure {
    type V = IoFailureView;

    open spec fn view(&self) -> IoFailureView {
        IoFailureView { kind: self.kind, detail: self.detail@ }
    }
}

/// The error that an input/output failure becomes: a path that was not found
/// is an invalid path, a refusal is a denied permission, and everything else
/// is a file-system error that carries the host's account.
pub open spec fn io_error(failure: IoFailureView) -> AppErrorView {
    match failure.kind {
        IoFailureKind::NotFound => AppErrorView {
            message: "路径不存在"@,
            error_type: ErrorType::InvalidPath,
        },
        IoFailureKind::PermissionDenied => AppErrorView {
            message: "没有访问权限"@,
            error_type: ErrorType::PermissionDenied,
        },
        IoFailureKind::Other => AppErrorView {
            message: "文件系统操作失败: "@ + failure.detail,
            error_type: ErrorType::FileSystem,
        },
    }
}

impl vstd::std_specs::convert::FromSpecImpl<IoFailure> for AppError {
    open spec fn obeys_from_spec() -> bool {
        false
    }

    open spec fn from_spec(failure: IoFailure) -> AppError {
        arbitrary()
    }
}

impl From<IoFailure> for AppError {
    fn from(failure: IoFailure) -> (error: AppError)
        ensures
            error@ == io_error(failure@),
    {
        match failure.kind {
            IoFailureKind::NotFound => AppError::invalid_path("路径不存在"),
            IoFailureKind::PermissionDenied => AppError::permission_denied("没有访问权限"),
            IoFailureKind::Other => {
                let message = String::from_str("文件系统操作失败: ").concat(
                    failure.detail.as_str(),
                );
                AppError::file_system(message.as_str())
            },
        }
    }
}

} // verus!
