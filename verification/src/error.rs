//! Error handling and user-friendly error messages.
//!
//! Messages are localized to Japanese for the educational context.
use vstd::prelude::*;

verus! {

/// Error severity level
#[derive(Clone, Copy, Debug, PartialEq, Eq, Structural)]
pub enum ErrorSeverity {
    /// Non-blocking warning
    Warning,
    /// Standard error
    Error,
    /// Critical issue
    Critical,
}

/// Application error types with user-friendly messages
#[derive(Debug)]
pub enum AppError {
    /// Document operation errors
    DocumentError(String),
    /// File I/O errors
    FileError(String),
    /// JSON serialization errors
    JsonError(String),
    /// Database operation errors
    DatabaseError(String),
    /// Canvas rendering errors
    RenderError(String),
    /// Invalid state or operation
    InvalidOperation(String),
    /// Element not found
    ElementNotFound(String),
    /// Page not found
    PageNotFound(String),
    /// Selection error
    SelectionError(String),
}

/// The severity that each kind of error carries.
pub open spec fn severity_of(e: AppError) -> ErrorSeverity {
    match e {
        AppError::DocumentError(_) => ErrorSeverity::Error,
        AppError::FileError(_) => ErrorSeverity::Critical,
        AppError::JsonError(_) => ErrorSeverity::Error,
        AppError::DatabaseError(_) => ErrorSeverity::Critical,
        AppError::RenderError(_) => ErrorSeverity::Warning,
        AppError::InvalidOperation(_) => ErrorSeverity::Error,
        AppError::ElementNotFound(_) => ErrorSeverity::Warning,
        AppError::PageNotFound(_) => ErrorSeverity::Error,
        AppError::SelectionError(_) => ErrorSeverity::Warning,
    }
}

/// The text shown to the user for an error: a fixed phrase around the error's detail.
pub open spec fn user_message_of(e: AppError) -> Seq<char> {
    match e {
        AppError::DocumentError(m) => "ドキュメント処理エラー："@ + m@,
        AppError::FileError(m) => "ファイルを操作できませんでした："@ + m@,
        AppError::JsonError(m) => "ファイル形式エラー："@ + m@,
        AppError::DatabaseError(m) => "データベースエラー："@ + m@,
        AppError::RenderError(m) => "描画エラー："@ + m@,
        AppError::InvalidOperation(m) => "この操作はできません："@ + m@,
        AppError::ElementNotFound(id) => "オブジェクト「"@ + id@ + "」が見つかりません"@,
        AppError::PageNotFound(idx) => "ページ "@ + idx@ + " は存在しません"@,
        AppError::SelectionError(m) => "選択エラー："@ + m@,
    }
}

/// Builds `prefix` followed by `detail`.
fn prefixed(prefix: &str, detail: &String) -> (res: String)
    ensures
        res@ == prefix@ + detail@,
{
    let mut s = String::from_str(prefix);
    s.append(detail.as_str());
    s
}

/// Builds `prefix` followed by `detail` and `suffix`.
fn framed(prefix: &str, detail: &String, suffix: &str) -> (res: String)
    ensures
        res@ == prefix@ + detail@ + suffix@,
{
    let mut s = String::from_str(prefix);
    s.append(detail.as_str());
    s.append(suffix);
    s
}

impl AppError {
    /// Get the severity level of this error
    pub fn severity(&self) -> (res: ErrorSeverity)
        ensures
            res == severity_of(*self),
    {
        match self {
            AppError::DocumentError(_) => ErrorSeverity::Error,
            AppError::FileError(_) => ErrorSeverity::Critical,
            AppError::JsonError(_) => ErrorSeverity::Error,
            AppError::DatabaseError(_) => ErrorSeverity::Critical,
            AppError::RenderError(_) => ErrorSeverity::Warning,
            AppError::InvalidOperation(_) => ErrorSeverity::Error,
            AppError::ElementNotFound(_) => ErrorSeverity::Warning,
            AppError::PageNotFound(_) => ErrorSeverity::Error,
            AppError::SelectionError(_) => ErrorSeverity::Warning,
        }
    }

    /// Get the user-friendly message
    pub fn user_message(&self) -> (res: String)
        ensures
            res@ == user_message_of(*self),
    {
        match self {
            AppError::DocumentError(msg) => prefixed("ドキュメント処理エラー：", msg),
            AppError::FileError(msg) => prefixed("ファイルを操作できませんでした：", msg),
            AppError::JsonError(msg) => prefixed("ファイル形式エラー：", msg),
            AppError::DatabaseError(msg) => prefixed("データベースエラー：", msg),
            AppError::RenderError(msg) => prefixed("描画エラー：", msg),
            AppError::InvalidOperation(msg) => prefixed("この操作はできません：", msg),
            AppError::ElementNotFound(id) => framed("オブジェクト「", id, "」が見つかりません"),
            AppError::PageNotFound(idx) => framed("ページ ", idx, " は存在しません"),
            AppError::SelectionError(msg) => prefixed("選択エラー：", msg),
        }
    }

    /// The displayed form of an error: its user message.
    pub fn to_string(&self) -> (res: String)
        ensures
            res@ == user_message_of(*self),
    {
        self.user_message()
    }
}

/// Result type for application operations
pub type AppResult<T> = Result<T, AppError>;

/// Validation error with suggestion for user guidance
pub struct ValidationError {
    pub field: String,
    pub message: String,
    pub suggestion: Option<String>,
}

/// The full message of a validation error: the field in brackets, the message, and the
/// suggestion (if any) after a hint marker.
pub open spec fn full_message_of(e: ValidationError) -> Seq<char> {
    let head = "【"@ + e.field@ + "】"@ + e.message@;
    match e.suggestion {
        Some(s) => head + "\n\n💡 ヒント："@ + s@,
        None => head,
    }
}

impl ValidationError {
    /// Create a new validation error
    pub fn new(field: &str, message: &str) -> (res: Self)
        ensures
            res.field@ == field@,
            res.message@ == message@,
            res.suggestion is None,
    {
        ValidationError {
            field: String::from_str(field),
            message: String::from_str(message),
            suggestion: None,
        }
    }

    /// Add a helpful suggestion
    pub fn with_suggestion(self, suggestion: &str) -> (res: Self)
        ensures
            res.field == self.field,
            res.message == self.message,
            res.suggestion matches Some(s) && s@ == suggestion@,
    {
        let mut e = self;
        e.suggestion = Some(String::from_str(suggestion));
        e
    }

    /// Get the full formatted message with suggestion
    pub fn full_message(&self) -> (res: String)
        ensures
            res@ == full_message_of(*self),
    {
        let mut msg = String::from_str("【");
        msg.append(self.field.as_str());
        msg.append("】");
        msg.append(self.message.as_str());
        match &self.suggestion {
            Some(suggestion) => {
                msg.append("\n\n💡 ヒント：");
                msg.append(suggestion.as_str());
            },
            None => {},
        }
        msg
    }

    /// The displayed form of a validation error: its full message.
    pub fn to_string(&self) -> (res: String)
        ensures
            res@ == full_message_of(*self),
    {
        self.full_message()
    }
}

/// Result type for validation
pub type ValidationResult<T> = Result<T, ValidationError>;

} // verus!
