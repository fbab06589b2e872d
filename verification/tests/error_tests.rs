use testruct_ui::error::{AppError, ErrorSeverity, ValidationError};

#[test]
fn test_error_display() {
    let err = AppError::ElementNotFound("abc123".to_string());
    assert_eq!(err.to_string(), "オブジェクト「abc123」が見つかりません");
}

#[test]
fn test_error_severity() {
    assert_eq!(AppError::FileError("test".to_string()).severity(), ErrorSeverity::Critical);
    assert_eq!(AppError::ElementNotFound("id".to_string()).severity(), ErrorSeverity::Warning);
}

#[test]
fn test_validation_error_with_suggestion() {
    let err = ValidationError::new("font_size", "値が範囲外です")
        .with_suggestion("6～72の間の値を指定してください");

    assert!(err.full_message().contains("💡 ヒント"));
    assert!(err.full_message().contains("6～72"));
    assert!(err.full_message().contains("【font_size】"));
}

#[test]
fn user_messages_frame_the_detail() {
    assert_eq!(AppError::DocumentError("x".to_string()).user_message(), "ドキュメント処理エラー：x");
    assert_eq!(AppError::FileError("x".to_string()).user_message(), "ファイルを操作できませんでした：x");
    assert_eq!(AppError::JsonError("x".to_string()).user_message(), "ファイル形式エラー：x");
    assert_eq!(AppError::DatabaseError("x".to_string()).user_message(), "データベースエラー：x");
    assert_eq!(AppError::RenderError("x".to_string()).user_message(), "描画エラー：x");
    assert_eq!(AppError::InvalidOperation("x".to_string()).user_message(), "この操作はできません：x");
    assert_eq!(AppError::PageNotFound("3".to_string()).user_message(), "ページ 3 は存在しません");
    assert_eq!(AppError::SelectionError("x".to_string()).user_message(), "選択エラー：x");
}

#[test]
fn every_error_kind_has_its_severity() {
    let s = |e: AppError| e.severity();
    assert_eq!(s(AppError::DocumentError(String::new())), ErrorSeverity::Error);
    assert_eq!(s(AppError::JsonError(String::new())), ErrorSeverity::Error);
    assert_eq!(s(AppError::DatabaseError(String::new())), ErrorSeverity::Critical);
    assert_eq!(s(AppError::RenderError(String::new())), ErrorSeverity::Warning);
    assert_eq!(s(AppError::InvalidOperation(String::new())), ErrorSeverity::Error);
    assert_eq!(s(AppError::PageNotFound(String::new())), ErrorSeverity::Error);
    assert_eq!(s(AppError::SelectionError(String::new())), ErrorSeverity::Warning);
}

#[test]
fn validation_message_without_suggestion() {
    let err = ValidationError::new("width", "too small");
    assert_eq!(err.full_message(), "【width】too small");
    assert_eq!(err.to_string(), "【width】too small");
    let err = err.with_suggestion("use 10 or more");
    assert_eq!(err.full_message(), "【width】too small\n\n💡 ヒント：use 10 or more");
}
