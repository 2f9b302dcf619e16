use smart_folder_zen::error::{AppError, ErrorType, IoFailure, IoFailureKind};

#[test]
fn constructors_set_message_and_kind() {
    let error = AppError::new("boom", ErrorType::Unknown);
    assert_eq!(error.message, "boom");
    assert_eq!(error.error_type, ErrorType::Unknown);

    assert_eq!(AppError::file_system("a"), AppError::new("a", ErrorType::FileSystem));
    assert_eq!(AppError::invalid_path("b"), AppError::new("b", ErrorType::InvalidPath));
    assert_eq!(AppError::permission_denied("c"), AppError::new("c", ErrorType::PermissionDenied));
    assert_eq!(AppError::configuration("d"), AppError::new("d", ErrorType::Configuration));
    assert_eq!(AppError::new("", ErrorType::FileSystem).message, "");
}

#[test]
fn every_kind_has_its_label() {
    assert_eq!(AppError::new("x", ErrorType::FileSystem).error_type_str(), "文件系统错误");
    assert_eq!(AppError::new("x", ErrorType::InvalidPath).error_type_str(), "无效路径");
    assert_eq!(AppError::new("x", ErrorType::PermissionDenied).error_type_str(), "权限不足");
    assert_eq!(AppError::new("x", ErrorType::Configuration).error_type_str(), "配置错误");
    assert_eq!(AppError::new("x", ErrorType::Unknown).error_type_str(), "未知错误");
}

#[test]
fn an_error_is_rendered_as_label_colon_message() {
    assert_eq!(AppError::invalid_path("路径不存在").to_string(), "无效路径: 路径不存在");
    assert_eq!(AppError::configuration("bad file").to_string(), "配置错误: bad file");
    assert_eq!(AppError::new("", ErrorType::Unknown).to_string(), "未知错误: ");
}

#[test]
fn io_failures_are_sorted_by_kind() {
    let missing = IoFailure { kind: IoFailureKind::NotFound, detail: "No such file".to_string() };
    assert_eq!(AppError::from(missing), AppError::invalid_path("路径不存在"));

    let refused = IoFailure { kind: IoFailureKind::PermissionDenied, detail: "denied".to_string() };
    assert_eq!(AppError::from(refused), AppError::permission_denied("没有访问权限"));

    let other = IoFailure { kind: IoFailureKind::Other, detail: "disk full".to_string() };
    assert_eq!(AppError::from(other), AppError::file_system("文件系统操作失败: disk full"));

    let silent = IoFailure { kind: IoFailureKind::Other, detail: String::new() };
    let converted: AppError = silent.into();
    assert_eq!(converted, AppError::file_system("文件系统操作失败: "));
}
