use archive_deploy::chars::{ascii_lower, str_eq_icase};
use archive_deploy::locator::find_archives;
use archive_deploy::logsink::make_log_line;
use archive_deploy::messages::{
    archive_missing_message, archive_needs_directory_message, expected_path_label,
    extract_failure_message, invalid_invocation_message, no_archives_message,
    no_target_dirs_message, package_not_found_message,
};
use archive_deploy::planner::{
    check_archive_flags, check_invocation, select_package_archives, tasks_for_archive,
};

#[test]
fn explicit_directory_demands_one_source() {
    // 两个 -p 值加 -d：组合被拒绝，记录数量错误。
    let rejected = check_invocation(2, false, true).unwrap();
    assert_eq!(rejected, "-d 参数必须与 -p 或 -a 参数一起使用，且只能指定一个压缩包");

    assert!(check_invocation(0, false, true).is_some());
    assert!(check_invocation(1, true, true).is_some());
    assert!(check_invocation(1, false, true).is_none());
    assert!(check_invocation(0, true, true).is_none());
    assert!(check_invocation(2, false, false).is_none());
    assert!(check_invocation(0, false, false).is_none());
}

#[test]
fn explicit_archive_demands_a_directory() {
    let rejected = check_archive_flags(true, false).unwrap();
    assert_eq!(rejected, "-a 参数必须搭配 -d 指定目标解压路径");
    assert!(check_archive_flags(true, true).is_none());
    assert!(check_archive_flags(false, false).is_none());
    assert!(check_archive_flags(false, true).is_none());
}

#[test]
fn empty_directory_yields_single_not_found_message() {
    // 没有选择参数、目录里也没有匹配的压缩包：一条“没有找到”消息，不解压。
    let listing: Vec<String> = vec!["./notes.txt".to_string(), "./setup.exe".to_string()];
    let found = find_archives(&listing);
    assert!(found.is_empty());
    let msg = no_archives_message();
    assert_eq!(msg, "当前目录下没有任何名为 WindowsClient、Windows 的压缩包（zip/rar/7z）");
    let tasks: Vec<(String, String)> = Vec::new();
    assert!(tasks.is_empty());
}

#[test]
fn packages_select_by_name_ignoring_case() {
    let archives = vec![
        ("WindowsClient".to_string(), "./WindowsClient.zip".to_string()),
        ("windows".to_string(), "./windows.rar".to_string()),
        ("Windows".to_string(), "./Windows.7z".to_string()),
    ];
    let picked = select_package_archives("WINDOWS", &archives);
    assert_eq!(
        picked,
        vec![
            ("windows".to_string(), "./windows.rar".to_string()),
            ("Windows".to_string(), "./Windows.7z".to_string()),
        ]
    );
    assert!(select_package_archives("client", &archives).is_empty());
}

#[test]
fn tasks_cross_archive_with_directories() {
    let dirs = vec!["E:cfg".to_string(), "F:cfg".to_string()];
    let tasks = tasks_for_archive(&"./Windows.zip".to_string(), &dirs);
    assert_eq!(
        tasks,
        vec![
            ("./Windows.zip".to_string(), "E:cfg".to_string()),
            ("./Windows.zip".to_string(), "F:cfg".to_string()),
        ]
    );
    assert!(tasks_for_archive(&"./Windows.zip".to_string(), &Vec::new()).is_empty());
}

#[test]
fn report_messages_are_exact() {
    assert_eq!(
        invalid_invocation_message(),
        "-d 参数必须与 -p 或 -a 参数一起使用，且只能指定一个压缩包"
    );
    assert_eq!(
        package_not_found_message("WindowsClient"),
        "未在当前目录下找到名为 WindowsClient 的压缩包"
    );
    assert_eq!(archive_needs_directory_message(), "-a 参数必须搭配 -d 指定目标解压路径");
    assert_eq!(archive_missing_message("C:\\x.zip"), "压缩包不存在: C:\\x.zip");
    assert_eq!(expected_path_label("WindowsClient"), "三角洲行动");
    assert_eq!(expected_path_label("Windows"), "无畏契约");
    assert_eq!(expected_path_label("anything"), "未知");
    assert_eq!(
        no_target_dirs_message("三角洲行动"),
        "未找到 三角洲行动 的目标目录用于解压，请使用 -p 指定当前目录下的压缩包名称，-d 指定解压目录"
    );
    assert_eq!(
        extract_failure_message("./a.zip", "E:cfg", "bad archive"),
        "解压失败（./a.zip -> E:cfg）：bad archive"
    );
}

#[test]
fn log_lines_carry_timestamp_and_message() {
    let line = make_log_line("something failed");
    assert!(line.ends_with(" something failed\n"));
    assert!(line.chars().count() >= "something failed".chars().count() + 21);
}

#[test]
fn ascii_case_helpers() {
    assert!(str_eq_icase("WindowsClient", "WINDOWSCLIENT"));
    assert!(str_eq_icase("7z", "7Z"));
    assert!(!str_eq_icase("Windows", "WindowsClient"));
    assert!(!str_eq_icase("rar", "raR "));
    assert_eq!(ascii_lower("AbC-7Z"), "abc-7z");
    assert_eq!(ascii_lower("文件ZIP"), "文件zip");
    assert_eq!(ascii_lower(""), "");
}
