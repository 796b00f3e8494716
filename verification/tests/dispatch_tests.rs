use archive_deploy::dispatch::{extract, ArchiveFormat};

#[test]
fn extension_picks_the_format() {
    let plan = extract("a/b.zip", "D").unwrap();
    assert_eq!(plan.format, ArchiveFormat::Zip);
    assert_eq!(plan.archive_path, "a/b.zip");
    assert_eq!(plan.output_dir, "D");

    let plan = extract("A.RAR", "out").unwrap();
    assert_eq!(plan.format, ArchiveFormat::Rar);

    let plan = extract("x.7Z", "out").unwrap();
    assert_eq!(plan.format, ArchiveFormat::SevenZ);

    let plan = extract("C:\\down\\WindowsClient.Zip", "E:\\cfg").unwrap();
    assert_eq!(plan.format, ArchiveFormat::Zip);
    assert_eq!(plan.archive_path, "C:\\down\\WindowsClient.Zip");
    assert_eq!(plan.output_dir, "E:\\cfg");
}

#[test]
fn unsupported_extension_is_rejected_lower_cased() {
    let err = extract("a.tar", "D").unwrap_err();
    assert_eq!(err.extension, Some("tar".to_string()));
    assert_eq!(err.message(), "不支持的压缩格式: Some(\"tar\")");

    let err = extract("A.TAR", "D").unwrap_err();
    assert_eq!(err.extension, Some("tar".to_string()));

    let err = extract("noext", "D").unwrap_err();
    assert_eq!(err.extension, None);
    assert_eq!(err.message(), "不支持的压缩格式: None");

    let err = extract(".hidden", "D").unwrap_err();
    assert_eq!(err.extension, None);
}
