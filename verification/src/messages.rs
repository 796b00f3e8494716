//! The messages the error sink records.
//!
//! Every user-visible report of this tool is one line of text; each
//! function here builds one such message exactly.

use vstd::prelude::*;
use vstd::string::*;

verus! {

/// The rejection of an explicit target directory beside more or fewer
/// than one selected source.
pub fn invalid_invocation_message() -> (r: String)
    ensures
        r@ == "-d 参数必须与 -p 或 -a 参数一起使用，且只能指定一个压缩包"@,
{
    String::from_str("-d 参数必须与 -p 或 -a 参数一起使用，且只能指定一个压缩包")
}

/// No archive of the requested logical name lies in the working directory.
pub fn package_not_found_message(name: &str) -> (r: String)
    ensures
        r@ == "未在当前目录下找到名为 "@ + name@ + " 的压缩包"@,
{
    let mut out = String::from_str("未在当前目录下找到名为 ");
    out.append(name);
    out.append(" 的压缩包");
    proof {
        assert(out@ =~= "未在当前目录下找到名为 "@ + name@ + " 的压缩包"@);
    }
    out
}

/// An explicit archive path demands an explicit target directory.
pub fn archive_needs_directory_message() -> (r: String)
    ensures
        r@ == "-a 参数必须搭配 -d 指定目标解压路径"@,
{
    String::from_str("-a 参数必须搭配 -d 指定目标解压路径")
}

/// The explicitly named archive does not lie on disk.
pub fn archive_missing_message(path: &str) -> (r: String)
    ensures
        r@ == "压缩包不存在: "@ + path@,
{
    let mut out = String::from_str("压缩包不存在: ");
    out.append(path);
    out
}

/// The working directory holds no archive of any recognized name and format.
pub fn no_archives_message() -> (r: String)
    ensures
        r@ == "当前目录下没有任何名为 WindowsClient、Windows 的压缩包（zip/rar/7z）"@,
{
    String::from_str("当前目录下没有任何名为 WindowsClient、Windows 的压缩包（zip/rar/7z）")
}

/// The game a logical name belongs to, as the reports write it.
pub open spec fn expected_label_spec(stem: Seq<char>) -> Seq<char> {
    if stem == "WindowsClient"@ {
        "三角洲行动"@
    } else if stem == "Windows"@ {
        "无畏契约"@
    } else {
        "未知"@
    }
}

/// Names the game a logical name belongs to, for the reports.
pub fn expected_path_label(file_stem: &str) -> (r: &'static str)
    ensures
        r@ == expected_label_spec(file_stem@),
{
    if crate::chars::str_eq(file_stem, "WindowsClient") {
        "三角洲行动"
    } else if crate::chars::str_eq(file_stem, "Windows") {
        "无畏契约"
    } else {
        "未知"
    }
}

/// No target directory of the named game exists on any volume.
pub fn no_target_dirs_message(label: &str) -> (r: String)
    ensures
        r@ == "未找到 "@ + label@ + " 的目标目录用于解压，请使用 -p 指定当前目录下的压缩包名称，-d 指定解压目录"@,
{
    let mut out = String::from_str("未找到 ");
    out.append(label);
    out.append(" 的目标目录用于解压，请使用 -p 指定当前目录下的压缩包名称，-d 指定解压目录");
    proof {
        assert(out@ =~= "未找到 "@ + label@
            + " 的目标目录用于解压，请使用 -p 指定当前目录下的压缩包名称，-d 指定解压目录"@);
    }
    out
}

/// Extraction of one archive into one directory failed with the given error.
pub fn extract_failure_message(archive_path: &str, target_dir: &str, error: &str) -> (r: String)
    ensures
        r@ == "解压失败（"@ + archive_path@ + " -> "@ + target_dir@ + "）："@ + error@,
{
    let mut out = String::from_str("解压失败（");
    out.append(archive_path);
    out.append(" -> ");
    out.append(target_dir);
    out.append("）：");
    out.append(error);
    proof {
        assert(out@ =~= "解压失败（"@ + archive_path@ + " -> "@ + target_dir@ + "）："@
            + error@);
    }
    out
}

} // verus!
