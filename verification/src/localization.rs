//! User-facing texts in Chinese and English, with `{name}` placeholders.
use vstd::prelude::*;

use crate::text::{ascii_lower, chars_equal, chars_of, push_all, replace_all, replace_chars, string_of};

verus! {

/// The template for a known key in the chosen language; `None` for an unknown key.
pub open spec fn known_template(zh: bool, key: Seq<char>) -> Option<Seq<char>> {
    if key == "pick_admin_files"@ {
        Some(if zh {
            "选择要共享的文件"@
        } else {
            "Share files"@
        })
    } else if key == "save_file"@ {
        Some(if zh {
            "保存文件"@
        } else {
            "Save file"@
        })
    } else if key == "source_missing"@ {
        Some(if zh {
            "源文件不存在"@
        } else {
            "File missing"@
        })
    } else if key == "source_missing_gone"@ {
        Some(if zh {
            "源文件已不存在"@
        } else {
            "File missing"@
        })
    } else if key == "not_supported"@ {
        Some(if zh {
            "当前系统不支持打开文件位置"@
        } else {
            "Cannot open file location"@
        })
    } else if key == "invalid_port"@ {
        Some(if zh {
            "端口号无效"@
        } else {
            "Invalid port"@
        })
    } else if key == "update_failed"@ {
        Some(if zh {
            "检查更新失败"@
        } else {
            "Update failed"@
        })
    } else if key == "check_update"@ {
        Some(if zh {
            "检查更新"@
        } else {
            "Check updates"@
        })
    } else if key == "latest_version"@ {
        Some(if zh {
            "当前已经是最新版本。"@
        } else {
            "Already up to date."@
        })
    } else if key == "new_version"@ {
        Some(if zh {
            "发现新版本"@
        } else {
            "Update available"@
        })
    } else if key == "about_title"@ {
        Some(if zh {
            "关于 FileShare"@
        } else {
            "About FileShare"@
        })
    } else if key == "about_desc"@ {
        Some(if zh {
            "FileShare {version}\n局域网文件共享工具\n\n作者: Trifolium Wang\nGitHub: https://github.com/tri5m/file-share"@
        } else {
            "FileShare {version}\nLAN file sharing\n\nAuthor: Trifolium Wang\nGitHub: https://github.com/tri5m/file-share"@
        })
    } else if key == "stop_share"@ {
        Some(if zh {
            "停止分享"@
        } else {
            "STOP"@
        })
    } else if key == "start_share"@ {
        Some(if zh {
            "启动分享"@
        } else {
            "Start"@
        })
    } else if key == "checking"@ {
        Some(if zh {
            "检查中..."@
        } else {
            "Checking..."@
        })
    } else if key == "range_invalid"@ {
        Some(if zh {
            "请求范围无效，文件大小为 {file_size} 字节"@
        } else {
            "Invalid range. Size: {file_size} bytes"@
        })
    } else if key == "server_not_started"@ {
        Some(if zh {
            "服务未启动"@
        } else {
            "Not started"@
        })
    } else if key == "empty_text"@ {
        Some(if zh {
            "文本不能为空"@
        } else {
            "Text is empty"@
        })
    } else if key == "admin_picker_required"@ {
        Some(if zh {
            "管理端共享文件请使用系统文件选择器"@
        } else {
            "Use the system file picker"@
        })
    } else if key == "please_select_file"@ {
        Some(if zh {
            "请选择文件"@
        } else {
            "Select a file"@
        })
    } else if key == "selected_file_missing"@ {
        Some(if zh {
            "所选文件不存在"@
        } else {
            "File missing"@
        })
    } else if key == "only_file"@ {
        Some(if zh {
            "只能共享文件"@
        } else {
            "Files only"@
        })
    } else if key == "paste_file_too_large"@ {
        Some(if zh {
            "无本机路径的粘贴文件最大支持 {size}，请改用拖拽或选择文件"@
        } else {
            "Pasted files without a local path are limited to {size}. Please drag or choose the file instead."@
        })
    } else if key == "item_missing"@ {
        Some(if zh {
            "条目不存在"@
        } else {
            "Not found"@
        })
    } else if key == "text_no_download"@ {
        Some(if zh {
            "文本无需下载"@
        } else {
            "Text has no download"@
        })
    } else if key == "forbidden"@ {
        Some(if zh {
            "管理端只能在服务器本机访问"@
        } else {
            "Local access only"@
        })
    } else if key == "text_snippet"@ {
        Some(if zh {
            "文本片段"@
        } else {
            "Text snippet"@
        })
    } else if key == "port_taken"@ {
        Some(if zh {
            "端口 {port} 已被占用，请换一个端口或关闭占用该端口的程序"@
        } else {
            "Port {port} is in use."@
        })
    } else if key == "port_failed"@ {
        Some(if zh {
            "端口 {port} 启动失败：{error}"@
        } else {
            "Port {port} failed: {error}"@
        })
    } else {
        None
    }
}

/// A text with only ASCII characters (no Chinese ones).
pub open spec fn ascii_text(t: Seq<char>) -> bool {
    forall|i: int| 0 <= i < t.len() ==> (t[i] as u32) < 128
}

proof fn lemma_english_pick_admin_files()
    ensures
        known_template(false, "pick_admin_files"@) == Some("Share files"@),
{
    reveal_strlit("pick_admin_files");
    reveal_strlit("Share files");
}

proof fn lemma_english_save_file()
    ensures
        known_template(false, "save_file"@) == Some("Save file"@),
{
    reveal_strlit("save_file");
    reveal_strlit("Save file");
    reveal_strlit("pick_admin_files");
    assert("save_file"@.len() != "pick_admin_files"@.len());
}

proof fn lemma_english_source_missing()
    ensures
        known_template(false, "source_missing"@) == Some("File missing"@),
{
    reveal_strlit("source_missing");
    reveal_strlit("File missing");
    reveal_strlit("pick_admin_files");
    assert("source_missing"@.len() != "pick_admin_files"@.len());
    reveal_strlit("save_file");
    assert("source_missing"@.len() != "save_file"@.len());
}

proof fn lemma_english_source_missing_gone()
    ensures
        known_template(false, "source_missing_gone"@) == Some("File missing"@),
{
    reveal_strlit("source_missing_gone");
    reveal_strlit("File missing");
    reveal_strlit("pick_admin_files");
    assert("source_missing_gone"@.len() != "pick_admin_files"@.len());
    reveal_strlit("save_file");
    assert("source_missing_gone"@.len() != "save_file"@.len());
    reveal_strlit("source_missing");
    assert("source_missing_gone"@.len() != "source_missing"@.len());
}

proof fn lemma_english_not_supported()
    ensures
        known_template(false, "not_supported"@) == Some("Cannot open file location"@),
{
    reveal_strlit("not_supported");
    reveal_strlit("Cannot open file location");
    reveal_strlit("pick_admin_files");
    assert("not_supported"@.len() != "pick_admin_files"@.len());
    reveal_strlit("save_file");
    assert("not_supported"@.len() != "save_file"@.len());
    reveal_strlit("source_missing");
    assert("not_supported"@.len() != "source_missing"@.len());
    reveal_strlit("source_missing_gone");
    assert("not_supported"@.len() != "source_missing_gone"@.len());
}

proof fn lemma_english_invalid_port()
    ensures
        known_template(false, "invalid_port"@) == Some("Invalid port"@),
{
    reveal_strlit("invalid_port");
    reveal_strlit("Invalid port");
    reveal_strlit("pick_admin_files");
    assert("invalid_port"@.len() != "pick_admin_files"@.len());
    reveal_strlit("save_file");
    assert("invalid_port"@.len() != "save_file"@.len());
    reveal_strlit("source_missing");
    assert("invalid_port"@.len() != "source_missing"@.len());
    reveal_strlit("source_missing_gone");
    assert("invalid_port"@.len() != "source_missing_gone"@.len());
    reveal_strlit("not_supported");
    assert("invalid_port"@.len() != "not_supported"@.len());
}

proof fn lemma_english_update_failed()
    ensures
        known_template(false, "update_failed"@) == Some("Update failed"@),
{
    reveal_strlit("update_failed");
    reveal_strlit("Update failed");
    reveal_strlit("pick_admin_files");
    assert("update_failed"@.len() != "pick_admin_files"@.len());
    reveal_strlit("save_file");
    assert("update_failed"@.len() != "save_file"@.len());
    reveal_strlit("source_missing");
    assert("update_failed"@.len() != "source_missing"@.len());
    reveal_strlit("source_missing_gone");
    assert("update_failed"@.len() != "source_missing_gone"@.len());
    reveal_strlit("not_supported");
    assert("update_failed"@[0] != "not_supported"@[0]);
    reveal_strlit("invalid_port");
    assert("update_failed"@.len() != "invalid_port"@.len());
}

proof fn lemma_english_check_update()
    ensures
        known_template(false, "check_update"@) == Some("Check updates"@),
{
    reveal_strlit("check_update");
    reveal_strlit("Check updates");
    reveal_strlit("pick_admin_files");
    assert("check_update"@.len() != "pick_admin_files"@.len());
    reveal_strlit("save_file");
    assert("check_update"@.len() != "save_file"@.len());
    reveal_strlit("source_missing");
    assert("check_update"@.len() != "source_missing"@.len());
    reveal_strlit("source_missing_gone");
    assert("check_update"@.len() != "source_missing_gone"@.len());
    reveal_strlit("not_supported");
    assert("check_update"@.len() != "not_supported"@.len());
    reveal_strlit("invalid_port");
    assert("check_update"@[0] != "invalid_port"@[0]);
    reveal_strlit("update_failed");
    assert("check_update"@.len() != "update_failed"@.len());
}

proof fn lemma_english_latest_version()
    ensures
        known_template(false, "latest_version"@) == Some("Already up to date."@),
{
    reveal_strlit("latest_version");
    reveal_strlit("Already up to date.");
    reveal_strlit("pick_admin_files");
    assert("latest_version"@.len() != "pick_admin_files"@.len());
    reveal_strlit("save_file");
    assert("latest_version"@.len() != "save_file"@.len());
    reveal_strlit("source_missing");
    assert("latest_version"@[0] != "source_missing"@[0]);
    reveal_strlit("source_missing_gone");
    assert("latest_version"@.len() != "source_missing_gone"@.len());
    reveal_strlit("not_supported");
    assert("latest_version"@.len() != "not_supported"@.len());
    reveal_strlit("invalid_port");
    assert("latest_version"@.len() != "invalid_port"@.len());
    reveal_strlit("update_failed");
    assert("latest_version"@.len() != "update_failed"@.len());
    reveal_strlit("check_update");
    assert("latest_version"@.len() != "check_update"@.len());
}

proof fn lemma_english_new_version()
    ensures
        known_template(false, "new_version"@) == Some("Update available"@),
{
    reveal_strlit("new_version");
    reveal_strlit("Update available");
    reveal_strlit("pick_admin_files");
    assert("new_version"@.len() != "pick_admin_files"@.len());
    reveal_strlit("save_file");
    assert("new_version"@.len() != "save_file"@.len());
    reveal_strlit("source_missing");
    assert("new_version"@.len() != "source_missing"@.len());
    reveal_strlit("source_missing_gone");
    assert("new_version"@.len() != "source_missing_gone"@.len());
    reveal_strlit("not_supported");
    assert("new_version"@.len() != "not_supported"@.len());
    reveal_strlit("invalid_port");
    assert("new_version"@.len() != "invalid_port"@.len());
    reveal_strlit("update_failed");
    assert("new_version"@.len() != "update_failed"@.len());
    reveal_strlit("check_update");
    assert("new_version"@.len() != "check_update"@.len());
    reveal_strlit("latest_version");
    assert("new_version"@.len() != "latest_version"@.len());
}

proof fn lemma_english_about_title()
    ensures
        known_template(false, "about_title"@) == Some("About FileShare"@),
{
    reveal_strlit("about_title");
    reveal_strlit("About FileShare");
    reveal_strlit("pick_admin_files");
    assert("about_title"@.len() != "pick_admin_files"@.len());
    reveal_strlit("save_file");
    assert("about_title"@.len() != "save_file"@.len());
    reveal_strlit("source_missing");
    assert("about_title"@.len() != "source_missing"@.len());
    reveal_strlit("source_missing_gone");
    assert("about_title"@.len() != "source_missing_gone"@.len());
    reveal_strlit("not_supported");
    assert("about_title"@.len() != "not_supported"@.len());
    reveal_strlit("invalid_port");
    assert("about_title"@.len() != "invalid_port"@.len());
    reveal_strlit("update_failed");
    assert("about_title"@.len() != "update_failed"@.len());
    reveal_strlit("check_update");
    assert("about_title"@.len() != "check_update"@.len());
    reveal_strlit("latest_version");
    assert("about_title"@.len() != "latest_version"@.len());
    reveal_strlit("new_version");
    assert("about_title"@[0] != "new_version"@[0]);
}

proof fn lemma_english_about_desc()
    ensures
        known_template(false, "about_desc"@) == Some("FileShare {version}\nLAN file sharing\n\nAuthor: Trifolium Wang\nGitHub: https://github.com/tri5m/file-share"@),
{
    reveal_strlit("about_desc");
    reveal_strlit("FileShare {version}\nLAN file sharing\n\nAuthor: Trifolium Wang\nGitHub: https://github.com/tri5m/file-share");
    reveal_strlit("pick_admin_files");
    assert("about_desc"@.len() != "pick_admin_files"@.len());
    reveal_strlit("save_file");
    assert("about_desc"@.len() != "save_file"@.len());
    reveal_strlit("source_missing");
    assert("about_desc"@.len() != "source_missing"@.len());
    reveal_strlit("source_missing_gone");
    assert("about_desc"@.len() != "source_missing_gone"@.len());
    reveal_strlit("not_supported");
    assert("about_desc"@.len() != "not_supported"@.len());
    reveal_strlit("invalid_port");
    assert("about_desc"@.len() != "invalid_port"@.len());
    reveal_strlit("update_failed");
    assert("about_desc"@.len() != "update_failed"@.len());
    reveal_strlit("check_update");
    assert("about_desc"@.len() != "check_update"@.len());
    reveal_strlit("latest_version");
    assert("about_desc"@.len() != "latest_version"@.len());
    reveal_strlit("new_version");
    assert("about_desc"@.len() != "new_version"@.len());
    reveal_strlit("about_title");
    assert("about_desc"@.len() != "about_title"@.len());
}

proof fn lemma_english_stop_share()
    ensures
        known_template(false, "stop_share"@) == Some("STOP"@),
{
    reveal_strlit("stop_share");
    reveal_strlit("STOP");
    reveal_strlit("pick_admin_files");
    assert("stop_share"@.len() != "pick_admin_files"@.len());
    reveal_strlit("save_file");
    assert("stop_share"@.len() != "save_file"@.len());
    reveal_strlit("source_missing");
    assert("stop_share"@.len() != "source_missing"@.len());
    reveal_strlit("source_missing_gone");
    assert("stop_share"@.len() != "source_missing_gone"@.len());
    reveal_strlit("not_supported");
    assert("stop_share"@.len() != "not_supported"@.len());
    reveal_strlit("invalid_port");
    assert("stop_share"@.len() != "invalid_port"@.len());
    reveal_strlit("update_failed");
    assert("stop_share"@.len() != "update_failed"@.len());
    reveal_strlit("check_update");
    assert("stop_share"@.len() != "check_update"@.len());
    reveal_strlit("latest_version");
    assert("stop_share"@.len() != "latest_version"@.len());
    reveal_strlit("new_version");
    assert("stop_share"@.len() != "new_version"@.len());
    reveal_strlit("about_title");
    assert("stop_share"@.len() != "about_title"@.len());
    reveal_strlit("about_desc");
    assert("stop_share"@[0] != "about_desc"@[0]);
}

proof fn lemma_english_start_share()
    ensures
        known_template(false, "start_share"@) == Some("Start"@),
{
    reveal_strlit("start_share");
    reveal_strlit("Start");
    reveal_strlit("pick_admin_files");
    assert("start_share"@.len() != "pick_admin_files"@.len());
    reveal_strlit("save_file");
    assert("start_share"@.len() != "save_file"@.len());
    reveal_strlit("source_missing");
    assert("start_share"@.len() != "source_missing"@.len());
    reveal_strlit("source_missing_gone");
    assert("start_share"@.len() != "source_missing_gone"@.len());
    reveal_strlit("not_supported");
    assert("start_share"@.len() != "not_supported"@.len());
    reveal_strlit("invalid_port");
    assert("start_share"@.len() != "invalid_port"@.len());
    reveal_strlit("update_failed");
    assert("start_share"@.len() != "update_failed"@.len());
    reveal_strlit("check_update");
    assert("start_share"@.len() != "check_update"@.len());
    reveal_strlit("latest_version");
    assert("start_share"@.len() != "latest_version"@.len());
    reveal_strlit("new_version");
    assert("start_share"@[0] != "new_version"@[0]);
    reveal_strlit("about_title");
    assert("start_share"@[0] != "about_title"@[0]);
    reveal_strlit("about_desc");
    assert("start_share"@.len() != "about_desc"@.len());
    reveal_strlit("stop_share");
    assert("start_share"@.len() != "stop_share"@.len());
}

proof fn lemma_english_checking()
    ensures
        known_template(false, "checking"@) == Some("Checking..."@),
{
    reveal_strlit("checking");
    reveal_strlit("Checking...");
    reveal_strlit("pick_admin_files");
    assert("checking"@.len() != "pick_admin_files"@.len());
    reveal_strlit("save_file");
    assert("checking"@.len() != "save_file"@.len());
    reveal_strlit("source_missing");
    assert("checking"@.len() != "source_missing"@.len());
    reveal_strlit("source_missing_gone");
    assert("checking"@.len() != "source_missing_gone"@.len());
    reveal_strlit("not_supported");
    assert("checking"@.len() != "not_supported"@.len());
    reveal_strlit("invalid_port");
    assert("checking"@.len() != "invalid_port"@.len());
    reveal_strlit("update_failed");
    assert("checking"@.len() != "update_failed"@.len());
    reveal_strlit("check_update");
    assert("checking"@.len() != "check_update"@.len());
    reveal_strlit("latest_version");
    assert("checking"@.len() != "latest_version"@.len());
    reveal_strlit("new_version");
    assert("checking"@.len() != "new_version"@.len());
    reveal_strlit("about_title");
    assert("checking"@.len() != "about_title"@.len());
    reveal_strlit("about_desc");
    assert("checking"@.len() != "about_desc"@.len());
    reveal_strlit("stop_share");
    assert("checking"@.len() != "stop_share"@.len());
    reveal_strlit("start_share");
    assert("checking"@.len() != "start_share"@.len());
}

proof fn lemma_english_range_invalid()
    ensures
        known_template(false, "range_invalid"@) == Some("Invalid range. Size: {file_size} bytes"@),
{
    reveal_strlit("range_invalid");
    reveal_strlit("Invalid range. Size: {file_size} bytes");
    reveal_strlit("pick_admin_files");
    assert("range_invalid"@.len() != "pick_admin_files"@.len());
    reveal_strlit("save_file");
    assert("range_invalid"@.len() != "save_file"@.len());
    reveal_strlit("source_missing");
    assert("range_invalid"@.len() != "source_missing"@.len());
    reveal_strlit("source_missing_gone");
    assert("range_invalid"@.len() != "source_missing_gone"@.len());
    reveal_strlit("not_supported");
    assert("range_invalid"@[0] != "not_supported"@[0]);
    reveal_strlit("invalid_port");
    assert("range_invalid"@.len() != "invalid_port"@.len());
    reveal_strlit("update_failed");
    assert("range_invalid"@[0] != "update_failed"@[0]);
    reveal_strlit("check_update");
    assert("range_invalid"@.len() != "check_update"@.len());
    reveal_strlit("latest_version");
    assert("range_invalid"@.len() != "latest_version"@.len());
    reveal_strlit("new_version");
    assert("range_invalid"@.len() != "new_version"@.len());
    reveal_strlit("about_title");
    assert("range_invalid"@.len() != "about_title"@.len());
    reveal_strlit("about_desc");
    assert("range_invalid"@.len() != "about_desc"@.len());
    reveal_strlit("stop_share");
    assert("range_invalid"@.len() != "stop_share"@.len());
    reveal_strlit("start_share");
    assert("range_invalid"@.len() != "start_share"@.len());
    reveal_strlit("checking");
    assert("range_invalid"@.len() != "checking"@.len());
}

proof fn lemma_english_server_not_started()
    ensures
        known_template(false, "server_not_started"@) == Some("Not started"@),
{
    reveal_strlit("server_not_started");
    reveal_strlit("Not started");
    reveal_strlit("pick_admin_files");
    assert("server_not_started"@.len() != "pick_admin_files"@.len());
    reveal_strlit("save_file");
    assert("server_not_started"@.len() != "save_file"@.len());
    reveal_strlit("source_missing");
    assert("server_not_started"@.len() != "source_missing"@.len());
    reveal_strlit("source_missing_gone");
    assert("server_not_started"@.len() != "source_missing_gone"@.len());
    reveal_strlit("not_supported");
    assert("server_not_started"@.len() != "not_supported"@.len());
    reveal_strlit("invalid_port");
    assert("server_not_started"@.len() != "invalid_port"@.len());
    reveal_strlit("update_failed");
    assert("server_not_started"@.len() != "update_failed"@.len());
    reveal_strlit("check_update");
    assert("server_not_started"@.len() != "check_update"@.len());
    reveal_strlit("latest_version");
    assert("server_not_started"@.len() != "latest_version"@.len());
    reveal_strlit("new_version");
    assert("server_not_started"@.len() != "new_version"@.len());
    reveal_strlit("about_title");
    assert("server_not_started"@.len() != "about_title"@.len());
    reveal_strlit("about_desc");
    assert("server_not_started"@.len() != "about_desc"@.len());
    reveal_strlit("stop_share");
    assert("server_not_started"@.len() != "stop_share"@.len());
    reveal_strlit("start_share");
    assert("server_not_started"@.len() != "start_share"@.len());
    reveal_strlit("checking");
    assert("server_not_started"@.len() != "checking"@.len());
    reveal_strlit("range_invalid");
    assert("server_not_started"@.len() != "range_invalid"@.len());
}

proof fn lemma_english_empty_text()
    ensures
        known_template(false, "empty_text"@) == Some("Text is empty"@),
{
    reveal_strlit("empty_text");
    reveal_strlit("Text is empty");
    reveal_strlit("pick_admin_files");
    assert("empty_text"@.len() != "pick_admin_files"@.len());
    reveal_strlit("save_file");
    assert("empty_text"@.len() != "save_file"@.len());
    reveal_strlit("source_missing");
    assert("empty_text"@.len() != "source_missing"@.len());
    reveal_strlit("source_missing_gone");
    assert("empty_text"@.len() != "source_missing_gone"@.len());
    reveal_strlit("not_supported");
    assert("empty_text"@.len() != "not_supported"@.len());
    reveal_strlit("invalid_port");
    assert("empty_text"@.len() != "invalid_port"@.len());
    reveal_strlit("update_failed");
    assert("empty_text"@.len() != "update_failed"@.len());
    reveal_strlit("check_update");
    assert("empty_text"@.len() != "check_update"@.len());
    reveal_strlit("latest_version");
    assert("empty_text"@.len() != "latest_version"@.len());
    reveal_strlit("new_version");
    assert("empty_text"@.len() != "new_version"@.len());
    reveal_strlit("about_title");
    assert("empty_text"@.len() != "about_title"@.len());
    reveal_strlit("about_desc");
    assert("empty_text"@[0] != "about_desc"@[0]);
    reveal_strlit("stop_share");
    assert("empty_text"@[0] != "stop_share"@[0]);
    reveal_strlit("start_share");
    assert("empty_text"@.len() != "start_share"@.len());
    reveal_strlit("checking");
    assert("empty_text"@.len() != "checking"@.len());
    reveal_strlit("range_invalid");
    assert("empty_text"@.len() != "range_invalid"@.len());
    reveal_strlit("server_not_started");
    assert("empty_text"@.len() != "server_not_started"@.len());
}

proof fn lemma_english_admin_picker_required()
    ensures
        known_template(false, "admin_picker_required"@) == Some("Use the system file picker"@),
{
    reveal_strlit("admin_picker_required");
    reveal_strlit("Use the system file picker");
    reveal_strlit("pick_admin_files");
    assert("admin_picker_required"@.len() != "pick_admin_files"@.len());
    reveal_strlit("save_file");
    assert("admin_picker_required"@.len() != "save_file"@.len());
    reveal_strlit("source_missing");
    assert("admin_picker_required"@.len() != "source_missing"@.len());
    reveal_strlit("source_missing_gone");
    assert("admin_picker_required"@.len() != "source_missing_gone"@.len());
    reveal_strlit("not_supported");
    assert("admin_picker_required"@.len() != "not_supported"@.len());
    reveal_strlit("invalid_port");
    assert("admin_picker_required"@.len() != "invalid_port"@.len());
    reveal_strlit("update_failed");
    assert("admin_picker_required"@.len() != "update_failed"@.len());
    reveal_strlit("check_update");
    assert("admin_picker_required"@.len() != "check_update"@.len());
    reveal_strlit("latest_version");
    assert("admin_picker_required"@.len() != "latest_version"@.len());
    reveal_strlit("new_version");
    assert("admin_picker_required"@.len() != "new_version"@.len());
    reveal_strlit("about_title");
    assert("admin_picker_required"@.len() != "about_title"@.len());
    reveal_strlit("about_desc");
    assert("admin_picker_required"@.len() != "about_desc"@.len());
    reveal_strlit("stop_share");
    assert("admin_picker_required"@.len() != "stop_share"@.len());
    reveal_strlit("start_share");
    assert("admin_picker_required"@.len() != "start_share"@.len());
    reveal_strlit("checking");
    assert("admin_picker_required"@.len() != "checking"@.len());
    reveal_strlit("range_invalid");
    assert("admin_picker_required"@.len() != "range_invalid"@.len());
    reveal_strlit("server_not_started");
    assert("admin_picker_required"@.len() != "server_not_started"@.len());
    reveal_strlit("empty_text");
    assert("admin_picker_required"@.len() != "empty_text"@.len());
}

proof fn lemma_english_please_select_file()
    ensures
        known_template(false, "please_select_file"@) == Some("Select a file"@),
{
    reveal_strlit("please_select_file");
    reveal_strlit("Select a file");
    reveal_strlit("pick_admin_files");
    assert("please_select_file"@.len() != "pick_admin_files"@.len());
    reveal_strlit("save_file");
    assert("please_select_file"@.len() != "save_file"@.len());
    reveal_strlit("source_missing");
    assert("please_select_file"@.len() != "source_missing"@.len());
    reveal_strlit("source_missing_gone");
    assert("please_select_file"@.len() != "source_missing_gone"@.len());
    reveal_strlit("not_supported");
    assert("please_select_file"@.len() != "not_supported"@.len());
    reveal_strlit("invalid_port");
    assert("please_select_file"@.len() != "invalid_port"@.len());
    reveal_strlit("update_failed");
    assert("please_select_file"@.len() != "update_failed"@.len());
    reveal_strlit("check_update");
    assert("please_select_file"@.len() != "check_update"@.len());
    reveal_strlit("latest_version");
    assert("please_select_file"@.len() != "latest_version"@.len());
    reveal_strlit("new_version");
    assert("please_select_file"@.len() != "new_version"@.len());
    reveal_strlit("about_title");
    assert("please_select_file"@.len() != "about_title"@.len());
    reveal_strlit("about_desc");
    assert("please_select_file"@.len() != "about_desc"@.len());
    reveal_strlit("stop_share");
    assert("please_select_file"@.len() != "stop_share"@.len());
    reveal_strlit("start_share");
    assert("please_select_file"@.len() != "start_share"@.len());
    reveal_strlit("checking");
    assert("please_select_file"@.len() != "checking"@.len());
    reveal_strlit("range_invalid");
    assert("please_select_file"@.len() != "range_invalid"@.len());
    reveal_strlit("server_not_started");
    assert("please_select_file"@[0] != "server_not_started"@[0]);
    reveal_strlit("empty_text");
    assert("please_select_file"@.len() != "empty_text"@.len());
    reveal_strlit("admin_picker_required");
    assert("please_select_file"@.len() != "admin_picker_required"@.len());
}

proof fn lemma_english_selected_file_missing()
    ensures
        known_template(false, "selected_file_missing"@) == Some("File missing"@),
{
    reveal_strlit("selected_file_missing");
    reveal_strlit("File missing");
    reveal_strlit("pick_admin_files");
    assert("selected_file_missing"@.len() != "pick_admin_files"@.len());
    reveal_strlit("save_file");
    assert("selected_file_missing"@.len() != "save_file"@.len());
    reveal_strlit("source_missing");
    assert("selected_file_missing"@.len() != "source_missing"@.len());
    reveal_strlit("source_missing_gone");
    assert("selected_file_missing"@.len() != "source_missing_gone"@.len());
    reveal_strlit("not_supported");
    assert("selected_file_missing"@.len() != "not_supported"@.len());
    reveal_strlit("invalid_port");
    assert("selected_file_missing"@.len() != "invalid_port"@.len());
    reveal_strlit("update_failed");
    assert("selected_file_missing"@.len() != "update_failed"@.len());
    reveal_strlit("check_update");
    assert("selected_file_missing"@.len() != "check_update"@.len());
    reveal_strlit("latest_version");
    assert("selected_file_missing"@.len() != "latest_version"@.len());
    reveal_strlit("new_version");
    assert("selected_file_missing"@.len() != "new_version"@.len());
    reveal_strlit("about_title");
    assert("selected_file_missing"@.len() != "about_title"@.len());
    reveal_strlit("about_desc");
    assert("selected_file_missing"@.len() != "about_desc"@.len());
    reveal_strlit("stop_share");
    assert("selected_file_missing"@.len() != "stop_share"@.len());
    reveal_strlit("start_share");
    assert("selected_file_missing"@.len() != "start_share"@.len());
    reveal_strlit("checking");
    assert("selected_file_missing"@.len() != "checking"@.len());
    reveal_strlit("range_invalid");
    assert("selected_file_missing"@.len() != "range_invalid"@.len());
    reveal_strlit("server_not_started");
    assert("selected_file_missing"@.len() != "server_not_started"@.len());
    reveal_strlit("empty_text");
    assert("selected_file_missing"@.len() != "empty_text"@.len());
    reveal_strlit("admin_picker_required");
    assert("selected_file_missing"@[0] != "admin_picker_required"@[0]);
    reveal_strlit("please_select_file");
    assert("selected_file_missing"@.len() != "please_select_file"@.len());
}

proof fn lemma_english_only_file()
    ensures
        known_template(false, "only_file"@) == Some("Files only"@),
{
    reveal_strlit("only_file");
    reveal_strlit("Files only");
    reveal_strlit("pick_admin_files");
    assert("only_file"@.len() != "pick_admin_files"@.len());
    reveal_strlit("save_file");
    assert("only_file"@[0] != "save_file"@[0]);
    reveal_strlit("source_missing");
    assert("only_file"@.len() != "source_missing"@.len());
    reveal_strlit("source_missing_gone");
    assert("only_file"@.len() != "source_missing_gone"@.len());
    reveal_strlit("not_supported");
    assert("only_file"@.len() != "not_supported"@.len());
    reveal_strlit("invalid_port");
    assert("only_file"@.len() != "invalid_port"@.len());
    reveal_strlit("update_failed");
    assert("only_file"@.len() != "update_failed"@.len());
    reveal_strlit("check_update");
    assert("only_file"@.len() != "check_update"@.len());
    reveal_strlit("latest_version");
    assert("only_file"@.len() != "latest_version"@.len());
    reveal_strlit("new_version");
    assert("only_file"@.len() != "new_version"@.len());
    reveal_strlit("about_title");
    assert("only_file"@.len() != "about_title"@.len());
    reveal_strlit("about_desc");
    assert("only_file"@.len() != "about_desc"@.len());
    reveal_strlit("stop_share");
    assert("only_file"@.len() != "stop_share"@.len());
    reveal_strlit("start_share");
    assert("only_file"@.len() != "start_share"@.len());
    reveal_strlit("checking");
    assert("only_file"@.len() != "checking"@.len());
    reveal_strlit("range_invalid");
    assert("only_file"@.len() != "range_invalid"@.len());
    reveal_strlit("server_not_started");
    assert("only_file"@.len() != "server_not_started"@.len());
    reveal_strlit("empty_text");
    assert("only_file"@.len() != "empty_text"@.len());
    reveal_strlit("admin_picker_required");
    assert("only_file"@.len() != "admin_picker_required"@.len());
    reveal_strlit("please_select_file");
    assert("only_file"@.len() != "please_select_file"@.len());
    reveal_strlit("selected_file_missing");
    assert("only_file"@.len() != "selected_file_missing"@.len());
}

proof fn lemma_english_paste_file_too_large()
    ensures
        known_template(false, "paste_file_too_large"@) == Some("Pasted files without a local path are limited to {size}. Please drag or choose the file instead."@),
{
    reveal_strlit("paste_file_too_large");
    reveal_strlit("Pasted files without a local path are limited to {size}. Please drag or choose the file instead.");
    reveal_strlit("pick_admin_files");
    assert("paste_file_too_large"@.len() != "pick_admin_files"@.len());
    reveal_strlit("save_file");
    assert("paste_file_too_large"@.len() != "save_file"@.len());
    reveal_strlit("source_missing");
    assert("paste_file_too_large"@.len() != "source_missing"@.len());
    reveal_strlit("source_missing_gone");
    assert("paste_file_too_large"@.len() != "source_missing_gone"@.len());
    reveal_strlit("not_supported");
    assert("paste_file_too_large"@.len() != "not_supported"@.len());
    reveal_strlit("invalid_port");
    assert("paste_file_too_large"@.len() != "invalid_port"@.len());
    reveal_strlit("update_failed");
    assert("paste_file_too_large"@.len() != "update_failed"@.len());
    reveal_strlit("check_update");
    assert("paste_file_too_large"@.len() != "check_update"@.len());
    reveal_strlit("latest_version");
    assert("paste_file_too_large"@.len() != "latest_version"@.len());
    reveal_strlit("new_version");
    assert("paste_file_too_large"@.len() != "new_version"@.len());
    reveal_strlit("about_title");
    assert("paste_file_too_large"@.len() != "about_title"@.len());
    reveal_strlit("about_desc");
    assert("paste_file_too_large"@.len() != "about_desc"@.len());
    reveal_strlit("stop_share");
    assert("paste_file_too_large"@.len() != "stop_share"@.len());
    reveal_strlit("start_share");
    assert("paste_file_too_large"@.len() != "start_share"@.len());
    reveal_strlit("checking");
    assert("paste_file_too_large"@.len() != "checking"@.len());
    reveal_strlit("range_invalid");
    assert("paste_file_too_large"@.len() != "range_invalid"@.len());
    reveal_strlit("server_not_started");
    assert("paste_file_too_large"@.len() != "server_not_started"@.len());
    reveal_strlit("empty_text");
    assert("paste_file_too_large"@.len() != "empty_text"@.len());
    reveal_strlit("admin_picker_required");
    assert("paste_file_too_large"@.len() != "admin_picker_required"@.len());
    reveal_strlit("please_select_file");
    assert("paste_file_too_large"@.len() != "please_select_file"@.len());
    reveal_strlit("selected_file_missing");
    assert("paste_file_too_large"@.len() != "selected_file_missing"@.len());
    reveal_strlit("only_file");
    assert("paste_file_too_large"@.len() != "only_file"@.len());
}

proof fn lemma_english_item_missing()
    ensures
        known_template(false, "item_missing"@) == Some("Not found"@),
{
    reveal_strlit("item_missing");
    reveal_strlit("Not found");
    reveal_strlit("pick_admin_files");
    assert("item_missing"@.len() != "pick_admin_files"@.len());
    reveal_strlit("save_file");
    assert("item_missing"@.len() != "save_file"@.len());
    reveal_strlit("source_missing");
    assert("item_missing"@.len() != "source_missing"@.len());
    reveal_strlit("source_missing_gone");
    assert("item_missing"@.len() != "source_missing_gone"@.len());
    reveal_strlit("not_supported");
    assert("item_missing"@.len() != "not_supported"@.len());
    reveal_strlit("invalid_port");
    assert("item_missing"@[1] != "invalid_port"@[1]);
    reveal_strlit("update_failed");
    assert("item_missing"@.len() != "update_failed"@.len());
    reveal_strlit("check_update");
    assert("item_missing"@[0] != "check_update"@[0]);
    reveal_strlit("latest_version");
    assert("item_missing"@.len() != "latest_version"@.len());
    reveal_strlit("new_version");
    assert("item_missing"@.len() != "new_version"@.len());
    reveal_strlit("about_title");
    assert("item_missing"@.len() != "about_title"@.len());
    reveal_strlit("about_desc");
    assert("item_missing"@.len() != "about_desc"@.len());
    reveal_strlit("stop_share");
    assert("item_missing"@.len() != "stop_share"@.len());
    reveal_strlit("start_share");
    assert("item_missing"@.len() != "start_share"@.len());
    reveal_strlit("checking");
    assert("item_missing"@.len() != "checking"@.len());
    reveal_strlit("range_invalid");
    assert("item_missing"@.len() != "range_invalid"@.len());
    reveal_strlit("server_not_started");
    assert("item_missing"@.len() != "server_not_started"@.len());
    reveal_strlit("empty_text");
    assert("item_missing"@.len() != "empty_text"@.len());
    reveal_strlit("admin_picker_required");
    assert("item_missing"@.len() != "admin_picker_required"@.len());
    reveal_strlit("please_select_file");
    assert("item_missing"@.len() != "please_select_file"@.len());
    reveal_strlit("selected_file_missing");
    assert("item_missing"@.len() != "selected_file_missing"@.len());
    reveal_strlit("only_file");
    assert("item_missing"@.len() != "only_file"@.len());
    reveal_strlit("paste_file_too_large");
    assert("item_missing"@.len() != "paste_file_too_large"@.len());
}

proof fn lemma_english_text_no_download()
    ensures
        known_template(false, "text_no_download"@) == Some("Text has no download"@),
{
    reveal_strlit("text_no_download");
    reveal_strlit("Text has no download");
    reveal_strlit("pick_admin_files");
    assert("text_no_download"@[0] != "pick_admin_files"@[0]);
    reveal_strlit("save_file");
    assert("text_no_download"@.len() != "save_file"@.len());
    reveal_strlit("source_missing");
    assert("text_no_download"@.len() != "source_missing"@.len());
    reveal_strlit("source_missing_gone");
    assert("text_no_download"@.len() != "source_missing_gone"@.len());
    reveal_strlit("not_supported");
    assert("text_no_download"@.len() != "not_supported"@.len());
    reveal_strlit("invalid_port");
    assert("text_no_download"@.len() != "invalid_port"@.len());
    reveal_strlit("update_failed");
    assert("text_no_download"@.len() != "update_failed"@.len());
    reveal_strlit("check_update");
    assert("text_no_download"@.len() != "check_update"@.len());
    reveal_strlit("latest_version");
    assert("text_no_download"@.len() != "latest_version"@.len());
    reveal_strlit("new_version");
    assert("text_no_download"@.len() != "new_version"@.len());
    reveal_strlit("about_title");
    assert("text_no_download"@.len() != "about_title"@.len());
    reveal_strlit("about_desc");
    assert("text_no_download"@.len() != "about_desc"@.len());
    reveal_strlit("stop_share");
    assert("text_no_download"@.len() != "stop_share"@.len());
    reveal_strlit("start_share");
    assert("text_no_download"@.len() != "start_share"@.len());
    reveal_strlit("checking");
    assert("text_no_download"@.len() != "checking"@.len());
    reveal_strlit("range_invalid");
    assert("text_no_download"@.len() != "range_invalid"@.len());
    reveal_strlit("server_not_started");
    assert("text_no_download"@.len() != "server_not_started"@.len());
    reveal_strlit("empty_text");
    assert("text_no_download"@.len() != "empty_text"@.len());
    reveal_strlit("admin_picker_required");
    assert("text_no_download"@.len() != "admin_picker_required"@.len());
    reveal_strlit("please_select_file");
    assert("text_no_download"@.len() != "please_select_file"@.len());
    reveal_strlit("selected_file_missing");
    assert("text_no_download"@.len() != "selected_file_missing"@.len());
    reveal_strlit("only_file");
    assert("text_no_download"@.len() != "only_file"@.len());
    reveal_strlit("paste_file_too_large");
    assert("text_no_download"@.len() != "paste_file_too_large"@.len());
    reveal_strlit("item_missing");
    assert("text_no_download"@.len() != "item_missing"@.len());
}

proof fn lemma_english_forbidden()
    ensures
        known_template(false, "forbidden"@) == Some("Local access only"@),
{
    reveal_strlit("forbidden");
    reveal_strlit("Local access only");
    reveal_strlit("pick_admin_files");
    assert("forbidden"@.len() != "pick_admin_files"@.len());
    reveal_strlit("save_file");
    assert("forbidden"@[0] != "save_file"@[0]);
    reveal_strlit("source_missing");
    assert("forbidden"@.len() != "source_missing"@.len());
    reveal_strlit("source_missing_gone");
    assert("forbidden"@.len() != "source_missing_gone"@.len());
    reveal_strlit("not_supported");
    assert("forbidden"@.len() != "not_supported"@.len());
    reveal_strlit("invalid_port");
    assert("forbidden"@.len() != "invalid_port"@.len());
    reveal_strlit("update_failed");
    assert("forbidden"@.len() != "update_failed"@.len());
    reveal_strlit("check_update");
    assert("forbidden"@.len() != "check_update"@.len());
    reveal_strlit("latest_version");
    assert("forbidden"@.len() != "latest_version"@.len());
    reveal_strlit("new_version");
    assert("forbidden"@.len() != "new_version"@.len());
    reveal_strlit("about_title");
    assert("forbidden"@.len() != "about_title"@.len());
    reveal_strlit("about_desc");
    assert("forbidden"@.len() != "about_desc"@.len());
    reveal_strlit("stop_share");
    assert("forbidden"@.len() != "stop_share"@.len());
    reveal_strlit("start_share");
    assert("forbidden"@.len() != "start_share"@.len());
    reveal_strlit("checking");
    assert("forbidden"@.len() != "checking"@.len());
    reveal_strlit("range_invalid");
    assert("forbidden"@.len() != "range_invalid"@.len());
    reveal_strlit("server_not_started");
    assert("forbidden"@.len() != "server_not_started"@.len());
    reveal_strlit("empty_text");
    assert("forbidden"@.len() != "empty_text"@.len());
    reveal_strlit("admin_picker_required");
    assert("forbidden"@.len() != "admin_picker_required"@.len());
    reveal_strlit("please_select_file");
    assert("forbidden"@.len() != "please_select_file"@.len());
    reveal_strlit("selected_file_missing");
    assert("forbidden"@.len() != "selected_file_missing"@.len());
    reveal_strlit("only_file");
    assert("forbidden"@[0] != "only_file"@[0]);
    reveal_strlit("paste_file_too_large");
    assert("forbidden"@.len() != "paste_file_too_large"@.len());
    reveal_strlit("item_missing");
    assert("forbidden"@.len() != "item_missing"@.len());
    reveal_strlit("text_no_download");
    assert("forbidden"@.len() != "text_no_download"@.len());
}

proof fn lemma_english_text_snippet()
    ensures
        known_template(false, "text_snippet"@) == Some("Text snippet"@),
{
    reveal_strlit("text_snippet");
    reveal_strlit("Text snippet");
    reveal_strlit("pick_admin_files");
    assert("text_snippet"@.len() != "pick_admin_files"@.len());
    reveal_strlit("save_file");
    assert("text_snippet"@.len() != "save_file"@.len());
    reveal_strlit("source_missing");
    assert("text_snippet"@.len() != "source_missing"@.len());
    reveal_strlit("source_missing_gone");
    assert("text_snippet"@.len() != "source_missing_gone"@.len());
    reveal_strlit("not_supported");
    assert("text_snippet"@.len() != "not_supported"@.len());
    reveal_strlit("invalid_port");
    assert("text_snippet"@[0] != "invalid_port"@[0]);
    reveal_strlit("update_failed");
    assert("text_snippet"@.len() != "update_failed"@.len());
    reveal_strlit("check_update");
    assert("text_snippet"@[0] != "check_update"@[0]);
    reveal_strlit("latest_version");
    assert("text_snippet"@.len() != "latest_version"@.len());
    reveal_strlit("new_version");
    assert("text_snippet"@.len() != "new_version"@.len());
    reveal_strlit("about_title");
    assert("text_snippet"@.len() != "about_title"@.len());
    reveal_strlit("about_desc");
    assert("text_snippet"@.len() != "about_desc"@.len());
    reveal_strlit("stop_share");
    assert("text_snippet"@.len() != "stop_share"@.len());
    reveal_strlit("start_share");
    assert("text_snippet"@.len() != "start_share"@.len());
    reveal_strlit("checking");
    assert("text_snippet"@.len() != "checking"@.len());
    reveal_strlit("range_invalid");
    assert("text_snippet"@.len() != "range_invalid"@.len());
    reveal_strlit("server_not_started");
    assert("text_snippet"@.len() != "server_not_started"@.len());
    reveal_strlit("empty_text");
    assert("text_snippet"@.len() != "empty_text"@.len());
    reveal_strlit("admin_picker_required");
    assert("text_snippet"@.len() != "admin_picker_required"@.len());
    reveal_strlit("please_select_file");
    assert("text_snippet"@.len() != "please_select_file"@.len());
    reveal_strlit("selected_file_missing");
    assert("text_snippet"@.len() != "selected_file_missing"@.len());
    reveal_strlit("only_file");
    assert("text_snippet"@.len() != "only_file"@.len());
    reveal_strlit("paste_file_too_large");
    assert("text_snippet"@.len() != "paste_file_too_large"@.len());
    reveal_strlit("item_missing");
    assert("text_snippet"@[0] != "item_missing"@[0]);
    reveal_strlit("text_no_download");
    assert("text_snippet"@.len() != "text_no_download"@.len());
    reveal_strlit("forbidden");
    assert("text_snippet"@.len() != "forbidden"@.len());
}

proof fn lemma_english_port_taken()
    ensures
        known_template(false, "port_taken"@) == Some("Port {port} is in use."@),
{
    reveal_strlit("port_taken");
    reveal_strlit("Port {port} is in use.");
    reveal_strlit("pick_admin_files");
    assert("port_taken"@.len() != "pick_admin_files"@.len());
    reveal_strlit("save_file");
    assert("port_taken"@.len() != "save_file"@.len());
    reveal_strlit("source_missing");
    assert("port_taken"@.len() != "source_missing"@.len());
    reveal_strlit("source_missing_gone");
    assert("port_taken"@.len() != "source_missing_gone"@.len());
    reveal_strlit("not_supported");
    assert("port_taken"@.len() != "not_supported"@.len());
    reveal_strlit("invalid_port");
    assert("port_taken"@.len() != "invalid_port"@.len());
    reveal_strlit("update_failed");
    assert("port_taken"@.len() != "update_failed"@.len());
    reveal_strlit("check_update");
    assert("port_taken"@.len() != "check_update"@.len());
    reveal_strlit("latest_version");
    assert("port_taken"@.len() != "latest_version"@.len());
    reveal_strlit("new_version");
    assert("port_taken"@.len() != "new_version"@.len());
    reveal_strlit("about_title");
    assert("port_taken"@.len() != "about_title"@.len());
    reveal_strlit("about_desc");
    assert("port_taken"@[0] != "about_desc"@[0]);
    reveal_strlit("stop_share");
    assert("port_taken"@[0] != "stop_share"@[0]);
    reveal_strlit("start_share");
    assert("port_taken"@.len() != "start_share"@.len());
    reveal_strlit("checking");
    assert("port_taken"@.len() != "checking"@.len());
    reveal_strlit("range_invalid");
    assert("port_taken"@.len() != "range_invalid"@.len());
    reveal_strlit("server_not_started");
    assert("port_taken"@.len() != "server_not_started"@.len());
    reveal_strlit("empty_text");
    assert("port_taken"@[0] != "empty_text"@[0]);
    reveal_strlit("admin_picker_required");
    assert("port_taken"@.len() != "admin_picker_required"@.len());
    reveal_strlit("please_select_file");
    assert("port_taken"@.len() != "please_select_file"@.len());
    reveal_strlit("selected_file_missing");
    assert("port_taken"@.len() != "selected_file_missing"@.len());
    reveal_strlit("only_file");
    assert("port_taken"@.len() != "only_file"@.len());
    reveal_strlit("paste_file_too_large");
    assert("port_taken"@.len() != "paste_file_too_large"@.len());
    reveal_strlit("item_missing");
    assert("port_taken"@.len() != "item_missing"@.len());
    reveal_strlit("text_no_download");
    assert("port_taken"@.len() != "text_no_download"@.len());
    reveal_strlit("forbidden");
    assert("port_taken"@.len() != "forbidden"@.len());
    reveal_strlit("text_snippet");
    assert("port_taken"@.len() != "text_snippet"@.len());
}

proof fn lemma_english_port_failed()
    ensures
        known_template(false, "port_failed"@) == Some("Port {port} failed: {error}"@),
{
    reveal_strlit("port_failed");
    reveal_strlit("Port {port} failed: {error}");
    reveal_strlit("pick_admin_files");
    assert("port_failed"@.len() != "pick_admin_files"@.len());
    reveal_strlit("save_file");
    assert("port_failed"@.len() != "save_file"@.len());
    reveal_strlit("source_missing");
    assert("port_failed"@.len() != "source_missing"@.len());
    reveal_strlit("source_missing_gone");
    assert("port_failed"@.len() != "source_missing_gone"@.len());
    reveal_strlit("not_supported");
    assert("port_failed"@.len() != "not_supported"@.len());
    reveal_strlit("invalid_port");
    assert("port_failed"@.len() != "invalid_port"@.len());
    reveal_strlit("update_failed");
    assert("port_failed"@.len() != "update_failed"@.len());
    reveal_strlit("check_update");
    assert("port_failed"@.len() != "check_update"@.len());
    reveal_strlit("latest_version");
    assert("port_failed"@.len() != "latest_version"@.len());
    reveal_strlit("new_version");
    assert("port_failed"@[0] != "new_version"@[0]);
    reveal_strlit("about_title");
    assert("port_failed"@[0] != "about_title"@[0]);
    reveal_strlit("about_desc");
    assert("port_failed"@.len() != "about_desc"@.len());
    reveal_strlit("stop_share");
    assert("port_failed"@.len() != "stop_share"@.len());
    reveal_strlit("start_share");
    assert("port_failed"@[0] != "start_share"@[0]);
    reveal_strlit("checking");
    assert("port_failed"@.len() != "checking"@.len());
    reveal_strlit("range_invalid");
    assert("port_failed"@.len() != "range_invalid"@.len());
    reveal_strlit("server_not_started");
    assert("port_failed"@.len() != "server_not_started"@.len());
    reveal_strlit("empty_text");
    assert("port_failed"@.len() != "empty_text"@.len());
    reveal_strlit("admin_picker_required");
    assert("port_failed"@.len() != "admin_picker_required"@.len());
    reveal_strlit("please_select_file");
    assert("port_failed"@.len() != "please_select_file"@.len());
    reveal_strlit("selected_file_missing");
    assert("port_failed"@.len() != "selected_file_missing"@.len());
    reveal_strlit("only_file");
    assert("port_failed"@.len() != "only_file"@.len());
    reveal_strlit("paste_file_too_large");
    assert("port_failed"@.len() != "paste_file_too_large"@.len());
    reveal_strlit("item_missing");
    assert("port_failed"@.len() != "item_missing"@.len());
    reveal_strlit("text_no_download");
    assert("port_failed"@.len() != "text_no_download"@.len());
    reveal_strlit("forbidden");
    assert("port_failed"@.len() != "forbidden"@.len());
    reveal_strlit("text_snippet");
    assert("port_failed"@.len() != "text_snippet"@.len());
    reveal_strlit("port_taken");
    assert("port_failed"@.len() != "port_taken"@.len());
}

/// The English texts: every key shows the text below when Chinese is not chosen.
pub proof fn english_texts()
    ensures
        known_template(false, "pick_admin_files"@) == Some("Share files"@),
        known_template(false, "save_file"@) == Some("Save file"@),
        known_template(false, "source_missing"@) == Some("File missing"@),
        known_template(false, "source_missing_gone"@) == Some("File missing"@),
        known_template(false, "not_supported"@) == Some("Cannot open file location"@),
        known_template(false, "invalid_port"@) == Some("Invalid port"@),
        known_template(false, "update_failed"@) == Some("Update failed"@),
        known_template(false, "check_update"@) == Some("Check updates"@),
        known_template(false, "latest_version"@) == Some("Already up to date."@),
        known_template(false, "new_version"@) == Some("Update available"@),
        known_template(false, "about_title"@) == Some("About FileShare"@),
        known_template(false, "about_desc"@) == Some("FileShare {version}\nLAN file sharing\n\nAuthor: Trifolium Wang\nGitHub: https://github.com/tri5m/file-share"@),
        known_template(false, "stop_share"@) == Some("STOP"@),
        known_template(false, "start_share"@) == Some("Start"@),
        known_template(false, "checking"@) == Some("Checking..."@),
        known_template(false, "range_invalid"@) == Some("Invalid range. Size: {file_size} bytes"@),
        known_template(false, "server_not_started"@) == Some("Not started"@),
        known_template(false, "empty_text"@) == Some("Text is empty"@),
        known_template(false, "admin_picker_required"@) == Some("Use the system file picker"@),
        known_template(false, "please_select_file"@) == Some("Select a file"@),
        known_template(false, "selected_file_missing"@) == Some("File missing"@),
        known_template(false, "only_file"@) == Some("Files only"@),
        known_template(false, "paste_file_too_large"@) == Some("Pasted files without a local path are limited to {size}. Please drag or choose the file instead."@),
        known_template(false, "item_missing"@) == Some("Not found"@),
        known_template(false, "text_no_download"@) == Some("Text has no download"@),
        known_template(false, "forbidden"@) == Some("Local access only"@),
        known_template(false, "text_snippet"@) == Some("Text snippet"@),
        known_template(false, "port_taken"@) == Some("Port {port} is in use."@),
        known_template(false, "port_failed"@) == Some("Port {port} failed: {error}"@),
{
    lemma_english_pick_admin_files();
    lemma_english_save_file();
    lemma_english_source_missing();
    lemma_english_source_missing_gone();
    lemma_english_not_supported();
    lemma_english_invalid_port();
    lemma_english_update_failed();
    lemma_english_check_update();
    lemma_english_latest_version();
    lemma_english_new_version();
    lemma_english_about_title();
    lemma_english_about_desc();
    lemma_english_stop_share();
    lemma_english_start_share();
    lemma_english_checking();
    lemma_english_range_invalid();
    lemma_english_server_not_started();
    lemma_english_empty_text();
    lemma_english_admin_picker_required();
    lemma_english_please_select_file();
    lemma_english_selected_file_missing();
    lemma_english_only_file();
    lemma_english_paste_file_too_large();
    lemma_english_item_missing();
    lemma_english_text_no_download();
    lemma_english_forbidden();
    lemma_english_text_snippet();
    lemma_english_port_taken();
    lemma_english_port_failed();
}

proof fn lemma_chinese_pick_admin_files()
    ensures
        known_template(true, "pick_admin_files"@) == Some("选择要共享的文件"@),
{
    reveal_strlit("pick_admin_files");
    reveal_strlit("选择要共享的文件");
}

proof fn lemma_chinese_save_file()
    ensures
        known_template(true, "save_file"@) == Some("保存文件"@),
{
    reveal_strlit("save_file");
    reveal_strlit("保存文件");
    reveal_strlit("pick_admin_files");
    assert("save_file"@.len() != "pick_admin_files"@.len());
}

proof fn lemma_chinese_source_missing()
    ensures
        known_template(true, "source_missing"@) == Some("源文件不存在"@),
{
    reveal_strlit("source_missing");
    reveal_strlit("源文件不存在");
    reveal_strlit("pick_admin_files");
    assert("source_missing"@.len() != "pick_admin_files"@.len());
    reveal_strlit("save_file");
    assert("source_missing"@.len() != "save_file"@.len());
}

proof fn lemma_chinese_source_missing_gone()
    ensures
        known_template(true, "source_missing_gone"@) == Some("源文件已不存在"@),
{
    reveal_strlit("source_missing_gone");
    reveal_strlit("源文件已不存在");
    reveal_strlit("pick_admin_files");
    assert("source_missing_gone"@.len() != "pick_admin_files"@.len());
    reveal_strlit("save_file");
    assert("source_missing_gone"@.len() != "save_file"@.len());
    reveal_strlit("source_missing");
    assert("source_missing_gone"@.len() != "source_missing"@.len());
}

proof fn lemma_chinese_not_supported()
    ensures
        known_template(true, "not_supported"@) == Some("当前系统不支持打开文件位置"@),
{
    reveal_strlit("not_supported");
    reveal_strlit("当前系统不支持打开文件位置");
    reveal_strlit("pick_admin_files");
    assert("not_supported"@.len() != "pick_admin_files"@.len());
    reveal_strlit("save_file");
    assert("not_supported"@.len() != "save_file"@.len());
    reveal_strlit("source_missing");
    assert("not_supported"@.len() != "source_missing"@.len());
    reveal_strlit("source_missing_gone");
    assert("not_supported"@.len() != "source_missing_gone"@.len());
}

proof fn lemma_chinese_invalid_port()
    ensures
        known_template(true, "invalid_port"@) == Some("端口号无效"@),
{
    reveal_strlit("invalid_port");
    reveal_strlit("端口号无效");
    reveal_strlit("pick_admin_files");
    assert("invalid_port"@.len() != "pick_admin_files"@.len());
    reveal_strlit("save_file");
    assert("invalid_port"@.len() != "save_file"@.len());
    reveal_strlit("source_missing");
    assert("invalid_port"@.len() != "source_missing"@.len());
    reveal_strlit("source_missing_gone");
    assert("invalid_port"@.len() != "source_missing_gone"@.len());
    reveal_strlit("not_supported");
    assert("invalid_port"@.len() != "not_supported"@.len());
}

proof fn lemma_chinese_update_failed()
    ensures
        known_template(true, "update_failed"@) == Some("检查更新失败"@),
{
    reveal_strlit("update_failed");
    reveal_strlit("检查更新失败");
    reveal_strlit("pick_admin_files");
    assert("update_failed"@.len() != "pick_admin_files"@.len());
    reveal_strlit("save_file");
    assert("update_failed"@.len() != "save_file"@.len());
    reveal_strlit("source_missing");
    assert("update_failed"@.len() != "source_missing"@.len());
    reveal_strlit("source_missing_gone");
    assert("update_failed"@.len() != "source_missing_gone"@.len());
    reveal_strlit("not_supported");
    assert("update_failed"@[0] != "not_supported"@[0]);
    reveal_strlit("invalid_port");
    assert("update_failed"@.len() != "invalid_port"@.len());
}

proof fn lemma_chinese_check_update()
    ensures
        known_template(true, "check_update"@) == Some("检查更新"@),
{
    reveal_strlit("check_update");
    reveal_strlit("检查更新");
    reveal_strlit("pick_admin_files");
    assert("check_update"@.len() != "pick_admin_files"@.len());
    reveal_strlit("save_file");
    assert("check_update"@.len() != "save_file"@.len());
    reveal_strlit("source_missing");
    assert("check_update"@.len() != "source_missing"@.len());
    reveal_strlit("source_missing_gone");
    assert("check_update"@.len() != "source_missing_gone"@.len());
    reveal_strlit("not_supported");
    assert("check_update"@.len() != "not_supported"@.len());
    reveal_strlit("invalid_port");
    assert("check_update"@[0] != "invalid_port"@[0]);
    reveal_strlit("update_failed");
    assert("check_update"@.len() != "update_failed"@.len());
}

proof fn lemma_chinese_latest_version()
    ensures
        known_template(true, "latest_version"@) == Some("当前已经是最新版本。"@),
{
    reveal_strlit("latest_version");
    reveal_strlit("当前已经是最新版本。");
    reveal_strlit("pick_admin_files");
    assert("latest_version"@.len() != "pick_admin_files"@.len());
    reveal_strlit("save_file");
    assert("latest_version"@.len() != "save_file"@.len());
    reveal_strlit("source_missing");
    assert("latest_version"@[0] != "source_missing"@[0]);
    reveal_strlit("source_missing_gone");
    assert("latest_version"@.len() != "source_missing_gone"@.len());
    reveal_strlit("not_supported");
    assert("latest_version"@.len() != "not_supported"@.len());
    reveal_strlit("invalid_port");
    assert("latest_version"@.len() != "invalid_port"@.len());
    reveal_strlit("update_failed");
    assert("latest_version"@.len() != "update_failed"@.len());
    reveal_strlit("check_update");
    assert("latest_version"@.len() != "check_update"@.len());
}

proof fn lemma_chinese_new_version()
    ensures
        known_template(true, "new_version"@) == Some("发现新版本"@),
{
    reveal_strlit("new_version");
    reveal_strlit("发现新版本");
    reveal_strlit("pick_admin_files");
    assert("new_version"@.len() != "pick_admin_files"@.len());
    reveal_strlit("save_file");
    assert("new_version"@.len() != "save_file"@.len());
    reveal_strlit("source_missing");
    assert("new_version"@.len() != "source_missing"@.len());
    reveal_strlit("source_missing_gone");
    assert("new_version"@.len() != "source_missing_gone"@.len());
    reveal_strlit("not_supported");
    assert("new_version"@.len() != "not_supported"@.len());
    reveal_strlit("invalid_port");
    assert("new_version"@.len() != "invalid_port"@.len());
    reveal_strlit("update_failed");
    assert("new_version"@.len() != "update_failed"@.len());
    reveal_strlit("check_update");
    assert("new_version"@.len() != "check_update"@.len());
    reveal_strlit("latest_version");
    assert("new_version"@.len() != "latest_version"@.len());
}

proof fn lemma_chinese_about_title()
    ensures
        known_template(true, "about_title"@) == Some("关于 FileShare"@),
{
    reveal_strlit("about_title");
    reveal_strlit("关于 FileShare");
    reveal_strlit("pick_admin_files");
    assert("about_title"@.len() != "pick_admin_files"@.len());
    reveal_strlit("save_file");
    assert("about_title"@.len() != "save_file"@.len());
    reveal_strlit("source_missing");
    assert("about_title"@.len() != "source_missing"@.len());
    reveal_strlit("source_missing_gone");
    assert("about_title"@.len() != "source_missing_gone"@.len());
    reveal_strlit("not_supported");
    assert("about_title"@.len() != "not_supported"@.len());
    reveal_strlit("invalid_port");
    assert("about_title"@.len() != "invalid_port"@.len());
    reveal_strlit("update_failed");
    assert("about_title"@.len() != "update_failed"@.len());
    reveal_strlit("check_update");
    assert("about_title"@.len() != "check_update"@.len());
    reveal_strlit("latest_version");
    assert("about_title"@.len() != "latest_version"@.len());
    reveal_strlit("new_version");
    assert("about_title"@[0] != "new_version"@[0]);
}

proof fn lemma_chinese_about_desc()
    ensures
        known_template(true, "about_desc"@) == Some("FileShare {version}\n局域网文件共享工具\n\n作者: Trifolium Wang\nGitHub: https://github.com/tri5m/file-share"@),
{
    reveal_strlit("about_desc");
    reveal_strlit("FileShare {version}\n局域网文件共享工具\n\n作者: Trifolium Wang\nGitHub: https://github.com/tri5m/file-share");
    reveal_strlit("pick_admin_files");
    assert("about_desc"@.len() != "pick_admin_files"@.len());
    reveal_strlit("save_file");
    assert("about_desc"@.len() != "save_file"@.len());
    reveal_strlit("source_missing");
    assert("about_desc"@.len() != "source_missing"@.len());
    reveal_strlit("source_missing_gone");
    assert("about_desc"@.len() != "source_missing_gone"@.len());
    reveal_strlit("not_supported");
    assert("about_desc"@.len() != "not_supported"@.len());
    reveal_strlit("invalid_port");
    assert("about_desc"@.len() != "invalid_port"@.len());
    reveal_strlit("update_failed");
    assert("about_desc"@.len() != "update_failed"@.len());
    reveal_strlit("check_update");
    assert("about_desc"@.len() != "check_update"@.len());
    reveal_strlit("latest_version");
    assert("about_desc"@.len() != "latest_version"@.len());
    reveal_strlit("new_version");
    assert("about_desc"@.len() != "new_version"@.len());
    reveal_strlit("about_title");
    assert("about_desc"@.len() != "about_title"@.len());
}

proof fn lemma_chinese_stop_share()
    ensures
        known_template(true, "stop_share"@) == Some("停止分享"@),
{
    reveal_strlit("stop_share");
    reveal_strlit("停止分享");
    reveal_strlit("pick_admin_files");
    assert("stop_share"@.len() != "pick_admin_files"@.len());
    reveal_strlit("save_file");
    assert("stop_share"@.len() != "save_file"@.len());
    reveal_strlit("source_missing");
    assert("stop_share"@.len() != "source_missing"@.len());
    reveal_strlit("source_missing_gone");
    assert("stop_share"@.len() != "source_missing_gone"@.len());
    reveal_strlit("not_supported");
    assert("stop_share"@.len() != "not_supported"@.len());
    reveal_strlit("invalid_port");
    assert("stop_share"@.len() != "invalid_port"@.len());
    reveal_strlit("update_failed");
    assert("stop_share"@.len() != "update_failed"@.len());
    reveal_strlit("check_update");
    assert("stop_share"@.len() != "check_update"@.len());
    reveal_strlit("latest_version");
    assert("stop_share"@.len() != "latest_version"@.len());
    reveal_strlit("new_version");
    assert("stop_share"@.len() != "new_version"@.len());
    reveal_strlit("about_title");
    assert("stop_share"@.len() != "about_title"@.len());
    reveal_strlit("about_desc");
    assert("stop_share"@[0] != "about_desc"@[0]);
}

proof fn lemma_chinese_start_share()
    ensures
        known_template(true, "start_share"@) == Some("启动分享"@),
{
    reveal_strlit("start_share");
    reveal_strlit("启动分享");
    reveal_strlit("pick_admin_files");
    assert("start_share"@.len() != "pick_admin_files"@.len());
    reveal_strlit("save_file");
    assert("start_share"@.len() != "save_file"@.len());
    reveal_strlit("source_missing");
    assert("start_share"@.len() != "source_missing"@.len());
    reveal_strlit("source_missing_gone");
    assert("start_share"@.len() != "source_missing_gone"@.len());
    reveal_strlit("not_supported");
    assert("start_share"@.len() != "not_supported"@.len());
    reveal_strlit("invalid_port");
    assert("start_share"@.len() != "invalid_port"@.len());
    reveal_strlit("update_failed");
    assert("start_share"@.len() != "update_failed"@.len());
    reveal_strlit("check_update");
    assert("start_share"@.len() != "check_update"@.len());
    reveal_strlit("latest_version");
    assert("start_share"@.len() != "latest_version"@.len());
    reveal_strlit("new_version");
    assert("start_share"@[0] != "new_version"@[0]);
    reveal_strlit("about_title");
    assert("start_share"@[0] != "about_title"@[0]);
    reveal_strlit("about_desc");
    assert("start_share"@.len() != "about_desc"@.len());
    reveal_strlit("stop_share");
    assert("start_share"@.len() != "stop_share"@.len());
}

proof fn lemma_chinese_checking()
    ensures
        known_template(true, "checking"@) == Some("检查中..."@),
{
    reveal_strlit("checking");
    reveal_strlit("检查中...");
    reveal_strlit("pick_admin_files");
    assert("checking"@.len() != "pick_admin_files"@.len());
    reveal_strlit("save_file");
    assert("checking"@.len() != "save_file"@.len());
    reveal_strlit("source_missing");
    assert("checking"@.len() != "source_missing"@.len());
    reveal_strlit("source_missing_gone");
    assert("checking"@.len() != "source_missing_gone"@.len());
    reveal_strlit("not_supported");
    assert("checking"@.len() != "not_supported"@.len());
    reveal_strlit("invalid_port");
    assert("checking"@.len() != "invalid_port"@.len());
    reveal_strlit("update_failed");
    assert("checking"@.len() != "update_failed"@.len());
    reveal_strlit("check_update");
    assert("checking"@.len() != "check_update"@.len());
    reveal_strlit("latest_version");
    assert("checking"@.len() != "latest_version"@.len());
    reveal_strlit("new_version");
    assert("checking"@.len() != "new_version"@.len());
    reveal_strlit("about_title");
    assert("checking"@.len() != "about_title"@.len());
    reveal_strlit("about_desc");
    assert("checking"@.len() != "about_desc"@.len());
    reveal_strlit("stop_share");
    assert("checking"@.len() != "stop_share"@.len());
    reveal_strlit("start_share");
    assert("checking"@.len() != "start_share"@.len());
}

proof fn lemma_chinese_range_invalid()
    ensures
        known_template(true, "range_invalid"@) == Some("请求范围无效，文件大小为 {file_size} 字节"@),
{
    reveal_strlit("range_invalid");
    reveal_strlit("请求范围无效，文件大小为 {file_size} 字节");
    reveal_strlit("pick_admin_files");
    assert("range_invalid"@.len() != "pick_admin_files"@.len());
    reveal_strlit("save_file");
    assert("range_invalid"@.len() != "save_file"@.len());
    reveal_strlit("source_missing");
    assert("range_invalid"@.len() != "source_missing"@.len());
    reveal_strlit("source_missing_gone");
    assert("range_invalid"@.len() != "source_missing_gone"@.len());
    reveal_strlit("not_supported");
    assert("range_invalid"@[0] != "not_supported"@[0]);
    reveal_strlit("invalid_port");
    assert("range_invalid"@.len() != "invalid_port"@.len());
    reveal_strlit("update_failed");
    assert("range_invalid"@[0] != "update_failed"@[0]);
    reveal_strlit("check_update");
    assert("range_invalid"@.len() != "check_update"@.len());
    reveal_strlit("latest_version");
    assert("range_invalid"@.len() != "latest_version"@.len());
    reveal_strlit("new_version");
    assert("range_invalid"@.len() != "new_version"@.len());
    reveal_strlit("about_title");
    assert("range_invalid"@.len() != "about_title"@.len());
    reveal_strlit("about_desc");
    assert("range_invalid"@.len() != "about_desc"@.len());
    reveal_strlit("stop_share");
    assert("range_invalid"@.len() != "stop_share"@.len());
    reveal_strlit("start_share");
    assert("range_invalid"@.len() != "start_share"@.len());
    reveal_strlit("checking");
    assert("range_invalid"@.len() != "checking"@.len());
}

proof fn lemma_chinese_server_not_started()
    ensures
        known_template(true, "server_not_started"@) == Some("服务未启动"@),
{
    reveal_strlit("server_not_started");
    reveal_strlit("服务未启动");
    reveal_strlit("pick_admin_files");
    assert("server_not_started"@.len() != "pick_admin_files"@.len());
    reveal_strlit("save_file");
    assert("server_not_started"@.len() != "save_file"@.len());
    reveal_strlit("source_missing");
    assert("server_not_started"@.len() != "source_missing"@.len());
    reveal_strlit("source_missing_gone");
    assert("server_not_started"@.len() != "source_missing_gone"@.len());
    reveal_strlit("not_supported");
    assert("server_not_started"@.len() != "not_supported"@.len());
    reveal_strlit("invalid_port");
    assert("server_not_started"@.len() != "invalid_port"@.len());
    reveal_strlit("update_failed");
    assert("server_not_started"@.len() != "update_failed"@.len());
    reveal_strlit("check_update");
    assert("server_not_started"@.len() != "check_update"@.len());
    reveal_strlit("latest_version");
    assert("server_not_started"@.len() != "latest_version"@.len());
    reveal_strlit("new_version");
    assert("server_not_started"@.len() != "new_version"@.len());
    reveal_strlit("about_title");
    assert("server_not_started"@.len() != "about_title"@.len());
    reveal_strlit("about_desc");
    assert("server_not_started"@.len() != "about_desc"@.len());
    reveal_strlit("stop_share");
    assert("server_not_started"@.len() != "stop_share"@.len());
    reveal_strlit("start_share");
    assert("server_not_started"@.len() != "start_share"@.len());
    reveal_strlit("checking");
    assert("server_not_started"@.len() != "checking"@.len());
    reveal_strlit("range_invalid");
    assert("server_not_started"@.len() != "range_invalid"@.len());
}

proof fn lemma_chinese_empty_text()
    ensures
        known_template(true, "empty_text"@) == Some("文本不能为空"@),
{
    reveal_strlit("empty_text");
    reveal_strlit("文本不能为空");
    reveal_strlit("pick_admin_files");
    assert("empty_text"@.len() != "pick_admin_files"@.len());
    reveal_strlit("save_file");
    assert("empty_text"@.len() != "save_file"@.len());
    reveal_strlit("source_missing");
    assert("empty_text"@.len() != "source_missing"@.len());
    reveal_strlit("source_missing_gone");
    assert("empty_text"@.len() != "source_missing_gone"@.len());
    reveal_strlit("not_supported");
    assert("empty_text"@.len() != "not_supported"@.len());
    reveal_strlit("invalid_port");
    assert("empty_text"@.len() != "invalid_port"@.len());
    reveal_strlit("update_failed");
    assert("empty_text"@.len() != "update_failed"@.len());
    reveal_strlit("check_update");
    assert("empty_text"@.len() != "check_update"@.len());
    reveal_strlit("latest_version");
    assert("empty_text"@.len() != "latest_version"@.len());
    reveal_strlit("new_version");
    assert("empty_text"@.len() != "new_version"@.len());
    reveal_strlit("about_title");
    assert("empty_text"@.len() != "about_title"@.len());
    reveal_strlit("about_desc");
    assert("empty_text"@[0] != "about_desc"@[0]);
    reveal_strlit("stop_share");
    assert("empty_text"@[0] != "stop_share"@[0]);
    reveal_strlit("start_share");
    assert("empty_text"@.len() != "start_share"@.len());
    reveal_strlit("checking");
    assert("empty_text"@.len() != "checking"@.len());
    reveal_strlit("range_invalid");
    assert("empty_text"@.len() != "range_invalid"@.len());
    reveal_strlit("server_not_started");
    assert("empty_text"@.len() != "server_not_started"@.len());
}

proof fn lemma_chinese_admin_picker_required()
    ensures
        known_template(true, "admin_picker_required"@) == Some("管理端共享文件请使用系统文件选择器"@),
{
    reveal_strlit("admin_picker_required");
    reveal_strlit("管理端共享文件请使用系统文件选择器");
    reveal_strlit("pick_admin_files");
    assert("admin_picker_required"@.len() != "pick_admin_files"@.len());
    reveal_strlit("save_file");
    assert("admin_picker_required"@.len() != "save_file"@.len());
    reveal_strlit("source_missing");
    assert("admin_picker_required"@.len() != "source_missing"@.len());
    reveal_strlit("source_missing_gone");
    assert("admin_picker_required"@.len() != "source_missing_gone"@.len());
    reveal_strlit("not_supported");
    assert("admin_picker_required"@.len() != "not_supported"@.len());
    reveal_strlit("invalid_port");
    assert("admin_picker_required"@.len() != "invalid_port"@.len());
    reveal_strlit("update_failed");
    assert("admin_picker_required"@.len() != "update_failed"@.len());
    reveal_strlit("check_update");
    assert("admin_picker_required"@.len() != "check_update"@.len());
    reveal_strlit("latest_version");
    assert("admin_picker_required"@.len() != "latest_version"@.len());
    reveal_strlit("new_version");
    assert("admin_picker_required"@.len() != "new_version"@.len());
    reveal_strlit("about_title");
    assert("admin_picker_required"@.len() != "about_title"@.len());
    reveal_strlit("about_desc");
    assert("admin_picker_required"@.len() != "about_desc"@.len());
    reveal_strlit("stop_share");
    assert("admin_picker_required"@.len() != "stop_share"@.len());
    reveal_strlit("start_share");
    assert("admin_picker_required"@.len() != "start_share"@.len());
    reveal_strlit("checking");
    assert("admin_picker_required"@.len() != "checking"@.len());
    reveal_strlit("range_invalid");
    assert("admin_picker_required"@.len() != "range_invalid"@.len());
    reveal_strlit("server_not_started");
    assert("admin_picker_required"@.len() != "server_not_started"@.len());
    reveal_strlit("empty_text");
    assert("admin_picker_required"@.len() != "empty_text"@.len());
}

proof fn lemma_chinese_please_select_file()
    ensures
        known_template(true, "please_select_file"@) == Some("请选择文件"@),
{
    reveal_strlit("please_select_file");
    reveal_strlit("请选择文件");
    reveal_strlit("pick_admin_files");
    assert("please_select_file"@.len() != "pick_admin_files"@.len());
    reveal_strlit("save_file");
    assert("please_select_file"@.len() != "save_file"@.len());
    reveal_strlit("source_missing");
    assert("please_select_file"@.len() != "source_missing"@.len());
    reveal_strlit("source_missing_gone");
    assert("please_select_file"@.len() != "source_missing_gone"@.len());
    reveal_strlit("not_supported");
    assert("please_select_file"@.len() != "not_supported"@.len());
    reveal_strlit("invalid_port");
    assert("please_select_file"@.len() != "invalid_port"@.len());
    reveal_strlit("update_failed");
    assert("please_select_file"@.len() != "update_failed"@.len());
    reveal_strlit("check_update");
    assert("please_select_file"@.len() != "check_update"@.len());
    reveal_strlit("latest_version");
    assert("please_select_file"@.len() != "latest_version"@.len());
    reveal_strlit("new_version");
    assert("please_select_file"@.len() != "new_version"@.len());
    reveal_strlit("about_title");
    assert("please_select_file"@.len() != "about_title"@.len());
    reveal_strlit("about_desc");
    assert("please_select_file"@.len() != "about_desc"@.len());
    reveal_strlit("stop_share");
    assert("please_select_file"@.len() != "stop_share"@.len());
    reveal_strlit("start_share");
    assert("please_select_file"@.len() != "start_share"@.len());
    reveal_strlit("checking");
    assert("please_select_file"@.len() != "checking"@.len());
    reveal_strlit("range_invalid");
    assert("please_select_file"@.len() != "range_invalid"@.len());
    reveal_strlit("server_not_started");
    assert("please_select_file"@[0] != "server_not_started"@[0]);
    reveal_strlit("empty_text");
    assert("please_select_file"@.len() != "empty_text"@.len());
    reveal_strlit("admin_picker_required");
    assert("please_select_file"@.len() != "admin_picker_required"@.len());
}

proof fn lemma_chinese_selected_file_missing()
    ensures
        known_template(true, "selected_file_missing"@) == Some("所选文件不存在"@),
{
    reveal_strlit("selected_file_missing");
    reveal_strlit("所选文件不存在");
    reveal_strlit("pick_admin_files");
    assert("selected_file_missing"@.len() != "pick_admin_files"@.len());
    reveal_strlit("save_file");
    assert("selected_file_missing"@.len() != "save_file"@.len());
    reveal_strlit("source_missing");
    assert("selected_file_missing"@.len() != "source_missing"@.len());
    reveal_strlit("source_missing_gone");
    assert("selected_file_missing"@.len() != "source_missing_gone"@.len());
    reveal_strlit("not_supported");
    assert("selected_file_missing"@.len() != "not_supported"@.len());
    reveal_strlit("invalid_port");
    assert("selected_file_missing"@.len() != "invalid_port"@.len());
    reveal_strlit("update_failed");
    assert("selected_file_missing"@.len() != "update_failed"@.len());
    reveal_strlit("check_update");
    assert("selected_file_missing"@.len() != "check_update"@.len());
    reveal_strlit("latest_version");
    assert("selected_file_missing"@.len() != "latest_version"@.len());
    reveal_strlit("new_version");
    assert("selected_file_missing"@.len() != "new_version"@.len());
    reveal_strlit("about_title");
    assert("selected_file_missing"@.len() != "about_title"@.len());
    reveal_strlit("about_desc");
    assert("selected_file_missing"@.len() != "about_desc"@.len());
    reveal_strlit("stop_share");
    assert("selected_file_missing"@.len() != "stop_share"@.len());
    reveal_strlit("start_share");
    assert("selected_file_missing"@.len() != "start_share"@.len());
    reveal_strlit("checking");
    assert("selected_file_missing"@.len() != "checking"@.len());
    reveal_strlit("range_invalid");
    assert("selected_file_missing"@.len() != "range_invalid"@.len());
    reveal_strlit("server_not_started");
    assert("selected_file_missing"@.len() != "server_not_started"@.len());
    reveal_strlit("empty_text");
    assert("selected_file_missing"@.len() != "empty_text"@.len());
    reveal_strlit("admin_picker_required");
    assert("selected_file_missing"@[0] != "admin_picker_required"@[0]);
    reveal_strlit("please_select_file");
    assert("selected_file_missing"@.len() != "please_select_file"@.len());
}

proof fn lemma_chinese_only_file()
    ensures
        known_template(true, "only_file"@) == Some("只能共享文件"@),
{
    reveal_strlit("only_file");
    reveal_strlit("只能共享文件");
    reveal_strlit("pick_admin_files");
    assert("only_file"@.len() != "pick_admin_files"@.len());
    reveal_strlit("save_file");
    assert("only_file"@[0] != "save_file"@[0]);
    reveal_strlit("source_missing");
    assert("only_file"@.len() != "source_missing"@.len());
    reveal_strlit("source_missing_gone");
    assert("only_file"@.len() != "source_missing_gone"@.len());
    reveal_strlit("not_supported");
    assert("only_file"@.len() != "not_supported"@.len());
    reveal_strlit("invalid_port");
    assert("only_file"@.len() != "invalid_port"@.len());
    reveal_strlit("update_failed");
    assert("only_file"@.len() != "update_failed"@.len());
    reveal_strlit("check_update");
    assert("only_file"@.len() != "check_update"@.len());
    reveal_strlit("latest_version");
    assert("only_file"@.len() != "latest_version"@.len());
    reveal_strlit("new_version");
    assert("only_file"@.len() != "new_version"@.len());
    reveal_strlit("about_title");
    assert("only_file"@.len() != "about_title"@.len());
    reveal_strlit("about_desc");
    assert("only_file"@.len() != "about_desc"@.len());
    reveal_strlit("stop_share");
    assert("only_file"@.len() != "stop_share"@.len());
    reveal_strlit("start_share");
    assert("only_file"@.len() != "start_share"@.len());
    reveal_strlit("checking");
    assert("only_file"@.len() != "checking"@.len());
    reveal_strlit("range_invalid");
    assert("only_file"@.len() != "range_invalid"@.len());
    reveal_strlit("server_not_started");
    assert("only_file"@.len() != "server_not_started"@.len());
    reveal_strlit("empty_text");
    assert("only_file"@.len() != "empty_text"@.len());
    reveal_strlit("admin_picker_required");
    assert("only_file"@.len() != "admin_picker_required"@.len());
    reveal_strlit("please_select_file");
    assert("only_file"@.len() != "please_select_file"@.len());
    reveal_strlit("selected_file_missing");
    assert("only_file"@.len() != "selected_file_missing"@.len());
}

proof fn lemma_chinese_paste_file_too_large()
    ensures
        known_template(true, "paste_file_too_large"@) == Some("无本机路径的粘贴文件最大支持 {size}，请改用拖拽或选择文件"@),
{
    reveal_strlit("paste_file_too_large");
    reveal_strlit("无本机路径的粘贴文件最大支持 {size}，请改用拖拽或选择文件");
    reveal_strlit("pick_admin_files");
    assert("paste_file_too_large"@.len() != "pick_admin_files"@.len());
    reveal_strlit("save_file");
    assert("paste_file_too_large"@.len() != "save_file"@.len());
    reveal_strlit("source_missing");
    assert("paste_file_too_large"@.len() != "source_missing"@.len());
    reveal_strlit("source_missing_gone");
    assert("paste_file_too_large"@.len() != "source_missing_gone"@.len());
    reveal_strlit("not_supported");
    assert("paste_file_too_large"@.len() != "not_supported"@.len());
    reveal_strlit("invalid_port");
    assert("paste_file_too_large"@.len() != "invalid_port"@.len());
    reveal_strlit("update_failed");
    assert("paste_file_too_large"@.len() != "update_failed"@.len());
    reveal_strlit("check_update");
    assert("paste_file_too_large"@.len() != "check_update"@.len());
    reveal_strlit("latest_version");
    assert("paste_file_too_large"@.len() != "latest_version"@.len());
    reveal_strlit("new_version");
    assert("paste_file_too_large"@.len() != "new_version"@.len());
    reveal_strlit("about_title");
    assert("paste_file_too_large"@.len() != "about_title"@.len());
    reveal_strlit("about_desc");
    assert("paste_file_too_large"@.len() != "about_desc"@.len());
    reveal_strlit("stop_share");
    assert("paste_file_too_large"@.len() != "stop_share"@.len());
    reveal_strlit("start_share");
    assert("paste_file_too_large"@.len() != "start_share"@.len());
    reveal_strlit("checking");
    assert("paste_file_too_large"@.len() != "checking"@.len());
    reveal_strlit("range_invalid");
    assert("paste_file_too_large"@.len() != "range_invalid"@.len());
    reveal_strlit("server_not_started");
    assert("paste_file_too_large"@.len() != "server_not_started"@.len());
    reveal_strlit("empty_text");
    assert("paste_file_too_large"@.len() != "empty_text"@.len());
    reveal_strlit("admin_picker_required");
    assert("paste_file_too_large"@.len() != "admin_picker_required"@.len());
    reveal_strlit("please_select_file");
    assert("paste_file_too_large"@.len() != "please_select_file"@.len());
    reveal_strlit("selected_file_missing");
    assert("paste_file_too_large"@.len() != "selected_file_missing"@.len());
    reveal_strlit("only_file");
    assert("paste_file_too_large"@.len() != "only_file"@.len());
}

proof fn lemma_chinese_item_missing()
    ensures
        known_template(true, "item_missing"@) == Some("条目不存在"@),
{
    reveal_strlit("item_missing");
    reveal_strlit("条目不存在");
    reveal_strlit("pick_admin_files");
    assert("item_missing"@.len() != "pick_admin_files"@.len());
    reveal_strlit("save_file");
    assert("item_missing"@.len() != "save_file"@.len());
    reveal_strlit("source_missing");
    assert("item_missing"@.len() != "source_missing"@.len());
    reveal_strlit("source_missing_gone");
    assert("item_missing"@.len() != "source_missing_gone"@.len());
    reveal_strlit("not_supported");
    assert("item_missing"@.len() != "not_supported"@.len());
    reveal_strlit("invalid_port");
    assert("item_missing"@[1] != "invalid_port"@[1]);
    reveal_strlit("update_failed");
    assert("item_missing"@.len() != "update_failed"@.len());
    reveal_strlit("check_update");
    assert("item_missing"@[0] != "check_update"@[0]);
    reveal_strlit("latest_version");
    assert("item_missing"@.len() != "latest_version"@.len());
    reveal_strlit("new_version");
    assert("item_missing"@.len() != "new_version"@.len());
    reveal_strlit("about_title");
    assert("item_missing"@.len() != "about_title"@.len());
    reveal_strlit("about_desc");
    assert("item_missing"@.len() != "about_desc"@.len());
    reveal_strlit("stop_share");
    assert("item_missing"@.len() != "stop_share"@.len());
    reveal_strlit("start_share");
    assert("item_missing"@.len() != "start_share"@.len());
    reveal_strlit("checking");
    assert("item_missing"@.len() != "checking"@.len());
    reveal_strlit("range_invalid");
    assert("item_missing"@.len() != "range_invalid"@.len());
    reveal_strlit("server_not_started");
    assert("item_missing"@.len() != "server_not_started"@.len());
    reveal_strlit("empty_text");
    assert("item_missing"@.len() != "empty_text"@.len());
    reveal_strlit("admin_picker_required");
    assert("item_missing"@.len() != "admin_picker_required"@.len());
    reveal_strlit("please_select_file");
    assert("item_missing"@.len() != "please_select_file"@.len());
    reveal_strlit("selected_file_missing");
    assert("item_missing"@.len() != "selected_file_missing"@.len());
    reveal_strlit("only_file");
    assert("item_missing"@.len() != "only_file"@.len());
    reveal_strlit("paste_file_too_large");
    assert("item_missing"@.len() != "paste_file_too_large"@.len());
}

proof fn lemma_chinese_text_no_download()
    ensures
        known_template(true, "text_no_download"@) == Some("文本无需下载"@),
{
    reveal_strlit("text_no_download");
    reveal_strlit("文本无需下载");
    reveal_strlit("pick_admin_files");
    assert("text_no_download"@[0] != "pick_admin_files"@[0]);
    reveal_strlit("save_file");
    assert("text_no_download"@.len() != "save_file"@.len());
    reveal_strlit("source_missing");
    assert("text_no_download"@.len() != "source_missing"@.len());
    reveal_strlit("source_missing_gone");
    assert("text_no_download"@.len() != "source_missing_gone"@.len());
    reveal_strlit("not_supported");
    assert("text_no_download"@.len() != "not_supported"@.len());
    reveal_strlit("invalid_port");
    assert("text_no_download"@.len() != "invalid_port"@.len());
    reveal_strlit("update_failed");
    assert("text_no_download"@.len() != "update_failed"@.len());
    reveal_strlit("check_update");
    assert("text_no_download"@.len() != "check_update"@.len());
    reveal_strlit("latest_version");
    assert("text_no_download"@.len() != "latest_version"@.len());
    reveal_strlit("new_version");
    assert("text_no_download"@.len() != "new_version"@.len());
    reveal_strlit("about_title");
    assert("text_no_download"@.len() != "about_title"@.len());
    reveal_strlit("about_desc");
    assert("text_no_download"@.len() != "about_desc"@.len());
    reveal_strlit("stop_share");
    assert("text_no_download"@.len() != "stop_share"@.len());
    reveal_strlit("start_share");
    assert("text_no_download"@.len() != "start_share"@.len());
    reveal_strlit("checking");
    assert("text_no_download"@.len() != "checking"@.len());
    reveal_strlit("range_invalid");
    assert("text_no_download"@.len() != "range_invalid"@.len());
    reveal_strlit("server_not_started");
    assert("text_no_download"@.len() != "server_not_started"@.len());
    reveal_strlit("empty_text");
    assert("text_no_download"@.len() != "empty_text"@.len());
    reveal_strlit("admin_picker_required");
    assert("text_no_download"@.len() != "admin_picker_required"@.len());
    reveal_strlit("please_select_file");
    assert("text_no_download"@.len() != "please_select_file"@.len());
    reveal_strlit("selected_file_missing");
    assert("text_no_download"@.len() != "selected_file_missing"@.len());
    reveal_strlit("only_file");
    assert("text_no_download"@.len() != "only_file"@.len());
    reveal_strlit("paste_file_too_large");
    assert("text_no_download"@.len() != "paste_file_too_large"@.len());
    reveal_strlit("item_missing");
    assert("text_no_download"@.len() != "item_missing"@.len());
}

proof fn lemma_chinese_forbidden()
    ensures
        known_template(true, "forbidden"@) == Some("管理端只能在服务器本机访问"@),
{
    reveal_strlit("forbidden");
    reveal_strlit("管理端只能在服务器本机访问");
    reveal_strlit("pick_admin_files");
    assert("forbidden"@.len() != "pick_admin_files"@.len());
    reveal_strlit("save_file");
    assert("forbidden"@[0] != "save_file"@[0]);
    reveal_strlit("source_missing");
    assert("forbidden"@.len() != "source_missing"@.len());
    reveal_strlit("source_missing_gone");
    assert("forbidden"@.len() != "source_missing_gone"@.len());
    reveal_strlit("not_supported");
    assert("forbidden"@.len() != "not_supported"@.len());
    reveal_strlit("invalid_port");
    assert("forbidden"@.len() != "invalid_port"@.len());
    reveal_strlit("update_failed");
    assert("forbidden"@.len() != "update_failed"@.len());
    reveal_strlit("check_update");
    assert("forbidden"@.len() != "check_update"@.len());
    reveal_strlit("latest_version");
    assert("forbidden"@.len() != "latest_version"@.len());
    reveal_strlit("new_version");
    assert("forbidden"@.len() != "new_version"@.len());
    reveal_strlit("about_title");
    assert("forbidden"@.len() != "about_title"@.len());
    reveal_strlit("about_desc");
    assert("forbidden"@.len() != "about_desc"@.len());
    reveal_strlit("stop_share");
    assert("forbidden"@.len() != "stop_share"@.len());
    reveal_strlit("start_share");
    assert("forbidden"@.len() != "start_share"@.len());
    reveal_strlit("checking");
    assert("forbidden"@.len() != "checking"@.len());
    reveal_strlit("range_invalid");
    assert("forbidden"@.len() != "range_invalid"@.len());
    reveal_strlit("server_not_started");
    assert("forbidden"@.len() != "server_not_started"@.len());
    reveal_strlit("empty_text");
    assert("forbidden"@.len() != "empty_text"@.len());
    reveal_strlit("admin_picker_required");
    assert("forbidden"@.len() != "admin_picker_required"@.len());
    reveal_strlit("please_select_file");
    assert("forbidden"@.len() != "please_select_file"@.len());
    reveal_strlit("selected_file_missing");
    assert("forbidden"@.len() != "selected_file_missing"@.len());
    reveal_strlit("only_file");
    assert("forbidden"@[0] != "only_file"@[0]);
    reveal_strlit("paste_file_too_large");
    assert("forbidden"@.len() != "paste_file_too_large"@.len());
    reveal_strlit("item_missing");
    assert("forbidden"@.len() != "item_missing"@.len());
    reveal_strlit("text_no_download");
    assert("forbidden"@.len() != "text_no_download"@.len());
}

proof fn lemma_chinese_text_snippet()
    ensures
        known_template(true, "text_snippet"@) == Some("文本片段"@),
{
    reveal_strlit("text_snippet");
    reveal_strlit("文本片段");
    reveal_strlit("pick_admin_files");
    assert("text_snippet"@.len() != "pick_admin_files"@.len());
    reveal_strlit("save_file");
    assert("text_snippet"@.len() != "save_file"@.len());
    reveal_strlit("source_missing");
    assert("text_snippet"@.len() != "source_missing"@.len());
    reveal_strlit("source_missing_gone");
    assert("text_snippet"@.len() != "source_missing_gone"@.len());
    reveal_strlit("not_supported");
    assert("text_snippet"@.len() != "not_supported"@.len());
    reveal_strlit("invalid_port");
    assert("text_snippet"@[0] != "invalid_port"@[0]);
    reveal_strlit("update_failed");
    assert("text_snippet"@.len() != "update_failed"@.len());
    reveal_strlit("check_update");
    assert("text_snippet"@[0] != "check_update"@[0]);
    reveal_strlit("latest_version");
    assert("text_snippet"@.len() != "latest_version"@.len());
    reveal_strlit("new_version");
    assert("text_snippet"@.len() != "new_version"@.len());
    reveal_strlit("about_title");
    assert("text_snippet"@.len() != "about_title"@.len());
    reveal_strlit("about_desc");
    assert("text_snippet"@.len() != "about_desc"@.len());
    reveal_strlit("stop_share");
    assert("text_snippet"@.len() != "stop_share"@.len());
    reveal_strlit("start_share");
    assert("text_snippet"@.len() != "start_share"@.len());
    reveal_strlit("checking");
    assert("text_snippet"@.len() != "checking"@.len());
    reveal_strlit("range_invalid");
    assert("text_snippet"@.len() != "range_invalid"@.len());
    reveal_strlit("server_not_started");
    assert("text_snippet"@.len() != "server_not_started"@.len());
    reveal_strlit("empty_text");
    assert("text_snippet"@.len() != "empty_text"@.len());
    reveal_strlit("admin_picker_required");
    assert("text_snippet"@.len() != "admin_picker_required"@.len());
    reveal_strlit("please_select_file");
    assert("text_snippet"@.len() != "please_select_file"@.len());
    reveal_strlit("selected_file_missing");
    assert("text_snippet"@.len() != "selected_file_missing"@.len());
    reveal_strlit("only_file");
    assert("text_snippet"@.len() != "only_file"@.len());
    reveal_strlit("paste_file_too_large");
    assert("text_snippet"@.len() != "paste_file_too_large"@.len());
    reveal_strlit("item_missing");
    assert("text_snippet"@[0] != "item_missing"@[0]);
    reveal_strlit("text_no_download");
    assert("text_snippet"@.len() != "text_no_download"@.len());
    reveal_strlit("forbidden");
    assert("text_snippet"@.len() != "forbidden"@.len());
}

proof fn lemma_chinese_port_taken()
    ensures
        known_template(true, "port_taken"@) == Some("端口 {port} 已被占用，请换一个端口或关闭占用该端口的程序"@),
{
    reveal_strlit("port_taken");
    reveal_strlit("端口 {port} 已被占用，请换一个端口或关闭占用该端口的程序");
    reveal_strlit("pick_admin_files");
    assert("port_taken"@.len() != "pick_admin_files"@.len());
    reveal_strlit("save_file");
    assert("port_taken"@.len() != "save_file"@.len());
    reveal_strlit("source_missing");
    assert("port_taken"@.len() != "source_missing"@.len());
    reveal_strlit("source_missing_gone");
    assert("port_taken"@.len() != "source_missing_gone"@.len());
    reveal_strlit("not_supported");
    assert("port_taken"@.len() != "not_supported"@.len());
    reveal_strlit("invalid_port");
    assert("port_taken"@.len() != "invalid_port"@.len());
    reveal_strlit("update_failed");
    assert("port_taken"@.len() != "update_failed"@.len());
    reveal_strlit("check_update");
    assert("port_taken"@.len() != "check_update"@.len());
    reveal_strlit("latest_version");
    assert("port_taken"@.len() != "latest_version"@.len());
    reveal_strlit("new_version");
    assert("port_taken"@.len() != "new_version"@.len());
    reveal_strlit("about_title");
    assert("port_taken"@.len() != "about_title"@.len());
    reveal_strlit("about_desc");
    assert("port_taken"@[0] != "about_desc"@[0]);
    reveal_strlit("stop_share");
    assert("port_taken"@[0] != "stop_share"@[0]);
    reveal_strlit("start_share");
    assert("port_taken"@.len() != "start_share"@.len());
    reveal_strlit("checking");
    assert("port_taken"@.len() != "checking"@.len());
    reveal_strlit("range_invalid");
    assert("port_taken"@.len() != "range_invalid"@.len());
    reveal_strlit("server_not_started");
    assert("port_taken"@.len() != "server_not_started"@.len());
    reveal_strlit("empty_text");
    assert("port_taken"@[0] != "empty_text"@[0]);
    reveal_strlit("admin_picker_required");
    assert("port_taken"@.len() != "admin_picker_required"@.len());
    reveal_strlit("please_select_file");
    assert("port_taken"@.len() != "please_select_file"@.len());
    reveal_strlit("selected_file_missing");
    assert("port_taken"@.len() != "selected_file_missing"@.len());
    reveal_strlit("only_file");
    assert("port_taken"@.len() != "only_file"@.len());
    reveal_strlit("paste_file_too_large");
    assert("port_taken"@.len() != "paste_file_too_large"@.len());
    reveal_strlit("item_missing");
    assert("port_taken"@.len() != "item_missing"@.len());
    reveal_strlit("text_no_download");
    assert("port_taken"@.len() != "text_no_download"@.len());
    reveal_strlit("forbidden");
    assert("port_taken"@.len() != "forbidden"@.len());
    reveal_strlit("text_snippet");
    assert("port_taken"@.len() != "text_snippet"@.len());
}

proof fn lemma_chinese_port_failed()
    ensures
        known_template(true, "port_failed"@) == Some("端口 {port} 启动失败：{error}"@),
{
    reveal_strlit("port_failed");
    reveal_strlit("端口 {port} 启动失败：{error}");
    reveal_strlit("pick_admin_files");
    assert("port_failed"@.len() != "pick_admin_files"@.len());
    reveal_strlit("save_file");
    assert("port_failed"@.len() != "save_file"@.len());
    reveal_strlit("source_missing");
    assert("port_failed"@.len() != "source_missing"@.len());
    reveal_strlit("source_missing_gone");
    assert("port_failed"@.len() != "source_missing_gone"@.len());
    reveal_strlit("not_supported");
    assert("port_failed"@.len() != "not_supported"@.len());
    reveal_strlit("invalid_port");
    assert("port_failed"@.len() != "invalid_port"@.len());
    reveal_strlit("update_failed");
    assert("port_failed"@.len() != "update_failed"@.len());
    reveal_strlit("check_update");
    assert("port_failed"@.len() != "check_update"@.len());
    reveal_strlit("latest_version");
    assert("port_failed"@.len() != "latest_version"@.len());
    reveal_strlit("new_version");
    assert("port_failed"@[0] != "new_version"@[0]);
    reveal_strlit("about_title");
    assert("port_failed"@[0] != "about_title"@[0]);
    reveal_strlit("about_desc");
    assert("port_failed"@.len() != "about_desc"@.len());
    reveal_strlit("stop_share");
    assert("port_failed"@.len() != "stop_share"@.len());
    reveal_strlit("start_share");
    assert("port_failed"@[0] != "start_share"@[0]);
    reveal_strlit("checking");
    assert("port_failed"@.len() != "checking"@.len());
    reveal_strlit("range_invalid");
    assert("port_failed"@.len() != "range_invalid"@.len());
    reveal_strlit("server_not_started");
    assert("port_failed"@.len() != "server_not_started"@.len());
    reveal_strlit("empty_text");
    assert("port_failed"@.len() != "empty_text"@.len());
    reveal_strlit("admin_picker_required");
    assert("port_failed"@.len() != "admin_picker_required"@.len());
    reveal_strlit("please_select_file");
    assert("port_failed"@.len() != "please_select_file"@.len());
    reveal_strlit("selected_file_missing");
    assert("port_failed"@.len() != "selected_file_missing"@.len());
    reveal_strlit("only_file");
    assert("port_failed"@.len() != "only_file"@.len());
    reveal_strlit("paste_file_too_large");
    assert("port_failed"@.len() != "paste_file_too_large"@.len());
    reveal_strlit("item_missing");
    assert("port_failed"@.len() != "item_missing"@.len());
    reveal_strlit("text_no_download");
    assert("port_failed"@.len() != "text_no_download"@.len());
    reveal_strlit("forbidden");
    assert("port_failed"@.len() != "forbidden"@.len());
    reveal_strlit("text_snippet");
    assert("port_failed"@.len() != "text_snippet"@.len());
    reveal_strlit("port_taken");
    assert("port_failed"@.len() != "port_taken"@.len());
}

/// The Chinese texts: every key shows the text below when Chinese is chosen.
pub proof fn chinese_texts()
    ensures
        known_template(true, "pick_admin_files"@) == Some("选择要共享的文件"@),
        known_template(true, "save_file"@) == Some("保存文件"@),
        known_template(true, "source_missing"@) == Some("源文件不存在"@),
        known_template(true, "source_missing_gone"@) == Some("源文件已不存在"@),
        known_template(true, "not_supported"@) == Some("当前系统不支持打开文件位置"@),
        known_template(true, "invalid_port"@) == Some("端口号无效"@),
        known_template(true, "update_failed"@) == Some("检查更新失败"@),
        known_template(true, "check_update"@) == Some("检查更新"@),
        known_template(true, "latest_version"@) == Some("当前已经是最新版本。"@),
        known_template(true, "new_version"@) == Some("发现新版本"@),
        known_template(true, "about_title"@) == Some("关于 FileShare"@),
        known_template(true, "about_desc"@) == Some("FileShare {version}\n局域网文件共享工具\n\n作者: Trifolium Wang\nGitHub: https://github.com/tri5m/file-share"@),
        known_template(true, "stop_share"@) == Some("停止分享"@),
        known_template(true, "start_share"@) == Some("启动分享"@),
        known_template(true, "checking"@) == Some("检查中..."@),
        known_template(true, "range_invalid"@) == Some("请求范围无效，文件大小为 {file_size} 字节"@),
        known_template(true, "server_not_started"@) == Some("服务未启动"@),
        known_template(true, "empty_text"@) == Some("文本不能为空"@),
        known_template(true, "admin_picker_required"@) == Some("管理端共享文件请使用系统文件选择器"@),
        known_template(true, "please_select_file"@) == Some("请选择文件"@),
        known_template(true, "selected_file_missing"@) == Some("所选文件不存在"@),
        known_template(true, "only_file"@) == Some("只能共享文件"@),
        known_template(true, "paste_file_too_large"@) == Some("无本机路径的粘贴文件最大支持 {size}，请改用拖拽或选择文件"@),
        known_template(true, "item_missing"@) == Some("条目不存在"@),
        known_template(true, "text_no_download"@) == Some("文本无需下载"@),
        known_template(true, "forbidden"@) == Some("管理端只能在服务器本机访问"@),
        known_template(true, "text_snippet"@) == Some("文本片段"@),
        known_template(true, "port_taken"@) == Some("端口 {port} 已被占用，请换一个端口或关闭占用该端口的程序"@),
        known_template(true, "port_failed"@) == Some("端口 {port} 启动失败：{error}"@),
{
    lemma_chinese_pick_admin_files();
    lemma_chinese_save_file();
    lemma_chinese_source_missing();
    lemma_chinese_source_missing_gone();
    lemma_chinese_not_supported();
    lemma_chinese_invalid_port();
    lemma_chinese_update_failed();
    lemma_chinese_check_update();
    lemma_chinese_latest_version();
    lemma_chinese_new_version();
    lemma_chinese_about_title();
    lemma_chinese_about_desc();
    lemma_chinese_stop_share();
    lemma_chinese_start_share();
    lemma_chinese_checking();
    lemma_chinese_range_invalid();
    lemma_chinese_server_not_started();
    lemma_chinese_empty_text();
    lemma_chinese_admin_picker_required();
    lemma_chinese_please_select_file();
    lemma_chinese_selected_file_missing();
    lemma_chinese_only_file();
    lemma_chinese_paste_file_too_large();
    lemma_chinese_item_missing();
    lemma_chinese_text_no_download();
    lemma_chinese_forbidden();
    lemma_chinese_text_snippet();
    lemma_chinese_port_taken();
    lemma_chinese_port_failed();
}

/// No English text holds a Chinese (or any other non-ASCII) character.
pub proof fn english_texts_are_ascii(key: Seq<char>)
    ensures
        known_template(false, key) matches Some(t) ==> ascii_text(t),
{
    reveal_strlit("Share files");
    reveal_strlit("Save file");
    reveal_strlit("File missing");
    reveal_strlit("File missing");
    reveal_strlit("Cannot open file location");
    reveal_strlit("Invalid port");
    reveal_strlit("Update failed");
    reveal_strlit("Check updates");
    reveal_strlit("Already up to date.");
    reveal_strlit("Update available");
    reveal_strlit("About FileShare");
    reveal_strlit("FileShare {version}\nLAN file sharing\n\nAuthor: Trifolium Wang\nGitHub: https://github.com/tri5m/file-share");
    reveal_strlit("STOP");
    reveal_strlit("Start");
    reveal_strlit("Checking...");
    reveal_strlit("Invalid range. Size: {file_size} bytes");
    reveal_strlit("Not started");
    reveal_strlit("Text is empty");
    reveal_strlit("Use the system file picker");
    reveal_strlit("Select a file");
    reveal_strlit("File missing");
    reveal_strlit("Files only");
    reveal_strlit("Pasted files without a local path are limited to {size}. Please drag or choose the file instead.");
    reveal_strlit("Not found");
    reveal_strlit("Text has no download");
    reveal_strlit("Local access only");
    reveal_strlit("Text snippet");
    reveal_strlit("Port {port} is in use.");
    reveal_strlit("Port {port} failed: {error}");
}

/// The template for a key: the known text, or the key itself when it is unknown.
pub open spec fn template(zh: bool, key: Seq<char>) -> Seq<char> {
    match known_template(zh, key) {
        Some(t) => t,
        None => key,
    }
}

/// The placeholder `{name}`.
pub open spec fn placeholder(name: Seq<char>) -> Seq<char> {
    seq!['{'] + name + seq!['}']
}

/// Substitutes each `(name, value)` in turn: every `{name}` becomes `value`.
pub open spec fn fill(t: Seq<char>, values: Seq<(Seq<char>, Seq<char>)>) -> Seq<char>
    decreases values.len(),
{
    if values.len() == 0 {
        t
    } else {
        fill(replace_all(t, placeholder(values[0].0), values[0].1), values.drop_first())
    }
}

/// The characters of the substitution list.
pub open spec fn values_view(values: Seq<(&str, String)>) -> Seq<(Seq<char>, Seq<char>)> {
    values.map_values(|p: (&str, String)| (p.0@, p.1@))
}

/// The text shown for `key` in the chosen language with `values` substituted.
pub open spec fn localized(zh: bool, key: Seq<char>, values: Seq<(Seq<char>, Seq<char>)>) -> Seq<
    char,
> {
    fill(template(zh, key), values)
}

/// Whether a locale name (the value of `LANG`, `LC_ALL` or `LC_MESSAGES`) selects Chinese:
/// its lower-cased form begins with `zh`.
pub open spec fn is_zh_name(lang: Seq<char>) -> bool {
    lang.len() >= 2 && ascii_lower(lang[0]) == 'z' && ascii_lower(lang[1]) == 'h'
}

/// Whether the locale name selects Chinese texts. Only `Z` and `H` lower-case to `z` and `h`
/// (and the one character whose lower case is two characters starts with `i`), so comparing
/// the first two characters ASCII-lower-cased decides the same as lower-casing the whole name.
pub fn is_zh_locale(lang: &str) -> (res: bool)
    ensures
        res == is_zh_name(lang@),
{
    let cs = chars_of(lang);
    if cs.len() < 2 {
        return false;
    }
    let a = cs[0];
    let b = cs[1];
    (a == 'z' || a == 'Z') && (b == 'h' || b == 'H')
}

/// The locale name that decides the language: `LANG` when it is set, else `LC_ALL`, else
/// `LC_MESSAGES`, else the empty name.
pub open spec fn chosen_locale(
    lang: Option<Seq<char>>,
    lc_all: Option<Seq<char>>,
    lc_messages: Option<Seq<char>>,
) -> Seq<char> {
    match lang {
        Some(l) => l,
        None => match lc_all {
            Some(l) => l,
            None => match lc_messages {
                Some(l) => l,
                None => Seq::empty(),
            },
        },
    }
}

/// Whether the environment selects Chinese texts, given the values of `LANG`, `LC_ALL` and
/// `LC_MESSAGES` (`None` for a variable that is not set).
pub fn is_zh_environment(lang: Option<&str>, lc_all: Option<&str>, lc_messages: Option<&str>) -> (res:
    bool)
    ensures
        res == is_zh_name(
            chosen_locale(
                match lang {
                    Some(l) => Some(l@),
                    None => None,
                },
                match lc_all {
                    Some(l) => Some(l@),
                    None => None,
                },
                match lc_messages {
                    Some(l) => Some(l@),
                    None => None,
                },
            ),
        ),
{
    match lang {
        Some(l) => is_zh_locale(l),
        None => match lc_all {
            Some(l) => is_zh_locale(l),
            None => match lc_messages {
                Some(l) => is_zh_locale(l),
                None => false,
            },
        },
    }
}

/// The template for a known key, or `None`.
fn lookup_template(zh: bool, key: &Vec<char>) -> (res: Option<&'static str>)
    ensures
        match res {
            Some(t) => known_template(zh, key@) == Some(t@),
            None => known_template(zh, key@) is None,
        },
{
    if chars_equal(key, &chars_of("pick_admin_files")) {
        return Some(
            if zh {
                "选择要共享的文件"
            } else {
                "Share files"
            },
        );
    }
    if chars_equal(key, &chars_of("save_file")) {
        return Some(
            if zh {
                "保存文件"
            } else {
                "Save file"
            },
        );
    }
    if chars_equal(key, &chars_of("source_missing")) {
        return Some(
            if zh {
                "源文件不存在"
            } else {
                "File missing"
            },
        );
    }
    if chars_equal(key, &chars_of("source_missing_gone")) {
        return Some(
            if zh {
                "源文件已不存在"
            } else {
                "File missing"
            },
        );
    }
    if chars_equal(key, &chars_of("not_supported")) {
        return Some(
            if zh {
                "当前系统不支持打开文件位置"
            } else {
                "Cannot open file location"
            },
        );
    }
    if chars_equal(key, &chars_of("invalid_port")) {
        return Some(
            if zh {
                "端口号无效"
            } else {
                "Invalid port"
            },
        );
    }
    if chars_equal(key, &chars_of("update_failed")) {
        return Some(
            if zh {
                "检查更新失败"
            } else {
                "Update failed"
            },
        );
    }
    if chars_equal(key, &chars_of("check_update")) {
        return Some(
            if zh {
                "检查更新"
            } else {
                "Check updates"
            },
        );
    }
    if chars_equal(key, &chars_of("latest_version")) {
        return Some(
            if zh {
                "当前已经是最新版本。"
            } else {
                "Already up to date."
            },
        );
    }
    if chars_equal(key, &chars_of("new_version")) {
        return Some(
            if zh {
                "发现新版本"
            } else {
                "Update available"
            },
        );
    }
    if chars_equal(key, &chars_of("about_title")) {
        return Some(
            if zh {
                "关于 FileShare"
            } else {
                "About FileShare"
            },
        );
    }
    if chars_equal(key, &chars_of("about_desc")) {
        return Some(
            if zh {
                "FileShare {version}\n局域网文件共享工具\n\n作者: Trifolium Wang\nGitHub: https://github.com/tri5m/file-share"
            } else {
                "FileShare {version}\nLAN file sharing\n\nAuthor: Trifolium Wang\nGitHub: https://github.com/tri5m/file-share"
            },
        );
    }
    if chars_equal(key, &chars_of("stop_share")) {
        return Some(
            if zh {
                "停止分享"
            } else {
                "STOP"
            },
        );
    }
    if chars_equal(key, &chars_of("start_share")) {
        return Some(
            if zh {
                "启动分享"
            } else {
                "Start"
            },
        );
    }
    if chars_equal(key, &chars_of("checking")) {
        return Some(
            if zh {
                "检查中..."
            } else {
                "Checking..."
            },
        );
    }
    if chars_equal(key, &chars_of("range_invalid")) {
        return Some(
            if zh {
                "请求范围无效，文件大小为 {file_size} 字节"
            } else {
                "Invalid range. Size: {file_size} bytes"
            },
        );
    }
    if chars_equal(key, &chars_of("server_not_started")) {
        return Some(
            if zh {
                "服务未启动"
            } else {
                "Not started"
            },
        );
    }
    if chars_equal(key, &chars_of("empty_text")) {
        return Some(
            if zh {
                "文本不能为空"
            } else {
                "Text is empty"
            },
        );
    }
    if chars_equal(key, &chars_of("admin_picker_required")) {
        return Some(
            if zh {
                "管理端共享文件请使用系统文件选择器"
            } else {
                "Use the system file picker"
            },
        );
    }
    if chars_equal(key, &chars_of("please_select_file")) {
        return Some(
            if zh {
                "请选择文件"
            } else {
                "Select a file"
            },
        );
    }
    if chars_equal(key, &chars_of("selected_file_missing")) {
        return Some(
            if zh {
                "所选文件不存在"
            } else {
                "File missing"
            },
        );
    }
    if chars_equal(key, &chars_of("only_file")) {
        return Some(
            if zh {
                "只能共享文件"
            } else {
                "Files only"
            },
        );
    }
    if chars_equal(key, &chars_of("paste_file_too_large")) {
        return Some(
            if zh {
                "无本机路径的粘贴文件最大支持 {size}，请改用拖拽或选择文件"
            } else {
                "Pasted files without a local path are limited to {size}. Please drag or choose the file instead."
            },
        );
    }
    if chars_equal(key, &chars_of("item_missing")) {
        return Some(
            if zh {
                "条目不存在"
            } else {
                "Not found"
            },
        );
    }
    if chars_equal(key, &chars_of("text_no_download")) {
        return Some(
            if zh {
                "文本无需下载"
            } else {
                "Text has no download"
            },
        );
    }
    if chars_equal(key, &chars_of("forbidden")) {
        return Some(
            if zh {
                "管理端只能在服务器本机访问"
            } else {
                "Local access only"
            },
        );
    }
    if chars_equal(key, &chars_of("text_snippet")) {
        return Some(
            if zh {
                "文本片段"
            } else {
                "Text snippet"
            },
        );
    }
    if chars_equal(key, &chars_of("port_taken")) {
        return Some(
            if zh {
                "端口 {port} 已被占用，请换一个端口或关闭占用该端口的程序"
            } else {
                "Port {port} is in use."
            },
        );
    }
    if chars_equal(key, &chars_of("port_failed")) {
        return Some(
            if zh {
                "端口 {port} 启动失败：{error}"
            } else {
                "Port {port} failed: {error}"
            },
        );
    }
    None
}

/// Looks up the text for `key` (Chinese when `zh`) and replaces each `{name}` by its value.
/// An unknown key is its own text.
pub fn tr(zh: bool, key: &str, values: &[(&str, String)]) -> (res: String)
    ensures
        res@ == localized(zh, key@, values_view(values@)),
{
    let key_chars = chars_of(key);
    let mut text = match lookup_template(zh, &key_chars) {
        Some(t) => chars_of(t),
        None => key_chars,
    };
    let ghost all = values_view(values@);
    assert(text@ == template(zh, key@));
    assert(all.skip(0) =~= all);
    let mut i: usize = 0;
    while i < values.len()
        invariant
            i <= values.len(),
            all == values_view(values@),
            fill(text@, all.skip(i as int)) == localized(zh, key@, all),
        decreases values.len() - i,
    {
        let name: &str = values[i].0;
        let value: &String = &values[i].1;
        let mut pattern: Vec<char> = Vec::new();
        pattern.push('{');
        push_all(&mut pattern, &chars_of(name));
        pattern.push('}');
        assert(pattern@ =~= placeholder(name@));
        let value_chars = chars_of(value.as_str());
        assert(all.skip(i as int)[0] == (name@, value@));
        assert(all.skip(i as int).drop_first() =~= all.skip(i + 1));
        text = replace_chars(&text, &pattern, &value_chars);
        i = i + 1;
    }
    assert(all.skip(i as int) =~= Seq::<(Seq<char>, Seq<char>)>::empty());
    string_of(text.as_slice())
}

} // verus!
