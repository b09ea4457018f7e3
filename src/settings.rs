//! The application settings and their defaults.

use vstd::prelude::*;

verus! {

/// The user's settings.
#[derive(Clone, Debug)]
pub struct SettingConfig {
    pub theme: String,
    pub editor_dark_theme: String,
    pub editor_light_theme: String,
    /// Splits key paths into a tree.
    pub kv_path_splitter: String,
    pub kv_pagination_query: bool,
    pub kv_limit_per_page: u32,
    pub kv_check_format_before_save: bool,
    pub auto_update: bool,
    pub close_tab_use_ctrl_w: bool,
    pub connect_timeout_seconds: u64,
    pub request_timeout_seconds: u64,
    pub ssh_connect_timeout_seconds: u64,
    /// The key the saved connections are encrypted with: 16 bytes.
    pub connection_conf_encrypt_key: String,
    /// The most keys a directory rename may touch.
    pub kv_dir_rename_keys_limit: i64,
}

/// The theme when none is set.
pub fn default_theme() -> (r: String)
    ensures
        r@ == "auto"@,
{
    "auto".to_owned()
}

/// The editor's dark theme when none is set.
pub fn default_editor_dark_theme() -> (r: String)
    ensures
        r@ == "barf"@,
{
    "barf".to_owned()
}

/// The editor's light theme when none is set.
pub fn default_editor_light_theme() -> (r: String)
    ensures
        r@ == "smoothy"@,
{
    "smoothy".to_owned()
}

/// The key path separator when none is set.
pub fn default_kv_path_splitter() -> (r: String)
    ensures
        r@ == "/"@,
{
    "/".to_owned()
}

/// Keys per page when none is set.
pub fn default_kv_limit_per_page() -> (r: u32)
    ensures
        r == 2000,
{
    2000
}

/// Values are checked before they are saved unless set otherwise.
pub fn default_kv_check_format_before_save() -> (r: bool)
    ensures
        r,
{
    true
}

/// The connect timeout when none is set.
pub fn default_connect_timeout_seconds() -> (r: u64)
    ensures
        r == 5,
{
    5
}

/// The request timeout when none is set.
pub fn default_request_timeout_seconds() -> (r: u64)
    ensures
        r == 15,
{
    15
}

/// The SSH connect timeout when none is set.
pub fn default_ssh_connect_timeout_seconds() -> (r: u64)
    ensures
        r == 10,
{
    10
}

/// Updates are automatic unless set otherwise.
pub fn default_auto_update() -> (r: bool)
    ensures
        r,
{
    true
}

/// The key saved connections are encrypted with when none is set.
pub fn default_connection_conf_encrypt_key() -> (r: String)
    ensures
        r@ == "workbench*#)&%.$"@,
{
    "workbench*#)&%.$".to_owned()
}

/// The most keys a directory rename touches when none is set.
pub fn default_kv_dir_rename_keys_limit() -> (r: i64)
    ensures
        r == 5000,
{
    5000
}

/// Every setting at its default.
impl Default for SettingConfig {
    fn default() -> (r: SettingConfig)
        ensures
            r.theme@ == "auto"@,
            r.editor_dark_theme@ == "barf"@,
            r.editor_light_theme@ == "smoothy"@,
            r.kv_path_splitter@ == "/"@,
            r.kv_pagination_query,
            r.kv_limit_per_page == 2000,
            r.kv_check_format_before_save,
            r.auto_update,
            r.close_tab_use_ctrl_w,
            r.connect_timeout_seconds == 5,
            r.request_timeout_seconds == 15,
            r.ssh_connect_timeout_seconds == 10,
            r.connection_conf_encrypt_key@ == "workbench*#)&%.$"@,
            r.kv_dir_rename_keys_limit == 5000,
    {
        SettingConfig {
            theme: default_theme(),
            editor_dark_theme: default_editor_dark_theme(),
            editor_light_theme: default_editor_light_theme(),
            kv_path_splitter: default_kv_path_splitter(),
            kv_pagination_query: true,
            kv_limit_per_page: default_kv_limit_per_page(),
            kv_check_format_before_save: true,
            auto_update: true,
            close_tab_use_ctrl_w: true,
            connect_timeout_seconds: default_connect_timeout_seconds(),
            request_timeout_seconds: default_request_timeout_seconds(),
            ssh_connect_timeout_seconds: default_ssh_connect_timeout_seconds(),
            connection_conf_encrypt_key: default_connection_conf_encrypt_key(),
            kv_dir_rename_keys_limit: default_kv_dir_rename_keys_limit(),
        }
    }
}

/// The format a value was last shown in.
#[derive(Clone, Debug, Default)]
pub struct FileFormat {
    pub key: String,
    pub format: String,
}

} // verus!
