//! The directory sets the host application resolves for the user.
//!
//! The host's desktop shell supplies the actual paths; here they are plain
//! strings, empty until resolved.

use vstd::prelude::*;

verus! {

/// The application's own directories.
#[derive(Debug)]
pub struct AppDirs {
    /// Application configuration files.
    pub config_dir: String,
    /// Regenerable temporary data.
    pub cache_dir: String,
    /// Execution and debug logs.
    pub log_dir: String,
    /// Machine-local persistent data.
    pub local_data_dir: String,
    /// Persistent data shared between a user's machines.
    pub data_dir: String,
}

impl Default for AppDirs {
    /// Every directory still unresolved.
    fn default() -> (r: AppDirs)
        ensures
            r.config_dir@ == Seq::<char>::empty(),
            r.cache_dir@ == Seq::<char>::empty(),
            r.log_dir@ == Seq::<char>::empty(),
            r.local_data_dir@ == Seq::<char>::empty(),
            r.data_dir@ == Seq::<char>::empty(),
    {
        AppDirs {
            config_dir: String::new(),
            cache_dir: String::new(),
            log_dir: String::new(),
            local_data_dir: String::new(),
            data_dir: String::new(),
        }
    }
}

/// The user's system directories.
#[derive(Debug)]
pub struct SystemDirs {
    pub config_dir: String,
    pub data_dir: String,
    pub local_data_dir: String,
    pub desktop_dir: String,
    pub document_dir: String,
    pub download_dir: String,
    pub executable_dir: String,
    pub font_dir: String,
    pub home_dir: String,
    pub picture_dir: String,
    pub runtime_dir: String,
    pub template_dir: String,
    pub video_dir: String,
    pub resource_dir: String,
    pub temp_dir: String,
}

impl Default for SystemDirs {
    /// Every directory still unresolved.
    fn default() -> (r: SystemDirs)
        ensures
            r.config_dir@ == Seq::<char>::empty(),
            r.data_dir@ == Seq::<char>::empty(),
            r.local_data_dir@ == Seq::<char>::empty(),
            r.desktop_dir@ == Seq::<char>::empty(),
            r.document_dir@ == Seq::<char>::empty(),
            r.download_dir@ == Seq::<char>::empty(),
            r.executable_dir@ == Seq::<char>::empty(),
            r.font_dir@ == Seq::<char>::empty(),
            r.home_dir@ == Seq::<char>::empty(),
            r.picture_dir@ == Seq::<char>::empty(),
            r.runtime_dir@ == Seq::<char>::empty(),
            r.template_dir@ == Seq::<char>::empty(),
            r.video_dir@ == Seq::<char>::empty(),
            r.resource_dir@ == Seq::<char>::empty(),
            r.temp_dir@ == Seq::<char>::empty(),
    {
        SystemDirs {
            config_dir: String::new(),
            data_dir: String::new(),
            local_data_dir: String::new(),
            desktop_dir: String::new(),
            document_dir: String::new(),
            download_dir: String::new(),
            executable_dir: String::new(),
            font_dir: String::new(),
            home_dir: String::new(),
            picture_dir: String::new(),
            runtime_dir: String::new(),
            template_dir: String::new(),
            video_dir: String::new(),
            resource_dir: String::new(),
            temp_dir: String::new(),
        }
    }
}

} // verus!
