//! The configuration of Envision.

use vstd::prelude::*;

verus! {

/// The configuration file.
#[derive(Debug)]
pub struct EnvisionConfiguration {
    pub selected_profile_uuid: String,
    pub user_profiles: Vec<EnvisionUserProfile>,
}

/// One profile.
#[derive(Debug)]
pub struct EnvisionUserProfile {
    pub uuid: String,
    pub name: String,
    pub xrservice_type: String,
    pub xrservice_path: String,
    pub xrservice_repo: Option<String>,
    pub xrservice_branch: Option<String>,
    pub opencomposite_path: String,
    /// As JSON text.
    pub opencomposite_repo: String,
    /// As JSON text.
    pub opencomposite_branch: String,
    pub ovr_comp: OvrComp,
    pub environment: Environment,
    pub prefix: String,
    pub can_be_built: bool,
    pub editable: bool,
    pub pull_on_build: bool,
    pub lighthouse_driver: String,
    pub xrservice_launch_options: String,
    pub skip_dependency_check: bool,
}

#[derive(Debug)]
pub struct OvrComp {
    pub mod_type: String,
    pub repo: Option<String>,
    pub branch: Option<String>,
    pub path: String,
}

#[derive(Debug)]
pub struct Environment {
    pub ld_library_path: String,
    pub u_pacing_app_use_min_frame_period: String,
    pub xrt_curated_gui: String,
    pub xrt_debug_gui: String,
}

} // verus!
