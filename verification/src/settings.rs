//! Settings shared by every step of an installation.

use vstd::prelude::*;

verus! {

/// The installer-wide settings from which the steps of an installation are planned.
#[derive(Debug)]
pub struct CommonSettings {
    /// Where the Nix archive is fetched from.
    pub nix_package_url: String,
    /// The name of the group that owns the build users.
    pub nix_build_group_name: String,
    /// How many build users the daemon gets.
    pub daemon_user_count: u32,
}

/// The mathematical content of [`CommonSettings`].
pub struct CommonSettingsView {
    pub nix_package_url: Seq<char>,
    pub nix_build_group_name: Seq<char>,
    pub daemon_user_count: u32,
}

impl View for CommonSettings {
    type V = CommonSettingsView;

    open spec fn view(&self) -> CommonSettingsView {
        CommonSettingsView {
            nix_package_url: self.nix_package_url@,
            nix_build_group_name: self.nix_build_group_name@,
            daemon_user_count: self.daemon_user_count,
        }
    }
}

impl Clone for CommonSettings {
    fn clone(&self) -> (copy: Self)
        ensures
            copy@ == self@,
    {
        CommonSettings {
            nix_package_url: self.nix_package_url.clone(),
            nix_build_group_name: self.nix_build_group_name.clone(),
            daemon_user_count: self.daemon_user_count,
        }
    }
}

} // verus!
