//! The name and clone index of the application a user id belongs to.

use vstd::prelude::*;

verus! {

/// What the bundle manager reports of an application.
pub struct AppInfo {
    /// Whether the application was found.
    pub ret: bool,
    /// Its clone index.
    pub index: i32,
    /// Its bundle name.
    pub name: String,
}

/// The clone index and bundle name of an application, when it was found.
pub fn get_name_and_index(app_info: AppInfo) -> (r: Option<(i32, String)>)
    ensures
        app_info.ret ==> r == Some((app_info.index, app_info.name)),
        !app_info.ret ==> r is None,
{
    if app_info.ret {
        Some((app_info.index, app_info.name))
    } else {
        None
    }
}

} // verus!
