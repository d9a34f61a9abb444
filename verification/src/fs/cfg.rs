//! The configuration of the file system monitor.

use crate::cfg::{clone_text, Alert, AlertSeverity, AlertView};
use vstd::prelude::*;

verus! {

/// The configuration of the file system monitor.
#[derive(Debug)]
pub struct FsConfig {
    pub enabled: bool,
    pub check_interval_secs: u64,
    pub disk_full_warning: Option<DiskUsageAlert>,
}

/// When a disk counts as almost full, which mounts are looked at, and the
/// alert that such a disk raises.
#[derive(Debug)]
pub struct DiskUsageAlert {
    pub usage_percent_limit: u8,
    pub device_path_exclude: Option<Vec<String>>,
    pub fs_type_include: Option<Vec<String>>,
    pub fs_type_exclude: Option<Vec<String>>,
    pub alert: Alert,
}

/// A `DiskUsageAlert` with its texts as sequences of characters.
pub struct DiskUsageAlertView {
    pub usage_percent_limit: u8,
    pub device_path_exclude: Option<Seq<Seq<char>>>,
    pub fs_type_include: Option<Seq<Seq<char>>>,
    pub fs_type_exclude: Option<Seq<Seq<char>>>,
    pub alert: AlertView,
}

/// An `FsConfig` with its texts as sequences of characters.
pub struct FsConfigView {
    pub enabled: bool,
    pub check_interval_secs: u64,
    pub disk_full_warning: Option<DiskUsageAlertView>,
}

impl DeepView for DiskUsageAlert {
    type V = DiskUsageAlertView;

    open spec fn deep_view(&self) -> DiskUsageAlertView {
        DiskUsageAlertView {
            usage_percent_limit: self.usage_percent_limit,
            device_path_exclude: self.device_path_exclude.deep_view(),
            fs_type_include: self.fs_type_include.deep_view(),
            fs_type_exclude: self.fs_type_exclude.deep_view(),
            alert: self.alert.deep_view(),
        }
    }
}

impl DeepView for FsConfig {
    type V = FsConfigView;

    open spec fn deep_view(&self) -> FsConfigView {
        FsConfigView {
            enabled: self.enabled,
            check_interval_secs: self.check_interval_secs,
            disk_full_warning: self.disk_full_warning.deep_view(),
        }
    }
}

impl FsConfigView {
    /// The configuration that is used where none is given.
    pub open spec fn default_config() -> FsConfigView {
        FsConfigView {
            enabled: true,
            check_interval_secs: 300,
            disk_full_warning: Some(
                DiskUsageAlertView {
                    usage_percent_limit: 95,
                    device_path_exclude: None,
                    fs_type_include: None,
                    fs_type_exclude: None,
                    alert: AlertView {
                        severity: AlertSeverity::Warning,
                        on_startup: true,
                        repeat_after_seconds: None,
                        expire_after_seconds: Some(180),
                        summary: "Disk '{}' is almost full! (${usage_percent}%)"@,
                        message: None,
                    },
                },
            ),
        }
    }
}

/// A copy of a list of texts.
pub fn clone_texts(texts: &Vec<String>) -> (r: Vec<String>)
    ensures
        r.deep_view() == texts.deep_view(),
{
    let mut r: Vec<String> = Vec::new();
    let mut i: usize = 0;
    while i < texts.len()
        invariant
            i <= texts.len(),
            r.len() == i,
            forall|k: int| 0 <= k < i ==> r[k]@ == texts[k]@,
        decreases texts.len() - i,
    {
        r.push(texts[i].clone());
        i += 1;
    }
    assert(r.deep_view() =~= texts.deep_view());
    r
}

fn clone_list(texts: &Option<Vec<String>>) -> (r: Option<Vec<String>>)
    ensures
        r.deep_view() == texts.deep_view(),
{
    match texts {
        Some(t) => Some(clone_texts(t)),
        None => None,
    }
}

impl Clone for DiskUsageAlert {
    fn clone(&self) -> (r: Self)
        ensures
            r.deep_view() == self.deep_view(),
    {
        DiskUsageAlert {
            usage_percent_limit: self.usage_percent_limit,
            device_path_exclude: clone_list(&self.device_path_exclude),
            fs_type_include: clone_list(&self.fs_type_include),
            fs_type_exclude: clone_list(&self.fs_type_exclude),
            alert: self.alert.clone(),
        }
    }
}

impl Clone for FsConfig {
    fn clone(&self) -> (r: Self)
        ensures
            r.deep_view() == self.deep_view(),
    {
        FsConfig {
            enabled: self.enabled,
            check_interval_secs: self.check_interval_secs,
            disk_full_warning: match &self.disk_full_warning {
                Some(w) => Some(w.clone()),
                None => None,
            },
        }
    }
}

impl Default for FsConfig {
    fn default() -> (r: Self)
        ensures
            r.deep_view() == FsConfigView::default_config(),
    {
        Self {
            enabled: true,
            check_interval_secs: 300,
            disk_full_warning: Some(
                DiskUsageAlert {
                    usage_percent_limit: 95,
                    device_path_exclude: None,
                    fs_type_include: None,
                    fs_type_exclude: None,
                    alert: Alert {
                        severity: AlertSeverity::Warning,
                        on_startup: true,
                        repeat_after_seconds: None,
                        expire_after_seconds: Some(180),
                        summary: "Disk '{}' is almost full! (${usage_percent}%)".to_owned(),
                        message: None,
                    },
                },
            ),
        }
    }
}

} // verus!
