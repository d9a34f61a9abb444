//! The file system monitor: it reads the table of mounts that the kernel
//! keeps in `/proc/mounts` and raises an alert for each disk that is almost
//! full.

pub mod cfg;

use crate::fs::cfg::{DiskUsageAlert, DiskUsageAlertView, FsConfig, FsConfigView};
use crate::notify::{PreparedAlert, PreparedAlertView, Variables};
use crate::text::{
    decimal, decimal_string, same_text, split, split_at_char, split_whitespace, trim, trimmed,
    words,
};
use vstd::prelude::*;

verus! {

/// One line of the table of mounts.
#[derive(Clone, Debug, PartialEq, Eq)]
pub struct Mount {
    pub device: String,
    pub mountpoint: String,
    pub fstype: String,
    pub options: Vec<String>,
}

/// A `Mount` with its texts as sequences of characters.
pub struct MountView {
    pub device: Seq<char>,
    pub mountpoint: Seq<char>,
    pub fstype: Seq<char>,
    pub options: Seq<Seq<char>>,
}

impl DeepView for Mount {
    type V = MountView;

    open spec fn deep_view(&self) -> MountView {
        MountView {
            device: self.device@,
            mountpoint: self.mountpoint@,
            fstype: self.fstype@,
            options: self.options.deep_view(),
        }
    }
}

/// The field that a line of the table of mounts lacks.
#[derive(Debug)]
pub enum MountError {
    MissingDevice { line: String },
    MissingMountpoint { line: String },
    MissingFstype { line: String },
    MissingOptions { line: String },
}

/// A `MountError` with its line as a sequence of characters.
pub enum MountErrorView {
    MissingDevice { line: Seq<char> },
    MissingMountpoint { line: Seq<char> },
    MissingFstype { line: Seq<char> },
    MissingOptions { line: Seq<char> },
}

impl DeepView for MountError {
    type V = MountErrorView;

    open spec fn deep_view(&self) -> MountErrorView {
        match self {
            MountError::MissingDevice { line } => MountErrorView::MissingDevice { line: line@ },
            MountError::MissingMountpoint { line } => MountErrorView::MissingMountpoint {
                line: line@,
            },
            MountError::MissingFstype { line } => MountErrorView::MissingFstype { line: line@ },
            MountError::MissingOptions { line } => MountErrorView::MissingOptions { line: line@ },
        }
    }
}

impl MountErrorView {
    /// The sentence that tells a user what is wrong.
    pub open spec fn text(self) -> Seq<char> {
        match self {
            MountErrorView::MissingDevice { line } => "could not read device from line '"@ + line
                + "'"@,
            MountErrorView::MissingMountpoint { line } => "could not read mountpoint from line '"@
                + line + "'"@,
            MountErrorView::MissingFstype { line } => "could not read fstype from line '"@ + line
                + "'"@,
            MountErrorView::MissingOptions { line } => "could not read options from line '"@ + line
                + "'"@,
        }
    }
}

impl MountError {
    /// The sentence that tells a user what is wrong.
    pub fn message(&self) -> (r: String)
        ensures
            r@ == self.deep_view().text(),
    {
        let (mut r, line) = match self {
            MountError::MissingDevice { line } => (
                "could not read device from line '".to_owned(),
                line,
            ),
            MountError::MissingMountpoint { line } => (
                "could not read mountpoint from line '".to_owned(),
                line,
            ),
            MountError::MissingFstype { line } => (
                "could not read fstype from line '".to_owned(),
                line,
            ),
            MountError::MissingOptions { line } => (
                "could not read options from line '".to_owned(),
                line,
            ),
        };
        r.append(line.as_str());
        r.append("'");
        r
    }
}

/// The mount that a line of the table describes. Its fields are separated
/// by white space: the device, the mount point, the type of the file system
/// and the options, which commas separate. What follows the options is not
/// looked at. A line with fewer fields lacks the first one that is not there.
pub open spec fn mount_of(line: Seq<char>) -> Result<MountView, MountErrorView> {
    let fields = words(line);
    if fields.len() == 0 {
        Err(MountErrorView::MissingDevice { line })
    } else if fields.len() == 1 {
        Err(MountErrorView::MissingMountpoint { line })
    } else if fields.len() == 2 {
        Err(MountErrorView::MissingFstype { line })
    } else if fields.len() == 3 {
        Err(MountErrorView::MissingOptions { line })
    } else {
        Ok(
            MountView {
                device: fields[0],
                mountpoint: fields[1],
                fstype: fields[2],
                options: split(fields[3], ','),
            },
        )
    }
}

/// The mounts that the lines from index `i` on describe, or the error of
/// the first line that describes none. Each line is taken without the white
/// space around it, and a line that holds nothing else is passed over.
pub open spec fn mounts_from(lines: Seq<Seq<char>>, i: int) -> Result<
    Seq<MountView>,
    MountErrorView,
>
    decreases lines.len() - i,
{
    if i < 0 || i >= lines.len() {
        Ok(Seq::empty())
    } else if trimmed(lines[i]).len() == 0 {
        mounts_from(lines, i + 1)
    } else {
        match mount_of(trimmed(lines[i])) {
            Err(e) => Err(e),
            Ok(mount) => match mounts_from(lines, i + 1) {
                Ok(rest) => Ok(seq![mount] + rest),
                Err(e) => Err(e),
            },
        }
    }
}

/// The mounts that a table of mounts describes, line by line.
pub open spec fn mounts_of(input: Seq<char>) -> Result<Seq<MountView>, MountErrorView> {
    mounts_from(split(input, '\n'), 0)
}

/// Reads one line of the table of mounts.
pub fn parse_proc_mount_line(line: &str) -> (r: Result<Mount, MountError>)
    ensures
        match r {
            Ok(m) => mount_of(line@) == Ok::<MountView, MountErrorView>(m.deep_view()),
            Err(e) => mount_of(line@) == Err::<MountView, MountErrorView>(e.deep_view()),
        },
{
    let fields = split_whitespace(line);
    assert(fields.deep_view().len() == fields.len());
    if fields.len() == 0 {
        return Err(MountError::MissingDevice { line: line.to_owned() });
    }
    if fields.len() == 1 {
        return Err(MountError::MissingMountpoint { line: line.to_owned() });
    }
    if fields.len() == 2 {
        return Err(MountError::MissingFstype { line: line.to_owned() });
    }
    if fields.len() == 3 {
        return Err(MountError::MissingOptions { line: line.to_owned() });
    }
    assert(fields.deep_view()[0] == fields[0]@);
    assert(fields.deep_view()[1] == fields[1]@);
    assert(fields.deep_view()[2] == fields[2]@);
    assert(fields.deep_view()[3] == fields[3]@);
    Ok(
        Mount {
            device: fields[0].clone(),
            mountpoint: fields[1].clone(),
            fstype: fields[2].clone(),
            options: split_at_char(fields[3].as_str(), ','),
        },
    )
}

/// Reads the table of mounts, in the form of `/proc/mounts`.
pub fn parse_proc_mounts(input: &str) -> (r: Result<Vec<Mount>, MountError>)
    ensures
        match r {
            Ok(mounts) => mounts_of(input@) == Ok::<Seq<MountView>, MountErrorView>(
                mounts.deep_view(),
            ),
            Err(e) => mounts_of(input@) == Err::<Seq<MountView>, MountErrorView>(e.deep_view()),
        },
{
    let lines = split_at_char(input, '\n');
    let ghost all = lines.deep_view();
    let mut mounts: Vec<Mount> = Vec::new();
    let mut i: usize = 0;
    assert(mounts.deep_view() =~= Seq::<MountView>::empty());
    while i < lines.len()
        invariant
            i <= lines.len(),
            all == lines.deep_view(),
            all == split(input@, '\n'),
            match mounts_from(all, i as int) {
                Ok(rest) => mounts_of(input@) == Ok::<Seq<MountView>, MountErrorView>(
                    mounts.deep_view() + rest,
                ),
                Err(e) => mounts_of(input@) == Err::<Seq<MountView>, MountErrorView>(e),
            },
        decreases lines.len() - i,
    {
        assert(all[i as int] == lines[i as int]@);
        let line = trim(lines[i].as_str());
        if !line.as_str().is_empty() {
            match parse_proc_mount_line(line.as_str()) {
                Err(e) => {
                    return Err(e);
                },
                Ok(mount) => {
                    let ghost before = mounts.deep_view();
                    mounts.push(mount);
                    assert(mounts.deep_view() =~= before.push(mount.deep_view()));
                    assert forall|rest: Seq<MountView>|
                        before + (seq![mount.deep_view()] + rest) =~= mounts.deep_view()
                            + rest by {}
                },
            }
        }
        i += 1;
    }
    assert(mounts.deep_view() + Seq::<MountView>::empty() =~= mounts.deep_view());
    Ok(mounts)
}

/// The variables of an alert about a mount.
pub open spec fn mount_variables(mount: MountView, usage_percent: u8) -> Map<
    Seq<char>,
    Seq<char>,
> {
    Map::<Seq<char>, Seq<char>>::empty().insert(
        "usage_percent"@,
        decimal(usage_percent as nat),
    ).insert("device"@, mount.device).insert("mountpoint"@, mount.mountpoint).insert(
        "fstype"@,
        mount.fstype,
    )
}

/// Whether the list, where there is one, holds the text.
pub open spec fn listed(list: Option<Seq<Seq<char>>>, text: Seq<char>) -> bool {
    match list {
        Some(texts) => texts.contains(text),
        None => false,
    }
}

/// Whether a mount is looked at: its device is not excluded, its type is
/// not excluded, and its type is among those included, where such a list is
/// given.
pub open spec fn watched(rule: DiskUsageAlertView, mount: MountView) -> bool {
    &&& !listed(rule.device_path_exclude, mount.device)
    &&& !listed(rule.fs_type_exclude, mount.fstype)
    &&& rule.fs_type_include is Some ==> listed(rule.fs_type_include, mount.fstype)
}

/// The alert that a mount raises when `usage_percent` of it are in use: the
/// alert of the rule, for a mount that is looked at and whose usage has
/// reached the limit. Each device has a group of its own.
pub open spec fn mount_alert(rule: DiskUsageAlertView, mount: MountView, usage_percent: u8)
    -> Option<PreparedAlertView> {
    if watched(rule, mount) && usage_percent >= rule.usage_percent_limit {
        Some(
            PreparedAlertView {
                alert: rule.alert,
                group: "fs-"@ + mount.device,
                variables: mount_variables(mount, usage_percent),
            },
        )
    } else {
        None
    }
}

fn list_holds(list: &Option<Vec<String>>, text: &str) -> (r: bool)
    ensures
        r == listed(list.deep_view(), text@),
{
    match list {
        None => false,
        Some(texts) => {
            let mut i: usize = 0;
            while i < texts.len()
                invariant
                    i <= texts.len(),
                    list.deep_view() == Some(texts.deep_view()),
                    forall|k: int| 0 <= k < i ==> texts.deep_view()[k] != text@,
                decreases texts.len() - i,
            {
                assert(texts.deep_view()[i as int] == texts[i as int]@);
                if same_text(texts[i].as_str(), text) {
                    assert(texts.deep_view().contains(text@)) by {
                        assert(texts.deep_view()[i as int] == text@);
                    }
                    return true;
                }
                i += 1;
            }
            assert(texts.deep_view().len() == texts.len());
            false
        },
    }
}

impl DiskUsageAlert {
    /// The alert that `mount` raises when `usage_percent` of it are in use.
    pub fn check(&self, mount: &Mount, usage_percent: u8) -> (r: Option<PreparedAlert>)
        ensures
            r.deep_view() == mount_alert(self.deep_view(), mount.deep_view(), usage_percent),
    {
        if list_holds(&self.device_path_exclude, mount.device.as_str()) {
            return None;
        }
        if list_holds(&self.fs_type_exclude, mount.fstype.as_str()) {
            return None;
        }
        if self.fs_type_include.is_some() && !list_holds(
            &self.fs_type_include,
            mount.fstype.as_str(),
        ) {
            return None;
        }
        if usage_percent < self.usage_percent_limit {
            return None;
        }
        let mut variables = Variables::new();
        variables.insert("usage_percent".to_owned(), decimal_string(usage_percent as u64));
        variables.insert("device".to_owned(), mount.device.clone());
        variables.insert("mountpoint".to_owned(), mount.mountpoint.clone());
        variables.insert("fstype".to_owned(), mount.fstype.clone());
        let mut group = "fs-".to_owned();
        group.append(mount.device.as_str());
        Some(self.alert.prepare(group, variables))
    }
}

/// The file system monitor with its configuration.
pub struct FsManager {
    config: FsConfig,
}

impl FsManager {
    /// The configuration that the monitor works with.
    pub closed spec fn config_view(&self) -> FsConfigView {
        self.config.deep_view()
    }

    pub fn new(config: FsConfig) -> (r: Self)
        ensures
            r.config_view() == config.deep_view(),
    {
        FsManager { config }
    }

    /// The configuration that the monitor works with.
    pub fn config(&self) -> (r: &FsConfig)
        ensures
            r.deep_view() == self.config_view(),
    {
        &self.config
    }

    /// The alert that `mount` raises when `usage_percent` of it are in use:
    /// none where the configuration has no rule for full disks.
    pub fn handle_mount(&self, mount: &Mount, usage_percent: u8) -> (r: Option<PreparedAlert>)
        ensures
            r.deep_view() == (match self.config_view().disk_full_warning {
                Some(rule) => mount_alert(rule, mount.deep_view(), usage_percent),
                None => None,
            }),
    {
        match &self.config.disk_full_warning {
            Some(rule) => rule.check(mount, usage_percent),
            None => None,
        }
    }
}

} // verus!
