//! Normalization of the daemon's raw per-task telemetry into display-ready
//! records: file name and link extraction, size and percent rendering, rate
//! and remaining-time rendering, and status-label remapping.

use vstd::prelude::*;

use crate::sizes::{human_readable_size, human_size};
use crate::strnum::{after_last, dec_of, scan_after_last, str_eq, u64_to_string};

verus! {

/// One download location inside a raw task record.
#[derive(Debug, Clone, PartialEq)]
pub struct UriEntry {
    pub uri: String,
}

/// One file inside a raw task record, with the locations it is fetched from.
#[derive(Debug, Clone, PartialEq)]
pub struct FileEntry {
    pub path: String,
    pub uris: Vec<UriEntry>,
}

/// A task record as the daemon reports it, with plain values in place of the
/// wire encoding.
#[derive(Debug, Clone, PartialEq)]
pub struct RawTaskStatus {
    pub gid: String,
    pub status: Option<String>,
    pub connections: u32,
    pub error_code: Option<String>,
    pub error_message: Option<String>,
    pub download_speed: u64,
    pub total_length: u64,
    pub completed_length: u64,
    pub files: Vec<FileEntry>,
}

/// The display-ready form of one task.
#[derive(Debug, Clone, PartialEq)]
pub struct NormalizedTask {
    pub gid: String,
    pub file_name: Option<String>,
    pub status_label: Option<String>,
    pub size_str: Option<String>,
    pub downloaded_str: Option<String>,
    pub percent_str: Option<String>,
    pub connections_str: String,
    pub rate_str: String,
    pub eta_str: Option<String>,
    pub link: Option<String>,
}

/// A raw record that violates the non-empty files/uris contract; normalization
/// fails rather than fabricate a file name or link.
#[derive(Debug, Clone, Copy, PartialEq, Eq)]
pub enum FormatError {
    NoFiles,
    NoUris,
}

/// Ghost form of a file entry: its path and URI list as character sequences.
pub struct FileView {
    pub path: Seq<char>,
    pub uris: Seq<Seq<char>>,
}

/// Ghost form of a raw task record, over sequences and unbounded integers.
pub struct RawView {
    pub gid: Seq<char>,
    pub status: Option<Seq<char>>,
    pub connections: nat,
    pub download_speed: nat,
    pub total_length: nat,
    pub completed_length: nat,
    pub files: Seq<FileView>,
}

/// Ghost form of a normalized task, over character sequences.
pub struct NormView {
    pub gid: Seq<char>,
    pub file_name: Option<Seq<char>>,
    pub status_label: Option<Seq<char>>,
    pub size_str: Option<Seq<char>>,
    pub downloaded_str: Option<Seq<char>>,
    pub percent_str: Option<Seq<char>>,
    pub connections_str: Seq<char>,
    pub rate_str: Seq<char>,
    pub eta_str: Option<Seq<char>>,
    pub link: Option<Seq<char>>,
}

pub open spec fn view_opt(o: Option<String>) -> Option<Seq<char>> {
    match o {
        Some(s) => Some(s@),
        None => None,
    }
}

impl View for UriEntry {
    type V = Seq<char>;

    open spec fn view(&self) -> Seq<char> {
        self.uri@
    }
}

impl View for FileEntry {
    type V = FileView;

    open spec fn view(&self) -> FileView {
        FileView { path: self.path@, uris: self.uris@.map_values(|u: UriEntry| u@) }
    }
}

impl View for RawTaskStatus {
    type V = RawView;

    open spec fn view(&self) -> RawView {
        RawView {
            gid: self.gid@,
            status: view_opt(self.status),
            connections: self.connections as nat,
            download_speed: self.download_speed as nat,
            total_length: self.total_length as nat,
            completed_length: self.completed_length as nat,
            files: self.files@.map_values(|f: FileEntry| f@),
        }
    }
}

impl View for NormalizedTask {
    type V = NormView;

    open spec fn view(&self) -> NormView {
        NormView {
            gid: self.gid@,
            file_name: view_opt(self.file_name),
            status_label: view_opt(self.status_label),
            size_str: view_opt(self.size_str),
            downloaded_str: view_opt(self.downloaded_str),
            percent_str: view_opt(self.percent_str),
            connections_str: self.connections_str@,
            rate_str: self.rate_str@,
            eta_str: view_opt(self.eta_str),
            link: view_opt(self.link),
        }
    }
}

/// The final path component of `path`, absent when the path is empty or ends
/// in a separator.
pub open spec fn spec_file_name(path: Seq<char>) -> Option<Seq<char>> {
    if path.len() == 0 {
        None
    } else if after_last(path, '/') == path.len() {
        None
    } else {
        Some(path.subrange(after_last(path, '/'), path.len() as int))
    }
}

/// Remaining time split into hour, minute and second components; units that
/// the thresholds 3600 and 60 make unnecessary are left out.
pub open spec fn eta_of(rem: nat) -> Seq<char> {
    if rem >= 3600 {
        dec_of(rem / 3600) + "h"@ + dec_of((rem % 3600) / 60) + "m"@ + dec_of(rem % 60) + "s"@
    } else if rem >= 60 {
        dec_of(rem / 60) + "m"@ + dec_of(rem % 60) + "s"@
    } else {
        dec_of(rem) + "s"@
    }
}

/// The raw status copied verbatim, except `active` becomes `downloading` and
/// `removed` becomes `stopped`.
pub open spec fn remap_status(st: Option<Seq<char>>) -> Option<Seq<char>> {
    match st {
        None => None,
        Some(s) => if s == "active"@ {
            Some("downloading"@)
        } else if s == "removed"@ {
            Some("stopped"@)
        } else {
            Some(s)
        },
    }
}

/// A raw record carries at least one file and that file at least one URI.
pub open spec fn raw_ok(v: RawView) -> bool {
    v.files.len() > 0 && v.files[0].uris.len() > 0
}

pub open spec fn err_of(v: RawView) -> FormatError {
    if v.files.len() == 0 {
        FormatError::NoFiles
    } else {
        FormatError::NoUris
    }
}

/// What normalization yields on a well-formed raw record.
pub open spec fn spec_normalize(v: RawView) -> NormView
    recommends
        raw_ok(v),
        v.completed_length <= v.total_length,
{
    let total = v.total_length;
    let completed = v.completed_length;
    let speed = v.download_speed;
    let label = remap_status(v.status);
    let eta_plain = if total != 0 && speed != 0 {
        Some(eta_of((total - completed) as nat / speed))
    } else {
        None
    };
    NormView {
        gid: v.gid,
        file_name: spec_file_name(v.files[0].path),
        status_label: label,
        size_str: if total == 0 {
            None
        } else {
            Some(human_size(total))
        },
        downloaded_str: if total == 0 {
            None
        } else {
            Some(human_size(completed))
        },
        percent_str: if total == 0 {
            None
        } else {
            Some(dec_of(completed * 100 / total) + "%"@)
        },
        connections_str: dec_of(v.connections),
        rate_str: if total != 0 && speed != 0 {
            human_size(speed) + "/s"@
        } else {
            "0"@
        },
        eta_str: if label == Some("complete"@) {
            Some("0s"@)
        } else {
            eta_plain
        },
        link: Some(v.files[0].uris[0]),
    }
}

/// Renders remaining seconds as in `eta_of`.
fn eta_string(rem: u64) -> (r: String)
    ensures
        r@ == eta_of(rem as nat),
{
    if rem >= 3600 {
        let mut r = u64_to_string(rem / 3600);
        r.append("h");
        let m = u64_to_string((rem % 3600) / 60);
        r.append(m.as_str());
        r.append("m");
        let s = u64_to_string(rem % 60);
        r.append(s.as_str());
        r.append("s");
        proof {
            assert(r@ =~= eta_of(rem as nat));
        }
        r
    } else if rem >= 60 {
        let mut r = u64_to_string(rem / 60);
        r.append("m");
        let s = u64_to_string(rem % 60);
        r.append(s.as_str());
        r.append("s");
        proof {
            assert(r@ =~= eta_of(rem as nat));
        }
        r
    } else {
        let mut r = u64_to_string(rem);
        r.append("s");
        proof {
            assert(r@ =~= eta_of(rem as nat));
        }
        r
    }
}

/// Remaps the raw status label as in `remap_status`.
fn remap_status_exec(st: &Option<String>) -> (r: Option<String>)
    ensures
        view_opt(r) == remap_status(view_opt(*st)),
{
    match st {
        None => None,
        Some(s) => {
            if str_eq(s.as_str(), "active") {
                Some("downloading".to_owned())
            } else if str_eq(s.as_str(), "removed") {
                Some("stopped".to_owned())
            } else {
                Some(s.clone())
            }
        },
    }
}

/// Extracts the final path component as in `spec_file_name`.
fn file_name_of(path: &str) -> (r: Option<String>)
    ensures
        view_opt(r) == spec_file_name(path@),
{
    let n = path.unicode_len();
    if n == 0 {
        return None;
    }
    let st = scan_after_last(path, 0, n, '/');
    proof {
        assert(path@.subrange(0, n as int) =~= path@);
    }
    if st == n {
        None
    } else {
        Some(path.substring_char(st, n).to_owned())
    }
}

/// Turns one raw task record into its display-ready form.
///
/// A record with no file entry, or whose first file has no URI, is rejected
/// as a format error; everything else is normalized exactly as
/// `spec_normalize` states.
pub fn normalize(raw: &RawTaskStatus) -> (r: Result<NormalizedTask, FormatError>)
    requires
        raw.completed_length <= raw.total_length,
    ensures
        !raw_ok(raw@) ==> r == Err::<NormalizedTask, FormatError>(err_of(raw@)),
        raw_ok(raw@) ==> (r matches Ok(t) && t@ == spec_normalize(raw@)),
{
    proof {
        assert(raw@.files.len() == raw.files@.len());
    }
    if raw.files.len() == 0 {
        return Err(FormatError::NoFiles);
    }
    let f0 = &raw.files[0];
    proof {
        assert(raw@.files[0] == f0@);
    }
    if f0.uris.len() == 0 {
        return Err(FormatError::NoUris);
    }
    let file_name = file_name_of(f0.path.as_str());
    let link = Some(f0.uris[0].uri.clone());
    proof {
        assert(f0@.uris[0] == f0.uris@[0]@);
    }

    let total = raw.total_length;
    let completed = raw.completed_length;
    let speed = raw.download_speed;

    let size_str: Option<String>;
    let downloaded_str: Option<String>;
    let percent_str: Option<String>;
    if total != 0 {
        let p128: u128 = (completed as u128) * 100 / (total as u128);
        proof {
            let cc = completed as int;
            let tt = total as int;
            assert(p128 <= 100) by {
                vstd::arithmetic::div_mod::lemma_div_is_ordered(cc * 100, tt * 100, tt);
                vstd::arithmetic::div_mod::lemma_div_by_multiple(100, tt);
            }
        }
        let p: u64 = p128 as u64;
        let mut ps = u64_to_string(p);
        ps.append("%");
        size_str = Some(human_readable_size(total));
        downloaded_str = Some(human_readable_size(completed));
        percent_str = Some(ps);
    } else {
        size_str = None;
        downloaded_str = None;
        percent_str = None;
    }

    let rate_str: String;
    let eta_plain: Option<String>;
    if total != 0 && speed != 0 {
        let mut rs = human_readable_size(speed);
        rs.append("/s");
        rate_str = rs;
        eta_plain = Some(eta_string((total - completed) / speed));
    } else {
        rate_str = "0".to_owned();
        eta_plain = None;
    }

    let status_label = remap_status_exec(&raw.status);
    let complete = match &status_label {
        Some(s) => str_eq(s.as_str(), "complete"),
        None => false,
    };
    let eta_str = if complete {
        Some("0s".to_owned())
    } else {
        eta_plain
    };

    let t = NormalizedTask {
        gid: raw.gid.clone(),
        file_name,
        status_label,
        size_str,
        downloaded_str,
        percent_str,
        connections_str: u64_to_string(raw.connections as u64),
        rate_str,
        eta_str,
        link,
    };
    proof {
        let sv = spec_normalize(raw@);
        assert(t@.file_name == sv.file_name);
        assert(t@.status_label == sv.status_label);
        assert(t@.size_str == sv.size_str);
        assert(t@.downloaded_str == sv.downloaded_str);
        assert(t@.percent_str == sv.percent_str);
        assert(t@.connections_str == sv.connections_str);
        assert(t@.rate_str == sv.rate_str);
        assert(t@.eta_str == sv.eta_str);
        assert(t@.link == sv.link);
        assert(t@ == sv);
    }
    Ok(t)
}

} // verus!
