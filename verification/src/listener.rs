//! The listener side of a transfer: persist one uploaded file per request.
//!
//! For each accepted upload the listener sanitizes the filename hint,
//! resolves the receiver's downloads directory, enforces an optional payload
//! cap, and plans exactly one write: the full payload under the sanitized
//! name directly inside that directory. The HTTP service and the write
//! itself are I/O and stay outside this crate; requests are handled
//! independently, so a failed upload never stops later ones.

use vstd::prelude::*;
use crate::filename::clone_bytes;
use crate::filename::lemma_sanitize_safe;
use crate::filename::received_default;
use crate::filename::received_name;
use crate::filename::safe_name;
use crate::filename::sanitize_file_name;
use crate::filename::sanitize_spec;

verus! {

/// The fixed port of the wire contract.
pub const UPLOAD_PORT: u16 = 3033;

/// What a listener is configured with: the name substituted for a missing
/// or degenerate hint, and an optional cap on accepted payload sizes
/// (`None`: no cap, as the wire contract's first implementation had).
pub struct ListenerSettings {
    /// The fallback file name; always a safe name.
    pub default_name: Vec<u8>,
    /// The largest payload accepted, in bytes, if any.
    pub max_payload: Option<usize>,
}

impl ListenerSettings {
    /// The settings invariant: the fallback name must itself be safe to
    /// write under the target directory.
    pub open spec fn wf(&self) -> bool {
        safe_name(self.default_name@)
    }

    /// Whether a payload of `n` bytes is within the configured cap.
    pub open spec fn accepts_len(&self, n: nat) -> bool {
        match self.max_payload {
            None => true,
            Some(m) => n <= m,
        }
    }

    /// The standard settings: default name `received_file`, no payload cap.
    pub fn standard() -> (r: Self)
        ensures
            r.wf(),
            r.default_name@ == received_name(),
            r.max_payload is None,
    {
        ListenerSettings { default_name: received_default(), max_payload: None }
    }

    /// Settings with a chosen fallback name and cap; refused where the
    /// fallback is not a safe name.
    pub fn new(default_name: Vec<u8>, max_payload: Option<usize>) -> (r: Option<Self>)
        ensures
            r is Some <==> safe_name(default_name@),
            r matches Some(s) ==> s.wf() && s.default_name@ == default_name@ && s.max_payload
                == max_payload,
    {
        if crate::filename::check_safe_name(&default_name) {
            Some(ListenerSettings { default_name, max_payload })
        } else {
            None
        }
    }
}

/// Why an upload failed on the listener's side. Each failure is local to
/// its own request.
#[derive(Clone, Copy, Debug, PartialEq, Eq, Structural)]
pub enum UploadFailure {
    /// The receiver's downloads location could not be determined.
    DirectoryUnresolvable,
    /// The payload exceeds the configured cap.
    PayloadTooLarge,
    /// Creating or writing the destination file failed.
    StorageWrite,
}

impl UploadFailure {
    /// A short human-readable account of the failure, for the operator's
    /// log beside the response status.
    pub fn describe(&self) -> (r: &'static str)
        ensures
            self is DirectoryUnresolvable ==> r@ == "the downloads location could not be determined"@,
            self is PayloadTooLarge ==> r@ == "the payload exceeds the accepted size"@,
            self is StorageWrite ==> r@ == "the file could not be written"@,
    {
        match self {
            UploadFailure::DirectoryUnresolvable => "the downloads location could not be determined",
            UploadFailure::PayloadTooLarge => "the payload exceeds the accepted size",
            UploadFailure::StorageWrite => "the file could not be written",
        }
    }
}

/// One planned write: the full payload under a destination path.
#[derive(Debug)]
pub struct WriteCommand {
    /// The destination: the target directory, a separator, the sanitized name.
    pub path: Vec<u8>,
    /// The bytes to write: the payload, unchanged.
    pub contents: Vec<u8>,
}

/// The destination path for a name under a directory.
pub open spec fn dest_path(dir: Seq<u8>, name: Seq<u8>) -> Seq<u8> {
    dir + seq![47u8] + name
}

/// A usable target directory: present and non-empty.
pub open spec fn dir_usable(dir: &Option<Vec<u8>>) -> bool {
    match dir {
        Some(d) => d@.len() > 0,
        None => false,
    }
}

/// The hint's bytes; a missing hint reads as the empty hint, which
/// sanitization maps to the default name.
pub open spec fn hint_view(hint: &Option<Vec<u8>>) -> Seq<u8> {
    match hint {
        Some(h) => h@,
        None => Seq::empty(),
    }
}

/// The name an upload is stored under: the sanitized hint.
pub open spec fn stored_name(settings: &ListenerSettings, hint: &Option<Vec<u8>>) -> Seq<u8> {
    sanitize_spec(hint_view(hint), settings.default_name@)
}

/// Plan one upload. With a usable directory and an acceptable payload size,
/// the plan writes exactly the payload to the directory joined with the
/// sanitized hint — a safe name, so never outside the directory. A missing
/// hint is stored under the default name; an unusable directory or an
/// oversized payload fails this request and only it.
pub fn plan_upload(
    settings: &ListenerSettings,
    dir: Option<Vec<u8>>,
    hint: Option<Vec<u8>>,
    body: Vec<u8>,
) -> (r: Result<WriteCommand, UploadFailure>)
    requires
        settings.wf(),
    ensures
        match r {
            Ok(w) => {
                &&& dir_usable(&dir)
                &&& settings.accepts_len(body@.len())
                &&& w.contents@ == body@
                &&& w.path@ == dest_path((dir->Some_0)@, stored_name(settings, &hint))
                &&& safe_name(stored_name(settings, &hint))
            },
            Err(UploadFailure::DirectoryUnresolvable) => !dir_usable(&dir),
            Err(UploadFailure::PayloadTooLarge) => dir_usable(&dir) && !settings.accepts_len(
                body@.len(),
            ),
            Err(UploadFailure::StorageWrite) => false,
        },
        hint is None ==> (r matches Ok(w) ==> w.path@ == dest_path(
            (dir->Some_0)@,
            settings.default_name@,
        )),
{
    let dir_bytes = match dir {
        None => return Err(UploadFailure::DirectoryUnresolvable),
        Some(d) => d,
    };
    if dir_bytes.len() == 0 {
        return Err(UploadFailure::DirectoryUnresolvable);
    }
    match settings.max_payload {
        Some(m) => {
            if body.len() > m {
                return Err(UploadFailure::PayloadTooLarge);
            }
        },
        None => {},
    }
    let empty_hint: Vec<u8> = Vec::new();
    let name = match &hint {
        Some(h) => sanitize_file_name(h, &settings.default_name),
        None => sanitize_file_name(&empty_hint, &settings.default_name),
    };
    proof {
        lemma_sanitize_safe(hint_view(&hint), settings.default_name@);
    }
    let mut path = dir_bytes;
    path.push(47);
    let mut name_tail = name;
    path.append(&mut name_tail);
    proof {
        assert(path@ =~= dest_path((dir->Some_0)@, stored_name(settings, &hint)));
    }
    Ok(WriteCommand { path, contents: body })
}

/// Relies on dirs::download_dir: the platform's user downloads location, if
/// one can be determined from the environment; nothing is promised of the
/// outcome.
#[verifier::external_body]
fn downloads_dir_bytes() -> (r: Option<Vec<u8>>) {
    dirs::download_dir().map(|p| p.to_string_lossy().into_owned().into_bytes())
}

/// Plan one upload against the receiver's own downloads location. Whatever
/// directory the platform reports: a planned write carries exactly the
/// payload, under the sanitized hint, directly inside some non-empty
/// directory; an oversized payload is never written; and a missing location
/// fails only this request.
pub fn receive_upload(settings: &ListenerSettings, hint: Option<Vec<u8>>, body: Vec<u8>) -> (r:
    Result<WriteCommand, UploadFailure>)
    requires
        settings.wf(),
    ensures
        r matches Ok(w) ==> {
            &&& settings.accepts_len(body@.len())
            &&& w.contents@ == body@
            &&& safe_name(stored_name(settings, &hint))
            &&& exists|d: Seq<u8>|
                d.len() > 0 && w.path@ == dest_path(d, stored_name(settings, &hint))
        },
        !settings.accepts_len(body@.len()) ==> r is Err,
        r matches Err(e) ==> e != UploadFailure::StorageWrite,
{
    let dir = downloads_dir_bytes();
    let ghost gdir = dir;
    let r = plan_upload(settings, dir, hint, body);
    proof {
        if r is Ok {
            let d = (gdir->Some_0)@;
            assert(r->Ok_0.path@ == dest_path(d, stored_name(settings, &hint)));
        }
    }
    r
}

/// The response status for an upload outcome: 200 on success, 413 where the
/// payload exceeds the cap, 500 on any server-side failure.
pub fn response_status(r: &Result<(), UploadFailure>) -> (s: u16)
    ensures
        match r {
            Ok(u) => s == 200,
            Err(UploadFailure::PayloadTooLarge) => s == 413,
            Err(UploadFailure::DirectoryUnresolvable) => s == 500,
            Err(UploadFailure::StorageWrite) => s == 500,
        },
        crate::client::is_success_status(s) <==> r is Ok,
{
    match r {
        Ok(u) => 200,
        Err(UploadFailure::PayloadTooLarge) => 413,
        Err(UploadFailure::DirectoryUnresolvable) => 500,
        Err(UploadFailure::StorageWrite) => 500,
    }
}

/// Uploads stored under distinct names land at distinct destination paths:
/// concurrent uploads of differently named files never write to the same
/// file.
pub proof fn lemma_distinct_destinations(dir: Seq<u8>, name_a: Seq<u8>, name_b: Seq<u8>)
    requires
        name_a != name_b,
    ensures
        dest_path(dir, name_a) != dest_path(dir, name_b),
{
    if dest_path(dir, name_a) == dest_path(dir, name_b) {
        assert(dest_path(dir, name_a).len() == dir.len() + 1 + name_a.len());
        assert(dest_path(dir, name_b).len() == dir.len() + 1 + name_b.len());
        assert forall|i: int| 0 <= i < name_a.len() implies name_a[i] == name_b[i] by {
            assert(dest_path(dir, name_a)[dir.len() + 1 + i] == name_a[i]);
            assert(dest_path(dir, name_b)[dir.len() + 1 + i] == name_b[i]);
        }
        assert(name_a =~= name_b);
    }
}

} // verus!
