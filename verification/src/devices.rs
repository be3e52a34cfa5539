//! Decisions about audio endpoints: what a capture source is called, which
//! device notifications concern it, how an endpoint's form factor is named,
//! and which sample formats are read.
use crate::models::{DeviceDirection, DeviceSelection};
use crate::text::{ascii_lower_chars, ascii_lower_seq, chars_eq, chars_of, decimal, decimal_chars, push_chars, string_from_chars};
use vstd::prelude::*;

verus! {

/// What is recorded: one application's process tree, the sound an output
/// device plays, or a microphone.
#[derive(Debug, Clone, PartialEq, Eq)]
pub enum CaptureSource {
    Process { process_id: u32, display_name: String, executable_path: String },
    System(DeviceSelection),
    Microphone(DeviceSelection),
}

pub open spec fn source_label_spec(source: CaptureSource) -> Seq<char> {
    match source {
        CaptureSource::Process { .. } => "process loopback"@,
        CaptureSource::System(_) => "system loopback"@,
        CaptureSource::Microphone(_) => "microphone"@,
    }
}

/// The name under which a source appears in diagnostics.
pub fn capture_source_label(source: &CaptureSource) -> (r: &'static str)
    ensures
        r@ == source_label_spec(*source),
{
    match source {
        CaptureSource::Process { .. } => "process loopback",
        CaptureSource::System(_) => "system loopback",
        CaptureSource::Microphone(_) => "microphone",
    }
}

/// The role a default device is chosen for.
#[derive(Debug, Clone, Copy, PartialEq, Eq, Structural)]
pub enum DeviceRole {
    Console,
    Multimedia,
    Communications,
}

/// Which device notifications concern a capture.
#[derive(Debug, Clone, PartialEq, Eq)]
pub struct NotificationFilter {
    pub flow: DeviceDirection,
    pub follow_default: bool,
    pub endpoint_id: String,
}

impl NotificationFilter {
    /// A notification names the captured endpoint, in any ASCII case.
    pub fn endpoint_matches(&self, device_id: Option<&str>) -> (r: bool)
        ensures
            r == (device_id matches Some(id) && ascii_lower_seq(id@) == ascii_lower_seq(
                self.endpoint_id@,
            )),
    {
        match device_id {
            None => false,
            Some(id) => {
                let a = ascii_lower_chars(&chars_of(id));
                let b = ascii_lower_chars(&chars_of(self.endpoint_id.as_str()));
                chars_eq(&a, &b)
            },
        }
    }

    /// A new default device matters only to a capture that follows the
    /// default communications device of its own direction.
    pub fn default_matches(&self, flow: DeviceDirection, role: DeviceRole) -> (r: bool)
        ensures
            r == (self.follow_default && flow == self.flow && role == DeviceRole::Communications),
    {
        self.follow_default && flow == self.flow && role == DeviceRole::Communications
    }
}

/// Device notifications are watched for output and microphone captures of
/// a known endpoint; a process capture watches none.
pub fn notification_filter(source: &CaptureSource, endpoint_id: Option<&str>) -> (r: Option<
    NotificationFilter,
>)
    ensures
        endpoint_id is None || source is Process <==> r is None,
        r matches Some(f) ==> f.endpoint_id@ == endpoint_id->0@ && match *source {
            CaptureSource::System(sel) => f.flow == DeviceDirection::Render && f.follow_default
                == (sel is FollowDefaultCommunications),
            CaptureSource::Microphone(sel) => f.flow == DeviceDirection::Capture && f.follow_default
                == (sel is FollowDefaultCommunications),
            CaptureSource::Process { .. } => false,
        },
{
    let id = match endpoint_id {
        Some(id) => id,
        None => return None,
    };
    match source {
        CaptureSource::System(selection) => Some(
            NotificationFilter {
                flow: DeviceDirection::Render,
                follow_default: match selection {
                    DeviceSelection::FollowDefaultCommunications => true,
                    _ => false,
                },
                endpoint_id: id.to_string(),
            },
        ),
        CaptureSource::Microphone(selection) => Some(
            NotificationFilter {
                flow: DeviceDirection::Capture,
                follow_default: match selection {
                    DeviceSelection::FollowDefaultCommunications => true,
                    _ => false,
                },
                endpoint_id: id.to_string(),
            },
        ),
        CaptureSource::Process { .. } => None,
    }
}

/// The name of an endpoint form factor (`EndpointFormFactor`).
pub open spec fn form_factor_spec(code: i32) -> Seq<char> {
    if code == 1 {
        "Speakers"@
    } else if code == 3 {
        "Headphones"@
    } else if code == 5 {
        "Headset"@
    } else if code == 4 {
        "Microphone"@
    } else if code == 6 {
        "Handset"@
    } else if code == 2 {
        "LineLevel"@
    } else if code == 9 {
        "HDMI"@
    } else if code == 8 {
        "SPDIF"@
    } else if code == 0 {
        "Remote"@
    } else {
        "Unknown"@
    }
}

pub fn form_factor_name(code: i32) -> (r: &'static str)
    ensures
        r@ == form_factor_spec(code),
{
    if code == 1 {
        "Speakers"
    } else if code == 3 {
        "Headphones"
    } else if code == 5 {
        "Headset"
    } else if code == 4 {
        "Microphone"
    } else if code == 6 {
        "Handset"
    } else if code == 2 {
        "LineLevel"
    } else if code == 9 {
        "HDMI"
    } else if code == 8 {
        "SPDIF"
    } else if code == 0 {
        "Remote"
    } else {
        "Unknown"
    }
}

/// Integer sample formats a capture reads.
#[derive(Debug, Clone, Copy, PartialEq, Eq, Structural)]
pub enum SampleKind {
    Pcm16,
    Pcm24,
    Pcm32,
}

/// The integer format of a given bit depth; other depths are refused.
pub fn pcm_kind(bits: u16) -> (r: Result<SampleKind, String>)
    ensures
        bits == 16 ==> r == Ok::<SampleKind, String>(SampleKind::Pcm16),
        bits == 24 ==> r == Ok::<SampleKind, String>(SampleKind::Pcm24),
        bits == 32 ==> r == Ok::<SampleKind, String>(SampleKind::Pcm32),
        bits != 16 && bits != 24 && bits != 32 ==> r is Err && r->Err_0@ == "不支持的 PCM 位深 "@
            + decimal(bits as nat),
{
    if bits == 16 {
        Ok(SampleKind::Pcm16)
    } else if bits == 24 {
        Ok(SampleKind::Pcm24)
    } else if bits == 32 {
        Ok(SampleKind::Pcm32)
    } else {
        let mut out = chars_of("不支持的 PCM 位深 ");
        push_chars(&mut out, &decimal_chars(bits as u64));
        Err(string_from_chars(&out))
    }
}

/// Whether a process capture must restart: its process is gone, or its
/// process id now belongs to another executable. `current_path` is the path
/// of the process now holding the id, when it could be read.
pub fn process_target_changed(source: &CaptureSource, process_alive: bool, current_path: Option<&str>) -> (r: bool)
    ensures
        !(source is Process) ==> !r,
        source matches CaptureSource::Process { executable_path, .. } ==> r == (!process_alive
            || match current_path {
            Some(p) => ascii_lower_seq(p@) != ascii_lower_seq(executable_path@),
            None => true,
        }),
{
    match source {
        CaptureSource::Process { executable_path, .. } => {
            if !process_alive {
                return true;
            }
            match current_path {
                Some(p) => {
                    let a = ascii_lower_chars(&chars_of(p));
                    let b = ascii_lower_chars(&chars_of(executable_path.as_str()));
                    !chars_eq(&a, &b)
                },
                None => true,
            }
        },
        _ => false,
    }
}

} // verus!
