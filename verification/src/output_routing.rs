//! Audio output endpoints for TTS: the device list the UI offers and whether a process's
//! output is routed to a chosen endpoint.
use vstd::prelude::*;

use crate::audio_error::AudioError;
use crate::device_names::has_id;
use crate::text::{append_str, decimal, lower, lower_str, push_decimal, str_eq, to_owned_string, trim, trim_str};

verus! {

/// An output endpoint as the UI lists it (`id` empty for the system default).
pub struct AudioOutputDevice {
    pub id: String,
    pub label: String,
    pub is_default: bool,
}

/// A render endpoint as the system enumerates it: its id and, when it could be read, its
/// friendly name.
pub struct RenderEndpoint {
    pub id: String,
    pub friendly_name: Option<String>,
}

pub open spec fn device_row(d: AudioOutputDevice) -> (Seq<char>, Seq<char>, bool) {
    (d.id@, d.label@, d.is_default)
}

pub open spec fn device_rows(v: Seq<AudioOutputDevice>) -> Seq<(Seq<char>, Seq<char>, bool)> {
    v.map_values(|d: AudioOutputDevice| device_row(d))
}

pub open spec fn endpoint_view(e: RenderEndpoint) -> (Seq<char>, Option<Seq<char>>) {
    (
        e.id@,
        match e.friendly_name {
            Some(n) => Some(n@),
            None => None,
        },
    )
}

pub open spec fn endpoint_views(v: Seq<RenderEndpoint>) -> Seq<(Seq<char>, Option<Seq<char>>)> {
    v.map_values(|e: RenderEndpoint| endpoint_view(e))
}

/// The label of the `index`-th enumerated endpoint: its friendly name, else `Output n`
/// (counting from one).
pub open spec fn endpoint_label(name: Option<Seq<char>>, index: int) -> Seq<char> {
    match name {
        Some(n) => n,
        None => "Output "@ + decimal((index + 1) as nat),
    }
}

/// The first rows: the system default, then the current default endpoint (labelled with a
/// ` (default)` suffix) when there is one.
pub open spec fn head_rows(default_endpoint: Option<(Seq<char>, Option<Seq<char>>)>) -> Seq<(Seq<char>, Seq<char>, bool)> {
    let base = seq![(Seq::<char>::empty(), "Default"@, true)];
    match default_endpoint {
        Some(d) => base.push(
            (
                d.0,
                match d.1 {
                    Some(n) => n,
                    None => "Default device"@,
                } + " (default)"@,
                false,
            ),
        ),
        None => base,
    }
}

/// The output list: the head rows, then each enumerated endpoint whose id is not listed
/// yet, in order.
pub open spec fn output_rows(
    default_endpoint: Option<(Seq<char>, Option<Seq<char>>)>,
    endpoints: Seq<(Seq<char>, Option<Seq<char>>)>,
) -> Seq<(Seq<char>, Seq<char>, bool)>
    decreases endpoints.len(),
{
    if endpoints.len() == 0 {
        head_rows(default_endpoint)
    } else {
        let r = output_rows(default_endpoint, endpoints.drop_last());
        let e = endpoints.last();
        if has_id(r, e.0) {
            r
        } else {
            r.push((e.0, endpoint_label(e.1, endpoints.len() - 1), false))
        }
    }
}

fn listed(rows: &Vec<AudioOutputDevice>, id: &str) -> (r: bool)
    ensures
        r == has_id(device_rows(rows@), id@),
{
    let mut k: usize = 0;
    while k < rows.len()
        invariant
            k <= rows.len(),
            forall|j: int| 0 <= j < k ==> (#[trigger] rows@[j]).id@ != id@,
        decreases rows.len() - k,
    {
        if str_eq(rows[k].id.as_str(), id) {
            assert(device_rows(rows@)[k as int].0 == id@);
            return true;
        }
        k = k + 1;
    }
    assert forall|j: int| 0 <= j < device_rows(rows@).len() implies (#[trigger] device_rows(rows@)[j]).0 != id@ by {
        assert(device_rows(rows@)[j] == device_row(rows@[j]));
    }
    false
}

/// The output device list from the system's default render endpoint and its enumeration.
pub fn list_output_devices(default_endpoint: Option<&RenderEndpoint>, endpoints: &Vec<RenderEndpoint>) -> (r: Vec<
    AudioOutputDevice,
>)
    ensures
        device_rows(r@) == output_rows(
            match default_endpoint {
                Some(d) => Some(endpoint_view(*d)),
                None => None,
            },
            endpoint_views(endpoints@),
        ),
{
    let ghost dv = match default_endpoint {
        Some(d) => Some(endpoint_view(*d)),
        None => None,
    };
    let mut out: Vec<AudioOutputDevice> = Vec::new();
    out.push(AudioOutputDevice { id: String::new(), label: to_owned_string("Default"), is_default: true });
    if let Some(d) = default_endpoint {
        let mut label = match &d.friendly_name {
            Some(n) => n.clone(),
            None => to_owned_string("Default device"),
        };
        append_str(&mut label, " (default)");
        out.push(AudioOutputDevice { id: d.id.clone(), label, is_default: false });
    }
    assert(device_rows(out@) =~= head_rows(dv));
    assert(endpoint_views(endpoints@).take(0) =~= Seq::<(Seq<char>, Option<Seq<char>>)>::empty());
    let mut i: usize = 0;
    while i < endpoints.len()
        invariant
            i <= endpoints.len(),
            device_rows(out@) == output_rows(dv, endpoint_views(endpoints@).take(i as int)),
        decreases endpoints.len() - i,
    {
        let e = &endpoints[i];
        let ghost before = device_rows(out@);
        let ghost ev = endpoint_views(endpoints@);
        assert(ev.take(i + 1).drop_last() =~= ev.take(i as int));
        assert(ev.take(i + 1).last() == endpoint_view(*e));
        if !listed(&out, e.id.as_str()) {
            let label = match &e.friendly_name {
                Some(n) => n.clone(),
                None => {
                    let mut l = to_owned_string("Output ");
                    push_decimal(&mut l, (i + 1) as u64);
                    l
                },
            };
            assert(label@ == endpoint_label(endpoint_view(*e).1, i as int));
            out.push(AudioOutputDevice { id: e.id.clone(), label, is_default: false });
            assert(device_rows(out@) =~= before.push((e.id@, endpoint_label(endpoint_view(*e).1, i as int), false)));
        }
        i = i + 1;
    }
    assert(endpoint_views(endpoints@).take(endpoints.len() as int) =~= endpoint_views(endpoints@));
    out
}

/// The per-process routing switch as read from the environment: `1`, `true`, `yes` or
/// `on` (trimmed, ASCII case ignored) turns it on; anything else, or no value, leaves it
/// off.
pub open spec fn routing_switch_on(raw: Option<Seq<char>>) -> bool {
    match raw {
        Some(v) => {
            let t = lower(trim(v));
            t == "1"@ || t == "true"@ || t == "yes"@ || t == "on"@
        },
        None => false,
    }
}

pub fn per_process_routing_enabled(raw: Option<&str>) -> (r: bool)
    ensures
        r == routing_switch_on(
            match raw {
                Some(v) => Some(v@),
                None => None,
            },
        ),
{
    match raw {
        Some(v) => {
            let t = trim_str(v);
            let l = lower_str(t.as_str());
            str_eq(l.as_str(), "1") || str_eq(l.as_str(), "true") || str_eq(l.as_str(), "yes") || str_eq(
                l.as_str(),
                "on",
            )
        },
        None => false,
    }
}

/// What setting a process's output device comes to.
#[derive(Debug, Clone, Copy, PartialEq, Eq, Structural)]
pub enum OutputRoute {
    /// No device chosen: the process uses the system default.
    SystemDefault,
    /// Per-process routing is switched off: the choice is not applied.
    RoutingDisabled,
    /// Route the process to the chosen endpoint (once it is known to exist).
    Apply,
}

pub open spec fn output_route(device_id: Seq<char>, routing_enabled: bool) -> OutputRoute {
    if device_id.len() == 0 {
        OutputRoute::SystemDefault
    } else if !routing_enabled {
        OutputRoute::RoutingDisabled
    } else {
        OutputRoute::Apply
    }
}

pub fn plan_output_route(device_id: &str, routing_enabled: bool) -> (r: OutputRoute)
    ensures
        r == output_route(device_id@, routing_enabled),
{
    if device_id.is_empty() {
        OutputRoute::SystemDefault
    } else if !routing_enabled {
        OutputRoute::RoutingDisabled
    } else {
        OutputRoute::Apply
    }
}

/// A chosen endpoint must be one the system lists (by a non-empty id); otherwise the
/// device is not found.
pub fn validate_device_id(devices: &Vec<AudioOutputDevice>, device_id: &str) -> (r: Result<(), AudioError>)
    ensures
        r is Ok <==> (device_id@.len() > 0 && has_id(device_rows(devices@), device_id@)),
        match r {
            Err(e) => e matches AudioError::DeviceNotFound(m) && m@ == device_id@,
            Ok(()) => true,
        },
{
    if !device_id.is_empty() && listed(devices, device_id) {
        Ok(())
    } else {
        Err(AudioError::DeviceNotFound(to_owned_string(device_id)))
    }
}

} // verus!
