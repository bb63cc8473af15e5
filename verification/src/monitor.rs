use vstd::prelude::*;
use crate::capture::{display_label, display_label_text};
use crate::text::same_text;

verus! {

/// What an entry of the system's display configuration describes.
#[derive(PartialEq, Eq, Structural, Debug, Clone, Copy)]
pub enum ModeKind {
    /// A display source: a desktop area, named by its GDI device name.
    Source,
    /// A display target: a monitor, named by its user-friendly name.
    Target,
    /// Anything else.
    Other,
}

/// An entry of the active display configuration, with the name the system
/// gives it: the GDI device name of a source, the user-friendly name of a
/// target; `None` when the name could not be read.
#[derive(Debug)]
pub struct DisplayMode {
    pub kind: ModeKind,
    pub adapter_id: u64,
    pub name: Option<String>,
}

/// The index of the first target entry on adapter `adapter`, at or after
/// index `from`.
pub open spec fn first_target_from(modes: Seq<DisplayMode>, adapter: u64, from: int) -> Option<int>
    decreases modes.len() - from,
{
    if from < 0 || from >= modes.len() {
        None
    } else if modes[from].kind == ModeKind::Target && modes[from].adapter_id == adapter {
        Some(from)
    } else {
        first_target_from(modes, adapter, from + 1)
    }
}

/// The user-friendly name that source entry `i` yields for the device
/// `device`: when entry `i` is a source named `device`, the name of the
/// first target on its adapter, if that name was read and is not empty.
pub open spec fn friendly_name_at(modes: Seq<DisplayMode>, device: Seq<char>, i: int) -> Option<
    Seq<char>,
> {
    let m = modes[i];
    if m.kind == ModeKind::Source && (m.name matches Some(n) && n@ == device) {
        match first_target_from(modes, m.adapter_id, 0) {
            Some(t) => match modes[t].name {
                Some(n) => if n@.len() > 0 {
                    Some(n@)
                } else {
                    None
                },
                None => None,
            },
            None => None,
        }
    } else {
        None
    }
}

/// The first name that a source entry at or after index `from` yields.
pub open spec fn friendly_name_from(modes: Seq<DisplayMode>, device: Seq<char>, from: int) -> Option<
    Seq<char>,
>
    decreases modes.len() - from,
{
    if from < 0 || from >= modes.len() {
        None
    } else {
        match friendly_name_at(modes, device, from) {
            Some(n) => Some(n),
            None => friendly_name_from(modes, device, from + 1),
        }
    }
}

proof fn lemma_first_target_found(modes: Seq<DisplayMode>, adapter: u64, from: int)
    ensures
        first_target_from(modes, adapter, from) matches Some(t) ==> {
            &&& 0 <= from <= t < modes.len()
            &&& modes[t].kind == ModeKind::Target
            &&& modes[t].adapter_id == adapter
        },
    decreases modes.len() - from,
{
    if 0 <= from < modes.len() {
        lemma_first_target_found(modes, adapter, from + 1);
    }
}

/// Finds the first target entry on `adapter`.
fn first_target(modes: &Vec<DisplayMode>, adapter: u64) -> (res: Option<usize>)
    ensures
        match first_target_from(modes@, adapter, 0) {
            Some(t) => res == Some(t as usize),
            None => res is None,
        },
{
    let mut k: usize = 0;
    while k < modes.len()
        invariant
            k <= modes@.len(),
            first_target_from(modes@, adapter, 0) == first_target_from(modes@, adapter, k as int),
        decreases modes@.len() - k,
    {
        if modes[k].kind == ModeKind::Target && modes[k].adapter_id == adapter {
            return Some(k);
        }
        k += 1;
    }
    None
}

/// The user-friendly name of the monitor showing the desktop of GDI device
/// `device_name`: the first source entry with that name whose adapter has
/// a target with a readable, non-empty name gives that name; `None` when no
/// entry does.
pub fn friendly_name(modes: &Vec<DisplayMode>, device_name: &str) -> (res: Option<String>)
    ensures
        match friendly_name_from(modes@, device_name@, 0) {
            Some(n) => res matches Some(r) && r@ == n,
            None => res is None,
        },
{
    let mut i: usize = 0;
    while i < modes.len()
        invariant
            i <= modes@.len(),
            friendly_name_from(modes@, device_name@, 0) == friendly_name_from(
                modes@,
                device_name@,
                i as int,
            ),
        decreases modes@.len() - i,
    {
        let m = &modes[i];
        let named_device = match &m.name {
            Some(n) => same_text(n.as_str(), device_name),
            None => false,
        };
        if m.kind == ModeKind::Source && named_device {
            proof {
                lemma_first_target_found(modes@, m.adapter_id, 0);
            }
            if let Some(t) = first_target(modes, m.adapter_id) {
                if let Some(n) = &modes[t].name {
                    if !n.as_str().is_empty() {
                        return Some(n.clone());
                    }
                }
            }
        }
        i += 1;
    }
    None
}

/// The label of a monitor: its user-friendly name, or its GDI device name
/// when it has none, with the size of its desktop rectangle.
pub fn monitor_label(
    modes: &Vec<DisplayMode>,
    device_name: String,
    left: i32,
    top: i32,
    right: i32,
    bottom: i32,
) -> (label: String)
    requires
        i32::MIN <= right - left <= i32::MAX,
        i32::MIN <= bottom - top <= i32::MAX,
    ensures
        label@ == display_label_text(
            match friendly_name_from(modes@, device_name@, 0) {
                Some(n) => n,
                None => device_name@,
            },
            right - left,
            bottom - top,
        ),
{
    let width = right - left;
    let height = bottom - top;
    let name = match friendly_name(modes, device_name.as_str()) {
        Some(n) => n,
        None => device_name,
    };
    display_label(name.as_str(), width as i64, height as i64)
}

proof fn lemma_first_target_is(modes: Seq<DisplayMode>, adapter: u64, from: int, t: int)
    requires
        0 <= from <= t < modes.len(),
        modes[t].kind == ModeKind::Target,
        modes[t].adapter_id == adapter,
        forall|k: int|
            from <= k < t ==> !((#[trigger] modes[k]).kind == ModeKind::Target && modes[k].adapter_id
                == adapter),
    ensures
        first_target_from(modes, adapter, from) == Some(t),
    decreases t - from,
{
    if from < t {
        lemma_first_target_is(modes, adapter, from + 1, t);
    }
}

proof fn lemma_friendly_from_is(modes: Seq<DisplayMode>, device: Seq<char>, from: int, i: int)
    requires
        0 <= from <= i < modes.len(),
        friendly_name_at(modes, device, i) is Some,
        forall|j: int| from <= j < i ==> #[trigger] friendly_name_at(modes, device, j) is None,
    ensures
        friendly_name_from(modes, device, from) == friendly_name_at(modes, device, i),
    decreases i - from,
{
    if from < i {
        lemma_friendly_from_is(modes, device, from + 1, i);
    }
}

/// A monitor takes the name of the first target entry on the adapter of
/// the first source entry named after its device, wherever in the list
/// that target entry stands, before or after the source, when that name is
/// not empty.
pub proof fn law_friendly_name_from_adapter_target(
    modes: Seq<DisplayMode>,
    device: Seq<char>,
    i: int,
    t: int,
    n: String,
)
    requires
        0 <= i < modes.len(),
        modes[i].kind == ModeKind::Source,
        modes[i].name matches Some(s) && s@ == device,
        forall|j: int|
            0 <= j < i ==> !((#[trigger] modes[j]).kind == ModeKind::Source && (modes[j].name matches Some(
                s,
            ) && s@ == device)),
        0 <= t < modes.len(),
        modes[t].kind == ModeKind::Target,
        modes[t].adapter_id == modes[i].adapter_id,
        forall|k: int|
            0 <= k < t ==> !((#[trigger] modes[k]).kind == ModeKind::Target && modes[k].adapter_id
                == modes[i].adapter_id),
        modes[t].name == Some(n),
        n@.len() > 0,
    ensures
        friendly_name_from(modes, device, 0) == Some(n@),
{
    lemma_first_target_is(modes, modes[i].adapter_id, 0, t);
    assert forall|j: int| 0 <= j < i implies #[trigger] friendly_name_at(modes, device, j) is None by {
        assert(!(modes[j].kind == ModeKind::Source && (modes[j].name matches Some(s) && s@ == device)));
    }
    lemma_friendly_from_is(modes, device, 0, i);
}

} // verus!
