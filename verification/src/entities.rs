//! The entities the enumeration walks — structures, rooms, devices — and
//! the exact lines each one contributes to the report.
//!
//! Every entity is an immutable snapshot from one list response: an
//! identity line, for devices also a type line, then the rendering of its
//! `traits` object when one is present (its absence is not an error and
//! adds nothing).

use vstd::prelude::*;
use vstd::string::StringExecFns;

use crate::render::indent_unit;
use crate::render::render;
use crate::render::render_lines;
use crate::value::DynamicValue;

verus! {

/// A structure under the enterprise, with its optional traits object.
pub struct Structure {
    pub name: String,
    pub traits: Option<DynamicValue>,
}

/// A room under a structure, with its optional traits object.
pub struct Room {
    pub name: String,
    pub traits: Option<DynamicValue>,
}

/// A device under the enterprise, with its type and optional traits object.
pub struct Device {
    pub name: String,
    pub device_type: String,
    pub traits: Option<DynamicValue>,
}

/// The lines a traits attribute contributes: its rendering one indent unit
/// in when present, nothing when absent.
pub open spec fn trait_report(traits: Option<DynamicValue>) -> Seq<Seq<char>> {
    match traits {
        Some(t) => render_lines(t, indent_unit()),
        None => Seq::empty(),
    }
}

/// The full report of one structure: its identity line, then its traits.
pub open spec fn structure_report(s: Structure) -> Seq<Seq<char>> {
    seq!["Structure Name: "@ + s.name@] + trait_report(s.traits)
}

/// The full report of one room: its bare name, then its traits.
pub open spec fn room_report(r: Room) -> Seq<Seq<char>> {
    seq![r.name@] + trait_report(r.traits)
}

/// The full report of one device: its identity line, its type line, then
/// its traits.
pub open spec fn device_report(d: Device) -> Seq<Seq<char>> {
    seq!["Device Name: "@ + d.name@, "Device Type: "@ + d.device_type@] + trait_report(d.traits)
}

/// The lines of one fetched page of rooms, in arrival order.
pub open spec fn room_page_report(rooms: Seq<Room>) -> Seq<Seq<char>>
    decreases rooms,
{
    if rooms.len() == 0 {
        Seq::empty()
    } else {
        room_report(rooms[0]) + room_page_report(rooms.drop_first())
    }
}

/// The lines of one fetched page of devices, in arrival order.
pub open spec fn device_page_report(devices: Seq<Device>) -> Seq<Seq<char>>
    decreases devices,
{
    if devices.len() == 0 {
        Seq::empty()
    } else {
        device_report(devices[0]) + device_page_report(devices.drop_first())
    }
}

/// Renders an optional traits object one indent unit in.
fn trait_lines(traits: &Option<DynamicValue>) -> (out: Vec<String>)
    ensures
        out.deep_view() == trait_report(*traits),
{
    match traits {
        Some(t) => render(t, "\t"),
        None => Vec::new(),
    }
}

/// A line made of a fixed label followed by a name.
fn labelled_line(label: &str, name: &str) -> (r: String)
    ensures
        r@ == label@ + name@,
{
    let mut s: String = label.to_owned();
    s.append(name);
    s
}

/// The printable lines of one structure, in output order.
pub fn structure_lines(s: &Structure) -> (out: Vec<String>)
    ensures
        out.deep_view() == structure_report(*s),
{
    let mut out: Vec<String> = Vec::new();
    out.push(labelled_line("Structure Name: ", s.name.as_str()));
    let mut traits = trait_lines(&s.traits);
    out.append(&mut traits);
    proof {
        assert(out.deep_view() =~= structure_report(*s));
    }
    out
}

/// The printable lines of one room, in output order.
pub fn room_lines(r: &Room) -> (out: Vec<String>)
    ensures
        out.deep_view() == room_report(*r),
{
    let mut out: Vec<String> = Vec::new();
    out.push(r.name.clone());
    let mut traits = trait_lines(&r.traits);
    out.append(&mut traits);
    proof {
        assert(out.deep_view() =~= room_report(*r));
    }
    out
}

/// The printable lines of one device, in output order.
pub fn device_lines(d: &Device) -> (out: Vec<String>)
    ensures
        out.deep_view() == device_report(*d),
{
    let mut out: Vec<String> = Vec::new();
    out.push(labelled_line("Device Name: ", d.name.as_str()));
    out.push(labelled_line("Device Type: ", d.device_type.as_str()));
    let mut traits = trait_lines(&d.traits);
    out.append(&mut traits);
    proof {
        assert(out.deep_view() =~= device_report(*d));
    }
    out
}

/// The printable lines of a whole page of rooms, in arrival order.
pub fn room_page_lines(rooms: &Vec<Room>) -> (out: Vec<String>)
    ensures
        out.deep_view() == room_page_report(rooms@),
{
    let out = room_page_lines_from(rooms, 0);
    proof {
        assert(rooms@.skip(0) =~= rooms@);
    }
    out
}

fn room_page_lines_from(rooms: &Vec<Room>, i: usize) -> (out: Vec<String>)
    requires
        i <= rooms@.len(),
    ensures
        out.deep_view() == room_page_report(rooms@.skip(i as int)),
    decreases rooms@.len() - i,
{
    if i == rooms.len() {
        let out: Vec<String> = Vec::new();
        proof {
            assert(out.deep_view() =~= room_page_report(rooms@.skip(i as int)));
        }
        out
    } else {
        let mut out = room_lines(&rooms[i]);
        let mut rest = room_page_lines_from(rooms, i + 1);
        out.append(&mut rest);
        proof {
            assert(rooms@.skip(i as int).drop_first() =~= rooms@.skip(i as int + 1));
            assert(rooms@.skip(i as int)[0] == rooms@[i as int]);
            assert(out.deep_view() =~= room_page_report(rooms@.skip(i as int)));
        }
        out
    }
}

/// The printable lines of a whole page of devices, in arrival order.
pub fn device_page_lines(devices: &Vec<Device>) -> (out: Vec<String>)
    ensures
        out.deep_view() == device_page_report(devices@),
{
    let out = device_page_lines_from(devices, 0);
    proof {
        assert(devices@.skip(0) =~= devices@);
    }
    out
}

fn device_page_lines_from(devices: &Vec<Device>, i: usize) -> (out: Vec<String>)
    requires
        i <= devices@.len(),
    ensures
        out.deep_view() == device_page_report(devices@.skip(i as int)),
    decreases devices@.len() - i,
{
    if i == devices.len() {
        let out: Vec<String> = Vec::new();
        proof {
            assert(out.deep_view() =~= device_page_report(devices@.skip(i as int)));
        }
        out
    } else {
        let mut out = device_lines(&devices[i]);
        let mut rest = device_page_lines_from(devices, i + 1);
        out.append(&mut rest);
        proof {
            assert(devices@.skip(i as int).drop_first() =~= devices@.skip(i as int + 1));
            assert(devices@.skip(i as int)[0] == devices@[i as int]);
            assert(out.deep_view() =~= device_page_report(devices@.skip(i as int)));
        }
        out
    }
}

} // verus!
