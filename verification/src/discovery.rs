//! Finding the ports of a Launchpad among the MIDI devices of the system.
//!
//! A Launchpad shows up as two devices, one to read from and one to write to,
//! both with the model's name in their own. Whoever has listed the system's
//! devices hands the list over; the first input and the first output that
//! bear the name are picked.

use vstd::prelude::*;
use vstd::utf8::encode_utf8;

verus! {

/// The name under which a Launchpad MK2 announces its ports.
pub const MK2_NAME: &'static str = "Launchpad MK2";

/// The name under which a Launchpad Pro announces its ports.
pub const PRO_NAME: &'static str = "Launchpad Pro Standalone";

/// What is known of one MIDI device.
#[derive(Debug)]
pub struct DeviceInfo {
    pub id: i32,
    pub name: String,
    pub is_input: bool,
    pub is_output: bool,
}

/// The ports picked for a Launchpad: the device to read from and the device
/// to write to, each if there is one.
#[derive(Debug, Copy, Clone, PartialEq, Eq, Structural)]
pub struct Ports {
    pub input: Option<i32>,
    pub output: Option<i32>,
}

/// Whether `needle` stands in `haystack` from position `at` on.
pub open spec fn occurs_at(haystack: Seq<u8>, needle: Seq<u8>, at: int) -> bool {
    0 <= at && at + needle.len() <= haystack.len() && haystack.subrange(
        at,
        at + needle.len() as int,
    ) == needle
}

/// Whether `needle` stands somewhere in `haystack`.
pub open spec fn occurs_in(haystack: Seq<u8>, needle: Seq<u8>) -> bool {
    exists|at: int| occurs_at(haystack, needle, at)
}

/// Whether `device` bears `name` and can be read from (`input`) or written
/// to (otherwise).
pub open spec fn qualifies(device: DeviceInfo, name: Seq<char>, input: bool) -> bool {
    occurs_in(encode_utf8(device.name@), encode_utf8(name)) && if input {
        device.is_input
    } else {
        device.is_output
    }
}

/// The id of the first device in `devices` that qualifies.
pub open spec fn first_port(devices: Seq<DeviceInfo>, name: Seq<char>, input: bool) -> Option<i32>
    decreases devices.len(),
{
    if devices.len() == 0 {
        None
    } else if qualifies(devices.first(), name, input) {
        Some(devices.first().id)
    } else {
        first_port(devices.drop_first(), name, input)
    }
}

/// Whether `needle` stands in `haystack` from position `at` on.
fn matches_at(haystack: &[u8], needle: &[u8], at: usize) -> (found: bool)
    requires
        at + needle@.len() <= haystack@.len(),
    ensures
        found == occurs_at(haystack@, needle@, at as int),
{
    let length: usize = haystack.len();
    let mut index: usize = 0;
    while index < needle.len()
        invariant
            index <= needle@.len(),
            at + needle@.len() <= haystack@.len() == length,
            forall|i: int| 0 <= i < index ==> haystack@[at + i] == needle@[i],
        decreases needle@.len() - index,
    {
        if haystack[at + index] != needle[index] {
            return false;
        }
        index += 1;
    }
    assert(haystack@.subrange(at as int, at + needle@.len()) =~= needle@);
    true
}

/// Whether `needle` stands somewhere in `haystack`. An empty needle stands
/// everywhere.
pub fn contains(haystack: &[u8], needle: &[u8]) -> (found: bool)
    ensures
        found == occurs_in(haystack@, needle@),
{
    if needle.len() > haystack.len() {
        return false;
    }
    let last: usize = haystack.len() - needle.len();
    let mut at: usize = 0;
    while at < last
        invariant
            at <= last,
            last == haystack@.len() - needle@.len(),
            forall|i: int| 0 <= i < at ==> !occurs_at(haystack@, needle@, i),
        decreases last - at,
    {
        if matches_at(haystack, needle, at) {
            return true;
        }
        at += 1;
    }
    matches_at(haystack, needle, last)
}

/// The first input and the first output among `devices` whose name holds
/// `name`.
pub fn find_ports(devices: &[DeviceInfo], name: &str) -> (ports: Ports)
    ensures
        ports.input == first_port(devices@, name@, true),
        ports.output == first_port(devices@, name@, false),
{
    let mut input: Option<i32> = None;
    let mut output: Option<i32> = None;
    let mut index: usize = 0;
    assert(devices@.skip(0) =~= devices@);
    while index < devices.len() && !(input.is_some() && output.is_some())
        invariant
            index <= devices@.len(),
            first_port(devices@, name@, true) == if input.is_some() {
                input
            } else {
                first_port(devices@.skip(index as int), name@, true)
            },
            first_port(devices@, name@, false) == if output.is_some() {
                output
            } else {
                first_port(devices@.skip(index as int), name@, false)
            },
        decreases devices@.len() - index,
    {
        let device = &devices[index];
        assert(devices@.skip(index as int).drop_first() =~= devices@.skip(index + 1));
        if contains(device.name.as_str().as_bytes(), name.as_bytes()) {
            if input.is_none() && device.is_input {
                input = Some(device.id);
            }
            if output.is_none() && device.is_output {
                output = Some(device.id);
            }
        }
        index += 1;
    }
    Ports { input, output }
}

/// The port picked is that of a device which qualifies and which no device
/// that qualifies precedes; none is picked only where no device qualifies.
pub proof fn lemma_first_port_is_first(devices: Seq<DeviceInfo>, name: Seq<char>, input: bool)
    ensures
        match first_port(devices, name, input) {
            Some(id) => exists|at: int|
                0 <= at < devices.len() && qualifies(#[trigger] devices[at], name, input)
                    && devices[at].id == id && forall|before: int|
                    0 <= before < at ==> !qualifies(#[trigger] devices[before], name, input),
            None => forall|at: int|
                0 <= at < devices.len() ==> !qualifies(#[trigger] devices[at], name, input),
        },
    decreases devices.len(),
{
    if devices.len() == 0 {
    } else if qualifies(devices.first(), name, input) {
    } else {
        let rest = devices.drop_first();
        lemma_first_port_is_first(rest, name, input);
        match first_port(rest, name, input) {
            Some(id) => {
                let at = choose|at: int|
                    0 <= at < rest.len() && qualifies(#[trigger] rest[at], name, input)
                        && rest[at].id == id && forall|before: int|
                        0 <= before < at ==> !qualifies(#[trigger] rest[before], name, input);
                assert forall|before: int| 0 <= before < at + 1 implies !qualifies(
                    #[trigger] devices[before],
                    name,
                    input,
                ) by {
                    if before > 0 {
                        assert(!qualifies(rest[before - 1], name, input));
                    }
                }
            },
            None => {
                assert forall|at: int| 0 <= at < devices.len() implies !qualifies(
                    #[trigger] devices[at],
                    name,
                    input,
                ) by {
                    if at > 0 {
                        assert(!qualifies(rest[at - 1], name, input));
                    }
                }
            },
        }
    }
}

} // verus!
