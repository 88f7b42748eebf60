//! Resolving a device name against the devices that are currently available.
//!
//! The caller enumerates the devices of one class and hands over what each
//! reported as its name, in enumeration order: `None` for a device whose
//! name could not be read, and `None` for the whole list if the enumeration
//! itself failed.

use crate::error::EngineError;
use vstd::prelude::*;

verus! {

/// The two classes of audio devices.
#[derive(Clone, Copy, Debug, PartialEq, Eq, Structural)]
pub enum DeviceClass {
    /// Devices that deliver samples.
    Capture,
    /// Devices that play samples.
    Render,
}

/// How a device represents one sample.
#[derive(Clone, Copy, Debug, PartialEq, Eq, Structural)]
pub enum SampleFormat {
    I8,
    I16,
    I32,
    I64,
    U8,
    U16,
    U32,
    U64,
    F32,
    F64,
    /// A representation that this library has no name for.
    Other,
}

/// The stream format that was negotiated with a device.
#[derive(Clone, Copy, Debug, PartialEq, Eq, Structural)]
pub struct StreamFormat {
    pub sample_rate: u32,
    pub channels: u16,
    pub sample_format: SampleFormat,
}

/// A resolved device: the name it reported and, where one was negotiated,
/// its stream format.
#[derive(Debug)]
pub struct Endpoint {
    name: String,
    format: Option<StreamFormat>,
}

/// An endpoint as the contracts see it.
pub struct EndpointView {
    pub name: Seq<char>,
    pub format: Option<StreamFormat>,
}

impl View for Endpoint {
    type V = EndpointView;

    closed spec fn view(&self) -> EndpointView {
        EndpointView { name: self.name@, format: self.format }
    }
}

impl Endpoint {
    /// The endpoint of the device that reported `name`, with no format
    /// negotiated.
    pub fn new(name: String) -> (endpoint: Endpoint)
        ensures
            endpoint@ == (EndpointView { name: name@, format: None }),
    {
        Endpoint { name, format: None }
    }

    /// The endpoint of the device that reported `name`, with the format
    /// that was negotiated with it, if one was.
    pub fn with_format(name: String, format: Option<StreamFormat>) -> (endpoint: Endpoint)
        ensures
            endpoint@ == (EndpointView { name: name@, format }),
    {
        Endpoint { name, format }
    }

    /// The name that the device reported.
    pub fn name(&self) -> (name: &String)
        ensures
            name@ == self@.name,
    {
        &self.name
    }

    /// The stream format negotiated with the device, if one was.
    pub fn format(&self) -> (format: Option<StreamFormat>)
        ensures
            format == self@.format,
    {
        self.format
    }
}

/// Whether an enumerated device reported exactly the name `wanted`.
pub open spec fn reports(entry: Option<String>, wanted: Seq<char>) -> bool {
    entry matches Some(name) && name@ == wanted
}

/// Whether `i` is the place of the first device that reported `wanted`.
pub open spec fn is_first_match(devices: Seq<Option<String>>, wanted: Seq<char>, i: int) -> bool {
    &&& 0 <= i < devices.len()
    &&& reports(devices[i], wanted)
    &&& forall|j: int| 0 <= j < i ==> !reports(#[trigger] devices[j], wanted)
}

/// Whether no device reported `wanted`.
pub open spec fn no_match(devices: Seq<Option<String>>, wanted: Seq<char>) -> bool {
    forall|j: int| 0 <= j < devices.len() ==> !reports(#[trigger] devices[j], wanted)
}

/// Whether selecting `wanted` from this enumeration resolves to place `i`.
pub open spec fn resolves_to(
    enumeration: Option<Vec<Option<String>>>,
    wanted: Seq<char>,
    i: int,
) -> bool {
    enumeration matches Some(devices) && is_first_match(devices@, wanted, i)
}

/// Whether selecting `wanted` from this enumeration finds nothing: the
/// enumeration failed, or no device reported that name.
pub open spec fn resolves_to_nothing(
    enumeration: Option<Vec<Option<String>>>,
    wanted: Seq<char>,
) -> bool {
    enumeration matches Some(devices) ==> no_match(devices@, wanted)
}

/// A name that some device of the enumeration reported is resolved, to that
/// device or to an earlier one that reported the same name.
pub proof fn present_name_resolves(devices: Vec<Option<String>>, wanted: Seq<char>, at: int)
    requires
        0 <= at < devices@.len(),
        reports(devices@[at], wanted),
    ensures
        !resolves_to_nothing(Some(devices), wanted),
        exists|i: int| 0 <= i <= at && resolves_to(Some(devices), wanted, i),
    decreases at,
{
    if exists|j: int| 0 <= j < at && reports(#[trigger] devices@[j], wanted) {
        let j = choose|j: int| 0 <= j < at && reports(#[trigger] devices@[j], wanted);
        present_name_resolves(devices, wanted, j);
    } else {
        assert(resolves_to(Some(devices), wanted, at));
    }
}

/// A name resolves to at most one place.
pub proof fn resolution_is_unique(
    enumeration: Option<Vec<Option<String>>>,
    wanted: Seq<char>,
    i: int,
    j: int,
)
    requires
        resolves_to(enumeration, wanted, i),
        resolves_to(enumeration, wanted, j),
    ensures
        i == j,
        !resolves_to_nothing(enumeration, wanted),
{
}

/// Finds the first device that reported exactly `name`, and gives its place
/// in the enumeration.
pub fn select(enumeration: &Option<Vec<Option<String>>>, name: &String) -> (found: Result<
    usize,
    EngineError,
>)
    ensures
        found matches Ok(i) ==> resolves_to(*enumeration, name@, i as int),
        found matches Err(e) ==> e == EngineError::DeviceNotFound,
        found is Err <==> resolves_to_nothing(*enumeration, name@),
{
    match enumeration {
        None => Err(EngineError::DeviceNotFound),
        Some(devices) => {
            let mut i: usize = 0;
            while i < devices.len()
                invariant
                    *enumeration == Some(*devices),
                    i <= devices@.len(),
                    forall|j: int| 0 <= j < i ==> !reports(#[trigger] devices@[j], name@),
                decreases devices@.len() - i,
            {
                match &devices[i] {
                    Some(reported) => {
                        if *reported == *name {
                            assert(reports(devices@[i as int], name@));
                            return Ok(i);
                        }
                    },
                    None => {},
                }
                i += 1;
            }
            Err(EngineError::DeviceNotFound)
        },
    }
}

/// The names to show for an enumeration, in order.
pub open spec fn readable_names(devices: Seq<Option<String>>) -> Seq<Seq<char>>
    decreases devices.len(),
{
    if devices.len() == 0 {
        Seq::empty()
    } else {
        let earlier = readable_names(devices.drop_last());
        match devices.last() {
            Some(name) => earlier.push(name@),
            None => earlier,
        }
    }
}

/// The names as character sequences.
pub open spec fn name_views(names: Seq<String>) -> Seq<Seq<char>> {
    names.map_values(|name: String| name@)
}

/// Lists the names of the devices whose name could be read, in enumeration
/// order. An enumeration that failed gives an empty list.
pub fn device_names(enumeration: &Option<Vec<Option<String>>>) -> (names: Vec<String>)
    ensures
        name_views(names@) == (match *enumeration {
            Some(devices) => readable_names(devices@),
            None => Seq::empty(),
        }),
{
    let mut names: Vec<String> = Vec::new();
    match enumeration {
        None => {
            assert(name_views(names@) =~= Seq::empty());
        },
        Some(devices) => {
            assert(name_views(names@) =~= Seq::empty());
            assert(devices@.take(0) =~= Seq::empty());
            let mut i: usize = 0;
            while i < devices.len()
                invariant
                    i <= devices@.len(),
                    name_views(names@) == readable_names(devices@.take(i as int)),
                decreases devices@.len() - i,
            {
                let ghost before = names@;
                assert(devices@.take(i + 1).drop_last() =~= devices@.take(i as int));
                match &devices[i] {
                    Some(reported) => {
                        let copy = reported.clone();
                        names.push(copy);
                        assert(name_views(names@) =~= name_views(before).push(copy@));
                    },
                    None => {},
                }
                i += 1;
            }
            assert(devices@.take(i as int) =~= devices@);
        },
    }
    names
}

} // verus!
