//! Input-device listings: the names that can be read, and lookup by name.
use crate::protocol::{AudioResponse, Reply, texts};
use vstd::prelude::*;

verus! {

/// The readable names of a device listing, in order; a device whose name
/// could not be read is left out.
pub open spec fn readable_names(s: Seq<Option<String>>) -> Seq<Seq<char>>
    decreases s.len(),
{
    if s.len() == 0 {
        Seq::empty()
    } else {
        let rest = readable_names(s.drop_last());
        match s.last() {
            Some(n) => rest.push(n@),
            None => rest,
        }
    }
}

/// Whether a listed device bears the name `wanted`.
pub open spec fn bears_name(d: Option<String>, wanted: Seq<char>) -> bool {
    match d {
        Some(n) => n@ == wanted,
        None => false,
    }
}

/// The names of the listed devices whose name could be read, in order.
pub fn collect_names(devices: &Vec<Option<String>>) -> (names: Vec<String>)
    ensures
        texts(names@) == readable_names(devices@),
{
    let mut names: Vec<String> = Vec::new();
    let mut i: usize = 0;
    while i < devices.len()
        invariant
            i <= devices@.len(),
            texts(names@) == readable_names(devices@.take(i as int)),
        decreases devices@.len() - i,
    {
        assert(devices@.take(i + 1).drop_last() =~= devices@.take(i as int));
        match &devices[i] {
            Some(n) => {
                names.push(n.clone());
                assert(texts(names@) =~= readable_names(devices@.take(i as int)).push(n@));
            },
            None => {},
        }
        i = i + 1;
    }
    assert(devices@.take(devices@.len() as int) =~= devices@);
    names
}

/// The position of the first listed device named `wanted`, if any.
pub fn find_device(devices: &Vec<Option<String>>, wanted: &String) -> (r: Option<usize>)
    ensures
        match r {
            Some(i) => {
                &&& i < devices@.len()
                &&& bears_name(devices@[i as int], wanted@)
                &&& forall|j: int| 0 <= j < i ==> !bears_name(#[trigger] devices@[j], wanted@)
            },
            None => forall|j: int| 0 <= j < devices@.len() ==> !bears_name(#[trigger] devices@[j], wanted@),
        },
{
    let mut i: usize = 0;
    while i < devices.len()
        invariant
            i <= devices@.len(),
            forall|j: int| 0 <= j < i ==> !bears_name(#[trigger] devices@[j], wanted@),
        decreases devices@.len() - i,
    {
        match &devices[i] {
            Some(n) => {
                if n.eq(wanted) {
                    return Some(i);
                }
            },
            None => {},
        }
        i = i + 1;
    }
    None
}

/// The responses to an enumeration whose listing came back as `listing`:
/// the readable names; on a failed listing, its error and then an empty list.
pub fn device_list_responses(listing: Result<Vec<Option<String>>, String>) -> (r: Vec<AudioResponse>)
    ensures
        match listing {
            Ok(devices) => r@.map_values(|x: AudioResponse| x@) == seq![
                Reply::DeviceList(readable_names(devices@)),
            ],
            Err(e) => r@.map_values(|x: AudioResponse| x@) == seq![
                Reply::Error(e@),
                Reply::DeviceList(Seq::empty()),
            ],
        },
{
    let mut r: Vec<AudioResponse> = Vec::new();
    match listing {
        Ok(devices) => {
            let names = collect_names(&devices);
            r.push(AudioResponse::RecordingDeviceList(names));
            assert(r@.map_values(|x: AudioResponse| x@) =~= seq![Reply::DeviceList(readable_names(devices@))]);
        },
        Err(e) => {
            r.push(AudioResponse::Error(e));
            let none: Vec<String> = Vec::new();
            assert(texts(none@) =~= Seq::<Seq<char>>::empty());
            r.push(AudioResponse::RecordingDeviceList(none));
            assert(r@.map_values(|x: AudioResponse| x@) =~= seq![Reply::Error(e@), Reply::DeviceList(Seq::empty())]);
        },
    }
    r
}

} // verus!
