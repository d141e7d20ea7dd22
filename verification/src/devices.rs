//! The list of audio input devices that the settings offer.
use vstd::prelude::*;

use crate::text::str_eq;

verus! {

/// An input device as the settings list it.
#[derive(Debug, PartialEq, Eq)]
pub struct DeviceInfo {
    pub name: String,
    pub is_default: bool,
}

/// The value of a [`DeviceInfo`].
pub struct DeviceModel {
    pub name: Seq<char>,
    pub is_default: bool,
}

impl View for DeviceInfo {
    type V = DeviceModel;

    open spec fn view(&self) -> DeviceModel {
        DeviceModel { name: self.name@, is_default: self.is_default }
    }
}

impl Clone for DeviceInfo {
    fn clone(&self) -> (r: Self)
        ensures
            r@ == self@,
    {
        DeviceInfo { name: self.name.clone(), is_default: self.is_default }
    }
}

/// The character sequence of an optional string.
pub open spec fn opt_string_view(s: Option<String>) -> Option<Seq<char>> {
    match s {
        Some(t) => Some(t@),
        None => None,
    }
}

/// The entries for the devices in `names`, in order: a device whose name
/// could not be read (`None`) is left out; a device is the default one where
/// its name equals the default device's name.
pub open spec fn device_models(names: Seq<Option<String>>, default_name: Option<Seq<char>>) -> Seq<
    DeviceModel,
>
    decreases names.len(),
{
    if names.len() == 0 {
        Seq::<DeviceModel>::empty()
    } else {
        let init = device_models(names.drop_last(), default_name);
        match names.last() {
            Some(n) => init.push(DeviceModel { name: n@, is_default: default_name == Some(n@) }),
            None => init,
        }
    }
}

/// Every entry is marked default exactly where its own name equals the
/// default device's name; there are no more entries than names.
pub proof fn lemma_default_marks_own_name(names: Seq<Option<String>>, default_name: Option<Seq<char>>)
    ensures
        forall|i: int|
            0 <= i < device_models(names, default_name).len() ==> (#[trigger] device_models(
                names,
                default_name,
            )[i]).is_default == (default_name == Some(device_models(names, default_name)[i].name)),
        device_models(names, default_name).len() <= names.len(),
    decreases names.len(),
{
    if names.len() > 0 {
        let init = names.drop_last();
        lemma_default_marks_own_name(init, default_name);
    }
}

/// The values of a sequence of device entries.
pub open spec fn device_views(devices: Seq<DeviceInfo>) -> Seq<DeviceModel> {
    devices.map_values(|d: DeviceInfo| d@)
}

/// The device entries for the names of the input devices, given the name of
/// the default input device where there is one and it could be read.
pub fn device_list(names: &Vec<Option<String>>, default_name: &Option<String>) -> (r: Vec<
    DeviceInfo,
>)
    ensures
        device_views(r@) == device_models(names@, opt_string_view(*default_name)),
        forall|i: int|
            0 <= i < r@.len() ==> (#[trigger] r@[i]).is_default == (opt_string_view(*default_name)
                == Some(r@[i].name@)),
{
    let ghost dflt = opt_string_view(*default_name);
    let mut r: Vec<DeviceInfo> = Vec::new();
    let mut i: usize = 0;
    assert(names@.take(0) =~= Seq::<Option<String>>::empty());
    assert(device_views(r@) =~= device_models(names@.take(0), dflt));
    while i < names.len()
        invariant
            i <= names.len(),
            dflt == opt_string_view(*default_name),
            device_views(r@) == device_models(names@.take(i as int), dflt),
        decreases names.len() - i,
    {
        proof {
            assert(names@.take(i + 1).drop_last() =~= names@.take(i as int));
            assert(names@.take(i + 1).last() == names@[i as int]);
        }
        match &names[i] {
            Some(n) => {
                let is_default = match default_name {
                    Some(d) => *d == *n,
                    None => false,
                };
                r.push(DeviceInfo { name: n.clone(), is_default });
                assert(device_views(r@) =~= device_models(names@.take(i + 1), dflt));
            },
            None => {},
        }
        i = i + 1;
    }
    assert(names@.take(names.len() as int) =~= names@);
    proof {
        lemma_default_marks_own_name(names@, dflt);
        assert forall|i: int| 0 <= i < r@.len() implies (#[trigger] r@[i]).is_default == (dflt
            == Some(r@[i].name@)) by {
            assert(device_views(r@)[i] == r@[i]@);
        }
    }
    r
}

/// Position `i` holds a readable name equal to `wanted`.
pub open spec fn names_device(names: Seq<Option<String>>, i: int, wanted: Seq<char>) -> bool {
    names[i] matches Some(n) && n@ == wanted
}

/// The first device whose name could be read and equals `wanted`, by its
/// position in `names`; `None` where there is none.
pub fn find_device(names: &Vec<Option<String>>, wanted: &str) -> (r: Option<usize>)
    ensures
        match r {
            Some(i) => i < names@.len() && names_device(names@, i as int, wanted@) && forall|j: int|
                0 <= j < i ==> !names_device(names@, j, wanted@),
            None => forall|j: int| 0 <= j < names@.len() ==> !names_device(names@, j, wanted@),
        },
{
    let mut i: usize = 0;
    while i < names.len()
        invariant
            i <= names.len(),
            forall|j: int| 0 <= j < i ==> !names_device(names@, j, wanted@),
        decreases names.len() - i,
    {
        if let Some(n) = &names[i] {
            if str_eq(n.as_str(), wanted) {
                return Some(i);
            }
        }
        i = i + 1;
    }
    None
}

} // verus!
