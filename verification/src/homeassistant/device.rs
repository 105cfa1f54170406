use vstd::prelude::*;

use super::entity::{
    is_id_output_char, letters_and_digits_are_kept_lowercased, normalize_unique_id_part, normalized_id,
    normalized_id_has_normal_form,
};

verus! {

/// A device in Home Assistant's device registry.
#[derive(Debug)]
pub struct Device {
    pub name: String,
    pub identifiers: Vec<String>,
    pub manufacturer: Option<String>,
    pub model: Option<String>,
    pub sw_version: Option<String>,
}

/// The identifier that [`Device::new`] gives a device of the given name.
pub open spec fn device_identifier(name: Seq<char>) -> Seq<char> {
    "gc_"@ + normalized_id(name, true)
}

impl Device {
    /// A device named `name`, identified by `gc_` and its normalized name.
    pub fn new(name: String, manufacturer: Option<String>) -> (device: Self)
        ensures
            device.name@ == name@,
            device.identifiers.deep_view() == seq![device_identifier(name@)],
            device.manufacturer.deep_view() == manufacturer.deep_view(),
            device.model is None,
            device.sw_version is None,
    {
        let mut id = "gc_".to_owned();
        let part = normalize_unique_id_part(name.as_str());
        id.append(part.as_str());
        Self::new_with_identifier(name, id, manufacturer)
    }

    /// A device named `name` with the single identifier `identifier`.
    pub fn new_with_identifier(
        name: String,
        identifier: String,
        manufacturer: Option<String>,
    ) -> (device: Self)
        ensures
            device.name@ == name@,
            device.identifiers.deep_view() == seq![identifier@],
            device.manufacturer.deep_view() == manufacturer.deep_view(),
            device.model is None,
            device.sw_version is None,
    {
        let mut identifiers: Vec<String> = Vec::new();
        identifiers.push(identifier);
        assert(identifiers.deep_view() =~= seq![identifier@]);
        Self { name, identifiers, manufacturer, model: None, sw_version: None }
    }
}

/// The identifier of a device made by [`Device::new`] holds no space.
pub proof fn device_identifier_has_no_space(name: Seq<char>)
    ensures
        forall|i: int|
            0 <= i < device_identifier(name).len() ==> #[trigger] device_identifier(name)[i] != ' ',
{
    reveal_strlit("gc_");
    let n = normalized_id(name, true);
    normalized_id_has_normal_form(name, true);
    assert forall|i: int| 0 <= i < device_identifier(name).len() implies #[trigger] device_identifier(
        name,
    )[i] != ' ' by {
        if i >= 3 {
            assert(device_identifier(name)[i] == n[i - 3]);
            assert(is_id_output_char(n[i - 3], true));
        }
    }
}


/// A device's identifier is `gc_` followed by its name normalized as a
/// unique-id part: for a non-empty name of ASCII letters, digits and `-`,
/// it is `gc_` followed by the name with each upper-case letter lower-cased
/// and every other character, `-` included, kept as it is.
pub proof fn device_identifier_keeps_name_characters(name: Seq<char>)
    requires
        name.len() > 0,
        forall|i: int|
            0 <= i < name.len() ==> ('0' <= #[trigger] name[i] && name[i] <= '9') || ('a'
                <= name[i] && name[i] <= 'z') || ('A' <= name[i] && name[i] <= 'Z') || name[i]
                == '-',
    ensures
        device_identifier(name).len() == name.len() + 3,
        device_identifier(name).subrange(0, 3) == seq!['g', 'c', '_'],
        forall|i: int|
            #![trigger device_identifier(name)[i + 3]]
            0 <= i < name.len() ==> if 'A' <= name[i] && name[i] <= 'Z' {
                device_identifier(name)[i + 3] as u32 == name[i] as u32 + 32
            } else {
                device_identifier(name)[i + 3] == name[i]
            },
{
    reveal_strlit("gc_");
    letters_and_digits_are_kept_lowercased(name, true);
    let n = normalized_id(name, true);
    assert(device_identifier(name).subrange(0, 3) =~= seq!['g', 'c', '_']);
    assert forall|i: int| 0 <= i < name.len() implies #[trigger] device_identifier(name)[i + 3]
        == n[i] by {}
}

} // verus!
