//! Naming rules for the bindings that are generated from the SGX headers.
//!
//! The SGX headers name their types with a leading underscore, `_sgx_foo_t`
//! or `_foo_t`.  The bindings drop the underscore and make sure that every
//! such name starts with `sgx`.

use vstd::prelude::*;

verus! {

/// The prefix that the bindings give to every name taken from the headers.
pub const SGX_PREFIX: &'static str = "sgx";

/// Suffix of the SGX libraries that are built for the simulator.
pub const SIMULATION_SUFFIX: &'static str = "_sim";

/// `name` starts with an underscore followed by the prefix.
pub open spec fn has_underscored_prefix(name: Seq<char>) -> bool {
    name.len() >= 4 && name[0] == '_' && name[1] == 's' && name[2] == 'g' && name[3] == 'x'
}

/// The name under which the bindings hold the item that the headers call
/// `name`: without its leading underscore where `sgx` follows it, with `sgx`
/// in front where something else follows it, and none where `name` does not
/// start with an underscore, in which case the item keeps its name.
pub open spec fn item_name(name: Seq<char>) -> Option<Seq<char>> {
    if has_underscored_prefix(name) {
        Some(name.subrange(1, name.len() as int))
    } else if name.len() > 0 && name[0] == '_' {
        Some(SGX_PREFIX@ + name)
    } else {
        None
    }
}

/// What a renaming returned, with the name taken by its view.
pub open spec fn name_view(r: Option<String>) -> Option<Seq<char>> {
    match r {
        Some(name) => Some(name@),
        None => None,
    }
}

/// The name that the bindings give to the item `name` of the SGX headers, if
/// it is another than `name`.
pub fn sgx_item_name(name: &str) -> (r: Option<String>)
    ensures
        name_view(r) == item_name(name@),
{
    let length = name.unicode_len();
    if length == 0 || name.get_char(0) != '_' {
        return None;
    }
    if length >= 4 && name.get_char(1) == 's' && name.get_char(2) == 'g' && name.get_char(3)
        == 'x' {
        Some(String::from_str(name.substring_char(1, length)))
    } else {
        Some(String::from_str(SGX_PREFIX).concat(name))
    }
}

/// The renaming of [`sgx_item_name`] in the shape of a callback object, for a
/// generator of bindings that asks such an object for the name of each item.
#[derive(Debug)]
pub struct SGXParseCallbacks;

impl SGXParseCallbacks {
    /// The name that the bindings give to the item `name`, if it is another
    /// than `name`.
    pub fn item_name(&self, name: &str) -> (r: Option<String>)
        ensures
            name_view(r) == item_name(name@),
    {
        sgx_item_name(name)
    }
}

/// The suffix of the SGX libraries to link: none for hardware, the
/// simulator's otherwise.
pub fn library_suffix(hardware: bool) -> (suffix: &'static str)
    ensures
        suffix@ == if hardware {
            Seq::<char>::empty()
        } else {
            SIMULATION_SUFFIX@
        },
{
    if hardware {
        let none = "";
        proof {
            reveal_strlit("");
            assert(none@ =~= Seq::<char>::empty());
        }
        none
    } else {
        SIMULATION_SUFFIX
    }
}

} // verus!
