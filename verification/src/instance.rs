//! What the Vulkan instance is created with: the validation layer when it is
//! installed, and portability enumeration when the loader offers it (without
//! it the loader hides incomplete implementations such as MoltenVK).

use vstd::prelude::*;
use vstd::string::StringSliceAdditionalSpecFns;
use crate::vk_types::{vk_make_api_version, spec_api_version, VkFlags};

verus! {

/// The Khronos validation layer: the first line of defence against wrong API
/// use, turned on whenever it is installed.
pub const VALIDATION_LAYER: &'static str = "VK_LAYER_KHRONOS_validation";

/// The extension that makes the loader list portability implementations.
pub const PORTABILITY_ENUMERATION_EXTENSION: &'static str = "VK_KHR_portability_enumeration";

/// `VkInstanceCreateInfo::flags` bit: enumerate portability implementations.
pub const VK_INSTANCE_CREATE_ENUMERATE_PORTABILITY_BIT_KHR: VkFlags = 0x0000_0001;

/// The fixed-size, zero-terminated name field of a layer or an extension holds
/// `wanted` exactly: its bytes, then the terminating zero.
pub open spec fn fixed_name_is(field: Seq<u8>, wanted: Seq<u8>) -> bool {
    &&& wanted.len() < field.len()
    &&& field.take(wanted.len() as int) == wanted
    &&& field[wanted.len() as int] == 0
}

pub open spec fn has_terminator(field: Seq<u8>) -> bool {
    exists|i: int| 0 <= i < field.len() && field[i] == 0
}

/// Compares the C string in a fixed name field with `wanted`, which holds no
/// zero byte. The field must be terminated within its bounds.
pub fn fixed_name_equals(field: &[u8], wanted: &[u8]) -> (equal: bool)
    requires
        has_terminator(field@),
        forall|i: int| 0 <= i < wanted@.len() ==> wanted@[i] != 0,
    ensures
        equal == fixed_name_is(field@, wanted@),
{
    if wanted.len() >= field.len() {
        return false;
    }
    let mut i: usize = 0;
    while i < wanted.len()
        invariant
            wanted@.len() < field@.len(),
            i <= wanted@.len(),
            forall|j: int| 0 <= j < i ==> field@[j] == wanted@[j],
        decreases wanted@.len() - i,
    {
        if field[i] != wanted[i] {
            proof {
                assert(field@.take(wanted@.len() as int)[i as int] != wanted@[i as int]);
            }
            return false;
        }
        i = i + 1;
    }
    proof {
        assert(field@.take(wanted@.len() as int) =~= wanted@);
    }
    field[wanted.len()] == 0
}

/// Whether `wanted` is among the names the loader listed.
pub fn name_listed(names: &Vec<Vec<u8>>, wanted: &str) -> (listed: bool)
    requires
        forall|n: int| 0 <= n < names@.len() ==> has_terminator(names@[n]@),
        forall|i: int| 0 <= i < wanted.spec_bytes().len() ==> wanted.spec_bytes()[i] != 0,
    ensures
        listed <==> exists|n: int| 0 <= n < names@.len() && fixed_name_is(names@[n]@, wanted.spec_bytes()),
{
    let wanted_bytes = wanted.as_bytes();
    let mut n: usize = 0;
    while n < names.len()
        invariant
            n <= names@.len(),
            wanted_bytes@ == wanted.spec_bytes(),
            forall|k: int| 0 <= k < names@.len() ==> has_terminator(names@[k]@),
            forall|i: int| 0 <= i < wanted_bytes@.len() ==> wanted_bytes@[i] != 0,
            forall|k: int| 0 <= k < n ==> !fixed_name_is(names@[k]@, wanted.spec_bytes()),
        decreases names@.len() - n,
    {
        if fixed_name_equals(names[n].as_slice(), wanted_bytes) {
            return true;
        }
        n = n + 1;
    }
    false
}

/// The choices `vkCreateInstance` is called with.
#[derive(Clone, Copy, Debug, PartialEq, Eq, Structural)]
pub struct InstanceSetup {
    /// Enable [`VALIDATION_LAYER`]. Without it, mistakes in API calls show up
    /// as crashes or odd pictures rather than as messages.
    pub validation_layer: bool,
    /// Add [`PORTABILITY_ENUMERATION_EXTENSION`] to the required extensions.
    pub portability_enumeration: bool,
    /// `VkInstanceCreateInfo::flags`.
    pub flags: VkFlags,
    /// The application's and the engine's version: 0.1.0.
    pub version: u32,
}

/// What the instance is created with, given what the loader offers.
pub fn instance_setup(validation_layer_available: bool, portability_available: bool) -> (setup: InstanceSetup)
    ensures
        setup.validation_layer == validation_layer_available,
        setup.portability_enumeration == portability_available,
        setup.flags == if portability_available {
            VK_INSTANCE_CREATE_ENUMERATE_PORTABILITY_BIT_KHR
        } else {
            0
        },
        setup.version == spec_api_version(0, 0, 1, 0),
        setup.version == 0x1000,
{
    InstanceSetup {
        validation_layer: validation_layer_available,
        portability_enumeration: portability_available,
        flags: if portability_available {
            VK_INSTANCE_CREATE_ENUMERATE_PORTABILITY_BIT_KHR
        } else {
            0
        },
        version: vk_make_api_version(0, 0, 1, 0),
    }
}

/// The layers the instance is created with: the validation layer when it is
/// installed, none otherwise.
pub fn instance_layers(setup: &InstanceSetup) -> (names: Vec<&'static str>)
    ensures
        names@ == if setup.validation_layer {
            seq![VALIDATION_LAYER]
        } else {
            Seq::<&'static str>::empty()
        },
{
    let mut names: Vec<&'static str> = Vec::new();
    if setup.validation_layer {
        names.push(VALIDATION_LAYER);
    }
    names
}

/// The extensions the instance is created with: those the window system
/// requires, in order, then portability enumeration when the loader offers it.
pub fn instance_extensions(required: &[&'static str], setup: &InstanceSetup) -> (names: Vec<&'static str>)
    ensures
        names@ == if setup.portability_enumeration {
            required@.push(PORTABILITY_ENUMERATION_EXTENSION)
        } else {
            required@
        },
{
    let mut names: Vec<&'static str> = Vec::new();
    let mut i: usize = 0;
    while i < required.len()
        invariant
            i <= required@.len(),
            names@ == required@.take(i as int),
        decreases required@.len() - i,
    {
        names.push(required[i]);
        proof {
            assert(required@.take(i + 1) =~= required@.take(i as int).push(required@[i as int]));
        }
        i = i + 1;
    }
    proof {
        assert(required@.take(required@.len() as int) =~= required@);
    }
    if setup.portability_enumeration {
        names.push(PORTABILITY_ENUMERATION_EXTENSION);
    }
    names
}

} // verus!
