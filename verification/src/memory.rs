//! GPU memory: which memory type an allocation goes to, and the buffers the
//! backend allocates there.

use vstd::prelude::*;
use crate::vk_types::{VkBuffer, VkDeviceMemory, VkFlags, VkPhysicalDeviceMemoryProperties};

verus! {

/// Memory type `i` is among the types the device reports, the mask allows it
/// (bit `i` set, the way `vkGet*MemoryRequirements` answers "can live in types
/// 0, 2, 5"), and it has every required property. Extra properties do not
/// disqualify it.
pub open spec fn is_suitable_memory_type(
    properties: VkPhysicalDeviceMemoryProperties,
    type_filter: u32,
    required: VkFlags,
    i: int,
) -> bool {
    &&& 0 <= i < 32
    &&& i < properties.memory_type_count
    &&& type_filter & (1u32 << (i as u32)) != 0
    &&& properties.memory_types@[i].property_flags & required == required
}

/// The lowercase hexadecimal digit of `d`.
pub open spec fn spec_hex_char(d: int) -> char {
    if d < 10 {
        ((d + 48) as u8) as char
    } else {
        ((d - 10 + 97) as u8) as char
    }
}

/// The last `count` hexadecimal digits of `value`, most significant first.
pub open spec fn spec_hex_digits(value: nat, count: nat) -> Seq<char>
    decreases count,
{
    if count == 0 {
        Seq::empty()
    } else {
        spec_hex_digits(value / 16, (count - 1) as nat).push(spec_hex_char((value % 16) as int))
    }
}

/// How many digits `{:#06x}` prints of a `u32`: as many as the value needs,
/// but at least four (six characters with the `0x`).
pub open spec fn spec_padded_hex_width(value: u32) -> nat {
    if value >= 0x1000_0000 {
        8
    } else if value >= 0x100_0000 {
        7
    } else if value >= 0x10_0000 {
        6
    } else if value >= 0x1_0000 {
        5
    } else {
        4
    }
}

/// The error text when no memory type suits: the required properties as
/// `{:#06x}` and the mask as `{:#010x}` would print them.
pub open spec fn spec_no_memory_type_message(required: VkFlags, type_filter: u32) -> Seq<char> {
    "нет типа памяти со свойствами "@ + "0x"@ + spec_hex_digits(required as nat, spec_padded_hex_width(required))
        + " среди допустимых по маске "@ + "0x"@ + spec_hex_digits(type_filter as nat, 8)
}

fn hex_digit(d: u32) -> (digit: &'static str)
    requires
        d < 16,
    ensures
        digit@ == seq![spec_hex_char(d as int)],
{
    proof {
        reveal_strlit("0");
        reveal_strlit("1");
        reveal_strlit("2");
        reveal_strlit("3");
        reveal_strlit("4");
        reveal_strlit("5");
        reveal_strlit("6");
        reveal_strlit("7");
        reveal_strlit("8");
        reveal_strlit("9");
        reveal_strlit("a");
        reveal_strlit("b");
        reveal_strlit("c");
        reveal_strlit("d");
        reveal_strlit("e");
        reveal_strlit("f");
    }
    let digit = match d {
        0 => "0",
        1 => "1",
        2 => "2",
        3 => "3",
        4 => "4",
        5 => "5",
        6 => "6",
        7 => "7",
        8 => "8",
        9 => "9",
        10 => "a",
        11 => "b",
        12 => "c",
        13 => "d",
        14 => "e",
        _ => "f",
    };
    assert(digit@ =~= seq![spec_hex_char(d as int)]);
    digit
}

/// Appends `0x` and the last `count` hexadecimal digits of `value`.
fn append_hex(text: &mut String, value: u32, count: usize)
    requires
        count <= 8,
    ensures
        final(text)@ == old(text)@ + "0x"@ + spec_hex_digits(value as nat, count as nat),
{
    // The digits, least significant last, gathered from the low end.
    let mut digits: Vec<u32> = Vec::new();
    let mut k: usize = 0;
    while k < count
        invariant
            k <= count,
            digits@.len() == k,
            forall|j: int| 0 <= j < digits@.len() ==> digits@[j] < 16,
        decreases count - k,
    {
        digits.push(0);
        k = k + 1;
    }
    let mut rest: u32 = value;
    let mut i: usize = 0;
    while i < count
        invariant
            i <= count <= 8,
            digits@.len() == count,
            forall|j: int| 0 <= j < digits@.len() ==> digits@[j] < 16,
            spec_hex_digits(value as nat, count as nat) == spec_hex_digits(rest as nat, (count - i) as nat)
                + digits@.subrange((count - i) as int, count as int).map_values(|d: u32| spec_hex_char(d as int)),
        decreases count - i,
    {
        let ghost before = digits@;
        let position = count - 1 - i;
        digits.set(position, rest % 16);
        proof {
            let tail = before.subrange((count - i) as int, count as int).map_values(|d: u32| spec_hex_char(d as int));
            let new_tail = digits@.subrange(position as int, count as int).map_values(
                |d: u32| spec_hex_char(d as int),
            );
            assert(new_tail =~= seq![spec_hex_char((rest % 16) as int)] + tail);
            assert(spec_hex_digits(rest as nat, (count - i) as nat) == spec_hex_digits(
                (rest / 16) as nat,
                (count - i - 1) as nat,
            ).push(spec_hex_char((rest as nat % 16) as int)));
            assert(spec_hex_digits((rest / 16) as nat, (count - i - 1) as nat).push(
                spec_hex_char((rest % 16) as int),
            ) + tail =~= spec_hex_digits((rest / 16) as nat, (count - i - 1) as nat) + new_tail);
        }
        rest = rest / 16;
        i = i + 1;
    }
    let ghost all = digits@.map_values(|d: u32| spec_hex_char(d as int));
    assert(digits@.subrange(0, count as int) =~= digits@);
    assert(spec_hex_digits(value as nat, count as nat) =~= all);

    text.append("0x");
    let ghost start = text@;
    let mut j: usize = 0;
    while j < count
        invariant
            j <= count,
            digits@.len() == count,
            forall|m: int| 0 <= m < digits@.len() ==> digits@[m] < 16,
            all == digits@.map_values(|d: u32| spec_hex_char(d as int)),
            text@ == start + all.take(j as int),
        decreases count - j,
    {
        text.append(hex_digit(digits[j]));
        assert(all.take(j + 1) =~= all.take(j as int).push(spec_hex_char(digits@[j as int] as int)));
        j = j + 1;
    }
    assert(all.take(count as int) =~= all);
}

/// The error text when no memory type suits, as `spec_no_memory_type_message`.
pub fn no_memory_type_message(required: VkFlags, type_filter: u32) -> (text: String)
    ensures
        text@ == spec_no_memory_type_message(required, type_filter),
{
    let width: usize = if required >= 0x1000_0000 {
        8
    } else if required >= 0x100_0000 {
        7
    } else if required >= 0x10_0000 {
        6
    } else if required >= 0x1_0000 {
        5
    } else {
        4
    };
    let mut text = String::from_str("нет типа памяти со свойствами ");
    append_hex(&mut text, required, width);
    text.append(" среди допустимых по маске ");
    append_hex(&mut text, type_filter, 8);
    text
}

/// The lowest memory type index that suits both the mask `type_filter` and the
/// `required` properties, or an error when there is none.
///
/// The properties hold at most 32 types; a count above that is only accepted
/// when a suitable type comes first.
pub fn find_memory_type(
    properties: &VkPhysicalDeviceMemoryProperties,
    type_filter: u32,
    required: VkFlags,
) -> (result: Result<u32, String>)
    requires
        properties.memory_type_count <= 32 || exists|i: int|
            is_suitable_memory_type(*properties, type_filter, required, i),
    ensures
        result is Ok <==> exists|i: int| is_suitable_memory_type(*properties, type_filter, required, i),
        result matches Err(text) ==> text@ == spec_no_memory_type_message(required, type_filter),
        result matches Ok(index) ==> {
            &&& is_suitable_memory_type(*properties, type_filter, required, index as int)
            &&& forall|j: int|
                0 <= j < index ==> !is_suitable_memory_type(*properties, type_filter, required, j)
        },
{
    let count = properties.memory_type_count;
    let mut i: u32 = 0;
    while i < count
        invariant
            count == properties.memory_type_count,
            properties.memory_type_count <= 32 || exists|k: int|
                is_suitable_memory_type(*properties, type_filter, required, k),
            i <= count,
            forall|j: int| 0 <= j < i ==> !is_suitable_memory_type(*properties, type_filter, required, j),
        decreases count - i,
    {
        proof {
            if i >= 32 {
                let k = choose|k: int| is_suitable_memory_type(*properties, type_filter, required, k);
                assert(!is_suitable_memory_type(*properties, type_filter, required, k));
            }
        }
        let type_is_allowed = type_filter & (1u32 << i) != 0;
        let has_required_properties = properties.memory_types[i as usize].property_flags & required
            == required;
        if type_is_allowed && has_required_properties {
            assert(is_suitable_memory_type(*properties, type_filter, required, i as int));
            return Ok(i);
        }
        i = i + 1;
    }
    proof {
        assert forall|j: int| is_suitable_memory_type(*properties, type_filter, required, j) implies false by {
            assert(0 <= j < i);
        }
    }
    Err(no_memory_type_message(required, type_filter))
}

/// Memory type `i` suits the mask and the properties, and no type before it
/// does: the one [`find_memory_type`] picks.
pub open spec fn is_lowest_suitable_memory_type(
    properties: VkPhysicalDeviceMemoryProperties,
    type_filter: u32,
    required: VkFlags,
    i: int,
) -> bool {
    &&& is_suitable_memory_type(properties, type_filter, required, i)
    &&& forall|j: int| 0 <= j < i ==> !is_suitable_memory_type(properties, type_filter, required, j)
}

/// The memory type an allocation goes to: the lowest suitable one, or none
/// when no type suits.
pub open spec fn spec_chosen_memory_type(
    properties: VkPhysicalDeviceMemoryProperties,
    type_filter: u32,
    required: VkFlags,
) -> Option<u32> {
    if exists|i: int| is_suitable_memory_type(properties, type_filter, required, i) {
        Some((choose|i: int| is_lowest_suitable_memory_type(properties, type_filter, required, i)) as u32)
    } else {
        None
    }
}

/// Where some memory type suits, a lowest one does.
pub proof fn lemma_lowest_suitable_exists(
    properties: VkPhysicalDeviceMemoryProperties,
    type_filter: u32,
    required: VkFlags,
    i: int,
)
    requires
        is_suitable_memory_type(properties, type_filter, required, i),
    ensures
        exists|j: int| is_lowest_suitable_memory_type(properties, type_filter, required, j),
    decreases i,
{
    if exists|k: int| 0 <= k < i && is_suitable_memory_type(properties, type_filter, required, k) {
        let k = choose|k: int| 0 <= k < i && is_suitable_memory_type(properties, type_filter, required, k);
        lemma_lowest_suitable_exists(properties, type_filter, required, k);
    } else {
        assert(is_lowest_suitable_memory_type(properties, type_filter, required, i));
    }
}

/// The memory type [`find_memory_type`] picks, without its error text.
pub fn choose_memory_type(
    properties: &VkPhysicalDeviceMemoryProperties,
    type_filter: u32,
    required: VkFlags,
) -> (chosen: Option<u32>)
    requires
        properties.memory_type_count <= 32,
    ensures
        chosen == spec_chosen_memory_type(*properties, type_filter, required),
        chosen matches Some(index) ==> is_lowest_suitable_memory_type(
            *properties,
            type_filter,
            required,
            index as int,
        ),
{
    match find_memory_type(properties, type_filter, required) {
        Ok(index) => {
            proof {
                let p = *properties;
                assert(is_lowest_suitable_memory_type(p, type_filter, required, index as int));
                let c = choose|i: int| is_lowest_suitable_memory_type(p, type_filter, required, i);
                assert(is_lowest_suitable_memory_type(p, type_filter, required, c));
                if c < index {
                    assert(!is_suitable_memory_type(p, type_filter, required, c));
                } else if index < c {
                    assert(!is_suitable_memory_type(p, type_filter, required, index as int));
                }
                assert(c == index);
            }
            Some(index)
        },
        Err(_) => None,
    }
}

/// A buffer and the memory bound to it.
pub struct Buffer {
    pub handle: VkBuffer,
    memory: VkDeviceMemory,
}

impl Buffer {
    pub fn new(handle: VkBuffer, memory: VkDeviceMemory) -> (buffer: Self)
        ensures
            buffer.spec_handle() == handle,
            buffer.spec_memory() == memory,
    {
        Buffer { handle, memory }
    }

    pub closed spec fn spec_handle(&self) -> VkBuffer {
        self.handle
    }

    pub closed spec fn spec_memory(&self) -> VkDeviceMemory {
        self.memory
    }

    /// The buffer itself.
    pub fn handle(&self) -> (handle: VkBuffer)
        ensures
            handle == self.spec_handle(),
    {
        self.handle
    }

    /// The memory bound to the buffer.
    pub fn memory(&self) -> (memory: VkDeviceMemory)
        ensures
            memory == self.spec_memory(),
    {
        self.memory
    }
}

} // verus!
