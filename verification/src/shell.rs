//! The identifier of the shell class that owns the taskbar.

use vstd::prelude::*;

verus! {

/// A 128-bit class or interface identifier, in the four-field layout that the
/// shell uses: eight hexadecimal digits, four, four, and then eight bytes that
/// hold the last sixteen digits.
#[derive(Clone, Copy, Debug)]
pub struct ClassId {
    pub data1: u32,
    pub data2: u16,
    pub data3: u16,
    pub data4: [u8; 8],
}

/// The 128-bit value of the taskbar list class,
/// `56FDF344-FD6D-11D0-958A-006097C9A090`.
pub const TASKBAR_LIST_CLASS: u128 = 0x56FDF344_FD6D_11D0_958A_006097C9A090u128;

/// Byte `i` of the low 64 bits of `value`, counted from the most significant.
pub open spec fn tail_byte(value: u128, i: int) -> u8 {
    ((value >> (((7 - i) * 8) as u128)) & 0xff) as u8
}

impl ClassId {
    /// This identifier is `value` cut into fields, most significant digits
    /// first: 32 bits, 16 bits, 16 bits, then the low 64 bits byte by byte.
    pub open spec fn spells(self, value: u128) -> bool {
        &&& self.data1 == (value >> 96) as u32
        &&& self.data2 == ((value >> 80) & 0xffff) as u16
        &&& self.data3 == ((value >> 64) & 0xffff) as u16
        &&& forall|i: int| 0 <= i < 8 ==> #[trigger] self.data4@[i] == tail_byte(value, i)
    }
}

/// Calls `windows_core::GUID::from_u128` and copies the four fields of the
/// `GUID` it returns. Trusted: that the fields are `value` cut as
/// `ClassId::spells` says, which is how the function's source computes them
/// (shifts and masks for the first three fields, the big-endian bytes of the
/// low 64 bits for the fourth).
#[verifier::external_body]
fn class_id_from_u128(value: u128) -> (id: ClassId)
    ensures
        id.spells(value),
{
    let guid = windows_core::GUID::from_u128(value);
    ClassId { data1: guid.data1, data2: guid.data2, data3: guid.data3, data4: guid.data4 }
}

/// The identifier of the taskbar list class, under which the shell hands out
/// the interface that sets overlay icons.
pub fn taskbar_list_class_id() -> (id: ClassId)
    ensures
        id.spells(TASKBAR_LIST_CLASS),
        id.data1 == 0x56FDF344u32,
        id.data2 == 0xFD6Du16,
        id.data3 == 0x11D0u16,
        id.data4@ == seq![0x95u8, 0x8Au8, 0x00u8, 0x60u8, 0x97u8, 0xC9u8, 0xA0u8, 0x90u8],
{
    let id = class_id_from_u128(TASKBAR_LIST_CLASS);
    proof {
        let v: u128 = TASKBAR_LIST_CLASS;
        assert((v >> 96) as u32 == 0x56FDF344u32) by (bit_vector)
            requires v == 0x56FDF344_FD6D_11D0_958A_006097C9A090u128;
        assert(((v >> 80) & 0xffff) as u16 == 0xFD6Du16) by (bit_vector)
            requires v == 0x56FDF344_FD6D_11D0_958A_006097C9A090u128;
        assert(((v >> 64) & 0xffff) as u16 == 0x11D0u16) by (bit_vector)
            requires v == 0x56FDF344_FD6D_11D0_958A_006097C9A090u128;
        assert(((v >> 56) & 0xff) as u8 == 0x95u8
            && ((v >> 48) & 0xff) as u8 == 0x8Au8
            && ((v >> 40) & 0xff) as u8 == 0x00u8
            && ((v >> 32) & 0xff) as u8 == 0x60u8
            && ((v >> 24) & 0xff) as u8 == 0x97u8
            && ((v >> 16) & 0xff) as u8 == 0xC9u8
            && ((v >> 8) & 0xff) as u8 == 0xA0u8
            && ((v >> 0) & 0xff) as u8 == 0x90u8) by (bit_vector)
            requires v == 0x56FDF344_FD6D_11D0_958A_006097C9A090u128;
        assert(id.data4@[0] == tail_byte(v, 0));
        assert(id.data4@[1] == tail_byte(v, 1));
        assert(id.data4@[2] == tail_byte(v, 2));
        assert(id.data4@[3] == tail_byte(v, 3));
        assert(id.data4@[4] == tail_byte(v, 4));
        assert(id.data4@[5] == tail_byte(v, 5));
        assert(id.data4@[6] == tail_byte(v, 6));
        assert(id.data4@[7] == tail_byte(v, 7));
        assert(id.data4@.len() == 8);
    }
    id
}

} // verus!
