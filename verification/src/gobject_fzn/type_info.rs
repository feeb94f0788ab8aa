//! What GObject is told about a type when it is registered.
//!
//! An instance of a registered type is the parent's instance structure
//! followed by the Rust value that the object carries, laid out as a C
//! structure of two fields. GObject allocates the instance itself, from the
//! size it is given at registration, so that size has to cover both fields
//! and every byte of padding between and after them.

use vstd::prelude::*;
use vstd::layout::{align_of, layout_for_type_is_valid, size_of};

verus! {

/// Why a type could not be described, named or recorded.
#[derive(Clone, Copy, Debug, PartialEq, Eq, Structural)]
pub enum TypeError {
    /// The parent's instance alignment is zero.
    InvalidParentLayout,
    /// The class structure is larger than GObject's 16-bit size field.
    ClassTooLarge,
    /// The instance structure is larger than GObject's 16-bit size field.
    InstanceTooLarge,
    /// The counter behind the type names has no value left.
    NamesExhausted,
    /// GObject answered a registration with the invalid type.
    RegistrationFailed,
    /// GObject answered a registration with a type that is already recorded.
    TypeAlreadyRecorded,
    /// The key already has a registered type.
    KeyAlreadyRegistered,
}

/// Sizes of the parent type's structures, as the platform lays them out.
#[derive(Clone, Copy, Debug, PartialEq, Eq, Structural)]
pub struct ParentLayout {
    /// Size in bytes of the parent's instance structure.
    pub instance_size: usize,
    /// Alignment in bytes of the parent's instance structure.
    pub instance_align: usize,
    /// Size in bytes of the parent's class structure.
    pub class_size: usize,
}

/// The record that GObject takes at registration, without its pointers.
#[derive(Clone, Copy, Debug, PartialEq, Eq, Structural)]
pub struct TypeInfo {
    /// Size in bytes of the class structure.
    pub class_size: u16,
    /// Size in bytes of one instance.
    pub instance_size: u16,
    /// Number of instances to allocate ahead of use.
    pub n_preallocs: u16,
    /// Whether a class initialiser is given; it installs the dispose hook.
    pub class_init: bool,
    /// Whether an instance initialiser is given.
    pub instance_init: bool,
}

/// The least multiple of `align` that is not below `n`.
pub open spec fn round_up(n: nat, align: nat) -> nat
    recommends
        align > 0,
{
    if n % align == 0 {
        n
    } else {
        (n + align - n % align) as nat
    }
}

/// The larger of two alignments.
pub open spec fn wider(a: nat, b: nat) -> nat {
    if a >= b {
        a
    } else {
        b
    }
}

/// Offset of the carried value in an instance whose parent part takes
/// `parent_size` bytes.
pub open spec fn body_offset(parent_size: nat, body_align: nat) -> nat {
    round_up(parent_size, body_align)
}

/// Size of an instance: the parent part, padding, the carried value, and
/// padding up to the instance's own alignment.
pub open spec fn instance_size(
    parent_size: nat,
    parent_align: nat,
    body_size: nat,
    body_align: nat,
) -> nat {
    round_up(body_offset(parent_size, body_align) + body_size, wider(parent_align, body_align))
}

/// The instance size of a type that carries a `B` behind `parent`.
pub open spec fn instance_size_of<B>(parent: ParentLayout) -> nat {
    instance_size(
        parent.instance_size as nat,
        parent.instance_align as nat,
        size_of::<B>(),
        align_of::<B>(),
    )
}

/// The description of a type that carries a `B` behind `parent`, where there
/// is one.
pub open spec fn type_info_of<B>(parent: ParentLayout) -> Result<TypeInfo, TypeError> {
    if parent.instance_align == 0 {
        Err(TypeError::InvalidParentLayout)
    } else if parent.class_size > u16::MAX {
        Err(TypeError::ClassTooLarge)
    } else if instance_size_of::<B>(parent) > u16::MAX {
        Err(TypeError::InstanceTooLarge)
    } else {
        Ok(
            TypeInfo {
                class_size: parent.class_size as u16,
                instance_size: instance_size_of::<B>(parent) as u16,
                n_preallocs: 0,
                class_init: true,
                instance_init: false,
            },
        )
    }
}

/// Rounding up gives a multiple of the alignment, adds less than one
/// alignment, and leaves multiples as they are.
pub proof fn lemma_round_up(n: nat, align: nat)
    requires
        align > 0,
    ensures
        round_up(n, align) % align == 0,
        n <= round_up(n, align) < n + align,
        n % align == 0 ==> round_up(n, align) == n,
{
    if n % align != 0 {
        let r = n % align;
        let q = n / align;
        assert(n == q * align + r) by {
            vstd::arithmetic::div_mod::lemma_fundamental_div_mod(n as int, align as int);
            assert(q * align == align * q) by (nonlinear_arith);
        }
        assert(n + align - r == (q + 1) * align) by (nonlinear_arith)
            requires
                n == q * align + r,
        ;
        vstd::arithmetic::div_mod::lemma_mod_multiples_basic((q + 1) as int, align as int);
    }
}

/// In an instance, the carried value starts at one of its own alignment
/// boundaries, after the parent part, and ends inside the instance, whose
/// size is a multiple of both alignments' maximum.
pub proof fn lemma_instance_layout(
    parent_size: nat,
    parent_align: nat,
    body_size: nat,
    body_align: nat,
)
    requires
        parent_align > 0,
        body_align > 0,
    ensures
        body_offset(parent_size, body_align) >= parent_size,
        body_offset(parent_size, body_align) % body_align == 0,
        body_offset(parent_size, body_align) + body_size <= instance_size(
            parent_size,
            parent_align,
            body_size,
            body_align,
        ),
        instance_size(parent_size, parent_align, body_size, body_align) % wider(
            parent_align,
            body_align,
        ) == 0,
{
    lemma_round_up(parent_size, body_align);
    lemma_round_up(
        body_offset(parent_size, body_align) + body_size,
        wider(parent_align, body_align),
    );
}

/// Rounds `n` up to a multiple of `align`, as long as `n` is at most `limit`
/// and the result is too.
fn round_up_within(n: usize, align: usize, limit: usize) -> (r: Option<usize>)
    requires
        align > 0,
    ensures
        r is Some <==> round_up(n as nat, align as nat) <= limit,
        r is Some ==> r->0 == round_up(n as nat, align as nat),
{
    proof {
        lemma_round_up(n as nat, align as nat);
    }
    if n > limit {
        return None;
    }
    let rest: usize = n % align;
    if rest == 0 {
        return Some(n);
    }
    let pad: usize = align - rest;
    if pad > limit - n {
        None
    } else {
        Some(n + pad)
    }
}

/// Size of an instance that carries a `B` behind `parent`, where the parent
/// has an alignment and the size fits GObject's 16-bit size field.
pub fn checked_instance_size<B>(parent: &ParentLayout) -> (r: Option<u16>)
    ensures
        r is Some <==> parent.instance_align > 0 && instance_size_of::<B>(*parent) <= u16::MAX,
        r is Some ==> r->0 == instance_size_of::<B>(*parent),
{
    if parent.instance_align == 0 {
        return None;
    }
    layout_for_type_is_valid::<B>();
    let body_size: usize = core::mem::size_of::<B>();
    let body_align: usize = core::mem::align_of::<B>();
    let limit: usize = 65535;
    proof {
        lemma_instance_layout(
            parent.instance_size as nat,
            parent.instance_align as nat,
            body_size as nat,
            body_align as nat,
        );
    }
    let offset: usize = match round_up_within(parent.instance_size, body_align, limit) {
        Some(offset) => offset,
        None => {
            return None;
        },
    };
    if body_size > limit - offset {
        return None;
    }
    let align: usize = if parent.instance_align >= body_align {
        parent.instance_align
    } else {
        body_align
    };
    match round_up_within(offset + body_size, align, limit) {
        Some(size) => Some(size as u16),
        None => None,
    }
}

/// Describes the type that carries a `B` behind `parent`: the parent's class
/// structure, an instance large enough for both parts, a class initialiser
/// and no instance initialiser.
pub fn describe_type<B>(parent: &ParentLayout) -> (r: Result<TypeInfo, TypeError>)
    ensures
        r == type_info_of::<B>(*parent),
{
    if parent.instance_align == 0 {
        return Err(TypeError::InvalidParentLayout);
    }
    if parent.class_size > 65535 {
        return Err(TypeError::ClassTooLarge);
    }
    match checked_instance_size::<B>(parent) {
        Some(instance_size) => Ok(
            TypeInfo {
                class_size: parent.class_size as u16,
                instance_size,
                n_preallocs: 0,
                class_init: true,
                instance_init: false,
            },
        ),
        None => Err(TypeError::InstanceTooLarge),
    }
}

} // verus!
