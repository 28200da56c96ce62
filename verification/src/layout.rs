//! Byte-level layout of guest values: alignment, pointer tags and the stride
//! of attribute records whose size depends on the loaded guest build.

use vstd::prelude::*;
use crate::tags::{discriminant_InternalAttr, discriminant_InternalHtml, discriminant_U1};

verus! {

/// Alignment, in bytes, of an attribute record and of the closure it may embed.
pub const ALIGN: usize = 8;

/// Number of machine words a guest string occupies.
pub const ROC_STR_WORDS: usize = 3;

/// Headroom, in bytes, that a closure size must leave below `usize::MAX` so
/// that no record size computed from it overflows.
pub const SIZE_HEADROOM: usize = 64;

/// Pointer width of the machine whose memory is being read.
#[derive(Clone, Copy, Debug, PartialEq, Eq, Structural)]
pub enum PointerWidth {
    Bits32,
    Bits64,
}

/// The least multiple of eight that is at least `n`.
pub open spec fn spec_align_up(n: int) -> int {
    if n % 8 == 0 {
        n
    } else {
        n + 8 - n % 8
    }
}

impl PointerWidth {
    /// Bytes in one machine word.
    pub open spec fn spec_bytes(self) -> int {
        match self {
            PointerWidth::Bits32 => 4,
            PointerWidth::Bits64 => 8,
        }
    }

    /// Low pointer bits that an aligned heap pointer leaves free for a tag.
    pub open spec fn spec_tag_mask(self) -> usize {
        match self {
            PointerWidth::Bits32 => 0b011usize,
            PointerWidth::Bits64 => 0b111usize,
        }
    }

    /// Bytes in one machine word.
    pub fn bytes(self) -> (r: usize)
        ensures
            r == self.spec_bytes(),
    {
        match self {
            PointerWidth::Bits32 => 4,
            PointerWidth::Bits64 => 8,
        }
    }

    /// The tag mask of this width: two bits on 32-bit machines, three on 64-bit.
    pub fn tag_mask(self) -> (r: usize)
        ensures
            r == self.spec_tag_mask(),
    {
        match self {
            PointerWidth::Bits32 => 0b011usize,
            PointerWidth::Bits64 => 0b111usize,
        }
    }

    /// The pointer width of the machine this code runs on.
    pub open spec fn spec_native() -> PointerWidth {
        if vstd::layout::size_of::<usize>() == 4 {
            PointerWidth::Bits32
        } else {
            PointerWidth::Bits64
        }
    }

    /// The pointer width of the machine this code runs on.
    pub fn native() -> (r: PointerWidth)
        ensures
            r == Self::spec_native(),
            r.spec_bytes() == vstd::layout::size_of::<usize>(),
    {
        broadcast use vstd::layout::layout_of_primitives;

        if core::mem::size_of::<usize>() == 4 {
            PointerWidth::Bits32
        } else {
            PointerWidth::Bits64
        }
    }
}

/// Rounds `n` up to the next multiple of [`ALIGN`].
pub fn align_up(n: usize) -> (r: usize)
    requires
        n + 7 <= usize::MAX,
    ensures
        r == spec_align_up(n as int),
        n <= r < n + 8,
        r % 8 == 0,
{
    let bumped: usize = n + (ALIGN - 1);
    assert(bumped & !7usize == bumped - bumped % 8) by (bit_vector);
    bumped & !(ALIGN - 1)
}

/// Size in bytes of a guest string.
pub open spec fn spec_roc_str_size(width: PointerWidth) -> int {
    3 * width.spec_bytes()
}

/// Size in bytes of the key/value attribute payload: two guest strings.
pub open spec fn spec_attribute_size(width: PointerWidth) -> int {
    2 * spec_roc_str_size(width)
}

/// Offset of the event-type string inside an event-handler payload: the
/// closure comes first, padded to the record alignment.
pub open spec fn spec_event_type_offset(closure_size: int) -> int {
    spec_align_up(closure_size)
}

/// Size in bytes of the event-handler payload: the padded closure, then the
/// event-type string, the whole padded again.
pub open spec fn spec_on_event_size(width: PointerWidth, closure_size: int) -> int {
    spec_align_up(spec_roc_str_size(width) + spec_event_type_offset(closure_size))
}

/// Size in bytes of the largest payload an attribute record can hold.
pub open spec fn spec_max_payload_size(width: PointerWidth, closure_size: int) -> int {
    if spec_attribute_size(width) >= spec_on_event_size(width, closure_size) {
        spec_attribute_size(width)
    } else {
        spec_on_event_size(width, closure_size)
    }
}

/// Size in bytes of one attribute record, which is also the stride of an
/// array of them: the largest payload, one byte for the tag, padded.
pub open spec fn spec_record_size(width: PointerWidth, closure_size: int) -> int {
    spec_align_up(spec_max_payload_size(width, closure_size) + 1)
}

/// The bytes of an attribute record that hold neither payload nor tag: what
/// the alignment adds behind the tag.
pub open spec fn spec_record_padding(width: PointerWidth, closure_size: int) -> int {
    spec_record_size(width, closure_size) - (spec_max_payload_size(width, closure_size) + 1)
}

/// Offset of the tag byte inside an attribute record.
pub open spec fn spec_discriminant_offset(width: PointerWidth, closure_size: int) -> int {
    spec_record_size(width, closure_size) - 8
}

/// Whether every size derived from `closure_size` fits in a `usize`.
pub open spec fn closure_size_fits(closure_size: usize) -> bool {
    closure_size <= usize::MAX - SIZE_HEADROOM
}

/// Size in bytes of a guest string on a machine of the given width.
pub fn roc_str_size(width: PointerWidth) -> (r: usize)
    ensures
        r == spec_roc_str_size(width),
{
    ROC_STR_WORDS * width.bytes()
}

/// Size in bytes of the key/value attribute payload.
pub fn attribute_size(width: PointerWidth) -> (r: usize)
    ensures
        r == spec_attribute_size(width),
{
    2 * roc_str_size(width)
}

/// Offset of the event-type string inside an event-handler payload.
pub fn event_type_offset(closure_size: usize) -> (r: usize)
    requires
        closure_size_fits(closure_size),
    ensures
        r == spec_event_type_offset(closure_size as int),
{
    align_up(closure_size)
}

/// Size in bytes of the event-handler payload for a closure of `closure_size` bytes.
pub fn on_event_size(width: PointerWidth, closure_size: usize) -> (r: usize)
    requires
        closure_size_fits(closure_size),
    ensures
        r == spec_on_event_size(width, closure_size as int),
{
    let roc_str_offset: usize = event_type_offset(closure_size);
    let unaligned: usize = roc_str_size(width) + roc_str_offset;
    align_up(unaligned)
}

/// Size in bytes of one attribute record for a closure of `closure_size` bytes.
pub fn record_size(width: PointerWidth, closure_size: usize) -> (r: usize)
    requires
        closure_size_fits(closure_size),
    ensures
        r == spec_record_size(width, closure_size as int),
{
    let on_event: usize = on_event_size(width, closure_size);
    let attribute: usize = attribute_size(width);
    let largest: usize = if attribute >= on_event {
        attribute
    } else {
        on_event
    };
    align_up(largest + 1)
}

/// Offset of the tag byte inside an attribute record.
pub fn discriminant_offset(width: PointerWidth, closure_size: usize) -> (r: usize)
    requires
        closure_size_fits(closure_size),
    ensures
        r == spec_discriminant_offset(width, closure_size as int),
{
    record_size(width, closure_size) - ALIGN
}

/// A record is a multiple of eight bytes, holds every payload and the tag
/// byte behind it, and is padded by less than one alignment unit: it is at
/// least as large as the two-string payload and the padding together. The
/// tag byte sits exactly behind the largest payload.
pub proof fn lemma_record_size_bounds(width: PointerWidth, closure_size: int)
    requires
        0 <= closure_size,
    ensures
        spec_record_size(width, closure_size) % 8 == 0,
        spec_record_size(width, closure_size) >= spec_attribute_size(width) + 1,
        spec_record_size(width, closure_size) >= spec_on_event_size(width, closure_size) + 1,
        spec_on_event_size(width, closure_size) >= closure_size + spec_roc_str_size(width),
        0 <= spec_record_padding(width, closure_size) < 8,
        spec_record_size(width, closure_size) >= spec_attribute_size(width) + spec_record_padding(
            width,
            closure_size,
        ),
        spec_discriminant_offset(width, closure_size) == spec_max_payload_size(width, closure_size),
{
}

/// The record size is a function of the pointer width and the closure size
/// alone, and grows with the closure size.
pub proof fn lemma_record_size_monotonic(width: PointerWidth, smaller: int, larger: int)
    requires
        0 <= smaller <= larger,
    ensures
        spec_record_size(width, smaller) <= spec_record_size(width, larger),
{
}

/// The tag bits of a tagged pointer word.
pub fn pointer_tag(word: usize, width: PointerWidth) -> (r: usize)
    ensures
        r == word & width.spec_tag_mask(),
        r <= width.spec_tag_mask(),
{
    let mask: usize = width.tag_mask();
    assert(word & mask <= mask) by (bit_vector);
    word & mask
}

/// The address a tagged pointer word refers to: the word with its tag bits cleared.
pub fn clear_tag(word: usize, width: PointerWidth) -> (r: usize)
    ensures
        r == word & !width.spec_tag_mask(),
        r & width.spec_tag_mask() == 0,
        r <= word,
{
    let mask: usize = width.tag_mask();
    assert((word & !mask) & mask == 0) by (bit_vector);
    assert(word & !mask <= word) by (bit_vector);
    word & !mask
}

/// The tagged pointer word for an address and a tag.
pub fn with_tag(address: usize, tag: usize) -> (r: usize)
    ensures
        r == address | tag,
{
    address | tag
}

/// Reading back a freshly tagged pointer gives the tag and the address that
/// went in, for either pointer width, whenever the address is aligned for
/// that width and the tag fits its mask.
pub proof fn lemma_tag_round_trip(address: usize, tag: usize, width: PointerWidth)
    requires
        address & width.spec_tag_mask() == 0,
        tag <= width.spec_tag_mask(),
    ensures
        (address | tag) & width.spec_tag_mask() == tag,
        (address | tag) & !width.spec_tag_mask() == address,
        tag != 0 ==> (address | tag) != 0,
{
    let mask = width.spec_tag_mask();
    assert(address & mask == 0 && tag <= mask && (mask == 3 || mask == 7) ==> (address | tag) & mask
        == tag && (address | tag) & !mask == address && (tag != 0 ==> (address | tag) != 0))
        by (bit_vector);
}

/// Offset of record `index` in an array of records `stride` bytes apart.
pub fn record_offset(stride: usize, index: usize) -> (r: usize)
    requires
        stride * index <= usize::MAX,
    ensures
        r == stride * index,
{
    stride * index
}

/// The tag byte of record `index` in the bytes of an attribute array.
pub fn discriminant_byte(bytes: &[u8], width: PointerWidth, closure_size: usize, index: usize) -> (r:
    u8)
    requires
        closure_size_fits(closure_size),
        (index + 1) * spec_record_size(width, closure_size as int) <= bytes@.len(),
    ensures
        r == bytes@[index * spec_record_size(width, closure_size as int)
            + spec_discriminant_offset(width, closure_size as int)],
{
    let stride: usize = record_size(width, closure_size);
    let len: usize = bytes.len();
    assert((index + 1) * stride == stride * index + stride && index * stride == stride * index
        && 0 <= stride * index) by (nonlinear_arith);
    let base: usize = record_offset(stride, index);
    bytes[base + (stride - ALIGN)]
}

/// The captured environment of the closure in record `index` of an attribute
/// array: the first `closure_size` bytes of the record.
pub fn closure_bytes(bytes: &[u8], width: PointerWidth, closure_size: usize, index: usize) -> (r:
    Vec<u8>)
    requires
        closure_size_fits(closure_size),
        (index + 1) * spec_record_size(width, closure_size as int) <= bytes@.len(),
    ensures
        r@ == bytes@.subrange(
            index * spec_record_size(width, closure_size as int),
            index * spec_record_size(width, closure_size as int) + closure_size,
        ),
{
    let stride: usize = record_size(width, closure_size);
    let len: usize = bytes.len();
    assert((index + 1) * stride == stride * index + stride && index * stride == stride * index
        && 0 <= stride * index) by (nonlinear_arith);
    let base: usize = record_offset(stride, index);
    let mut out: Vec<u8> = Vec::new();
    let mut i: usize = 0;
    while i < closure_size
        invariant
            i <= closure_size,
            bytes@.len() == len,
            base + closure_size <= bytes@.len(),
            out@ == bytes@.subrange(base as int, base + i),
        decreases closure_size - i,
    {
        out.push(bytes[base + i]);
        i = i + 1;
        assert(out@ =~= bytes@.subrange(base as int, base + i));
    }
    out
}

/// A pointer to a node payload with the node's tag in its low bits, as the
/// guest hands it over. No code but the accessors below looks at the word.
#[derive(Clone, Copy, Debug, PartialEq, Eq, Structural)]
pub struct TaggedPointer {
    pub word: usize,
}

impl TaggedPointer {
    /// The tagged pointer for a payload address and a tag.
    pub open spec fn spec_new(address: usize, tag: discriminant_InternalHtml) -> TaggedPointer {
        TaggedPointer { word: address | (tag.spec_to_byte() as usize) }
    }

    /// Whether the word is a pointer the guest can have produced: it is not
    /// null and its tag bits name a variant.
    pub open spec fn well_formed(self, width: PointerWidth) -> bool {
        self.word != 0 && (self.word & width.spec_tag_mask()) < 2
    }

    /// The variant the tag bits name.
    pub open spec fn spec_discriminant(self, width: PointerWidth) -> discriminant_InternalHtml {
        if self.word & width.spec_tag_mask() == 0 {
            discriminant_InternalHtml::Element
        } else {
            discriminant_InternalHtml::Text
        }
    }

    /// The address of the payload.
    pub open spec fn spec_unmasked_pointer(self, width: PointerWidth) -> usize {
        self.word & !width.spec_tag_mask()
    }

    /// The tagged pointer for a payload address and a tag.
    pub fn new(address: usize, tag: discriminant_InternalHtml) -> (r: Self)
        ensures
            r == Self::spec_new(address, tag),
    {
        TaggedPointer { word: with_tag(address, tag.to_byte() as usize) }
    }

    /// Whether the word is a pointer the guest can have produced.
    pub fn is_well_formed(&self, width: PointerWidth) -> (r: bool)
        ensures
            r == self.well_formed(width),
    {
        self.word != 0 && pointer_tag(self.word, width) < 2
    }

    /// Which variant the node holds, read off the tag bits.
    pub fn discriminant(&self, width: PointerWidth) -> (r: discriminant_InternalHtml)
        requires
            self.well_formed(width),
        ensures
            r == self.spec_discriminant(width),
            discriminant_InternalHtml::spec_from_byte((self.word & width.spec_tag_mask()) as u8)
                == Some(r),
    {
        let tag: usize = pointer_tag(self.word, width);
        if tag == 0 {
            discriminant_InternalHtml::Element
        } else {
            discriminant_InternalHtml::Text
        }
    }

    /// The address of the payload: the word with the tag bits cleared.
    pub fn unmasked_pointer(&self, width: PointerWidth) -> (r: usize)
        requires
            self.word != 0,
        ensures
            r == self.spec_unmasked_pointer(width),
    {
        clear_tag(self.word, width)
    }
}

/// Building a tagged pointer for a variant and reading its discriminant back
/// gives that variant, and unmasking it gives the address, for every variant
/// and for either pointer width, whenever the address is not null and is
/// aligned for that width.
pub proof fn lemma_tagged_pointer_round_trip(
    address: usize,
    tag: discriminant_InternalHtml,
    width: PointerWidth,
)
    requires
        address != 0,
        address & width.spec_tag_mask() == 0,
    ensures
        TaggedPointer::spec_new(address, tag).well_formed(width),
        TaggedPointer::spec_new(address, tag).spec_discriminant(width) == tag,
        TaggedPointer::spec_new(address, tag).spec_unmasked_pointer(width) == address,
{
    let mask = width.spec_tag_mask();
    let bits = tag.spec_to_byte() as usize;
    assert(bits == 0 || bits == 1);
    lemma_tag_round_trip(address, bits, width);
    assert(address != 0 && (bits == 0 || bits == 1) ==> (address | bits) != 0) by (bit_vector);
}

/// Offset of the tag byte of a fixed-layout result union: behind its largest
/// payload, a guest string.
pub open spec fn spec_result_discriminant_offset(width: PointerWidth) -> int {
    spec_roc_str_size(width)
}

/// The discriminant of a fixed-layout result union, read from its bytes;
/// `None` if the tag byte names no variant.
pub fn result_discriminant(bytes: &[u8], width: PointerWidth) -> (r: Option<discriminant_U1>)
    requires
        bytes@.len() > spec_result_discriminant_offset(width),
    ensures
        r == discriminant_U1::spec_from_byte(bytes@[spec_result_discriminant_offset(width)]),
{
    discriminant_U1::from_byte(bytes[roc_str_size(width)])
}

/// Writes the tag byte of a fixed-layout result union into its bytes and
/// leaves every other byte as it was.
pub fn set_result_discriminant(bytes: &mut Vec<u8>, width: PointerWidth, tag: discriminant_U1)
    requires
        old(bytes)@.len() > spec_result_discriminant_offset(width),
    ensures
        final(bytes)@ == old(bytes)@.update(
            spec_result_discriminant_offset(width),
            tag.spec_to_byte(),
        ),
        discriminant_U1::spec_from_byte(final(bytes)@[spec_result_discriminant_offset(width)])
            == Some(tag),
{
    bytes.set(roc_str_size(width), tag.to_byte());
}

/// The discriminant of record `index` in the bytes of an attribute array;
/// `None` if the tag byte names no variant.
pub fn record_discriminant(
    bytes: &[u8],
    width: PointerWidth,
    closure_size: usize,
    index: usize,
) -> (r: Option<discriminant_InternalAttr>)
    requires
        closure_size_fits(closure_size),
        (index + 1) * spec_record_size(width, closure_size as int) <= bytes@.len(),
    ensures
        r == discriminant_InternalAttr::spec_from_byte(
            bytes@[index * spec_record_size(width, closure_size as int)
                + spec_discriminant_offset(width, closure_size as int)],
        ),
{
    discriminant_InternalAttr::from_byte(discriminant_byte(bytes, width, closure_size, index))
}

} // verus!
