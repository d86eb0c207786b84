//! The flattened-devicetree writer of `vm_fdt`, as the rest of the crate sees it.
//!
//! Nothing in this file is proved. A writer is described by four quantities:
//! the entries written into it, how many nodes are open, whether the last
//! structural call closed a node, and how many bytes it holds. Each
//! specification below says how one method of the writer changes them.

use vstd::prelude::*;
use vstd::utf8::encode_utf8;

verus! {

/// `vm_fdt::FdtWriter`, of which nothing is seen but through the names below.
#[verifier::external_type_specification]
#[verifier::external_body]
pub struct ExFdtWriter(vm_fdt::FdtWriter);

/// `vm_fdt::FdtWriterNode`, the handle of an open node.
#[verifier::external_type_specification]
#[verifier::external_body]
pub struct ExFdtWriterNode(vm_fdt::FdtWriterNode);

/// `vm_fdt::Error`, an enum without fields, with its variants as they are.
#[verifier::external_type_specification]
pub struct ExFdtError(vm_fdt::Error);

/// One entry of the structure block of a devicetree, in the order written.
pub enum FdtItem {
    BeginNode { name: Seq<char> },
    Property { name: Seq<char>, value: Seq<u8> },
    EndNode,
}

/// The entries written so far into a writer that `FdtWriter::new` made.
pub uninterp spec fn fdt_items(w: vm_fdt::FdtWriter) -> Seq<FdtItem>;

/// The number of nodes of a writer that are begun and not yet ended.
pub uninterp spec fn fdt_depth(w: vm_fdt::FdtWriter) -> nat;

/// Whether the last node begun or ended in a writer was ended.
pub uninterp spec fn fdt_ended(w: vm_fdt::FdtWriter) -> bool;

/// The bytes a writer holds: its structure data, header included, and its
/// table of property names.
pub uninterp spec fn fdt_size(w: vm_fdt::FdtWriter) -> nat;

/// The depth at which the node behind a handle was begun.
pub uninterp spec fn fdt_node_depth(n: vm_fdt::FdtWriterNode) -> nat;

/// The blob that a writer made by `FdtWriter::new`, which has no memory
/// reservations and boots on CPU 0, emits for the given entries.
pub uninterp spec fn fdt_blob(items: Seq<FdtItem>) -> Seq<u8>;

/// The greatest number of nodes that may be open at once.
pub open spec fn max_depth() -> nat {
    64
}

/// The greatest number of bytes of a node or property name.
pub open spec fn max_name_len() -> nat {
    31
}

/// A letter of the Latin alphabet, small or capital.
pub open spec fn is_ascii_letter(c: char) -> bool {
    ('a' <= c && c <= 'z') || ('A' <= c && c <= 'Z')
}

/// A decimal digit.
pub open spec fn is_ascii_digit(c: char) -> bool {
    '0' <= c && c <= '9'
}

/// A character that may stand in a node name.
pub open spec fn node_name_char(c: char) -> bool {
    is_ascii_letter(c) || is_ascii_digit(c) || c == ',' || c == '.' || c == '_' || c == '+'
        || c == '-'
}

/// A character that may stand in a property name.
pub open spec fn property_name_char(c: char) -> bool {
    node_name_char(c) || c == '?' || c == '#'
}

/// A node name without unit address that the writer accepts.
pub open spec fn plain_node_name(name: Seq<char>) -> bool {
    &&& 0 < name.len() <= max_name_len()
    &&& is_ascii_letter(name[0])
    &&& forall|i: int| 0 <= i < name.len() ==> node_name_char(#[trigger] name[i])
}

/// The property names that the writer accepts.
pub open spec fn property_name_ok(name: Seq<char>) -> bool {
    &&& 0 < name.len() <= max_name_len()
    &&& forall|i: int| 0 <= i < name.len() ==> property_name_char(#[trigger] name[i])
}

/// Whether the UTF-8 form of a text holds a zero byte.
pub open spec fn has_nul(text: Seq<char>) -> bool {
    encode_utf8(text).contains(0u8)
}

/// The four bytes of a cell, most significant first.
pub open spec fn be32(v: u32) -> Seq<u8> {
    seq![
        (v / 0x100_0000) as u8,
        ((v / 0x1_0000) % 0x100) as u8,
        ((v / 0x100) % 0x100) as u8,
        (v % 0x100) as u8,
    ]
}

/// The eight bytes of a 64-bit value, most significant first.
pub open spec fn be64(v: u64) -> Seq<u8> {
    be32((v / 0x1_0000_0000) as u32) + be32((v % 0x1_0000_0000) as u32)
}

/// The bytes of an array of cells.
pub open spec fn be32_cells(cells: Seq<u32>) -> Seq<u8> {
    Seq::new(4 * cells.len(), |i: int| be32(cells[i / 4])[i % 4])
}

/// The bytes of an array of 64-bit values.
pub open spec fn be64_cells(cells: Seq<u64>) -> Seq<u8> {
    Seq::new(8 * cells.len(), |i: int| be64(cells[i / 8])[i % 8])
}

/// The bytes of a string property: the text in UTF-8 and a closing zero.
pub open spec fn string_value(text: Seq<char>) -> Seq<u8> {
    encode_utf8(text).push(0u8)
}

/// A writer that a call left as it was.
pub open spec fn fdt_unchanged(before: vm_fdt::FdtWriter, after: vm_fdt::FdtWriter) -> bool {
    &&& fdt_items(after) == fdt_items(before)
    &&& fdt_depth(after) == fdt_depth(before)
    &&& fdt_ended(after) == fdt_ended(before)
    &&& fdt_size(after) == fdt_size(before)
}

/// Whether a writer is inside a node whose properties may still be written.
pub open spec fn fdt_accepts_properties(w: vm_fdt::FdtWriter) -> bool {
    fdt_depth(w) > 0 && !fdt_ended(w)
}

/// What writing the property `name` with the bytes `value` does to a writer
/// and returns. The checks come in this order: the node is open, the name
/// holds no zero byte, the name is well formed, the value's length fits 32
/// bits, the table of names fits 32 bits. A well-formed name holds no zero
/// byte. A refused property leaves the writer as it was. An accepted one adds
/// twelve bytes of framing, the value padded to a multiple of four, and at
/// most the name with a closing zero.
pub open spec fn property_written(
    before: vm_fdt::FdtWriter,
    after: vm_fdt::FdtWriter,
    name: Seq<char>,
    value: Seq<u8>,
    r: Result<(), vm_fdt::Error>,
) -> bool {
    &&& match r {
        Ok(_) => {
            &&& fdt_items(after) == fdt_items(before).push(FdtItem::Property { name, value })
            &&& fdt_depth(after) == fdt_depth(before)
            &&& fdt_ended(after) == fdt_ended(before)
            &&& fdt_size(after) <= fdt_size(before) + value.len() + 47
            &&& fdt_accepts_properties(before)
            &&& property_name_ok(name)
        },
        Err(e) => {
            &&& fdt_unchanged(before, after)
            &&& fdt_accepts_properties(before) ==> {
                if property_name_ok(name) {
                    e == vm_fdt::Error::PropertyValueTooLarge || e
                        == vm_fdt::Error::TotalSizeTooLarge
                } else if has_nul(name) {
                    e == vm_fdt::Error::InvalidString
                } else {
                    e == vm_fdt::Error::InvalidPropertyName
                }
            }
        },
    }
    &&& (fdt_accepts_properties(before) && property_name_ok(name) && value.len() <= u32::MAX
        && fdt_size(before) <= u32::MAX) ==> r is Ok
}

/// `FdtWriter::new`: a writer without memory reservations. It cannot fail: the
/// header and the empty reservation map take 56 bytes.
pub assume_specification[ vm_fdt::FdtWriter::new ]() -> (r: Result<
    vm_fdt::FdtWriter,
    vm_fdt::Error,
>)
    ensures
        r is Ok,
        fdt_items(r->Ok_0) == Seq::<FdtItem>::empty(),
        fdt_depth(r->Ok_0) == 0,
        !fdt_ended(r->Ok_0),
        fdt_size(r->Ok_0) == 56,
;

/// `FdtWriter::begin_node`: opens a node. It is accepted below the depth limit
/// when the name is a plain node name; a refusal changes nothing. The node
/// takes four bytes of framing and its name with a closing zero, padded to a
/// multiple of four: at most eight bytes and the name, of which a character
/// takes at most four bytes.
pub assume_specification[ vm_fdt::FdtWriter::begin_node ](
    w: &mut vm_fdt::FdtWriter,
    name: &str,
) -> (r: Result<vm_fdt::FdtWriterNode, vm_fdt::Error>)
    ensures
        match r {
            Ok(node) => {
                &&& fdt_items(*final(w)) == fdt_items(*old(w)).push(
                    FdtItem::BeginNode { name: name@ },
                )
                &&& fdt_depth(*final(w)) == fdt_depth(*old(w)) + 1
                &&& !fdt_ended(*final(w))
                &&& fdt_size(*final(w)) <= fdt_size(*old(w)) + 4 * name@.len() + 8
                &&& fdt_node_depth(node) == fdt_depth(*final(w))
            },
            Err(_) => fdt_unchanged(*old(w), *final(w)),
        },
        (fdt_depth(*old(w)) < max_depth() && plain_node_name(name@)) ==> r is Ok,
;

/// `FdtWriter::end_node`: closes the node behind the handle, which must be the
/// innermost open one; otherwise the call is refused and changes nothing.
pub assume_specification[ vm_fdt::FdtWriter::end_node ](
    w: &mut vm_fdt::FdtWriter,
    node: vm_fdt::FdtWriterNode,
) -> (r: Result<(), vm_fdt::Error>)
    ensures
        match r {
            Ok(_) => {
                &&& fdt_items(*final(w)) == fdt_items(*old(w)).push(FdtItem::EndNode)
                &&& fdt_depth(*final(w)) + 1 == fdt_depth(*old(w))
                &&& fdt_ended(*final(w))
                &&& fdt_size(*final(w)) == fdt_size(*old(w)) + 4
            },
            Err(e) => e == vm_fdt::Error::OutOfOrderEndNode && fdt_unchanged(*old(w), *final(w)),
        },
        (fdt_node_depth(node) == fdt_depth(*old(w)) && fdt_depth(*old(w)) > 0) ==> r is Ok,
        fdt_node_depth(node) != fdt_depth(*old(w)) ==> r is Err,
;

/// `FdtWriter::property_u32`: a property of one cell.
pub assume_specification[ vm_fdt::FdtWriter::property_u32 ](
    w: &mut vm_fdt::FdtWriter,
    name: &str,
    val: u32,
) -> (r: Result<(), vm_fdt::Error>)
    ensures
        property_written(*old(w), *final(w), name@, be32(val), r),
;

/// `FdtWriter::property_array_u32`: a property of several cells.
pub assume_specification[ vm_fdt::FdtWriter::property_array_u32 ](
    w: &mut vm_fdt::FdtWriter,
    name: &str,
    cells: &[u32],
) -> (r: Result<(), vm_fdt::Error>)
    ensures
        property_written(*old(w), *final(w), name@, be32_cells(cells@), r),
;

/// `FdtWriter::property_array_u64`: a property of several 64-bit values.
pub assume_specification[ vm_fdt::FdtWriter::property_array_u64 ](
    w: &mut vm_fdt::FdtWriter,
    name: &str,
    cells: &[u64],
) -> (r: Result<(), vm_fdt::Error>)
    ensures
        property_written(*old(w), *final(w), name@, be64_cells(cells@), r),
;

/// `FdtWriter::property_string`: a property holding a text and a closing zero.
/// A text with a zero byte is refused before anything else is looked at.
pub assume_specification[ vm_fdt::FdtWriter::property_string ](
    w: &mut vm_fdt::FdtWriter,
    name: &str,
    val: &str,
) -> (r: Result<(), vm_fdt::Error>)
    ensures
        has_nul(val@) ==> r is Err && r->Err_0 == vm_fdt::Error::InvalidString && fdt_unchanged(
            *old(w),
            *final(w),
        ),
        !has_nul(val@) ==> property_written(*old(w), *final(w), name@, string_value(val@), r),
;

/// `FdtWriter::finish`: the blob of the entries written. It is refused while a
/// node is open, and when the blob with its closing marker would not fit 32
/// bits.
pub assume_specification[ vm_fdt::FdtWriter::finish ](w: vm_fdt::FdtWriter) -> (r: Result<
    Vec<u8>,
    vm_fdt::Error,
>)
    ensures
        match r {
            Ok(blob) => blob@ == fdt_blob(fdt_items(w)) && fdt_depth(w) == 0,
            Err(e) => if fdt_depth(w) > 0 {
                e == vm_fdt::Error::UnclosedNode
            } else {
                e == vm_fdt::Error::TotalSizeTooLarge
            },
        },
        (fdt_depth(w) == 0 && fdt_size(w) + 4 <= u32::MAX) ==> r is Ok,
;

} // verus!
