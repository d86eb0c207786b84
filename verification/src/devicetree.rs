//! The hardware description handed to the guest at boot.
//!
//! The description is a devicetree: a root node with the cell widths and the
//! number of CPUs, and below it the nodes `chosen`, `aliases`, `memory` and
//! `data-sections`. Its blob is written by `vm_fdt`.

use crate::error::{encoding_error_of, EncodingError};
use crate::fdt::{
    be32, be32_cells, be64_cells, fdt_blob, fdt_depth, fdt_ended, fdt_items, fdt_node_depth,
    fdt_size, has_nul, plain_node_name, property_name_ok, string_value, FdtItem,
};
use crate::text::lemma_zero_byte;
use crate::sections::{
    distinct_names, first_match, lemma_first_match, lemma_first_match_at, lemma_first_match_none,
    lookup, named, position_of, SectionView, Sections,
};
use vstd::prelude::*;
use vstd::utf8::{encode_utf8, is_ascii_chars, is_ascii_chars_encode_utf8};

verus! {

/// A property of a node.
pub struct PropertyView {
    pub name: Seq<char>,
    pub value: Seq<u8>,
}

/// A node with properties and no children.
pub struct NodeView {
    pub name: Seq<char>,
    pub properties: Seq<PropertyView>,
}

/// A root node with its properties and its children.
pub struct TreeView {
    pub name: Seq<char>,
    pub properties: Seq<PropertyView>,
    pub children: Seq<NodeView>,
}

/// The entries that write the given properties, in order.
pub open spec fn property_items(properties: Seq<PropertyView>) -> Seq<FdtItem> {
    Seq::new(
        properties.len(),
        |i: int| FdtItem::Property { name: properties[i].name, value: properties[i].value },
    )
}

/// The entries that write a node: its beginning, its properties, its end.
pub open spec fn node_items(node: NodeView) -> Seq<FdtItem> {
    seq![FdtItem::BeginNode { name: node.name }] + property_items(node.properties)
        + seq![FdtItem::EndNode]
}

/// The entries that write the given nodes one after the other.
pub open spec fn nodes_items(nodes: Seq<NodeView>) -> Seq<FdtItem>
    decreases nodes.len(),
{
    if nodes.len() == 0 {
        Seq::<FdtItem>::empty()
    } else {
        nodes_items(nodes.drop_last()) + node_items(nodes.last())
    }
}

/// The entries that write a tree: the root's beginning and properties, its
/// children, and the root's end.
pub open spec fn tree_items(tree: TreeView) -> Seq<FdtItem> {
    seq![FdtItem::BeginNode { name: tree.name }] + property_items(tree.properties) + nodes_items(
        tree.children,
    ) + seq![FdtItem::EndNode]
}

/// The number of 64-bit values of the random seed.
pub open spec fn seed_len() -> nat {
    8
}

/// The property that locates a data section: its start and its end, one cell
/// each.
pub open spec fn section_property(section: SectionView) -> PropertyView {
    PropertyView { name: section.name, value: be32_cells(seq![section.start, section.end]) }
}

/// One property for each data section, in the order of the sections.
pub open spec fn section_properties(sections: Seq<SectionView>) -> Seq<PropertyView> {
    Seq::new(sections.len(), |i: int| section_property(sections[i]))
}

/// The properties of the root: one cell for an address, one cell for a size,
/// and the number of CPUs.
pub open spec fn root_properties(cpu_count: u32) -> Seq<PropertyView> {
    seq![
        PropertyView { name: "#address-cells"@, value: be32(1) },
        PropertyView { name: "#size-cells"@, value: be32(1) },
        PropertyView { name: "ncpus"@, value: be32(cpu_count) },
    ]
}

/// The node `chosen`: the random seed and the boot arguments as a closed
/// string.
pub open spec fn chosen_node(cmdline: Seq<char>, seed: Seq<u64>) -> NodeView {
    NodeView {
        name: "chosen"@,
        properties: seq![
            PropertyView { name: "rng-seed"@, value: be64_cells(seed) },
            PropertyView { name: "bootargs"@, value: string_value(cmdline) },
        ],
    }
}

/// The node `aliases`, which is empty.
pub open spec fn aliases_node() -> NodeView {
    NodeView { name: "aliases"@, properties: Seq::<PropertyView>::empty() }
}

/// The node `memory`: the device type and the region, which begins at zero
/// and has the size of the memory.
pub open spec fn memory_node(memory_size_bytes: u32) -> NodeView {
    NodeView {
        name: "memory"@,
        properties: seq![
            PropertyView { name: "device_type"@, value: string_value("memory"@) },
            PropertyView { name: "reg"@, value: be32_cells(seq![0u32, memory_size_bytes]) },
        ],
    }
}

/// The node `data-sections`: one property for each section.
pub open spec fn data_sections_node(sections: Seq<SectionView>) -> NodeView {
    NodeView { name: "data-sections"@, properties: section_properties(sections) }
}

/// The hardware description of a machine with the given boot arguments, data
/// sections, memory size, number of CPUs and random seed.
pub open spec fn description(
    cmdline: Seq<char>,
    sections: Seq<SectionView>,
    memory_size_bytes: u32,
    cpu_count: u32,
    seed: Seq<u64>,
) -> TreeView {
    TreeView {
        name: "root"@,
        properties: root_properties(cpu_count),
        children: seq![
            chosen_node(cmdline, seed),
            aliases_node(),
            memory_node(memory_size_bytes),
            data_sections_node(sections),
        ],
    }
}

/// The sections whose name cannot be a property name.
pub open spec fn unnameable() -> spec_fn(SectionView) -> bool {
    |section: SectionView| !property_name_ok(section.name)
}

/// Why the description of these boot arguments and sections cannot be
/// written, if it cannot: the boot arguments hold the character NUL, or else
/// the first section whose name is no property name decides.
pub open spec fn rejection(cmdline: Seq<char>, sections: Seq<SectionView>) -> Option<
    EncodingError,
> {
    let at = first_match(sections, unnameable());
    if cmdline.contains('\0') {
        Some(EncodingError::InvalidString)
    } else if at < sections.len() {
        if sections[at].name.contains('\0') {
            Some(EncodingError::InvalidString)
        } else {
            Some(EncodingError::InvalidPropertyName)
        }
    } else {
        None
    }
}

/// Whether the boot arguments and every section name can be written: the boot
/// arguments hold no character NUL, and every section name is a property
/// name.
pub open spec fn encodable(cmdline: Seq<char>, sections: Seq<SectionView>) -> bool {
    &&& !cmdline.contains('\0')
    &&& forall|i: int| 0 <= i < sections.len() ==> property_name_ok(#[trigger] sections[i].name)
}

/// Nothing is rejected exactly when the boot arguments and every section name
/// can be written.
pub proof fn lemma_rejection(cmdline: Seq<char>, sections: Seq<SectionView>)
    ensures
        rejection(cmdline, sections) is None <==> encodable(cmdline, sections),
{
    lemma_first_match(sections, unnameable());
    let at = first_match(sections, unnameable());
    if encodable(cmdline, sections) {
        if at < sections.len() {
            assert(property_name_ok(sections[at].name));
        }
    }
    if rejection(cmdline, sections) is None {
        assert forall|i: int| 0 <= i < sections.len() implies property_name_ok(
            #[trigger] sections[i].name,
        ) by {
            assert(!unnameable()(sections[i]));
        }
    }
}

/// A bound under which the blob is sure to fit the 32 bits of its size
/// fields: the boot arguments, at most 55 bytes for each section, and less
/// than a kibibyte for all the rest.
pub open spec fn fits(cmdline: Seq<char>, sections: Seq<SectionView>) -> bool {
    encode_utf8(cmdline).len() + 55 * sections.len() + 1024 <= u32::MAX
}

/// What building the description returns: the blob of the description, or
/// the reason why its names are refused. Only where the description may
/// exceed the format's 32-bit size fields can one of the two size errors come
/// instead.
pub open spec fn build_result(
    cmdline: Seq<char>,
    sections: Seq<SectionView>,
    memory_size_bytes: u32,
    cpu_count: u32,
    seed: Seq<u64>,
    r: Result<Seq<u8>, EncodingError>,
) -> bool {
    match r {
        Ok(blob) => {
            &&& rejection(cmdline, sections) is None
            &&& blob == fdt_blob(
                tree_items(description(cmdline, sections, memory_size_bytes, cpu_count, seed)),
            )
        },
        Err(e) => {
            ||| rejection(cmdline, sections) == Some(e)
            ||| !fits(cmdline, sections) && (e == EncodingError::PropertyValueTooLarge || e
                == EncodingError::TotalSizeTooLarge)
        },
    }
}

/// The result of a build with the blob as a sequence of bytes.
pub open spec fn blob_of(r: Result<Vec<u8>, EncodingError>) -> Result<Seq<u8>, EncodingError> {
    match r {
        Ok(blob) => Ok(blob@),
        Err(e) => Err(e),
    }
}

fn checked<T>(r: Result<T, vm_fdt::Error>) -> (out: Result<T, EncodingError>)
    ensures
        match r {
            Ok(v) => out == Ok::<T, EncodingError>(v),
            Err(e) => out == Err::<T, EncodingError>(encoding_error_of(e)),
        },
{
    match r {
        Ok(v) => Ok(v),
        Err(e) => Err(EncodingError::from_writer(e)),
    }
}

proof fn lemma_node_names()
    ensures
        plain_node_name("root"@),
        plain_node_name("chosen"@),
        plain_node_name("aliases"@),
        plain_node_name("memory"@),
        plain_node_name("data-sections"@),
        "root"@.len() == 4,
        "chosen"@.len() == 6,
        "aliases"@.len() == 7,
        "memory"@.len() == 6,
        "data-sections"@.len() == 13,
{
    reveal_strlit("root");
    reveal_strlit("chosen");
    reveal_strlit("aliases");
    reveal_strlit("memory");
    reveal_strlit("data-sections");
}

proof fn lemma_property_names()
    ensures
        property_name_ok("#address-cells"@),
        property_name_ok("#size-cells"@),
        property_name_ok("ncpus"@),
        property_name_ok("rng-seed"@),
        property_name_ok("bootargs"@),
        property_name_ok("device_type"@),
        property_name_ok("reg"@),
{
    reveal_strlit("#address-cells");
    reveal_strlit("#size-cells");
    reveal_strlit("ncpus");
    reveal_strlit("rng-seed");
    reveal_strlit("bootargs");
    reveal_strlit("device_type");
    reveal_strlit("reg");
}

proof fn lemma_memory_text()
    ensures
        !has_nul("memory"@),
        string_value("memory"@).len() == 7,
{
    reveal_strlit("memory");
    let text = "memory"@;
    assert(is_ascii_chars(text));
    is_ascii_chars_encode_utf8(text);
    let bytes = encode_utf8(text);
    assert forall|i: int| 0 <= i < bytes.len() implies bytes[i] != 0u8 by {
        assert(bytes[i] == text[i] as u8);
    }
}

/// Writes the description with a given seed.
pub fn build_with_seed(
    cmdline: &str,
    sections: &Sections,
    memory_size_bytes: u32,
    cpu_count: u32,
    seed: &[u64; 8],
) -> (r: Result<Vec<u8>, EncodingError>)
    ensures
        build_result(cmdline@, sections@, memory_size_bytes, cpu_count, seed@, blob_of(r)),
{
    proof {
        lemma_node_names();
        lemma_property_names();
        lemma_memory_text();
        lemma_first_match(sections@, unnameable());
        lemma_zero_byte(cmdline@);
    }
    let ghost tree = description(cmdline@, sections@, memory_size_bytes, cpu_count, seed@);
    let mut fdt = checked(vm_fdt::FdtWriter::new())?;

    let root = checked(fdt.begin_node("root"))?;
    checked(fdt.property_u32("#address-cells", 1))?;
    checked(fdt.property_u32("#size-cells", 1))?;
    checked(fdt.property_u32("ncpus", cpu_count))?;

    let chosen = checked(fdt.begin_node("chosen"))?;
    checked(fdt.property_array_u64("rng-seed", seed.as_slice()))?;
    checked(fdt.property_string("bootargs", cmdline))?;
    checked(fdt.end_node(chosen))?;

    let aliases = checked(fdt.begin_node("aliases"))?;
    checked(fdt.end_node(aliases))?;

    let memory = checked(fdt.begin_node("memory"))?;
    checked(fdt.property_string("device_type", "memory"))?;
    let reg: [u32; 2] = [0, memory_size_bytes];
    assert(reg@ =~= seq![0u32, memory_size_bytes]);
    checked(fdt.property_array_u32("reg", reg.as_slice()))?;
    checked(fdt.end_node(memory))?;

    let data_sections = checked(fdt.begin_node("data-sections"))?;
    let ghost head = fdt_items(fdt);
    assert(head =~= seq![FdtItem::BeginNode { name: tree.name }] + property_items(tree.properties)
        + nodes_items(tree.children.drop_last()) + seq![
        FdtItem::BeginNode { name: "data-sections"@ },
    ]) by {
        let c = tree.children;
        let c3 = c.drop_last();
        let c2 = c3.drop_last();
        let c1 = c2.drop_last();
        let c0 = c1.drop_last();
        assert(c0.len() == 0);
        assert(nodes_items(c0) =~= Seq::<FdtItem>::empty());
        assert(nodes_items(c1) =~= node_items(c[0]));
        assert(nodes_items(c2) =~= node_items(c[0]) + node_items(c[1]));
        assert(nodes_items(c3) =~= node_items(c[0]) + node_items(c[1]) + node_items(c[2]));
    }
    let mut i: usize = 0;
    while i < sections.len()
        invariant
            i <= sections@.len(),
            !cmdline@.contains('\0'),
            fdt_items(fdt) == head + property_items(section_properties(sections@)).take(i as int),
            fdt_depth(fdt) == 2,
            !fdt_ended(fdt),
            fdt_node_depth(data_sections) == 2,
            fdt_node_depth(root) == 1,
            fdt_size(fdt) <= 673 + encode_utf8(cmdline@).len() + 55 * i,
            forall|k: int| 0 <= k < i ==> !unnameable()(#[trigger] sections@[k]),
        decreases sections@.len() - i,
    {
        match sections.entry(i) {
            Some(section) => {
                let range: [u32; 2] = [section.start, section.end];
                assert(range@ =~= seq![section.start, section.end]);
                let written = checked(
                    fdt.property_array_u32(section.name.as_str(), range.as_slice()),
                );
                proof {
                    if written is Err {
                        lemma_zero_byte(section.name@);
                        if unnameable()(sections@[i as int]) {
                            lemma_first_match_at(sections@, unnameable(), i as int);
                        }
                    } else {
                        let all = property_items(section_properties(sections@));
                        assert(all.take(i as int + 1) =~= all.take(i as int).push(all[i as int]));
                    }
                }
                written?;
            },
            None => {},
        }
        i = i + 1;
    }
    proof {
        lemma_first_match_none(sections@, unnameable());
        let all = property_items(section_properties(sections@));
        assert(all.take(i as int) =~= all);
    }
    checked(fdt.end_node(data_sections))?;
    checked(fdt.end_node(root))?;
    proof {
        let c = tree.children;
        assert(c.last() == data_sections_node(sections@));
        assert(fdt_items(fdt) =~= tree_items(tree));
    }
    checked(fdt.finish())
}

/// `rand::Rng::fill` on the thread-local generator of `rand::thread_rng`:
/// eight 64-bit values from a cryptographically strong source. Nothing is
/// claimed of the values.
#[verifier::external_body]
fn random_seed() -> (seed: [u64; 8]) {
    let mut seed = [0u64; 8];
    rand::Rng::fill(&mut rand::thread_rng(), &mut seed);
    seed
}

/// `num_cpus::get`: the number of logical CPUs that this process may use,
/// which the crate documents to be at least one.
#[verifier::external_body]
fn available_cpus() -> (n: usize)
    ensures
        n >= 1,
{
    num_cpus::get()
}

/// Writes the description with a fresh random seed.
pub fn build(cmdline: &str, sections: &Sections, memory_size_bytes: u32, cpu_count: u32) -> (r:
    Result<Vec<u8>, EncodingError>)
    ensures
        exists|seed: Seq<u64>|
            seed.len() == seed_len() && #[trigger] build_result(
                cmdline@,
                sections@,
                memory_size_bytes,
                cpu_count,
                seed,
                blob_of(r),
            ),
{
    let seed = random_seed();
    build_with_seed(cmdline, sections, memory_size_bytes, cpu_count, &seed)
}

/// A number of CPUs as it stands in the description: cut to one cell.
pub open spec fn cpu_cell(cpus: usize) -> u32 {
    cpus as u32
}

/// Writes the description of this machine: as many CPUs as the process may
/// use, which is at least one, and a fresh random seed.
pub fn create_devicetree(cmdline: &str, sections: &Sections, memory_size_bytes: u32) -> (r: Result<
    Vec<u8>,
    EncodingError,
>)
    ensures
        exists|cpus: usize, seed: Seq<u64>|
            cpus >= 1 && seed.len() == seed_len() && #[trigger] build_result(
                cmdline@,
                sections@,
                memory_size_bytes,
                cpu_cell(cpus),
                seed,
                blob_of(r),
            ),
{
    let cpus = available_cpus();
    let cpu_count = #[verifier::truncate]
    (cpus as u32);
    let r = build(cmdline, sections, memory_size_bytes, cpu_count);
    proof {
        let seed = choose|seed: Seq<u64>|
            seed.len() == seed_len() && #[trigger] build_result(
                cmdline@,
                sections@,
                memory_size_bytes,
                cpu_count,
                seed,
                blob_of(r),
            );
        assert(build_result(
            cmdline@,
            sections@,
            memory_size_bytes,
            cpu_cell(cpus),
            seed,
            blob_of(r),
        ));
    }
    r
}

/// Two cells are written as the four bytes of the first and then the four
/// bytes of the second.
pub proof fn lemma_cell_pair(first: u32, second: u32)
    ensures
        be32_cells(seq![first, second]) == be32(first) + be32(second),
{
    let cells = seq![first, second];
    let bytes = be32_cells(cells);
    let joined = be32(first) + be32(second);
    assert(bytes.len() == 8);
    assert forall|i: int| 0 <= i < 8 implies bytes[i] == joined[i] by {
        if i < 4 {
            assert(i / 4 == 0 && i % 4 == i);
        } else {
            assert(i / 4 == 1 && i % 4 == i - 4);
        }
    }
    assert(bytes =~= joined);
}

/// The root of every description has exactly four children: `chosen`,
/// `aliases`, `memory` and `data-sections`, in this order; `aliases` is empty,
/// and `chosen` carries the seed and the boot arguments as a closed string.
pub proof fn lemma_description_shape(
    cmdline: Seq<char>,
    sections: Seq<SectionView>,
    memory_size_bytes: u32,
    cpu_count: u32,
    seed: Seq<u64>,
)
    ensures
        ({
            let tree = description(cmdline, sections, memory_size_bytes, cpu_count, seed);
            &&& tree.children.len() == 4
            &&& tree.children[0].name == "chosen"@
            &&& tree.children[1].name == "aliases"@
            &&& tree.children[2].name == "memory"@
            &&& tree.children[3].name == "data-sections"@
            &&& tree.children[1].properties.len() == 0
            &&& tree.children[0].properties[1] == PropertyView {
                name: "bootargs"@,
                value: encode_utf8(cmdline).push(0u8),
            }
            &&& tree.properties[2] == PropertyView { name: "ncpus"@, value: be32(cpu_count) }
        }),
{
}

/// The `data-sections` node of a description holds exactly one property for
/// each data section: it is named like the section and holds the section's
/// start and end, four bytes each, and no other property of the node carries
/// that name.
pub proof fn lemma_one_property_per_section(
    cmdline: Seq<char>,
    sections: Seq<SectionView>,
    memory_size_bytes: u32,
    cpu_count: u32,
    seed: Seq<u64>,
)
    requires
        distinct_names(sections),
    ensures
        ({
            let node = description(
                cmdline,
                sections,
                memory_size_bytes,
                cpu_count,
                seed,
            ).children[3];
            &&& node.name == "data-sections"@
            &&& node.properties.len() == sections.len()
            &&& forall|i: int|
                0 <= i < sections.len() ==> #[trigger] node.properties[i] == (PropertyView {
                    name: sections[i].name,
                    value: be32(sections[i].start) + be32(sections[i].end),
                })
            &&& forall|i: int, j: int|
                0 <= i < sections.len() && 0 <= j < sections.len() && i != j ==> (
                #[trigger] node.properties[i]).name != (#[trigger] node.properties[j]).name
        }),
{
    let node = description(cmdline, sections, memory_size_bytes, cpu_count, seed).children[3];
    assert forall|i: int| 0 <= i < sections.len() implies #[trigger] node.properties[i] == (
    PropertyView {
        name: sections[i].name,
        value: be32(sections[i].start) + be32(sections[i].end),
    }) by {
        lemma_cell_pair(sections[i].start, sections[i].end);
    }
    assert forall|i: int, j: int|
        0 <= i < sections.len() && 0 <= j < sections.len() && i != j implies (
    #[trigger] node.properties[i]).name != (#[trigger] node.properties[j]).name by {
        assert(node.properties[i].name == sections[i].name);
        assert(node.properties[j].name == sections[j].name);
    }
}

/// The range under a name in the sections is the value of the property of
/// that name in the `data-sections` node, and a name without a section has
/// no property there.
pub proof fn lemma_section_lookup(
    cmdline: Seq<char>,
    sections: Seq<SectionView>,
    memory_size_bytes: u32,
    cpu_count: u32,
    seed: Seq<u64>,
    name: Seq<char>,
)
    ensures
        ({
            let node = description(
                cmdline,
                sections,
                memory_size_bytes,
                cpu_count,
                seed,
            ).children[3];
            match lookup(sections, name) {
                Some((start, end)) => exists|i: int|
                    0 <= i < node.properties.len() && #[trigger] node.properties[i]
                        == (PropertyView { name, value: be32(start) + be32(end) }),
                None => forall|i: int|
                    0 <= i < node.properties.len() ==> (#[trigger] node.properties[i]).name
                        != name,
            }
        }),
{
    let node = description(cmdline, sections, memory_size_bytes, cpu_count, seed).children[3];
    lemma_first_match(sections, named(name));
    let at = position_of(sections, name);
    if at < sections.len() {
        lemma_cell_pair(sections[at].start, sections[at].end);
        assert(node.properties[at] == PropertyView {
            name,
            value: be32(sections[at].start) + be32(sections[at].end),
        });
    } else {
        assert forall|i: int| 0 <= i < node.properties.len() implies (
        #[trigger] node.properties[i]).name != name by {
            assert(!named(name)(sections[i]));
        }
    }
}

/// The `memory` node of a description is of device type `memory`, and its
/// `reg` property holds the base zero and the memory size, four bytes each.
pub proof fn lemma_memory_region(
    cmdline: Seq<char>,
    sections: Seq<SectionView>,
    memory_size_bytes: u32,
    cpu_count: u32,
    seed: Seq<u64>,
)
    ensures
        ({
            let node = description(
                cmdline,
                sections,
                memory_size_bytes,
                cpu_count,
                seed,
            ).children[2];
            &&& node.name == "memory"@
            &&& node.properties.len() == 2
            &&& node.properties[0] == PropertyView {
                name: "device_type"@,
                value: encode_utf8("memory"@).push(0u8),
            }
            &&& node.properties[1] == PropertyView {
                name: "reg"@,
                value: be32(0) + be32(memory_size_bytes),
            }
        }),
{
    lemma_cell_pair(0, memory_size_bytes);
}

} // verus!
