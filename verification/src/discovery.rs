use vstd::prelude::*;
use vstd::string::StrSliceExecFns;
use crate::bundle::PARAM_PREFIX;
use crate::encoder::{MysteryParam, MysteryParamView, MAX_BITS};
use crate::expressions::NUM_SHAPES;
use crate::oscjson::{lemma_entries_view, OscJsonEntryView, OscJsonNode, OscJsonNodeView};
use crate::pattern::{captures_view, regex_captures, Pattern};
use crate::sranipal::{channel_index, resolve_channel};
use crate::text::{owned, str_eq};

verus! {

/// The shape of a leaf name: a channel name, then nothing, `Negative`, or digits.
pub const FT_PARAMS_PATTERN: &'static str = r"^(.+?)(Negative|\d+)?$";

/// Suffix of the leaf that carries the sign.
pub const NEGATIVE_SUFFIX: &'static str = "Negative";

/// Which part of a descriptor a leaf fills.
#[derive(Clone, Copy, Debug, PartialEq, Eq, Structural)]
pub enum Slot {
    /// The address of the value itself.
    Main,
    /// The address of the sign.
    Negative,
    /// The address of one bit.
    Bit(usize),
}

/// One descriptor per channel, or none.
pub type TableView = Seq<Option<MysteryParamView>>;

/// What a table of descriptors holds.
pub open spec fn table_view(table: Seq<Option<MysteryParam>>) -> TableView {
    table.map_values(
        |p: Option<MysteryParam>|
            match p {
                Some(x) => Some(x@),
                None => None,
            },
    )
}

/// A table has one place for every channel, and its descriptors are well formed.
pub open spec fn table_wf(table: TableView) -> bool {
    &&& table.len() == NUM_SHAPES
    &&& forall|i: int| 0 <= i < table.len() ==> ((#[trigger] table[i]) matches Some(p) ==> p.wf())
}

/// The table that holds no descriptor.
pub open spec fn empty_table() -> TableView {
    Seq::new(NUM_SHAPES as nat, |i: int| None)
}

/// The number that the decimal digits `s[..upto]` write, if they are all
/// digits from `0` to `9`.
pub open spec fn digits_value(s: Seq<char>, upto: int) -> Option<nat>
    decreases upto,
{
    if upto <= 0 || upto > s.len() {
        Some(0)
    } else {
        let c = s[upto - 1];
        match digits_value(s, upto - 1) {
            Some(v) => if '0' <= c <= '9' {
                Some((10 * v + (c as nat - '0' as nat)) as nat)
            } else {
                None
            },
            None => None,
        }
    }
}

/// The bit that the power of two `v` stands for, if it is one of the eight bits.
pub open spec fn bit_of_power(v: nat) -> Option<usize> {
    if v == 1 {
        Some(0)
    } else if v == 2 {
        Some(1)
    } else if v == 4 {
        Some(2)
    } else if v == 8 {
        Some(3)
    } else if v == 16 {
        Some(4)
    } else if v == 32 {
        Some(5)
    } else if v == 64 {
        Some(6)
    } else if v == 128 {
        Some(7)
    } else {
        None
    }
}

/// The part of a descriptor that a leaf with this suffix fills: none for a
/// suffix that is neither `Negative` nor the decimal form of one of the
/// powers of two from 1 to 128.
pub open spec fn slot_of(suffix: Option<Seq<char>>) -> Option<Slot> {
    match suffix {
        None => Some(Slot::Main),
        Some(s) => if s == NEGATIVE_SUFFIX@ {
            Some(Slot::Negative)
        } else {
            match digits_value(s, s.len() as int) {
                Some(v) => match bit_of_power(v) {
                    Some(k) => Some(Slot::Bit(k)),
                    None => None,
                },
                None => None,
            }
        },
    }
}

/// The address below the parameter prefix: the path without its first
/// characters, as many as the prefix has; none for a shorter path.
pub open spec fn address_of(full_path: Seq<char>) -> Option<Seq<char>> {
    if full_path.len() >= PARAM_PREFIX@.len() {
        Some(full_path.skip(PARAM_PREFIX@.len() as int))
    } else {
        None
    }
}

/// The descriptor for the channel `name` that names no address yet.
pub open spec fn fresh_descriptor(name: Seq<char>) -> MysteryParamView {
    MysteryParamView {
        name,
        main_address: None,
        addresses: Seq::new(MAX_BITS as nat, |i: int| None),
        neg_address: None,
        num_bits: 0,
        last_value: 0,
        last_bits: Seq::new(MAX_BITS as nat, |i: int| false),
        last_negative: false,
    }
}

/// The descriptor `p` with `addr` recorded in `slot`; a bit address also
/// raises the bit count to cover that bit.
pub open spec fn with_address(p: MysteryParamView, slot: Slot, addr: Seq<char>) -> MysteryParamView {
    match slot {
        Slot::Main => MysteryParamView { main_address: Some(addr), ..p },
        Slot::Negative => MysteryParamView { neg_address: Some(addr), ..p },
        Slot::Bit(k) => MysteryParamView {
            addresses: p.addresses.update(k as int, Some(addr)),
            num_bits: if p.num_bits > k {
                p.num_bits
            } else {
                (k + 1) as nat
            },
            ..p
        },
    }
}

/// The channel, the slot and the address that a leaf stands for, given what
/// the name pattern captured in its name: the first group is resolved
/// against the channel names, the second group picks the slot. None where
/// the name did not match, names no channel, carries a suffix that is no
/// slot, or the path is too short to hold an address.
pub open spec fn leaf_target(groups: Option<Seq<Option<Seq<char>>>>, full_path: Seq<char>) -> Option<
    (usize, Slot, Seq<char>),
> {
    match groups {
        Some(g) => if g.len() == 3 && g[1] is Some {
            match (channel_index(g[1]->0), slot_of(g[2]), address_of(full_path)) {
                (Some(idx), Some(slot), Some(addr)) => Some((idx, slot, addr)),
                _ => None,
            }
        } else {
            None
        },
        None => None,
    }
}

/// The table after a leaf was taken in: the descriptor of its channel, made
/// fresh under the captured channel name where there was none, has the
/// leaf's address in the leaf's slot. A leaf that stands for nothing leaves
/// the table as it is.
pub open spec fn leaf_outcome(
    table: TableView,
    groups: Option<Seq<Option<Seq<char>>>>,
    full_path: Seq<char>,
) -> TableView {
    match leaf_target(groups, full_path) {
        Some((idx, slot, addr)) => {
            let before = match table[idx as int] {
                Some(p) => p,
                None => fresh_descriptor(groups->0[1]->0),
            };
            table.update(idx as int, Some(with_address(before, slot, addr)))
        },
        None => table,
    }
}

/// The table after the leaf called `name` at `full_path` was taken in.
pub open spec fn leaf_effect(table: TableView, name: Seq<char>, full_path: Seq<char>) -> TableView {
    leaf_outcome(table, regex_captures(FT_PARAMS_PATTERN@, name), full_path)
}

/// The table after the node called `name` was walked: a node with children
/// hands the table through its children in order, a leaf is taken in.
pub open spec fn node_effect(table: TableView, name: Seq<char>, node: OscJsonNodeView) -> TableView
    decreases node,
{
    match node.contents {
        Some(entries) => entries_effect(table, entries, entries.len() as int),
        None => leaf_effect(table, name, node.full_path),
    }
}

/// The table after the first `upto` entries were walked, in order.
pub open spec fn entries_effect(table: TableView, entries: Seq<OscJsonEntryView>, upto: int) -> TableView
    decreases entries, upto,
{
    if upto <= 0 || upto > entries.len() {
        table
    } else {
        node_effect(
            entries_effect(table, entries, upto - 1),
            entries[upto - 1].name,
            entries[upto - 1].node,
        )
    }
}

/// The table that a parameter tree gives: built from nothing, out of what
/// lies below the child `parameters` of the root.
pub open spec fn discovered(root: OscJsonNodeView) -> TableView {
    match root.child("parameters"@) {
        Some(parameters) => node_effect(empty_table(), "parameters"@, parameters),
        None => empty_table(),
    }
}

/// Whether a leaf below the node called `name` stands for the channel at `x`.
pub open spec fn node_announces(name: Seq<char>, node: OscJsonNodeView, x: int) -> bool
    decreases node,
{
    match node.contents {
        Some(entries) => entries_announce(entries, entries.len() as int, x),
        None => leaf_target(regex_captures(FT_PARAMS_PATTERN@, name), node.full_path) matches Some(
            t,
        ) && t.0 == x,
    }
}

/// Whether a leaf below one of the first `upto` entries stands for the channel at `x`.
pub open spec fn entries_announce(entries: Seq<OscJsonEntryView>, upto: int, x: int) -> bool
    decreases entries, upto,
{
    if upto <= 0 || upto > entries.len() {
        false
    } else {
        entries_announce(entries, upto - 1, x) || node_announces(
            entries[upto - 1].name,
            entries[upto - 1].node,
            x,
        )
    }
}

/// Whether the tree holds a leaf that stands for the channel at `x`.
pub open spec fn announces(root: OscJsonNodeView, x: int) -> bool {
    match root.child("parameters"@) {
        Some(parameters) => node_announces("parameters"@, parameters, x),
        None => false,
    }
}

proof fn lemma_node_keeps_others(table: TableView, name: Seq<char>, node: OscJsonNodeView, x: int)
    requires
        table.len() == NUM_SHAPES,
        0 <= x < NUM_SHAPES,
        !node_announces(name, node, x),
    ensures
        node_effect(table, name, node).len() == NUM_SHAPES,
        node_effect(table, name, node)[x] == table[x],
    decreases node, 0int,
{
    match node.contents {
        Some(entries) => {
            lemma_entries_keep_others(table, entries, entries.len() as int, x);
        },
        None => {
            lemma_leaf_len(table, regex_captures(FT_PARAMS_PATTERN@, name), node.full_path);
        },
    }
}

proof fn lemma_entries_keep_others(
    table: TableView,
    entries: Seq<OscJsonEntryView>,
    upto: int,
    x: int,
)
    requires
        table.len() == NUM_SHAPES,
        0 <= x < NUM_SHAPES,
        0 <= upto <= entries.len(),
        !entries_announce(entries, upto, x),
    ensures
        entries_effect(table, entries, upto).len() == NUM_SHAPES,
        entries_effect(table, entries, upto)[x] == table[x],
    decreases entries, upto,
{
    if upto > 0 {
        lemma_entries_keep_others(table, entries, upto - 1, x);
        lemma_node_keeps_others(
            entries_effect(table, entries, upto - 1),
            entries[upto - 1].name,
            entries[upto - 1].node,
            x,
        );
    }
}

proof fn lemma_leaf_len(table: TableView, groups: Option<Seq<Option<Seq<char>>>>, full_path: Seq<char>)
    requires
        table.len() == NUM_SHAPES,
    ensures
        leaf_outcome(table, groups, full_path).len() == NUM_SHAPES,
{
    crate::sranipal::lemma_channel_index_in_range();
}

/// Discovery forgets: a channel that no leaf of the announced tree stands
/// for has no descriptor after the rebuild, whatever it had before.
pub proof fn lemma_rebuild_clears_stale(root: OscJsonNodeView, x: int)
    requires
        0 <= x < NUM_SHAPES,
        !announces(root, x),
    ensures
        discovered(root).len() == NUM_SHAPES,
        discovered(root)[x] is None,
{
    match root.child("parameters"@) {
        Some(parameters) => {
            lemma_node_keeps_others(empty_table(), "parameters"@, parameters, x);
        },
        None => {},
    }
}

/// Above this the value of a digit string is no longer counted exactly.
const DIGITS_CAP: u64 = 1000;

/// The bit that a digit string stands for, if it writes one of the powers
/// of two from 1 to 128.
pub fn bit_position(digits: &str) -> (r: Option<usize>)
    ensures
        r == match digits_value(digits@, digits@.len() as int) {
            Some(v) => bit_of_power(v),
            None => None,
        },
        r matches Some(k) ==> k < MAX_BITS,
{
    let n: usize = digits.unicode_len();
    let mut value: u64 = 0;
    let mut i: usize = 0;
    while i < n
        invariant
            i <= n,
            n == digits@.len(),
            value <= DIGITS_CAP,
            digits_value(digits@, i as int) matches Some(v) && value == if v < DIGITS_CAP {
                v
            } else {
                DIGITS_CAP as nat
            },
        decreases n - i,
    {
        let c: char = digits.get_char(i);
        if c < '0' || c > '9' {
            proof {
                lemma_digits_fail(digits@, i as int + 1, n as int);
            }
            return None;
        }
        let d: u64 = (c as u32 - '0' as u32) as u64;
        let next: u64 = value * 10 + d;
        value = if next < DIGITS_CAP {
            next
        } else {
            DIGITS_CAP
        };
        i += 1;
    }
    if value == 1 {
        Some(0)
    } else if value == 2 {
        Some(1)
    } else if value == 4 {
        Some(2)
    } else if value == 8 {
        Some(3)
    } else if value == 16 {
        Some(4)
    } else if value == 32 {
        Some(5)
    } else if value == 64 {
        Some(6)
    } else if value == 128 {
        Some(7)
    } else {
        None
    }
}

proof fn lemma_digits_fail(s: Seq<char>, at: int, upto: int)
    requires
        0 < at <= upto <= s.len(),
        digits_value(s, at) is None,
    ensures
        digits_value(s, upto) is None,
    decreases upto,
{
    if at < upto {
        lemma_digits_fail(s, at, upto - 1);
    }
}

/// The part of a descriptor that a leaf with this suffix fills.
pub fn slot_for(suffix: &Option<String>) -> (r: Option<Slot>)
    ensures
        r == slot_of(crate::encoder::text_view(*suffix)),
        r matches Some(Slot::Bit(k)) ==> k < MAX_BITS,
{
    match suffix {
        None => Some(Slot::Main),
        Some(s) => {
            if str_eq(s.as_str(), NEGATIVE_SUFFIX) {
                Some(Slot::Negative)
            } else {
                match bit_position(s.as_str()) {
                    Some(k) => Some(Slot::Bit(k)),
                    None => None,
                }
            }
        },
    }
}

/// The address below the parameter prefix.
pub fn strip_address(full_path: &str) -> (r: Option<String>)
    ensures
        crate::encoder::text_view(r) == address_of(full_path@),
{
    let n: usize = full_path.unicode_len();
    let skip: usize = PARAM_PREFIX.unicode_len();
    if n >= skip {
        let rest = full_path.substring_char(skip, n);
        assert(rest@ =~= full_path@.skip(skip as int));
        Some(owned(rest))
    } else {
        None
    }
}

/// Records `addr` in `slot` of the descriptor.
pub fn record_address(p: &mut MysteryParam, slot: Slot, addr: String)
    requires
        old(p).wf(),
        slot matches Slot::Bit(k) ==> k < MAX_BITS,
    ensures
        final(p)@ == with_address(old(p)@, slot, addr@),
        final(p).wf(),
{
    match slot {
        Slot::Main => {
            p.main_address = Some(addr);
        },
        Slot::Negative => {
            p.neg_address = Some(addr);
        },
        Slot::Bit(k) => {
            p.addresses[k] = Some(addr);
            if p.num_bits <= k {
                p.num_bits = k + 1;
            }
            assert(p@.addresses =~= old(p)@.addresses.update(k as int, Some(addr@)));
        },
    }
}

/// Takes one leaf in, given what the name pattern captured in its name.
pub fn apply_leaf(
    table: &mut Vec<Option<MysteryParam>>,
    groups: &Option<Vec<Option<String>>>,
    full_path: &str,
)
    requires
        table_wf(table_view(old(table)@)),
    ensures
        table_view(final(table)@) == leaf_outcome(
            table_view(old(table)@),
            captures_view(*groups),
            full_path@,
        ),
        table_wf(table_view(final(table)@)),
{
    let ghost before = table_view(table@);
    if let Some(g) = groups {
        if g.len() == 3 {
            if let Some(main) = &g[1] {
                let target = resolve_channel(main.as_str());
                let slot = slot_for(&g[2]);
                let addr = strip_address(full_path);
                if let (Some(idx), Some(slot), Some(addr)) = (target, slot, addr) {
                    assert(before[idx as int] matches Some(q) ==> q.wf());
                    let mut p = match table[idx].take() {
                        Some(p) => p,
                        None => {
                            let fresh = MysteryParam::new(main.clone());
                            assert(fresh@.addresses =~= fresh_descriptor(main@).addresses);
                            assert(fresh@.last_bits =~= fresh_descriptor(main@).last_bits);
                            fresh
                        },
                    };
                    record_address(&mut p, slot, addr);
                    table[idx] = Some(p);
                    assert(table_view(table@) =~= leaf_outcome(
                        before,
                        captures_view(*groups),
                        full_path@,
                    ));
                    return ;
                }
            }
        }
    }
    assert(table_view(table@) =~= before);
}

/// Walks the node called `name` and takes in every leaf below it.
fn process_node_recursive(
    table: &mut Vec<Option<MysteryParam>>,
    pattern: &Pattern,
    name: &str,
    node: &OscJsonNode,
)
    requires
        table_wf(table_view(old(table)@)),
        pattern@ == FT_PARAMS_PATTERN@,
    ensures
        table_view(final(table)@) == node_effect(table_view(old(table)@), name@, node@),
        table_wf(table_view(final(table)@)),
    decreases node,
{
    match &node.contents {
        Some(v) => {
            let ghost entries = node@.contents->0;
            proof {
                lemma_entries_view(v@, v@.len() as int);
            }
            let mut i: usize = 0;
            while i < v.len()
                invariant
                    i <= v@.len(),
                    node.contents == Some(*v),
                    pattern@ == FT_PARAMS_PATTERN@,
                    entries == node@.contents->0,
                    entries.len() == v@.len(),
                    forall|j: int| 0 <= j < v@.len() ==> (#[trigger] entries[j]) == v@[j]@,
                    table_wf(table_view(table@)),
                    table_view(table@) == entries_effect(
                        table_view(old(table)@),
                        entries,
                        i as int,
                    ),
                decreases v@.len() - i,
            {
                proof {
                    assert(decreases_to!(node => node.contents));
                    assert(decreases_to!(node.contents => node.contents->0));
                    assert(decreases_to!(*v => v[i as int]));
                    assert(decreases_to!(v[i as int] => v[i as int].node));
                }
                process_node_recursive(table, pattern, v[i].name.as_str(), &v[i].node);
                i += 1;
            }
        },
        None => {
            let groups = pattern.captures(name);
            apply_leaf(table, &groups, node.full_path.as_str());
        },
    }
}

/// Checks that a table has one place for every channel and that its
/// descriptors are well formed.
pub fn table_is_wf(table: &Vec<Option<MysteryParam>>) -> (r: bool)
    ensures
        r == table_wf(table_view(table@)),
{
    if table.len() != NUM_SHAPES {
        return false;
    }
    let mut i: usize = 0;
    while i < NUM_SHAPES
        invariant
            i <= NUM_SHAPES,
            table@.len() == NUM_SHAPES,
            forall|j: int| 0 <= j < i ==> ((#[trigger] table_view(table@)[j]) matches Some(p) ==> p.wf()),
        decreases NUM_SHAPES - i,
    {
        if let Some(p) = &table[i] {
            if !p.is_wf() {
                assert(table_view(table@)[i as int] == Some(p@));
                return false;
            }
        }
        i += 1;
    }
    true
}

/// A table with no descriptor in it.
pub fn cleared_table() -> (table: Vec<Option<MysteryParam>>)
    ensures
        table_view(table@) == empty_table(),
        table_wf(table_view(table@)),
{
    let mut table: Vec<Option<MysteryParam>> = Vec::new();
    let mut i: usize = 0;
    while i < NUM_SHAPES
        invariant
            i <= NUM_SHAPES,
            table@.len() == i,
            forall|j: int| 0 <= j < i ==> table@[j] is None,
        decreases NUM_SHAPES - i,
    {
        table.push(None);
        i += 1;
    }
    assert(table_view(table@) =~= empty_table());
    table
}

proof fn lemma_node_without_pattern(table: TableView, name: Seq<char>, node: OscJsonNodeView)
    requires
        forall|text: Seq<char>| regex_captures(FT_PARAMS_PATTERN@, text) is None,
    ensures
        node_effect(table, name, node) == table,
    decreases node, 0int,
{
    match node.contents {
        Some(entries) => {
            lemma_entries_without_pattern(table, entries, entries.len() as int);
        },
        None => {},
    }
}

proof fn lemma_entries_without_pattern(table: TableView, entries: Seq<OscJsonEntryView>, upto: int)
    requires
        forall|text: Seq<char>| regex_captures(FT_PARAMS_PATTERN@, text) is None,
        0 <= upto <= entries.len(),
    ensures
        entries_effect(table, entries, upto) == table,
    decreases entries, upto,
{
    if upto > 0 {
        lemma_entries_without_pattern(table, entries, upto - 1);
        lemma_node_without_pattern(table, entries[upto - 1].name, entries[upto - 1].node);
    }
}

/// Builds the table of descriptors for a parameter tree, from nothing.
pub fn discover(root: &OscJsonNode) -> (table: Vec<Option<MysteryParam>>)
    ensures
        table_view(table@) == discovered(root@),
        table_wf(table_view(table@)),
{
    let mut table = cleared_table();
    if let Some(parameters) = root.child("parameters") {
        match Pattern::compile(FT_PARAMS_PATTERN) {
            Some(pattern) => {
                process_node_recursive(&mut table, &pattern, "parameters", parameters);
            },
            None => {
                proof {
                    lemma_node_without_pattern(empty_table(), "parameters"@, parameters@);
                }
            },
        }
    }
    table
}

} // verus!
