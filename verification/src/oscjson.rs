use vstd::prelude::*;
use vstd::string::StrSliceExecFns;
use crate::bundle::PARAM_PREFIX;
use crate::text::{owned, str_eq, strip_prefix};

verus! {

/// Which avatar a parameter tree is asked for.
#[derive(Clone, Debug, PartialEq, Eq)]
pub enum AvatarIdentifier {
    Default,
    Uid(String),
    Path(String),
}

/// One node of the parameter tree that the avatar runtime announces: a leaf
/// with a type, or an inner node with named children.
#[derive(Debug, PartialEq, Eq)]
pub struct OscJsonNode {
    pub full_path: String,
    pub access: i32,
    pub data_type: Option<String>,
    pub contents: Option<Vec<OscJsonEntry>>,
}

/// A child of a node, under its name.
#[derive(Debug, PartialEq, Eq)]
pub struct OscJsonEntry {
    pub name: String,
    pub node: OscJsonNode,
}

/// What a node holds.
pub struct OscJsonNodeView {
    pub full_path: Seq<char>,
    pub access: i32,
    pub data_type: Option<Seq<char>>,
    pub contents: Option<Seq<OscJsonEntryView>>,
}

/// What a child entry holds.
pub struct OscJsonEntryView {
    pub name: Seq<char>,
    pub node: OscJsonNodeView,
}

/// The views of the first `upto` entries.
pub open spec fn entries_view(entries: Seq<OscJsonEntry>, upto: int) -> Seq<OscJsonEntryView>
    decreases entries, upto,
{
    if upto <= 0 || upto > entries.len() {
        Seq::empty()
    } else {
        entries_view(entries, upto - 1).push(
            OscJsonEntryView {
                name: entries[upto - 1].name@,
                node: entries[upto - 1].node.view(),
            },
        )
    }
}

impl View for OscJsonNode {
    type V = OscJsonNodeView;

    open spec fn view(&self) -> OscJsonNodeView
        decreases self,
    {
        OscJsonNodeView {
            full_path: self.full_path@,
            access: self.access,
            data_type: match self.data_type {
                Some(t) => Some(t@),
                None => None,
            },
            contents: match self.contents {
                Some(v) => Some(entries_view(v@, v@.len() as int)),
                None => None,
            },
        }
    }
}

impl View for OscJsonEntry {
    type V = OscJsonEntryView;

    open spec fn view(&self) -> OscJsonEntryView {
        OscJsonEntryView { name: self.name@, node: self.node@ }
    }
}

pub proof fn lemma_entries_view(entries: Seq<OscJsonEntry>, upto: int)
    requires
        0 <= upto <= entries.len(),
    ensures
        entries_view(entries, upto).len() == upto,
        forall|i: int| 0 <= i < upto ==> (#[trigger] entries_view(entries, upto)[i]) == entries[i]@,
    decreases upto,
{
    reveal_with_fuel(entries_view, 2);
    if upto > 0 {
        lemma_entries_view(entries, upto - 1);
    }
}

/// Position of the first `/` in `s`, or the length of `s` where it has none.
pub open spec fn first_slash(s: Seq<char>) -> int
    decreases s.len(),
{
    if s.len() == 0 {
        0
    } else if s[0] == '/' {
        0
    } else {
        1 + first_slash(s.skip(1))
    }
}

proof fn lemma_first_slash(s: Seq<char>, k: int)
    requires
        0 <= k <= s.len(),
        forall|j: int| 0 <= j < k ==> s[j] != '/',
        k < s.len() ==> s[k] == '/',
    ensures
        first_slash(s) == k,
    decreases k,
{
    if k > 0 {
        lemma_first_slash(s.skip(1), k - 1);
    }
}

/// Position of the first entry called `name`, at or after `from`.
pub open spec fn entry_index(entries: Seq<OscJsonEntryView>, name: Seq<char>, from: int) -> Option<
    int,
>
    decreases entries.len() - from,
{
    if from < 0 || from >= entries.len() {
        None
    } else if entries[from].name == name {
        Some(from)
    } else {
        entry_index(entries, name, from + 1)
    }
}

impl OscJsonNodeView {
    /// The first child called `name`.
    pub open spec fn child(self, name: Seq<char>) -> Option<OscJsonNodeView> {
        match self.contents {
            Some(entries) => match entry_index(entries, name, 0) {
                Some(i) => Some(entries[i].node),
                None => None,
            },
            None => None,
        }
    }

    /// The node reached from here along `path`, whose parts are separated
    /// by `/`; every part, an empty one too, names a child.
    pub open spec fn descend(self, path: Seq<char>) -> Option<OscJsonNodeView>
        decreases path.len(),
    {
        let k = first_slash(path);
        match self.child(path.take(k)) {
            Some(next) => if 0 <= k < path.len() {
                next.descend(path.skip(k + 1))
            } else {
                Some(next)
            },
            None => None,
        }
    }

    /// Whether the tree announces the heartbeat parameter.
    pub open spec fn has_vsync(self) -> bool {
        match self.child("parameters"@) {
            Some(parameters) => parameters.child("VSync"@) is Some,
            None => false,
        }
    }
}

/// The view of a node that may be absent.
pub open spec fn found_view(found: Option<&OscJsonNode>) -> Option<OscJsonNodeView> {
    match found {
        Some(n) => Some(n@),
        None => None,
    }
}

impl OscJsonNode {
    /// A leaf at `full_path`.
    pub fn leaf(full_path: String, access: i32, data_type: Option<String>) -> (n: OscJsonNode)
        ensures
            n@ == (OscJsonNodeView {
                full_path: full_path@,
                access,
                data_type: match data_type {
                    Some(t) => Some(t@),
                    None => None,
                },
                contents: None,
            }),
    {
        OscJsonNode { full_path, access, data_type, contents: None }
    }

    /// The first child called `name`.
    pub fn child(&self, name: &str) -> (r: Option<&OscJsonNode>)
        ensures
            found_view(r) == self@.child(name@),
    {
        match &self.contents {
            None => None,
            Some(v) => {
                let ghost entries = entries_view(v@, v@.len() as int);
                proof {
                    lemma_entries_view(v@, v@.len() as int);
                }
                let mut i: usize = 0;
                while i < v.len()
                    invariant
                        i <= v@.len(),
                        self.contents == Some(*v),
                        entries == entries_view(v@, v@.len() as int),
                        entries.len() == v@.len(),
                        forall|j: int| 0 <= j < v@.len() ==> (#[trigger] entries[j]) == v@[j]@,
                        entry_index(entries, name@, 0) == entry_index(entries, name@, i as int),
                    decreases v@.len() - i,
                {
                    if str_eq(v[i].name.as_str(), name) {
                        return Some(&v[i].node);
                    }
                    i += 1;
                }
                None
            },
        }
    }

    /// The node reached from here along `path`, whose parts are separated by `/`.
    pub fn get(&self, path: &str) -> (r: Option<&OscJsonNode>)
        ensures
            found_view(r) == self@.descend(path@),
        decreases path@.len(),
    {
        let n: usize = path.unicode_len();
        let mut k: usize = 0;
        while k < n && path.get_char(k) != '/'
            invariant
                k <= n,
                n == path@.len(),
                forall|j: int| 0 <= j < k ==> path@[j] != '/',
            decreases n - k,
        {
            k += 1;
        }
        proof {
            lemma_first_slash(path@, k as int);
        }
        let part = path.substring_char(0, k);
        assert(part@ =~= path@.take(k as int));
        match self.child(part) {
            None => None,
            Some(next) => {
                if k < n {
                    let rest = path.substring_char(k + 1, n);
                    assert(rest@ =~= path@.skip(k + 1));
                    next.get(rest)
                } else {
                    Some(next)
                }
            },
        }
    }

    /// Whether the tree announces the heartbeat parameter.
    pub fn has_vsync(&self) -> (r: bool)
        ensures
            r == self@.has_vsync(),
    {
        match self.child("parameters") {
            Some(parameters) => parameters.child("VSync").is_some(),
            None => false,
        }
    }
}

/// An avatar description in the format of the avatar runtime's own files.
#[derive(Clone, Debug, PartialEq, Eq)]
pub struct VRChatAvatarConfig {
    pub id: String,
    pub name: String,
    pub parameters: Vec<VRChatParameter>,
}

/// One parameter of such a description.
#[derive(Clone, Debug, PartialEq, Eq)]
pub struct VRChatParameter {
    pub name: String,
    pub input: Option<VRChatParameterIO>,
    pub output: Option<VRChatParameterIO>,
}

/// Where a parameter is written to or read from, and its type.
#[derive(Clone, Debug, PartialEq, Eq)]
pub struct VRChatParameterIO {
    pub address: String,
    pub param_type: String,
}

/// Access code of a node that can be written to.
pub const ACCESS_WRITE: i32 = 2;

/// The type tag of the tree for a type name of the avatar description: an
/// integer, a boolean, and a real number for anything else.
pub open spec fn osc_type_of(param_type: Seq<char>) -> Seq<char> {
    if param_type == "Int"@ {
        "i"@
    } else if param_type == "Bool"@ {
        "b"@
    } else {
        "f"@
    }
}

/// `entries` with `entry` in the place of the first entry of the same name,
/// or at the end where there is none.
pub open spec fn upsert(entries: Seq<OscJsonEntryView>, entry: OscJsonEntryView) -> Seq<
    OscJsonEntryView,
> {
    match entry_index(entries, entry.name, 0) {
        Some(i) => entries.update(i, entry),
        None => entries.push(entry),
    }
}

/// The leaf that stands for a parameter written to at `input`, under the
/// name it has below the parameter prefix, or under the parameter's own name
/// where its address lies elsewhere.
pub open spec fn converted_entry(name: Seq<char>, input: VRChatParameterIO) -> OscJsonEntryView {
    OscJsonEntryView {
        name: if PARAM_PREFIX@.is_prefix_of(input.address@) {
            input.address@.skip(PARAM_PREFIX@.len() as int)
        } else {
            name
        },
        node: OscJsonNodeView {
            full_path: input.address@,
            access: ACCESS_WRITE,
            data_type: Some(osc_type_of(input.param_type@)),
            contents: None,
        },
    }
}

/// The leaves for the first `upto` parameters: one for each parameter that
/// can be written to, a later one replacing an earlier one of the same name.
pub open spec fn converted_entries(params: Seq<VRChatParameter>, upto: int) -> Seq<
    OscJsonEntryView,
>
    decreases upto,
{
    if upto <= 0 || upto > params.len() {
        Seq::empty()
    } else {
        let before = converted_entries(params, upto - 1);
        match params[upto - 1].input {
            Some(input) => upsert(before, converted_entry(params[upto - 1].name@, input)),
            None => before,
        }
    }
}

/// The parameter tree that says what an avatar description says.
pub open spec fn converted(config: VRChatAvatarConfig) -> OscJsonNodeView {
    OscJsonNodeView {
        full_path: "/avatar"@,
        access: 0,
        data_type: None,
        contents: Some(
            seq![
                OscJsonEntryView {
                    name: "parameters"@,
                    node: OscJsonNodeView {
                        full_path: "/avatar/parameters"@,
                        access: 0,
                        data_type: None,
                        contents: Some(
                            converted_entries(config.parameters@, config.parameters@.len() as int),
                        ),
                    },
                },
            ],
        ),
    }
}

/// Puts `node` under `name` among `entries`: in the place of the first entry
/// of that name, or at the end.
pub fn put_entry(entries: &mut Vec<OscJsonEntry>, name: String, node: OscJsonNode)
    ensures
        entries_view(final(entries)@, final(entries)@.len() as int) == upsert(
            entries_view(old(entries)@, old(entries)@.len() as int),
            OscJsonEntryView { name: name@, node: node@ },
        ),
{
    let ghost before = entries_view(entries@, entries@.len() as int);
    let ghost entry = OscJsonEntryView { name: name@, node: node@ };
    proof {
        lemma_entries_view(entries@, entries@.len() as int);
    }
    let mut i: usize = 0;
    while i < entries.len()
        invariant
            i <= entries@.len(),
            entries@ == old(entries)@,
            entry == (OscJsonEntryView { name: name@, node: node@ }),
            before == entries_view(old(entries)@, old(entries)@.len() as int),
            before.len() == entries@.len(),
            forall|j: int| 0 <= j < entries@.len() ==> (#[trigger] before[j]) == entries@[j]@,
            entry_index(before, name@, 0) == entry_index(before, name@, i as int),
        decreases entries@.len() - i,
    {
        if str_eq(entries[i].name.as_str(), name.as_str()) {
            entries[i] = OscJsonEntry { name, node };
            proof {
                lemma_entries_view(entries@, entries@.len() as int);
                assert(entries_view(entries@, entries@.len() as int) =~= before.update(
                    i as int,
                    entry,
                ));
            }
            return ;
        }
        i += 1;
    }
    entries.push(OscJsonEntry { name, node });
    proof {
        lemma_entries_view(entries@, entries@.len() as int);
        assert(entries_view(entries@, entries@.len() as int) =~= before.push(entry));
    }
}

/// The type tag of the tree for a type name of the avatar description.
pub fn osc_type(param_type: &str) -> (r: &'static str)
    ensures
        r@ == osc_type_of(param_type@),
{
    if str_eq(param_type, "Int") {
        "i"
    } else if str_eq(param_type, "Bool") {
        "b"
    } else {
        "f"
    }
}

/// Turns an avatar description into the parameter tree that says the same.
pub fn convert_vrchat_to_oscquery(vrchat_config: VRChatAvatarConfig) -> (root: OscJsonNode)
    ensures
        root@ == converted(vrchat_config),
{
    let mut leaves: Vec<OscJsonEntry> = Vec::new();
    let mut i: usize = 0;
    while i < vrchat_config.parameters.len()
        invariant
            i <= vrchat_config.parameters@.len(),
            entries_view(leaves@, leaves@.len() as int) == converted_entries(
                vrchat_config.parameters@,
                i as int,
            ),
        decreases vrchat_config.parameters@.len() - i,
    {
        let param = &vrchat_config.parameters[i];
        if let Some(input) = &param.input {
            let name = match strip_prefix(input.address.as_str(), PARAM_PREFIX) {
                Some(rest) => owned(rest),
                None => param.name.clone(),
            };
            let node = OscJsonNode::leaf(
                input.address.clone(),
                ACCESS_WRITE,
                Some(owned(osc_type(input.param_type.as_str()))),
            );
            put_entry(&mut leaves, name, node);
        }
        i += 1;
    }
    let parameters = OscJsonNode {
        full_path: owned("/avatar/parameters"),
        access: 0,
        data_type: None,
        contents: Some(leaves),
    };
    let mut top: Vec<OscJsonEntry> = Vec::new();
    top.push(OscJsonEntry { name: owned("parameters"), node: parameters });
    let root = OscJsonNode {
        full_path: owned("/avatar"),
        access: 0,
        data_type: None,
        contents: Some(top),
    };
    proof {
        lemma_entries_view(top@, 1);
        assert(root@.contents->0 =~= converted(vrchat_config).contents->0);
    }
    root
}

} // verus!
