//! The file that the artifact of a group is written to.

use vstd::prelude::*;
use vstd::string::StringExecFns;
use crate::group::{GroupedResults, Key};

verus! {

/// What kind of artifact is rendered.
#[derive(Clone, Copy, Debug, PartialEq, Eq, Structural)]
pub enum RenderMode {
    /// Generated source code.
    Source,
    /// A report page.
    Report,
}

/// What the path is that the caller supplied.
#[derive(Clone, Copy, Debug, PartialEq, Eq, Structural)]
pub enum PathKind {
    /// One file, which every group is written to.
    File,
    /// A directory, in which every group gets a file of its own.
    Directory,
}

/// Where and how the artifact of a group is written. Without a file name the
/// artifact goes to the supplied path itself; with one, to the file of that
/// name in the supplied directory.
#[derive(Clone, Debug, PartialEq, Eq)]
pub struct OutputTarget {
    pub file_name: Option<String>,
    pub mode: RenderMode,
}

/// What an [`OutputTarget`] says.
pub ghost struct TargetSpec {
    pub file_name: Option<Seq<char>>,
    pub mode: RenderMode,
}

impl View for OutputTarget {
    type V = TargetSpec;

    open spec fn view(&self) -> TargetSpec {
        TargetSpec {
            file_name: match self.file_name {
                Some(text) => Some(text@),
                None => None,
            },
            mode: self.mode,
        }
    }
}

/// What `inflector::cases::snakecase::to_snake_case` makes of a text.
pub uninterp spec fn snake_case_of(text: Seq<char>) -> Seq<char>;

/// Calls `inflector::cases::snakecase::to_snake_case` and hands back what it
/// gave: the text in snake case.
#[verifier::external_body]
fn to_snake_case(text: &str) -> (r: String)
    ensures
        r@ == snake_case_of(text@),
{
    inflector::cases::snakecase::to_snake_case(text)
}

/// The extension of the files of a mode.
pub open spec fn extension(mode: RenderMode) -> Seq<char> {
    match mode {
        RenderMode::Source => "rs"@,
        RenderMode::Report => "html"@,
    }
}

/// Another instance of the pallet is among the keys.
pub open spec fn has_sibling(keys: Seq<Key>, pallet: Seq<char>, instance: Seq<char>) -> bool {
    exists|i: int| 0 <= i < keys.len() && (#[trigger] keys[i]).0 == pallet && keys[i].1 != instance
}

/// The file name of a group without its extension: the pallet, followed by
/// the instance in snake case where the pallet has another instance.
pub open spec fn file_stem(keys: Seq<Key>, pallet: Seq<char>, instance: Seq<char>) -> Seq<char> {
    if has_sibling(keys, pallet, instance) {
        pallet + "_"@ + snake_case_of(instance)
    } else {
        pallet
    }
}

/// The file name of a group in a mode.
pub open spec fn file_name(
    keys: Seq<Key>,
    pallet: Seq<char>,
    instance: Seq<char>,
    mode: RenderMode,
) -> Seq<char> {
    file_stem(keys, pallet, instance) + "."@ + extension(mode)
}

/// The target of a group.
pub open spec fn target_of(
    keys: Seq<Key>,
    pallet: Seq<char>,
    instance: Seq<char>,
    kind: PathKind,
    mode: RenderMode,
) -> TargetSpec {
    TargetSpec {
        file_name: match kind {
            PathKind::File => None,
            PathKind::Directory => Some(file_name(keys, pallet, instance, mode)),
        },
        mode,
    }
}

/// The keys that a vector of pairs holds.
pub open spec fn keys_in(keys: Seq<(String, String)>) -> Seq<Key> {
    Seq::new(keys.len(), |i: int| (keys[i].0@, keys[i].1@))
}

/// Whether another instance of the pallet is among the keys.
fn sibling_exists(keys: &Vec<(String, String)>, pallet: &str, instance: &str) -> (r: bool)
    ensures
        r == has_sibling(keys_in(keys@), pallet@, instance@),
{
    let ghost all = keys_in(keys@);
    let pallet_text = String::from_str(pallet);
    let instance_text = String::from_str(instance);
    let mut i: usize = 0;
    while i < keys.len()
        invariant
            i <= keys.len(),
            all == keys_in(keys@),
            pallet_text@ == pallet@,
            instance_text@ == instance@,
            forall|k: int|
                0 <= k < i ==> !((#[trigger] all[k]).0 == pallet@ && all[k].1 != instance@),
        decreases keys.len() - i,
    {
        if keys[i].0 == pallet_text && !(keys[i].1 == instance_text) {
            assert(all[i as int].0 == pallet@ && all[i as int].1 != instance@);
            return true;
        }
        i += 1;
    }
    false
}

/// Decides where the artifact of a group goes. A supplied file takes every
/// group. In a supplied directory the file is named after the pallet, and
/// after the instance too, in snake case, where another instance of the same
/// pallet is among the groups; the mode gives the extension.
pub fn name_for(
    pallet: &str,
    instance: &str,
    keys: &Vec<(String, String)>,
    kind: PathKind,
    mode: RenderMode,
) -> (r: OutputTarget)
    ensures
        r@ == target_of(keys_in(keys@), pallet@, instance@, kind, mode),
{
    match kind {
        PathKind::File => OutputTarget { file_name: None, mode },
        PathKind::Directory => {
            let mut name = String::from_str(pallet);
            if sibling_exists(keys, pallet, instance) {
                name.append("_");
                let suffix = to_snake_case(instance);
                name.append(suffix.as_str());
            }
            name.append(".");
            match mode {
                RenderMode::Source => name.append("rs"),
                RenderMode::Report => name.append("html"),
            }
            OutputTarget { file_name: Some(name), mode }
        },
    }
}

impl GroupedResults {
    /// The keys of the groups, in order.
    pub fn keys(&self) -> (r: Vec<(String, String)>)
        ensures
            keys_in(r@) == crate::group::keys_of(self@),
    {
        let mut out: Vec<(String, String)> = Vec::new();
        let mut i: usize = 0;
        while i < self.groups.len()
            invariant
                i <= self.groups.len(),
                out.len() == i,
                forall|k: int|
                    0 <= k < i ==> (#[trigger] out@[k]).0@ == self.groups@[k].pallet@ && out@[k].1@
                        == self.groups@[k].instance@,
            decreases self.groups.len() - i,
        {
            out.push((self.groups[i].pallet.clone(), self.groups[i].instance.clone()));
            i += 1;
        }
        assert(keys_in(out@) =~= crate::group::keys_of(self@));
        out
    }
}

} // verus!
