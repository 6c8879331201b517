//! The check that a target root directory is empty enough to install into.

use vstd::prelude::*;
use crate::error::{ErrorKind, InstallError, InstallErrorView};
use crate::text::str_eq;

verus! {

broadcast use vstd::string::group_string_axioms;

/// The directory that ext4 keeps for recovered files.
pub const LOST_AND_FOUND: &'static str = "lost+found";

/// The boot directory at the top of the target.
pub const BOOT: &'static str = "boot";

/// The directory under boot where the EFI system partition is mounted.
pub const EFI_DIR: &'static str = "efi";

/// The entries a target root may hold: `lost+found` and `boot`.
pub open spec fn allowed_in_root(name: Seq<char>) -> bool {
    name == "lost+found"@ || name == "boot"@
}

/// The entries the boot directory of a target may hold: `lost+found` and
/// `efi`.
pub open spec fn allowed_in_boot(name: Seq<char>) -> bool {
    name == "lost+found"@ || name == "efi"@
}

/// The first entry of `boot` at or after `i` that boot may not hold.
pub open spec fn first_unexpected_in_boot(boot: Seq<Seq<char>>, i: int) -> Option<Seq<char>>
    decreases boot.len() - i,
{
    if i < 0 || i >= boot.len() {
        None
    } else if allowed_in_boot(boot[i]) {
        first_unexpected_in_boot(boot, i + 1)
    } else {
        Some(boot[i])
    }
}

/// What stands against installing, going through the entries of the root
/// from position `i` on: an entry other than `lost+found` and `boot`, or,
/// where `boot` is met, an entry of boot other than `lost+found` and
/// `efi`. The entries of boot count only where the root holds `boot`.
pub open spec fn first_offence(root: Seq<Seq<char>>, boot: Seq<Seq<char>>, i: int) -> Option<
    InstallErrorView,
>
    decreases root.len() - i,
{
    if i < 0 || i >= root.len() {
        None
    } else if root[i] == "lost+found"@ {
        first_offence(root, boot, i + 1)
    } else if root[i] == "boot"@ {
        match first_unexpected_in_boot(boot, 0) {
            Some(entry) => Some(InstallErrorView::NonEmptyBoot { entry }),
            None => first_offence(root, boot, i + 1),
        }
    } else {
        Some(InstallErrorView::NonEmptyRoot { entry: root[i] })
    }
}

fn find_unexpected_in_boot(boot: &Vec<String>) -> (found: Option<usize>)
    ensures
        match found {
            Some(at) => at < boot.len() && first_unexpected_in_boot(boot.deep_view(), 0) == Some(
                boot@[at as int]@,
            ),
            None => first_unexpected_in_boot(boot.deep_view(), 0) is None,
        },
{
    let ghost names = boot.deep_view();
    let mut i: usize = 0;
    while i < boot.len()
        invariant
            i <= boot.len(),
            names == boot.deep_view(),
            first_unexpected_in_boot(names, i as int) == first_unexpected_in_boot(names, 0),
        decreases boot.len() - i,
    {
        assert(names[i as int] == boot@[i as int]@);
        let name = boot[i].as_str();
        if !(str_eq(name, LOST_AND_FOUND) || str_eq(name, EFI_DIR)) {
            return Some(i);
        }
        i += 1;
    }
    None
}

/// Checks that the target root holds nothing that an installation would
/// disturb. `root_entries` are the names in the root directory and
/// `boot_entries` those in its `boot` directory (empty where there is
/// none). The first unexpected name, in the order given, is reported.
pub fn require_empty_rootdir(root_entries: &Vec<String>, boot_entries: &Vec<String>) -> (r: Result<
    (),
    InstallError,
>)
    ensures
        match r {
            Ok(()) => first_offence(root_entries.deep_view(), boot_entries.deep_view(), 0) is None,
            Err(e) => first_offence(root_entries.deep_view(), boot_entries.deep_view(), 0) == Some(
                e@,
            ),
        },
{
    let ghost root = root_entries.deep_view();
    let ghost boot = boot_entries.deep_view();
    let mut i: usize = 0;
    while i < root_entries.len()
        invariant
            i <= root_entries.len(),
            root == root_entries.deep_view(),
            boot == boot_entries.deep_view(),
            first_offence(root, boot, i as int) == first_offence(root, boot, 0),
        decreases root_entries.len() - i,
    {
        assert(root[i as int] == root_entries@[i as int]@);
        let name = root_entries[i].as_str();
        if str_eq(name, LOST_AND_FOUND) {
        } else if str_eq(name, BOOT) {
            match find_unexpected_in_boot(boot_entries) {
                Some(at) => {
                    return Err(InstallError::NonEmptyBoot { entry: boot_entries[at].clone() });
                },
                None => {},
            }
        } else {
            return Err(InstallError::NonEmptyRoot { entry: name.to_owned() });
        }
        i += 1;
    }
    Ok(())
}

/// True when `name` is among `entries`.
pub open spec fn lists(entries: Seq<Seq<char>>, name: Seq<char>) -> bool {
    exists|i: int| 0 <= i < entries.len() && entries[i] == name
}

proof fn lemma_first_unexpected_in_boot(boot: Seq<Seq<char>>, i: int)
    requires
        0 <= i,
    ensures
        match first_unexpected_in_boot(boot, i) {
            Some(entry) => !allowed_in_boot(entry) && lists(boot, entry),
            None => forall|j: int| i <= j < boot.len() ==> allowed_in_boot(#[trigger] boot[j]),
        },
    decreases boot.len() - i,
{
    if i < boot.len() {
        if allowed_in_boot(boot[i]) {
            lemma_first_unexpected_in_boot(boot, i + 1);
        }
    }
}

proof fn lemma_first_offence(root: Seq<Seq<char>>, boot: Seq<Seq<char>>, i: int)
    requires
        0 <= i,
    ensures
        match first_offence(root, boot, i) {
            Some(InstallErrorView::NonEmptyRoot { entry }) => !allowed_in_root(entry) && lists(
                root,
                entry,
            ),
            Some(InstallErrorView::NonEmptyBoot { entry }) => !allowed_in_boot(entry) && lists(
                boot,
                entry,
            ) && lists(root, "boot"@),
            Some(_) => false,
            None => {
                &&& forall|j: int| i <= j < root.len() ==> allowed_in_root(#[trigger] root[j])
                &&& (exists|j: int| i <= j < root.len() && root[j] == "boot"@) ==> forall|k: int|
                    0 <= k < boot.len() ==> allowed_in_boot(#[trigger] boot[k])
            },
        },
    decreases root.len() - i,
{
    reveal_strlit("lost+found");
    reveal_strlit("boot");
    if i < root.len() {
        lemma_first_unexpected_in_boot(boot, 0);
        if root[i] == "lost+found"@ {
            lemma_first_offence(root, boot, i + 1);
            if exists|j: int| i <= j < root.len() && root[j] == "boot"@ {
                let j = choose|j: int| i <= j < root.len() && root[j] == "boot"@;
                assert(root[i].len() != root[j].len());
                assert(i + 1 <= j < root.len() && root[j] == "boot"@);
            }
        } else if root[i] == "boot"@ {
            assert(lists(root, "boot"@));
            if first_unexpected_in_boot(boot, 0) is None {
                lemma_first_offence(root, boot, i + 1);
            }
        } else {
            assert(lists(root, root[i]));
        }
    }
}

/// A root that holds nothing but `lost+found` and `boot`, with nothing in
/// boot but `lost+found` and `efi`, is accepted. In particular a root with
/// only `lost+found` and an empty `boot` is.
pub proof fn lemma_clean_root_accepted(root: Seq<Seq<char>>, boot: Seq<Seq<char>>)
    requires
        forall|i: int| 0 <= i < root.len() ==> allowed_in_root(#[trigger] root[i]),
        forall|k: int| 0 <= k < boot.len() ==> allowed_in_boot(#[trigger] boot[k]),
    ensures
        first_offence(root, boot, 0) is None,
{
    lemma_first_offence(root, boot, 0);
    match first_offence(root, boot, 0) {
        Some(InstallErrorView::NonEmptyRoot { entry }) => {
            let i = choose|i: int| 0 <= i < root.len() && root[i] == entry;
            assert(allowed_in_root(root[i]));
        },
        Some(InstallErrorView::NonEmptyBoot { entry }) => {
            let k = choose|k: int| 0 <= k < boot.len() && boot[k] == entry;
            assert(allowed_in_boot(boot[k]));
        },
        _ => {},
    }
}

/// A root that holds any entry other than `lost+found` and `boot` is
/// refused as unsafe, and so is one whose `boot` holds any entry other than
/// `lost+found` and `efi`. The error names an entry that is present and
/// unexpected.
pub proof fn lemma_unexpected_entry_refused(root: Seq<Seq<char>>, boot: Seq<Seq<char>>)
    requires
        (exists|i: int| 0 <= i < root.len() && !allowed_in_root(#[trigger] root[i])) || (lists(
            root,
            "boot"@,
        ) && exists|k: int| 0 <= k < boot.len() && !allowed_in_boot(#[trigger] boot[k])),
    ensures
        first_offence(root, boot, 0) matches Some(e) && e.kind() == ErrorKind::Safety && match e {
            InstallErrorView::NonEmptyRoot { entry } => !allowed_in_root(entry) && lists(
                root,
                entry,
            ),
            InstallErrorView::NonEmptyBoot { entry } => !allowed_in_boot(entry) && lists(
                boot,
                entry,
            ),
            _ => false,
        },
{
    lemma_first_offence(root, boot, 0);
    if first_offence(root, boot, 0) is None {
        if exists|i: int| 0 <= i < root.len() && !allowed_in_root(#[trigger] root[i]) {
            let i = choose|i: int| 0 <= i < root.len() && !allowed_in_root(#[trigger] root[i]);
            assert(allowed_in_root(root[i]));
        } else {
            let j = choose|j: int| 0 <= j < root.len() && root[j] == "boot"@;
            let k = choose|k: int| 0 <= k < boot.len() && !allowed_in_boot(#[trigger] boot[k]);
            assert(allowed_in_boot(boot[k]));
        }
    }
}

} // verus!
