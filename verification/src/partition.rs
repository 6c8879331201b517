//! The partition table of an installation: which partitions there are on
//! which architecture, and the sgdisk call that creates them.

use vstd::prelude::*;
use vstd::string::StringExecFns;
use crate::command::{push_str, CommandSpec, CommandView, Output, Place};
use crate::text::{decimal, str_eq, u64_to_decimal};

verus! {

broadcast use vstd::string::group_string_axioms;

/// The number of the boot partition.
pub const BOOTPN: u32 = 3;

/// The size of the boot partition in mebibytes, just under 512.
pub const BOOTPN_SIZE_MB: u32 = 510;

/// The number of the root partition.
pub const ROOTPN: u32 = 4;

/// The number of the EFI system partition.
pub const EFIPN: u32 = 2;

/// The size of the EFI system partition in mebibytes.
pub const EFIPN_SIZE_MB: u32 = 512;

/// The number of the partition reserved for the boot loader.
pub const RESERVEDPN: u32 = 1;

/// The architectures for which a partition layout is known.
#[derive(Debug, Clone, Copy, PartialEq, Eq, Structural)]
pub enum Arch {
    X86_64,
    Aarch64,
}

/// The architecture that a name as in `std::env::consts::ARCH` stands for.
pub open spec fn arch_named(name: Seq<char>) -> Option<Arch> {
    if name == "x86_64"@ {
        Some(Arch::X86_64)
    } else if name == "aarch64"@ {
        Some(Arch::Aarch64)
    } else {
        None
    }
}

impl Arch {
    /// The architecture with the given name, if a layout is known for it.
    pub fn from_name(name: &str) -> (a: Option<Arch>)
        ensures
            a == arch_named(name@),
    {
        if str_eq(name, "x86_64") {
            Some(Arch::X86_64)
        } else if str_eq(name, "aarch64") {
            Some(Arch::Aarch64)
        } else {
            None
        }
    }
}

/// One row of a partition table: number, extent, name and type GUID.
#[derive(Debug)]
pub struct Partition {
    pub number: u32,
    /// The extent in the notation of `sgdisk -n`, as `start:end`.
    pub extent: String,
    pub name: String,
    pub typecode: Option<String>,
}

/// The mathematical value of a [`Partition`].
pub struct PartitionView {
    pub number: u32,
    pub extent: Seq<char>,
    pub name: Seq<char>,
    pub typecode: Option<Seq<char>>,
}

impl View for Partition {
    type V = PartitionView;

    open spec fn view(&self) -> PartitionView {
        PartitionView {
            number: self.number,
            extent: self.extent@,
            name: self.name@,
            typecode: self.typecode.deep_view(),
        }
    }
}

impl DeepView for Partition {
    type V = PartitionView;

    open spec fn deep_view(&self) -> PartitionView {
        self@
    }
}

/// An extent that starts at the first free sector and is `mib` mebibytes
/// long.
pub open spec fn extent_of_size(mib: nat) -> Seq<char> {
    "0:+"@ + decimal(mib) + "M"@
}

/// The extent of the root partition: up to the given position in
/// mebibytes, or to the end of the device when no size is given.
pub open spec fn root_extent(root_size: Option<u64>) -> Seq<char> {
    match root_size {
        Some(mib) => "0:"@ + decimal(mib as nat) + "M"@,
        None => "0:0"@,
    }
}

/// The first partition, which the firmware or boot loader of the
/// architecture needs for itself.
pub open spec fn reserved_partition(arch: Arch) -> PartitionView {
    match arch {
        Arch::X86_64 => PartitionView {
            number: RESERVEDPN,
            extent: "0:+1M"@,
            name: "BIOS-BOOT"@,
            typecode: Some("21686148-6449-6E6F-744E-656564454649"@),
        },
        Arch::Aarch64 => PartitionView {
            number: RESERVEDPN,
            extent: "0:+1M"@,
            name: "reserved"@,
            typecode: Some("8DA63339-0007-60C0-C436-083AC8230908"@),
        },
    }
}

/// The partition table of an installation, in the order in which the
/// partitions are created: the reserved partition, the EFI system
/// partition, boot, and root.
pub open spec fn partition_table(arch: Arch, root_size: Option<u64>) -> Seq<PartitionView> {
    seq![
        reserved_partition(arch),
        PartitionView {
            number: EFIPN,
            extent: extent_of_size(EFIPN_SIZE_MB as nat),
            name: "EFI-SYSTEM"@,
            typecode: Some("C12A7328-F81F-11D2-BA4B-00A0C93EC93B"@),
        },
        PartitionView {
            number: BOOTPN,
            extent: extent_of_size(BOOTPN_SIZE_MB as nat),
            name: "boot"@,
            typecode: None,
        },
        PartitionView {
            number: ROOTPN,
            extent: root_extent(root_size),
            name: "root"@,
            typecode: Some("0FC63DAF-8483-4772-8E79-3D69D8477DE4"@),
        },
    ]
}

/// An sgdisk argument of the form `number:value`.
pub open spec fn numbered(n: u32, value: Seq<char>) -> Seq<char> {
    decimal(n as nat) + ":"@ + value
}

/// The arguments by which sgdisk creates one partition: `-n` with the
/// extent, `-c` with the name and, where a type is given, `-t` with it.
pub open spec fn sgdisk_partition_args(p: PartitionView) -> Seq<Seq<char>> {
    let base = seq!["-n"@, numbered(p.number, p.extent), "-c"@, numbered(p.number, p.name)];
    match p.typecode {
        Some(t) => base + seq!["-t"@, numbered(p.number, t)],
        None => base,
    }
}

/// The arguments that create the partitions of `table` from position `i`
/// on.
pub open spec fn sgdisk_table_args(table: Seq<PartitionView>, i: int) -> Seq<Seq<char>>
    decreases table.len() - i,
{
    if 0 <= i < table.len() {
        sgdisk_partition_args(table[i]) + sgdisk_table_args(table, i + 1)
    } else {
        Seq::empty()
    }
}

/// The sgdisk call that replaces whatever partition table `device` has by
/// `table`, under a random disk GUID.
pub open spec fn sgdisk_command(device: Seq<char>, table: Seq<PartitionView>) -> CommandView {
    CommandView {
        description: "Initializing partitions"@,
        program: "sgdisk"@,
        args: seq!["-Z"@, device, "-U"@, "R"@] + sgdisk_table_args(table, 0),
        announce: true,
        output: Output::Discard,
        place: Place::Here,
    }
}

fn numbered_arg(n: u32, value: &str) -> (arg: String)
    ensures
        arg@ == numbered(n, value@),
{
    let mut arg = u64_to_decimal(n as u64);
    arg.append(":");
    arg.append(value);
    arg
}

/// Appends to `args` the sgdisk arguments that create partition `n` with
/// the given extent and name and, if one is given, type.
pub fn sgdisk_partition(
    args: &mut Vec<String>,
    n: u32,
    part: &str,
    name: &str,
    typecode: Option<&str>,
)
    ensures
        final(args).deep_view() == old(args).deep_view() + sgdisk_partition_args(
            PartitionView {
                number: n,
                extent: part@,
                name: name@,
                typecode: match typecode {
                    Some(t) => Some(t@),
                    None => None,
                },
            },
        ),
{
    let ghost before = args.deep_view();
    push_str(args, "-n");
    let extent = numbered_arg(n, part);
    push_str(args, extent.as_str());
    push_str(args, "-c");
    let label = numbered_arg(n, name);
    push_str(args, label.as_str());
    match typecode {
        Some(t) => {
            push_str(args, "-t");
            let code = numbered_arg(n, t);
            push_str(args, code.as_str());
            assert(args.deep_view() =~= before + (seq![
                "-n"@,
                numbered(n, part@),
                "-c"@,
                numbered(n, name@),
            ] + seq!["-t"@, numbered(n, t@)]));
        },
        None => {
            assert(args.deep_view() =~= before + seq![
                "-n"@,
                numbered(n, part@),
                "-c"@,
                numbered(n, name@),
            ]);
        },
    }
}

fn extent_arg(mib: u32) -> (extent: String)
    ensures
        extent@ == extent_of_size(mib as nat),
{
    let mut extent = String::from_str("0:+");
    let size = u64_to_decimal(mib as u64);
    extent.append(size.as_str());
    extent.append("M");
    extent
}

fn root_extent_arg(root_size: Option<u64>) -> (extent: String)
    ensures
        extent@ == root_extent(root_size),
{
    match root_size {
        Some(mib) => {
            let mut extent = String::from_str("0:");
            let size = u64_to_decimal(mib);
            extent.append(size.as_str());
            extent.append("M");
            extent
        },
        None => String::from_str("0:0"),
    }
}

/// The partition table for an architecture and a root size.
pub fn partition_table_for(arch: Arch, root_size: Option<u64>) -> (table: Vec<Partition>)
    ensures
        table.deep_view() == partition_table(arch, root_size),
{
    let reserved = match arch {
        Arch::X86_64 => Partition {
            number: RESERVEDPN,
            extent: String::from_str("0:+1M"),
            name: String::from_str("BIOS-BOOT"),
            typecode: Some(String::from_str("21686148-6449-6E6F-744E-656564454649")),
        },
        Arch::Aarch64 => Partition {
            number: RESERVEDPN,
            extent: String::from_str("0:+1M"),
            name: String::from_str("reserved"),
            typecode: Some(String::from_str("8DA63339-0007-60C0-C436-083AC8230908")),
        },
    };
    let efi = Partition {
        number: EFIPN,
        extent: extent_arg(EFIPN_SIZE_MB),
        name: String::from_str("EFI-SYSTEM"),
        typecode: Some(String::from_str("C12A7328-F81F-11D2-BA4B-00A0C93EC93B")),
    };
    let boot = Partition {
        number: BOOTPN,
        extent: extent_arg(BOOTPN_SIZE_MB),
        name: String::from_str("boot"),
        typecode: None,
    };
    let root = Partition {
        number: ROOTPN,
        extent: root_extent_arg(root_size),
        name: String::from_str("root"),
        typecode: Some(String::from_str("0FC63DAF-8483-4772-8E79-3D69D8477DE4")),
    };
    let mut table: Vec<Partition> = Vec::new();
    table.push(reserved);
    table.push(efi);
    table.push(boot);
    table.push(root);
    assert(table.deep_view() =~= partition_table(arch, root_size));
    table
}

/// The sgdisk call that writes `table` to `device`.
pub fn sgdisk(device: &str, table: &Vec<Partition>) -> (c: CommandSpec)
    ensures
        c@ == sgdisk_command(device@, table.deep_view()),
{
    let mut args: Vec<String> = Vec::new();
    push_str(&mut args, "-Z");
    push_str(&mut args, device);
    push_str(&mut args, "-U");
    push_str(&mut args, "R");
    let ghost head = seq!["-Z"@, device@, "-U"@, "R"@];
    let ghost rows = table.deep_view();
    assert(args.deep_view() =~= head);
    let mut i: usize = 0;
    while i < table.len()
        invariant
            i <= table.len(),
            rows == table.deep_view(),
            args.deep_view() + sgdisk_table_args(rows, i as int) == head + sgdisk_table_args(
                rows,
                0,
            ),
        decreases table.len() - i,
    {
        let p = &table[i];
        let ghost before = args.deep_view();
        let typecode: Option<&str> = match &p.typecode {
            Some(t) => Some(t.as_str()),
            None => None,
        };
        sgdisk_partition(&mut args, p.number, p.extent.as_str(), p.name.as_str(), typecode);
        proof {
            assert(rows[i as int] == p@);
            let row = sgdisk_partition_args(rows[i as int]);
            assert(args.deep_view() == before + row);
            assert((before + row) + sgdisk_table_args(rows, i + 1) =~= before + (row
                + sgdisk_table_args(rows, i + 1)));
        }
        i += 1;
    }
    assert(args.deep_view() + Seq::<Seq<char>>::empty() =~= args.deep_view());
    CommandSpec {
        description: String::from_str("Initializing partitions"),
        program: String::from_str("sgdisk"),
        args,
        announce: true,
        output: Output::Discard,
        place: Place::Here,
    }
}

} // verus!
