//! Mount specifications: the part of an `/etc/fstab` line that says what is
//! mounted where, and the textual form of such a line.

use vstd::prelude::*;
use vstd::string::StringExecFns;
use crate::error::{InstallError, InstallErrorView};
use crate::text::{
    ascii_fields, chars_of, find_char, first_index_of, is_ascii_space, is_word,
    lemma_fields_after_space, lemma_fields_after_word, lemma_fields_are_words,
    split_ascii_whitespace,
};

verus! {

broadcast use vstd::string::group_string_axioms;

/// What is mounted (`source`), where (`target`), as which filesystem type
/// and with which options.
#[derive(Debug, Clone)]
pub struct MountSpec {
    pub source: String,
    pub target: String,
    pub fstype: String,
    pub options: Option<String>,
}

/// The mathematical value of a [`MountSpec`].
pub struct MountSpecView {
    pub source: Seq<char>,
    pub target: Seq<char>,
    pub fstype: Seq<char>,
    pub options: Option<Seq<char>>,
}

impl View for MountSpec {
    type V = MountSpecView;

    open spec fn view(&self) -> MountSpecView {
        MountSpecView {
            source: self.source@,
            target: self.target@,
            fstype: self.fstype@,
            options: match self.options {
                Some(o) => Some(o@),
                None => None,
            },
        }
    }
}

/// The filesystem type of a specification that names none.
pub open spec fn auto_fstype() -> Seq<char> {
    "auto"@
}

/// The options written out for a specification that carries none.
pub open spec fn default_options() -> Seq<char> {
    "defaults"@
}

/// The options a specification stands for once written out.
pub open spec fn effective_options(m: MountSpecView) -> Seq<char> {
    match m.options {
        Some(o) => o,
        None => default_options(),
    }
}

/// The specification that a line of text denotes: its first field is the
/// source, the second the target, the third (if any) the filesystem type and
/// the fourth (if any) the options. Text with fewer than two fields denotes
/// none.
pub open spec fn parsed(text: Seq<char>) -> Option<MountSpecView> {
    let fields = ascii_fields(text);
    if fields.len() < 2 {
        None
    } else {
        Some(
            MountSpecView {
                source: fields[0],
                target: fields[1],
                fstype: if fields.len() > 2 {
                    fields[2]
                } else {
                    auto_fstype()
                },
                options: if fields.len() > 3 {
                    Some(fields[3])
                } else {
                    None
                },
            },
        )
    }
}

/// The fstab line of a specification: source, target, type and effective
/// options separated by single spaces, followed by the dump and pass
/// numbers, both zero.
pub open spec fn fstab_line(m: MountSpecView) -> Seq<char> {
    m.source + " "@ + m.target + " "@ + m.fstype + " "@ + effective_options(m) + " 0 0"@
}

/// True when `key` is `uuid` in any mix of upper and lower case.
pub open spec fn is_uuid_key(key: Seq<char>) -> bool {
    &&& key.len() == 4
    &&& (key[0] == 'u' || key[0] == 'U')
    &&& (key[1] == 'u' || key[1] == 'U')
    &&& (key[2] == 'i' || key[2] == 'I')
    &&& (key[3] == 'd' || key[3] == 'D')
}

/// The UUID that a source names: what follows the first `=`, provided that
/// what precedes it is `uuid` in any case.
pub open spec fn source_uuid(source: Seq<char>) -> Option<Seq<char>> {
    let at = first_index_of(source, '=');
    if at < source.len() && is_uuid_key(source.subrange(0, at)) {
        Some(source.subrange(at + 1, source.len() as int))
    } else {
        None
    }
}

/// The source that names a filesystem by `uuid`.
pub open spec fn uuid_source(uuid: Seq<char>) -> Seq<char> {
    "UUID="@ + uuid
}

impl MountSpec {
    /// A specification that mounts `src` at `target`, with the filesystem
    /// type left to detection and no options.
    pub fn new(src: &str, target: &str) -> (m: MountSpec)
        ensures
            m@ == (MountSpecView {
                source: src@,
                target: target@,
                fstype: auto_fstype(),
                options: None,
            }),
    {
        MountSpec {
            source: src.to_owned(),
            target: target.to_owned(),
            fstype: "auto".to_owned(),
            options: None,
        }
    }

    /// A specification that mounts the filesystem with the given UUID at
    /// `target`.
    pub fn new_uuid_src(uuid: &str, target: &str) -> (m: MountSpec)
        ensures
            m@ == (MountSpecView {
                source: uuid_source(uuid@),
                target: target@,
                fstype: auto_fstype(),
                options: None,
            }),
    {
        let mut source = String::from_str("UUID=");
        source.append(uuid);
        MountSpec { source, target: target.to_owned(), fstype: "auto".to_owned(), options: None }
    }

    /// The UUID of the source, if the source is of the form `UUID=...`.
    pub fn get_source_uuid(&self) -> (uuid: Option<&str>)
        ensures
            match uuid {
                Some(u) => source_uuid(self.source@) == Some(u@),
                None => source_uuid(self.source@) is None,
            },
    {
        let cs = chars_of(self.source.as_str());
        let at = find_char(&cs, '=');
        if at == cs.len() || at != 4 {
            return None;
        }
        if (cs[0] == 'u' || cs[0] == 'U') && (cs[1] == 'u' || cs[1] == 'U') && (cs[2] == 'i'
            || cs[2] == 'I') && (cs[3] == 'd' || cs[3] == 'D') {
            Some(self.source.as_str().substring_char(at + 1, cs.len()))
        } else {
            None
        }
    }

    /// The line that mounts this specification from `/etc/fstab`.
    pub fn to_fstab(&self) -> (line: String)
        ensures
            line@ == fstab_line(self@),
    {
        let mut line = String::from_str(self.source.as_str());
        line.append(" ");
        line.append(self.target.as_str());
        line.append(" ");
        line.append(self.fstype.as_str());
        line.append(" ");
        match &self.options {
            Some(o) => line.append(o.as_str()),
            None => line.append("defaults"),
        }
        line.append(" 0 0");
        line
    }

    /// Reads a specification from text of the form
    /// `SOURCE TARGET [FSTYPE [OPTIONS]]`. Fields beyond the fourth are
    /// ignored.
    pub fn from_str(s: &str) -> (r: Result<MountSpec, InstallError>)
        ensures
            match r {
                Ok(m) => parsed(s@) == Some(m@),
                Err(e) => if ascii_fields(s@).len() == 0 {
                    e@ == InstallErrorView::EmptyMountSpec
                } else {
                    ascii_fields(s@).len() == 1 && e@ == (InstallErrorView::MissingMountTarget {
                        spec: s@,
                    })
                },
            },
    {
        let mut fields = split_ascii_whitespace(s);
        let n = fields.len();
        if n == 0 {
            return Err(InstallError::EmptyMountSpec);
        }
        if n == 1 {
            return Err(InstallError::MissingMountTarget { spec: s.to_owned() });
        }
        let ghost all = fields.deep_view();
        assert(all == ascii_fields(s@));
        assert(forall|i: int| 0 <= i < n ==> all[i] == fields@[i]@);
        fields.truncate(4);
        let options = if fields.len() > 3 {
            fields.pop()
        } else {
            None
        };
        let fstype = if fields.len() > 2 {
            match fields.pop() {
                Some(t) => t,
                None => "auto".to_owned(),
            }
        } else {
            "auto".to_owned()
        };
        let target = match fields.pop() {
            Some(t) => t,
            None => String::new(),
        };
        let source = match fields.pop() {
            Some(t) => t,
            None => String::new(),
        };
        Ok(MountSpec { source, target, fstype, options })
    }
}

/// The UUID by which `/boot` is mounted; `/boot` has to be given by UUID.
pub fn require_boot_uuid(spec: &MountSpec) -> (r: Result<&str, InstallError>)
    ensures
        match r {
            Ok(u) => source_uuid(spec.source@) == Some(u@),
            Err(e) => source_uuid(spec.source@) is None && e@ == InstallErrorView::BootNotByUuid,
        },
{
    match spec.get_source_uuid() {
        Some(u) => Ok(u),
        None => Err(InstallError::BootNotByUuid),
    }
}

/// A specification whose fields can be told apart in an fstab line: each is
/// a non-empty run of characters without whitespace.
pub open spec fn well_formed(m: MountSpecView) -> bool {
    &&& is_word(m.source)
    &&& is_word(m.target)
    &&& is_word(m.fstype)
    &&& m.options matches Some(o) ==> is_word(o)
}

/// The same specification with its effective options written out.
pub open spec fn with_effective_options(m: MountSpecView) -> MountSpecView {
    MountSpecView { options: Some(effective_options(m)), ..m }
}

/// The fstab line of a well-formed specification has exactly six fields: its
/// source, target, filesystem type and effective options, then `0` and `0`.
pub proof fn lemma_fstab_line_fields(m: MountSpecView)
    requires
        well_formed(m),
    ensures
        ascii_fields(fstab_line(m)) == seq![
            m.source,
            m.target,
            m.fstype,
            effective_options(m),
            seq!['0'],
            seq!['0'],
        ],
        is_word(effective_options(m)),
{
    reveal_strlit(" ");
    reveal_strlit(" 0 0");
    reveal_strlit("defaults");
    let sp = seq![' '];
    let zero = seq!['0'];
    let opts = effective_options(m);
    assert(is_word(opts));
    assert(is_word(zero));
    assert(is_ascii_space(' '));
    let t5 = zero;
    let t4 = zero + (sp + t5);
    let t3 = opts + (sp + t4);
    let t2 = m.fstype + (sp + t3);
    let t1 = m.target + (sp + t2);
    let t0 = m.source + (sp + t1);
    assert(fstab_line(m) =~= t0);
    assert(ascii_fields(t5) == seq![zero]) by {
        lemma_fields_after_word(zero, Seq::empty());
        assert(zero + Seq::<char>::empty() =~= zero);
        assert(ascii_fields(Seq::<char>::empty()) =~= Seq::<Seq<char>>::empty());
    }
    assert(ascii_fields(t4) == seq![zero] + ascii_fields(t5)) by {
        assert((sp + t5)[0] == ' ');
        lemma_fields_after_word(zero, sp + t5);
        lemma_fields_after_space(' ', t5);
    }
    assert(ascii_fields(t3) == seq![opts] + ascii_fields(t4)) by {
        assert((sp + t4)[0] == ' ');
        lemma_fields_after_word(opts, sp + t4);
        lemma_fields_after_space(' ', t4);
    }
    assert(ascii_fields(t2) == seq![m.fstype] + ascii_fields(t3)) by {
        assert((sp + t3)[0] == ' ');
        lemma_fields_after_word(m.fstype, sp + t3);
        lemma_fields_after_space(' ', t3);
    }
    assert(ascii_fields(t1) == seq![m.target] + ascii_fields(t2)) by {
        assert((sp + t2)[0] == ' ');
        lemma_fields_after_word(m.target, sp + t2);
        lemma_fields_after_space(' ', t2);
    }
    assert(ascii_fields(t0) == seq![m.source] + ascii_fields(t1)) by {
        assert((sp + t1)[0] == ' ');
        lemma_fields_after_word(m.source, sp + t1);
        lemma_fields_after_space(' ', t1);
    }
    assert(ascii_fields(t0) =~= seq![m.source, m.target, m.fstype, opts, zero, zero]);
}

/// Text with at least two fields denotes a well-formed specification.
pub proof fn lemma_parsed_well_formed(text: Seq<char>)
    requires
        ascii_fields(text).len() >= 2,
    ensures
        parsed(text) matches Some(m) && well_formed(m),
{
    reveal_strlit("auto");
    lemma_fields_are_words(text, 0);
}

/// Reading back the fstab line of a well-formed specification gives the
/// same source, target and filesystem type, and the effective options.
pub proof fn lemma_parse_fstab_line(m: MountSpecView)
    requires
        well_formed(m),
    ensures
        parsed(fstab_line(m)) == Some(with_effective_options(m)),
        well_formed(with_effective_options(m)),
{
    lemma_fstab_line_fields(m);
}

/// Writing a specification out and reading it back changes nothing that the
/// fstab line shows: for text of two to four fields, the specification it
/// denotes and the one read back from that specification's fstab line agree
/// in source, target, filesystem type and effective options, and both give
/// the same line, which has four fields followed by `0 0`.
pub proof fn lemma_parse_encode_idempotent(text: Seq<char>)
    requires
        2 <= ascii_fields(text).len() <= 4,
    ensures
        parsed(text) matches Some(m) && parsed(fstab_line(m)) matches Some(again) && {
            &&& again.source == m.source
            &&& again.target == m.target
            &&& again.fstype == m.fstype
            &&& effective_options(again) == effective_options(m)
            &&& fstab_line(again) == fstab_line(m)
            &&& ascii_fields(fstab_line(m)) == seq![
                m.source,
                m.target,
                m.fstype,
                effective_options(m),
                seq!['0'],
                seq!['0'],
            ]
        },
{
    lemma_parsed_well_formed(text);
    let m = parsed(text)->0;
    lemma_fstab_line_fields(m);
    lemma_parse_fstab_line(m);
}

/// A source built from a UUID names that UUID again.
pub proof fn lemma_uuid_source_roundtrip(uuid: Seq<char>)
    ensures
        source_uuid(uuid_source(uuid)) == Some(uuid),
{
    reveal_strlit("UUID=");
    let s = uuid_source(uuid);
    assert(s[4] == '=');
    crate::text::lemma_first_index_is(s, '=', 4);
    assert(s.subrange(0, 4) =~= seq!['U', 'U', 'I', 'D']);
    assert(s.subrange(5, s.len() as int) =~= uuid);
}

} // verus!
