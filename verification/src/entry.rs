//! What one archive entry means to the scanner: its kind, the class it
//! stands for, and the payload behind the magic marker.
use vstd::prelude::*;
use crate::strategy::DecryptionStrategy;
use crate::text::{chars_of, string_of, starts_with, ends_with, replaced, replace_char,
    starts_with_seq, ends_with_seq};
use crate::resolver::container_token;

verus! {

/// The marker as a number; its bytes stand at the head of a protected
/// payload, lowest byte first.
pub const ENCRYPT_MAGIC_NUMBER: u32 = 0xDEADC0DE;

/// The four bytes that open every protected payload.
pub open spec fn magic_marker() -> Seq<u8> {
    seq![0xDEu8, 0xC0u8, 0xADu8, 0xDEu8]
}

/// The buffer opens with the marker. A buffer of fewer than four bytes
/// does not.
pub open spec fn has_magic_spec(data: Seq<u8>) -> bool {
    data.len() >= 4 && data.take(4) == magic_marker()
}

/// The directory under which an archive keeps its protected copies:
/// `META-INF/.classes/`.
pub open spec fn reserved_prefix() -> Seq<char> {
    seq![
        'M', 'E', 'T', 'A', '-', 'I', 'N', 'F', '/', '.', 'c', 'l', 'a', 's', 's', 'e', 's', '/',
    ]
}

/// A slash-separated name with dots for slashes.
pub open spec fn normalize_spec(raw: Seq<char>) -> Seq<char> {
    replace_char(raw, '/', '.')
}

/// The class that a reserved entry stands for: its path below the reserved
/// prefix, with dots for slashes.
pub open spec fn class_name_spec(entry_name: Seq<char>) -> Seq<char> {
    normalize_spec(entry_name.skip(18))
}

/// What the archive says of one entry, without its bytes.
#[derive(Clone, Debug)]
pub struct EntryInfo {
    /// The entry's name as the archive records it.
    pub name: String,
    /// The name is a relative path that stays below the archive's root.
    pub enclosed: bool,
    /// The entry is a regular file, neither a directory nor a link.
    pub is_file: bool,
}

/// An `EntryInfo` as contracts see it.
pub ghost struct EntryInfoView {
    pub name: Seq<char>,
    pub enclosed: bool,
    pub is_file: bool,
}

impl View for EntryInfo {
    type V = EntryInfoView;

    open spec fn view(&self) -> EntryInfoView {
        EntryInfoView { name: self.name@, enclosed: self.enclosed, is_file: self.is_file }
    }
}

/// Why a protected entry is passed over.
#[derive(Clone, Copy, Debug, PartialEq, Eq, Structural)]
pub enum EntryError {
    /// The entry's bytes could not be read.
    EntryReadFailure,
    /// The entry does not open with the marker.
    MagicMismatch,
}

/// How the scanner treats an entry.
#[derive(Clone, Copy, Debug, PartialEq, Eq, Structural)]
pub enum EntryKind {
    /// The name is no safe relative path: passed over.
    Unenclosed,
    /// A directory or a link: passed over.
    NotAFile,
    /// A container inside the container: scanned in turn.
    Nested,
    /// A resource outside the reserved directory: passed over.
    Ordinary,
    /// A protected copy of a class.
    Protected,
}

pub open spec fn classify_spec(e: EntryInfoView) -> EntryKind {
    if !e.enclosed {
        EntryKind::Unenclosed
    } else if !e.is_file {
        EntryKind::NotAFile
    } else if ends_with_seq(e.name, container_token()) {
        EntryKind::Nested
    } else if !starts_with_seq(e.name, reserved_prefix()) {
        EntryKind::Ordinary
    } else {
        EntryKind::Protected
    }
}

/// What the scanner does with an entry.
#[derive(Clone, Debug)]
pub enum EntryPlan {
    /// Nothing: the entry is passed over.
    Skip,
    /// Its bytes are a container to scan in turn.
    Follow,
    /// Its bytes are a protected class to cache under this name.
    Store(String),
}

/// An `EntryPlan` as contracts see it.
pub ghost enum EntryPlanView {
    Skip,
    Follow,
    Store(Seq<char>),
}

impl View for EntryPlan {
    type V = EntryPlanView;

    open spec fn view(&self) -> EntryPlanView {
        match self {
            EntryPlan::Skip => EntryPlanView::Skip,
            EntryPlan::Follow => EntryPlanView::Follow,
            EntryPlan::Store(name) => EntryPlanView::Store(name@),
        }
    }
}

/// What the scanner does with an entry of which the archive says `info`,
/// or nothing where `info` is `None`, with `depth` levels of nesting left
/// to follow: a nested container is followed while `depth` is not used up,
/// a protected copy is stored under its class name, and all else is
/// passed over.
pub open spec fn plan_spec(info: Option<EntryInfoView>, depth: nat) -> EntryPlanView {
    match info {
        None => EntryPlanView::Skip,
        Some(i) => match classify_spec(i) {
            EntryKind::Nested => if depth > 0 {
                EntryPlanView::Follow
            } else {
                EntryPlanView::Skip
            },
            EntryKind::Protected => EntryPlanView::Store(class_name_spec(i.name)),
            _ => EntryPlanView::Skip,
        },
    }
}

/// The bytes to cache for a protected entry: the transform of what follows
/// the marker, or nothing when the marker is missing.
pub open spec fn payload_spec<S: DecryptionStrategy>(strategy: &S, data: Seq<u8>) -> Option<
    Seq<u8>,
> {
    if has_magic_spec(data) {
        Some(strategy.plain(data.skip(4)))
    } else {
        None
    }
}

/// Does the buffer open with the marker?
pub fn has_magic(data: &[u8]) -> (b: bool)
    ensures
        b == has_magic_spec(data@),
{
    if data.len() < 4 {
        return false;
    }
    let b = data[0] == 0xDE && data[1] == 0xC0 && data[2] == 0xAD && data[3] == 0xDE;
    proof {
        if b {
            assert(data@.take(4) =~= magic_marker());
        } else {
            assert(data@.take(4)[0] == data@[0]);
            assert(data@.take(4)[1] == data@[1]);
            assert(data@.take(4)[2] == data@[2]);
            assert(data@.take(4)[3] == data@[3]);
        }
    }
    b
}

/// The dotted class name for the slash-separated name that the runtime
/// hands over.
pub fn normalize_class_name(raw: &str) -> (name: String)
    ensures
        name@ == normalize_spec(raw@),
{
    let chars = chars_of(raw);
    let dotted = replaced(chars.as_slice(), '/', '.');
    string_of(dotted.as_slice())
}

/// Sorts an entry into its kind by its flags and its name.
pub fn classify(info: &EntryInfo) -> (kind: EntryKind)
    ensures
        kind == classify_spec(info@),
{
    if !info.enclosed {
        return EntryKind::Unenclosed;
    }
    if !info.is_file {
        return EntryKind::NotAFile;
    }
    let name = chars_of(info.name.as_str());
    let token: Vec<char> = vec!['.', 'j', 'a', 'r'];
    assert(token@ =~= container_token());
    if ends_with(name.as_slice(), token.as_slice()) {
        return EntryKind::Nested;
    }
    let prefix: Vec<char> = vec![
        'M', 'E', 'T', 'A', '-', 'I', 'N', 'F', '/', '.', 'c', 'l', 'a', 's', 's', 'e', 's', '/',
    ];
    assert(prefix@ =~= reserved_prefix());
    if !starts_with(name.as_slice(), prefix.as_slice()) {
        return EntryKind::Ordinary;
    }
    EntryKind::Protected
}

/// The class name under which a reserved entry is cached, or `None` for a
/// name outside the reserved directory.
pub fn class_name_of_entry(entry_name: &str) -> (r: Option<String>)
    ensures
        match r {
            Some(name) => starts_with_seq(entry_name@, reserved_prefix()) && name@
                == class_name_spec(entry_name@),
            None => !starts_with_seq(entry_name@, reserved_prefix()),
        },
{
    let chars = chars_of(entry_name);
    let prefix: Vec<char> = vec![
        'M', 'E', 'T', 'A', '-', 'I', 'N', 'F', '/', '.', 'c', 'l', 'a', 's', 's', 'e', 's', '/',
    ];
    assert(prefix@ =~= reserved_prefix());
    if !starts_with(chars.as_slice(), prefix.as_slice()) {
        return None;
    }
    let tail = vstd::slice::slice_subrange(chars.as_slice(), 18, chars.len());
    assert(tail@ =~= entry_name@.skip(18));
    let dotted = replaced(tail, '/', '.');
    Some(string_of(dotted.as_slice()))
}

/// Decides what to do with an entry before any of its bytes are read.
pub fn plan_entry(info: Option<&EntryInfo>, depth: usize) -> (plan: EntryPlan)
    ensures
        plan@ == plan_spec(
            match info {
                Some(i) => Some(i@),
                None => None,
            },
            depth as nat,
        ),
{
    match info {
        None => EntryPlan::Skip,
        Some(i) => match classify(i) {
            EntryKind::Nested => if depth > 0 {
                EntryPlan::Follow
            } else {
                EntryPlan::Skip
            },
            EntryKind::Protected => match class_name_of_entry(i.name.as_str()) {
                Some(name) => EntryPlan::Store(name),
                None => EntryPlan::Skip,
            },
            _ => EntryPlan::Skip,
        },
    }
}

/// Checks the marker and transforms what follows it.
pub fn decrypt_payload<S: DecryptionStrategy>(strategy: &S, data: &[u8]) -> (r: Option<Vec<u8>>)
    ensures
        match r {
            Some(bytes) => payload_spec(strategy, data@) == Some(bytes@),
            None => payload_spec(strategy, data@) is None,
        },
{
    if !has_magic(data) {
        return None;
    }
    let body = vstd::slice::slice_subrange(data, 4, data.len());
    assert(body@ =~= data@.skip(4));
    Some(strategy.transform(body))
}

/// The marker is the marker number written lowest byte first.
pub proof fn lemma_marker_is_the_number()
    ensures
        magic_marker() == seq![
            (ENCRYPT_MAGIC_NUMBER & 0xff) as u8,
            ((ENCRYPT_MAGIC_NUMBER >> 8) & 0xff) as u8,
            ((ENCRYPT_MAGIC_NUMBER >> 16) & 0xff) as u8,
            ((ENCRYPT_MAGIC_NUMBER >> 24) & 0xff) as u8,
        ],
{
    let n: u32 = ENCRYPT_MAGIC_NUMBER;
    assert((n & 0xff) as u8 == 0xDEu8 && ((n >> 8) & 0xff) as u8 == 0xC0u8 && ((n >> 16) & 0xff) as u8
        == 0xADu8 && ((n >> 24) & 0xff) as u8 == 0xDEu8) by (bit_vector)
        requires
            n == 0xDEADC0DEu32,
    ;
    assert(magic_marker() =~= seq![
        (ENCRYPT_MAGIC_NUMBER & 0xff) as u8,
        ((ENCRYPT_MAGIC_NUMBER >> 8) & 0xff) as u8,
        ((ENCRYPT_MAGIC_NUMBER >> 16) & 0xff) as u8,
        ((ENCRYPT_MAGIC_NUMBER >> 24) & 0xff) as u8,
    ]);
}

/// A reserved entry and the runtime's name for the same class give one key:
/// the entry `META-INF/.classes/` + `path` is cached under the dotted form
/// of `path`.
pub proof fn lemma_entry_name_matches_runtime_name(path: Seq<char>)
    ensures
        class_name_spec(reserved_prefix() + path) == normalize_spec(path),
        starts_with_seq(reserved_prefix() + path, reserved_prefix()),
{
    assert((reserved_prefix() + path).skip(18) =~= path);
    assert((reserved_prefix() + path).subrange(0, 18) =~= reserved_prefix());
}

/// Normalising keeps the length and touches nothing but slashes, and a
/// normalised name holds no slash.
pub proof fn lemma_normalize_pointwise(raw: Seq<char>)
    ensures
        normalize_spec(raw).len() == raw.len(),
        forall|i: int|
            0 <= i < raw.len() ==> #[trigger] normalize_spec(raw)[i] == (if raw[i] == '/' {
                '.'
            } else {
                raw[i]
            }),
        forall|i: int| 0 <= i < raw.len() ==> #[trigger] normalize_spec(raw)[i] != '/',
        normalize_spec(normalize_spec(raw)) == normalize_spec(raw),
{
    assert(normalize_spec(normalize_spec(raw)) =~= normalize_spec(raw));
}

} // verus!
