//! Options for `mkfs.btrfs`, and the command line they compile to.
//!
//! [`FormatterOptions`] collects options by chained calls; each call checks
//! its input where a limit is known and stores the finished argument in the
//! option's slot. [`Formatter`] holds the compiled arguments and completes
//! them with the target.

use vstd::prelude::*;
use crate::probe::found;
use crate::limits::{byte_len, byte_length, nodesize_accepted, valid_nodesize, LABEL_MAX_BYTES};
use crate::slots::{assign, compiled, empty, Slot, Slots, Token, SLOT_COUNT};
use crate::text::{decimal, decimal_string, join, joined, views};
use crate::Error;

verus! {

/// The runtime features that `mkfs.btrfs` documents.
pub const RUNTIME_FEATURES: [&'static str; 2] = ["quota", "free-space-tree"];

/// A character that a keyword may hold: a lowercase letter or a digit.
pub open spec fn keyword_char(c: char) -> bool {
    ('a' <= c && c <= 'z') || ('0' <= c && c <= '9')
}

/// Represents the set of valid (meta)data profiles.
#[derive(Copy, Clone, Debug)]
pub enum DataProfile {
    Raid0,
    Raid1,
    Raid1c3,
    Raid1c4,
    Raid5,
    Raid6,
    Raid10,
    Single,
    Dup,
}

impl DataProfile {
    /// The word by which `mkfs.btrfs` knows this profile.
    pub open spec fn keyword(self) -> Seq<char> {
        match self {
            DataProfile::Raid0 => "raid0"@,
            DataProfile::Raid1 => "raid1"@,
            DataProfile::Raid1c3 => "raid1c3"@,
            DataProfile::Raid1c4 => "raid1c4"@,
            DataProfile::Raid5 => "raid5"@,
            DataProfile::Raid6 => "raid6"@,
            DataProfile::Raid10 => "raid10"@,
            DataProfile::Single => "single"@,
            DataProfile::Dup => "dup"@,
        }
    }

    /// Every profile has a keyword of its own, written in lowercase letters
    /// and digits.
    pub proof fn lemma_keyword(self, other: DataProfile)
        ensures
            self.keyword().len() > 0,
            forall|i: int| 0 <= i < self.keyword().len() ==> keyword_char(self.keyword()[i]),
            self.keyword() == other.keyword() ==> self == other,
    {
        reveal_strlit("raid0");
        reveal_strlit("raid1");
        reveal_strlit("raid1c3");
        reveal_strlit("raid1c4");
        reveal_strlit("raid5");
        reveal_strlit("raid6");
        reveal_strlit("raid10");
        reveal_strlit("single");
        reveal_strlit("dup");
        if self != other && self.keyword().len() == other.keyword().len() {
            assert(self.keyword()[4] != other.keyword()[4] || self.keyword()[6]
                != other.keyword()[6]);
        }
    }

    /// The keyword of this profile, borrowed.
    pub fn as_str(&self) -> (word: &'static str)
        ensures
            word@ == self.keyword(),
    {
        match self {
            DataProfile::Raid0 => "raid0",
            DataProfile::Raid1 => "raid1",
            DataProfile::Raid1c3 => "raid1c3",
            DataProfile::Raid1c4 => "raid1c4",
            DataProfile::Raid5 => "raid5",
            DataProfile::Raid6 => "raid6",
            DataProfile::Raid10 => "raid10",
            DataProfile::Single => "single",
            DataProfile::Dup => "dup",
        }
    }

    /// The keyword of this profile, owned.
    pub fn to_string(&self) -> (word: String)
        ensures
            word@ == self.keyword(),
    {
        String::from_str(self.as_str())
    }
}

/// Represents the set of valid block checksum algorithms.
#[derive(Copy, Clone, Debug)]
pub enum ChecksumAlgorithm {
    Crc32c,
    XxHash,
    Sha256,
    Blake2,
}

impl ChecksumAlgorithm {
    /// The word by which `mkfs.btrfs` knows this algorithm.
    pub open spec fn keyword(self) -> Seq<char> {
        match self {
            ChecksumAlgorithm::Crc32c => "crc32c"@,
            ChecksumAlgorithm::XxHash => "xxhash"@,
            ChecksumAlgorithm::Sha256 => "sha256"@,
            ChecksumAlgorithm::Blake2 => "blake2"@,
        }
    }

    /// Every algorithm has a keyword of its own, written in lowercase letters
    /// and digits.
    pub proof fn lemma_keyword(self, other: ChecksumAlgorithm)
        ensures
            self.keyword().len() > 0,
            forall|i: int| 0 <= i < self.keyword().len() ==> keyword_char(self.keyword()[i]),
            self.keyword() == other.keyword() ==> self == other,
    {
        reveal_strlit("crc32c");
        reveal_strlit("xxhash");
        reveal_strlit("sha256");
        reveal_strlit("blake2");
        if self != other {
            assert(self.keyword()[0] != other.keyword()[0]);
        }
    }

    /// The keyword of this algorithm, borrowed.
    pub fn as_str(&self) -> (word: &'static str)
        ensures
            word@ == self.keyword(),
    {
        match self {
            ChecksumAlgorithm::Crc32c => "crc32c",
            ChecksumAlgorithm::XxHash => "xxhash",
            ChecksumAlgorithm::Sha256 => "sha256",
            ChecksumAlgorithm::Blake2 => "blake2",
        }
    }

    /// The keyword of this algorithm, owned.
    pub fn to_string(&self) -> (word: String)
        ensures
            word@ == self.keyword(),
    {
        String::from_str(self.as_str())
    }
}

/// What one stored slot stands for in the model.
spec fn held(slot: Option<String>) -> Option<Token> {
    match slot {
        Some(token) => Some(token@),
        None => None,
    }
}

/// Represents options for `mkfs.btrfs`.
#[derive(Debug)]
pub struct FormatterOptions {
    byte_count: Option<String>,
    checksum: Option<String>,
    data: Option<String>,
    features: Option<String>,
    force: Option<String>,
    label: Option<String>,
    metadata: Option<String>,
    mixed: Option<String>,
    no_discard: Option<String>,
    nodesize: Option<String>,
    rootdir: Option<String>,
    runtime_features: Option<String>,
    sectorsize: Option<String>,
    shrink: Option<String>,
    uuid: Option<String>,
}

impl View for FormatterOptions {
    type V = Slots;

    closed spec fn view(&self) -> Slots {
        seq![
            held(self.byte_count),
            held(self.checksum),
            held(self.data),
            held(self.features),
            held(self.force),
            held(self.label),
            held(self.metadata),
            held(self.mixed),
            held(self.no_discard),
            held(self.nodesize),
            held(self.rootdir),
            held(self.runtime_features),
            held(self.sectorsize),
            held(self.shrink),
            held(self.uuid),
        ]
    }
}

impl Default for FormatterOptions {
    /// A registry in which no option is set.
    fn default() -> (options: Self)
        ensures
            options@ == empty(),
    {
        let options = FormatterOptions {
            byte_count: None,
            checksum: None,
            data: None,
            features: None,
            force: None,
            label: None,
            metadata: None,
            mixed: None,
            no_discard: None,
            nodesize: None,
            rootdir: None,
            runtime_features: None,
            sectorsize: None,
            shrink: None,
            uuid: None,
        };
        options
    }
}

/// What the refusal of a label says: the limit, the label's length in bytes
/// and the label itself.
pub open spec fn label_refusal(label: Seq<char>) -> Seq<char> {
    "label cannot be longer than 255 bytes: "@ + decimal(byte_len(label)) + ", "@ + label
}

/// What the refusal of a node size says: the size and the rule it broke.
pub open spec fn nodesize_refusal(nodesize: nat) -> Seq<char> {
    "node_size ( = "@ + decimal(nodesize) + " )\nMust be a power of 2, and <= 16384"@
}

/// An argument of the form `--name=value`; `flag` ends with the `=`.
fn valued(flag: &str, value: &str) -> (token: String)
    ensures
        token@ == flag@ + value@,
{
    let mut token = String::from_str(flag);
    token.append(value);
    token
}

/// A copy of one stored slot.
fn clone_slot(slot: &Option<String>) -> (copy: Option<String>)
    ensures
        copy == *slot,
{
    match slot {
        Some(token) => Some(token.clone()),
        None => None,
    }
}

impl Clone for FormatterOptions {
    fn clone(&self) -> (options: Self)
        ensures
            options@ == self@,
    {
        FormatterOptions {
            byte_count: clone_slot(&self.byte_count),
            checksum: clone_slot(&self.checksum),
            data: clone_slot(&self.data),
            features: clone_slot(&self.features),
            force: clone_slot(&self.force),
            label: clone_slot(&self.label),
            metadata: clone_slot(&self.metadata),
            mixed: clone_slot(&self.mixed),
            no_discard: clone_slot(&self.no_discard),
            nodesize: clone_slot(&self.nodesize),
            rootdir: clone_slot(&self.rootdir),
            runtime_features: clone_slot(&self.runtime_features),
            sectorsize: clone_slot(&self.sectorsize),
            shrink: clone_slot(&self.shrink),
            uuid: clone_slot(&self.uuid),
        }
    }
}

impl FormatterOptions {
    /// A registry always has its fifteen slots.
    pub proof fn lemma_slot_count(&self)
        ensures
            self@.len() == SLOT_COUNT,
    {
    }

    /// Specify the size of each device, as seen by the filesystem.
    pub fn byte_count(self, byte_count: u64) -> (r: Result<Self, Error>)
        ensures
            r matches Ok(options) && options@ == assign(
                self@,
                Slot::ByteCount,
                "--byte-count="@ + decimal(byte_count as nat),
            ),
    {
        let token = valued("--byte-count=", decimal_string(byte_count).as_str());
        Ok(FormatterOptions { byte_count: Some(token), ..self })
    }

    /// Specify the checksum algorithm.
    pub fn checksum(self, checksum: ChecksumAlgorithm) -> (r: Result<Self, Error>)
        ensures
            r matches Ok(options) && options@ == assign(
                self@,
                Slot::Checksum,
                "--checksum="@ + checksum.keyword(),
            ),
    {
        let token = valued("--checksum=", checksum.as_str());
        Ok(FormatterOptions { checksum: Some(token), ..self })
    }

    /// Specify the profile for data block groups.
    pub fn data(self, data: DataProfile) -> (r: Result<Self, Error>)
        ensures
            r matches Ok(options) && options@ == assign(
                self@,
                Slot::Data,
                "--data="@ + data.keyword(),
            ),
    {
        let token = valued("--data=", data.as_str());
        Ok(FormatterOptions { data: Some(token), ..self })
    }

    /// Set mkfs-time features. Unset features by prefixing them with '^'.
    ///
    /// The names are joined with commas as they come and are not checked:
    /// `mkfs.btrfs` knows which features exist. An empty list still sets the
    /// option, with an empty value.
    pub fn features(self, features: &[&str]) -> (r: Result<Self, Error>)
        ensures
            r matches Ok(options) && options@ == assign(
                self@,
                Slot::Features,
                "--features="@ + joined(views(features@), ","@),
            ),
    {
        let token = valued("--features=", join(features, ",").as_str());
        Ok(FormatterOptions { features: Some(token), ..self })
    }

    /// Force-format the device, even if an existing filesystem is present.
    pub fn force(self) -> (r: Result<Self, Error>)
        ensures
            r matches Ok(options) && options@ == assign(self@, Slot::Force, "--force"@),
    {
        Ok(FormatterOptions { force: Some(String::from_str("--force")), ..self })
    }

    /// Set the partition label.
    ///
    /// A label longer than [`LABEL_MAX_BYTES`] bytes is refused; the length
    /// is counted in bytes of UTF-8, not in characters.
    pub fn label(self, label: &str) -> (r: Result<Self, Error>)
        ensures
            match r {
                Ok(options) => byte_len(label@) <= LABEL_MAX_BYTES && options@ == assign(
                    self@,
                    Slot::Label,
                    "--label="@ + label@,
                ),
                Err(Error::ArgumentError(message)) => byte_len(label@) > LABEL_MAX_BYTES
                    && message@ == label_refusal(label@),
                Err(Error::IoError(_)) => false,
            },
    {
        let length = byte_length(label);
        if length > LABEL_MAX_BYTES {
            let mut message = String::from_str("label cannot be longer than 255 bytes: ");
            message.append(decimal_string(length as u64).as_str());
            message.append(", ");
            message.append(label);
            return Err(Error::ArgumentError(message));
        }
        let token = valued("--label=", label);
        Ok(FormatterOptions { label: Some(token), ..self })
    }

    /// Specify the profile for metadata block groups.
    pub fn metadata(self, metadata: DataProfile) -> (r: Result<Self, Error>)
        ensures
            r matches Ok(options) && options@ == assign(
                self@,
                Slot::Metadata,
                "--metadata="@ + metadata.keyword(),
            ),
    {
        let token = valued("--metadata=", metadata.as_str());
        Ok(FormatterOptions { metadata: Some(token), ..self })
    }

    /// Enable mixing of data and metadata blocks.
    pub fn mixed(self) -> (r: Result<Self, Error>)
        ensures
            r matches Ok(options) && options@ == assign(self@, Slot::Mixed, "--mixed"@),
    {
        Ok(FormatterOptions { mixed: Some(String::from_str("--mixed")), ..self })
    }

    /// Disable implicit TRIM of storage device.
    pub fn no_discard(self) -> (r: Result<Self, Error>)
        ensures
            r matches Ok(options) && options@ == assign(self@, Slot::NoDiscard, "--nodiscard"@),
    {
        Ok(FormatterOptions {
            no_discard: Some(String::from_str("--nodiscard")),
            ..self
        })
    }

    /// Specify the size of a b-tree node.
    ///
    /// The size must be a power of two and at most 16384.
    pub fn nodesize(self, nodesize: usize) -> (r: Result<Self, Error>)
        ensures
            match r {
                Ok(options) => valid_nodesize(nodesize as int) && options@ == assign(
                    self@,
                    Slot::NodeSize,
                    "--nodesize="@ + decimal(nodesize as nat),
                ),
                Err(Error::ArgumentError(message)) => !valid_nodesize(nodesize as int)
                    && message@ == nodesize_refusal(nodesize as nat),
                Err(Error::IoError(_)) => false,
            },
    {
        if nodesize_accepted(nodesize) {
            let token = valued("--nodesize=", decimal_string(nodesize as u64).as_str());
            Ok(FormatterOptions { nodesize: Some(token), ..self })
        } else {
            let mut message = String::from_str("node_size ( = ");
            message.append(decimal_string(nodesize as u64).as_str());
            message.append(" )\nMust be a power of 2, and <= 16384");
            Err(Error::ArgumentError(message))
        }
    }

    /// Specify a directory containing data to copy into the btrfs filesystem.
    ///
    /// `rootdir` is the path as it is to be written on the command line, and
    /// `probe` is what asking the host whether that path exists gave. A path
    /// that is not there is refused, as is one of which the host could not
    /// tell; in that case the host's error is handed on as it came.
    pub fn rootdir(self, rootdir: &str, probe: Result<bool, std::io::Error>) -> (r: Result<
        Self,
        Error,
    >)
        ensures
            match probe {
                Ok(true) => r matches Ok(options) && options@ == assign(
                    self@,
                    Slot::RootDir,
                    "--rootdir="@ + rootdir@,
                ),
                Ok(false) => r matches Err(Error::IoError(_)),
                Err(fault) => r matches Err(Error::IoError(handed)) && handed == fault,
            },
    {
        match found(probe) {
            Ok(()) => {
                let token = valued("--rootdir=", rootdir);
                Ok(FormatterOptions { rootdir: Some(token), ..self })
            },
            Err(fault) => Err(Error::from(fault)),
        }
    }

    /// Set runtime features. Unset features by prefixing them with '^'.
    ///
    /// The names are joined with commas as they come and are not checked.
    /// An empty list still sets the option, with an empty value.
    pub fn runtime_features(self, features: &[&str]) -> (r: Result<Self, Error>)
        ensures
            r matches Ok(options) && options@ == assign(
                self@,
                Slot::RuntimeFeatures,
                "--runtime-features="@ + joined(views(features@), ","@),
            ),
    {
        let token = valued("--runtime-features=", join(features, ",").as_str());
        Ok(FormatterOptions { runtime_features: Some(token), ..self })
    }

    /// Set sector size.
    ///
    /// The size is not checked here. If set to a value unsupported by the
    /// current kernel, the resulting volume will not be mountable.
    pub fn sectorsize(self, sectorsize: usize) -> (r: Result<Self, Error>)
        ensures
            r matches Ok(options) && options@ == assign(
                self@,
                Slot::SectorSize,
                "--sectorsize="@ + decimal(sectorsize as nat),
            ),
    {
        let token = valued("--sectorsize=", decimal_string(sectorsize as u64).as_str());
        Ok(FormatterOptions { sectorsize: Some(token), ..self })
    }

    /// If the specified device is a file, and the `rootdir` option is
    /// specified, shrink the file to the minimum required size.
    pub fn shrink(self) -> (r: Result<Self, Error>)
        ensures
            r matches Ok(options) && options@ == assign(self@, Slot::Shrink, "--shrink"@),
    {
        Ok(FormatterOptions { shrink: Some(String::from_str("--shrink")), ..self })
    }

    /// Set the partition UUID. Its form is not checked here.
    pub fn uuid(self, uuid: &str) -> (r: Result<Self, Error>)
        ensures
            r matches Ok(options) && options@ == assign(self@, Slot::Uuid, "--uuid="@ + uuid@),
    {
        let token = valued("--uuid=", uuid);
        Ok(FormatterOptions { uuid: Some(token), ..self })
    }

    /// Convert the options into arguments: the token of every slot that was
    /// set, in slot order.
    pub fn to_args(&self) -> (args: Vec<String>)
        ensures
            args.deep_view() == compiled(self@),
    {
        let slots: [&Option<String>; SLOT_COUNT] = [
            &self.byte_count,
            &self.checksum,
            &self.data,
            &self.features,
            &self.force,
            &self.label,
            &self.metadata,
            &self.mixed,
            &self.no_discard,
            &self.nodesize,
            &self.rootdir,
            &self.runtime_features,
            &self.sectorsize,
            &self.shrink,
            &self.uuid,
        ];
        let mut args: Vec<String> = Vec::new();
        let mut i: usize = 0;
        while i < SLOT_COUNT
            invariant
                i <= SLOT_COUNT,
                self@.len() == SLOT_COUNT,
                forall|k: int| 0 <= k < SLOT_COUNT ==> held(*slots@[k]) == self@[k],
                args.deep_view() == compiled(self@.take(i as int)),
            decreases SLOT_COUNT - i,
        {
            proof {
                self@.lemma_filter_map_take_succ(|held: Option<Token>| held, i as int);
            }
            if let Some(arg) = slots[i] {
                args.push(arg.clone());
            }
            i += 1;
        }
        assert(self@.take(SLOT_COUNT as int) =~= self@);
        args
    }

    /// Dump the options as they will be passed to `mkfs.btrfs`: the
    /// arguments, pretty-printed as a list for a person to read.
    pub fn dump_args(&self) -> (text: String)
        ensures
            text@ == debug_listing(compiled(self@)),
    {
        pretty_debug(&self.to_args())
    }

    /// Bake the options into a [`Formatter`].
    pub fn build(&self) -> (formatter: Formatter)
        ensures
            formatter@ == compiled(self@),
    {
        let args = self.to_args();
        Formatter { args }
    }
}

/// What `{:#?}` writes for a list of strings: one quoted, escaped string per
/// line between brackets.
pub uninterp spec fn debug_listing(args: Seq<Seq<char>>) -> Seq<char>;

/// `format!("{:#?}", ..)` on a `Vec<String>`, the pretty form of std's
/// `Debug`. The rendering is taken on trust and only named: it is the same
/// text for the same list.
#[verifier::external_body]
fn pretty_debug(args: &Vec<String>) -> (text: String)
    ensures
        text@ == debug_listing(args.deep_view()),
{
    format!("{:#?}", args)
}

/// Formats anything that can be Btrfs-formatted.
#[derive(Debug, Hash, Eq, PartialEq, Ord, PartialOrd)]
pub struct Formatter {
    args: Vec<String>,
}

impl View for Formatter {
    type V = Seq<Token>;

    closed spec fn view(&self) -> Seq<Token> {
        self.args.deep_view()
    }
}

impl Formatter {
    /// Specify options first, then build a formatter.
    pub fn options() -> (options: FormatterOptions)
        ensures
            options@ == empty(),
    {
        FormatterOptions::default()
    }

    /// The command line that formats `device`: the compiled options, then the
    /// device as the only positional argument, always last.
    ///
    /// `device` is the target as it is to be written on the command line, and
    /// `probe` is what asking the host whether it exists gave. Without a
    /// target that is there no command line is made, so nothing can be run:
    /// a missing target is refused, and an error of the host is handed on as
    /// it came.
    pub fn format(self, device: &str, probe: Result<bool, std::io::Error>) -> (r: Result<
        Vec<String>,
        std::io::Error,
    >)
        ensures
            match probe {
                Ok(true) => r matches Ok(argv) && argv.deep_view() == self@.push(device@),
                Ok(false) => r is Err,
                Err(fault) => r matches Err(handed) && handed == fault,
            },
    {
        match found(probe) {
            Ok(()) => {
                let mut argv = self.args;
                argv.push(String::from_str(device));
                Ok(argv)
            },
            Err(fault) => Err(fault),
        }
    }
}

} // verus!
