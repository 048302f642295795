//! File transfer commands.
//!
//! - `push [--sync] [-z ALGORITHM] [-Z] LOCAL... REMOTE`: Copy local files/directories to device.
//! - `pull [-a] [-z ALGORITHM] [-Z] REMOTE... LOCAL`: Copy files/dirs from device
//! - `sync [-l] [-z ALGORITHM] [-Z] [all|data|odm|oem|product|system|system_ext|vendor]`:
//!     Sync a local build from `$ANDROID_PRODUCT_OUT` to the device (default `all`)

use vstd::prelude::*;
use crate::command::{
    compression, flag, optional, option_texts, owned, start, with_arg, with_compression, with_flag,
    with_list, with_optional, AdbCommand, AdbCommandBuilder,
};
use crate::error::{described, AdbError, Failure};
use crate::global_option::OptionModel;
use crate::scan::texts;
use crate::socket::agrees;
use crate::text::{chars_of, is_text};
use crate::Adb;

verus! {

/// Compression algorithm for file transfer commands.
#[derive(Debug, Clone, Copy, PartialEq, Eq, Hash, Structural)]
pub enum AdbCompressionAlgorithm {
    /// `any`
    Any,
    /// `none`
    NoCompression,
    /// `brotli`
    Brotli,
    /// `lz4`
    Lz4,
    /// `zstd`
    Zstd,
}

/// The word for a compression algorithm.
pub open spec fn compression_algorithm_name(v: AdbCompressionAlgorithm) -> Seq<char> {
    match v {
        AdbCompressionAlgorithm::Any => "any"@,
        AdbCompressionAlgorithm::NoCompression => "none"@,
        AdbCompressionAlgorithm::Brotli => "brotli"@,
        AdbCompressionAlgorithm::Lz4 => "lz4"@,
        AdbCompressionAlgorithm::Zstd => "zstd"@,
    }
}

/// What a word denotes as a compression algorithm.
pub open spec fn compression_algorithm_parse(s: Seq<char>) -> Result<AdbCompressionAlgorithm, Failure> {
    if s == "any"@ {
        Ok(AdbCompressionAlgorithm::Any)
    }     else if s == "none"@ {
        Ok(AdbCompressionAlgorithm::NoCompression)
    }     else if s == "brotli"@ {
        Ok(AdbCompressionAlgorithm::Brotli)
    }     else if s == "lz4"@ {
        Ok(AdbCompressionAlgorithm::Lz4)
    }     else if s == "zstd"@ {
        Ok(AdbCompressionAlgorithm::Zstd)
    } else {
        Err(described(s, "AdbCompressionAlgorithm"@, "Unknown compression algorithm"@))
    }
}

impl View for AdbCompressionAlgorithm {
    type V = AdbCompressionAlgorithm;

    open spec fn view(&self) -> AdbCompressionAlgorithm {
        *self
    }
}

impl AdbCompressionAlgorithm {
    /// The word for the value.
    pub fn as_ref(&self) -> (r: &'static str)
        ensures
            r@ == compression_algorithm_name(*self),
    {
        match self {
            AdbCompressionAlgorithm::Any => "any",
            AdbCompressionAlgorithm::NoCompression => "none",
            AdbCompressionAlgorithm::Brotli => "brotli",
            AdbCompressionAlgorithm::Lz4 => "lz4",
            AdbCompressionAlgorithm::Zstd => "zstd",
        }
    }

    /// The word for the value, as a string.
    pub fn to_string(&self) -> (r: String)
        ensures
            r@ == compression_algorithm_name(*self),
    {
        owned(self.as_ref())
    }

    /// Reads the value from its word.
    pub fn from_str(s: &str) -> (r: Result<Self, AdbError>)
        ensures
            agrees(r, compression_algorithm_parse(s@)),
    {
        let v = chars_of(s);
        if is_text(v.as_slice(), "any") {
            Ok(AdbCompressionAlgorithm::Any)
        }         else if is_text(v.as_slice(), "none") {
            Ok(AdbCompressionAlgorithm::NoCompression)
        }         else if is_text(v.as_slice(), "brotli") {
            Ok(AdbCompressionAlgorithm::Brotli)
        }         else if is_text(v.as_slice(), "lz4") {
            Ok(AdbCompressionAlgorithm::Lz4)
        }         else if is_text(v.as_slice(), "zstd") {
            Ok(AdbCompressionAlgorithm::Zstd)
        } else {
            Err(AdbError::invalid(v.as_slice(), "AdbCompressionAlgorithm", "Unknown compression algorithm"))
        }
    }
}

/// The word for a compression algorithm is read back as that value.
pub proof fn lemma_compression_algorithm_round_trip(v: AdbCompressionAlgorithm)
    ensures
        compression_algorithm_parse(compression_algorithm_name(v)) == Ok::<AdbCompressionAlgorithm, Failure>(v),
{
    reveal_strlit("any");
    reveal_strlit("none");
    reveal_strlit("brotli");
    reveal_strlit("lz4");
    reveal_strlit("zstd");
    let s = compression_algorithm_name(v);
    match v {
        AdbCompressionAlgorithm::Any => {
        },
        AdbCompressionAlgorithm::NoCompression => {
            assert(s != "any"@) by {
                assert(s.len() != "any"@.len() || exists|i: int| 0 <= i < s.len() && s[i] != "any"@[i]) by {
                }
            }
        },
        AdbCompressionAlgorithm::Brotli => {
            assert(s != "any"@) by {
                assert(s.len() != "any"@.len() || exists|i: int| 0 <= i < s.len() && s[i] != "any"@[i]) by {
                }
            }
            assert(s != "none"@) by {
                assert(s.len() != "none"@.len() || exists|i: int| 0 <= i < s.len() && s[i] != "none"@[i]) by {
                }
            }
        },
        AdbCompressionAlgorithm::Lz4 => {
            assert(s != "any"@) by {
                assert(s.len() != "any"@.len() || exists|i: int| 0 <= i < s.len() && s[i] != "any"@[i]) by {
                    assert(s[0] != "any"@[0]);
                }
            }
            assert(s != "none"@) by {
                assert(s.len() != "none"@.len() || exists|i: int| 0 <= i < s.len() && s[i] != "none"@[i]) by {
                }
            }
            assert(s != "brotli"@) by {
                assert(s.len() != "brotli"@.len() || exists|i: int| 0 <= i < s.len() && s[i] != "brotli"@[i]) by {
                }
            }
        },
        AdbCompressionAlgorithm::Zstd => {
            assert(s != "any"@) by {
                assert(s.len() != "any"@.len() || exists|i: int| 0 <= i < s.len() && s[i] != "any"@[i]) by {
                }
            }
            assert(s != "none"@) by {
                assert(s.len() != "none"@.len() || exists|i: int| 0 <= i < s.len() && s[i] != "none"@[i]) by {
                    assert(s[0] != "none"@[0]);
                }
            }
            assert(s != "brotli"@) by {
                assert(s.len() != "brotli"@.len() || exists|i: int| 0 <= i < s.len() && s[i] != "brotli"@[i]) by {
                }
            }
            assert(s != "lz4"@) by {
                assert(s.len() != "lz4"@.len() || exists|i: int| 0 <= i < s.len() && s[i] != "lz4"@[i]) by {
                }
            }
        },
    }
}

/// `push [--sync] [-z ALGORITHM] [-Z] LOCAL... REMOTE`: Copy local files/directories to device.
/// - `--sync`: Only push files that are newer on the host than the device.
/// - `-n`: Dry run, push files to device without storing to the filesystem.
/// - `-z`: enable compression with a specified algorithm (any/none/brotli/lz4/zstd).
/// - `-Z`: Disable compression.
#[derive(Debug, Clone, PartialEq, Eq)]
pub struct AdbPush<'a> {
    acb: AdbCommandBuilder<'a>,
    /// `--sync`: Only push files that are newer on the host than the device.
    sync: bool,
    /// `-n`: Dry run, push files to device without storing to the filesystem.
    n: bool,
    /// - `-z ALGORITHM`: Enable compression with a specified algorithm. (if [`Some`])
    /// - `-Z`: Disable compression. (if [`None`])
    z: Option<AdbCompressionAlgorithm>,
    /// Local files/directories to copy.
    local: Vec<String>,
    /// Remote destination.
    remote: String,
}

/// A command `push` as plain values: its global options and its own settings.
pub struct PushModel {
    pub options: Seq<OptionModel>,
    pub sync: bool,
    pub n: bool,
    pub z: Option<AdbCompressionAlgorithm>,
    pub local: Seq<Seq<char>>,
    pub remote: Seq<char>,
}

/// The arguments of a command `push` after the global options.
pub open spec fn push_args(m: PushModel) -> Seq<Seq<char>> {
    seq!["push"@] + flag(m.sync, "--sync"@) + compression(
        match m.z {
            Some(v) => Some(compression_algorithm_name(v)),
            None => None,
        },
    ) + m.local + seq![m.remote]
}

impl<'a> View for AdbPush<'a> {
    type V = PushModel;

    closed spec fn view(&self) -> PushModel {
        PushModel {
            options: self.acb.options(),
            sync: self.sync,
            n: self.n,
            z: self.z,
            local: texts(self.local@),
            remote: self.remote@,
        }
    }
}

impl<'a> AdbPush<'a> {
    /// The environment used in this command.
    pub closed spec fn environment(&self) -> Adb {
        self.acb.environment()
    }

    /// Creates a new `AdbPush` instance,
    /// `sync`, `n` (dry run), `z` (compression) is disabled.
    pub fn new(acb: AdbCommandBuilder<'a>, local: Vec<String>, remote: &str) -> (r: Self)
        ensures
            r@ == (PushModel {
                options: acb.options(),
                sync: false,
                n: false,
                z: None,
                local: texts(local@),
                remote: remote@,
            }),
            r.environment() == acb.environment(),
    {
        Self { acb, sync: false, n: false, z: None, local: local, remote: owned(remote) }
    }

    /// `--sync`: Only push files that are newer on the host than the device.
    pub fn sync(self) -> (r: Self)
        ensures
            r@ == (PushModel { sync: true, ..self@ }),
            r.environment() == self.environment(),
    {
        let mut r = self;
        r.sync = true;
        r
    }

    /// `-n`: Dry run, push files to device without storing to the filesystem.
    ///
    /// The switch is recorded with the command. No argument of the command line
    /// stands for it.
    pub fn n(self) -> (r: Self)
        ensures
            r@ == (PushModel { n: true, ..self@ }),
            r.environment() == self.environment(),
    {
        let mut r = self;
        r.n = true;
        r
    }

    /// `-z ALGORITHM`: Enable compression with a specified algorithm.
    ///
    /// The previous compression algorithm will be overwritten.
    pub fn z(self, algorithm: AdbCompressionAlgorithm) -> (r: Self)
        ensures
            r@ == (PushModel { z: Some(algorithm), ..self@ }),
            r.environment() == self.environment(),
    {
        let mut r = self;
        r.z = Some(algorithm);
        r
    }

    /// `-Z`: Disable compression.
    ///
    /// The previous compression algorithm will be overwritten.
    #[allow(non_snake_case)]
    pub fn Z(self) -> (r: Self)
        ensures
            r@ == (PushModel { z: None, ..self@ }),
            r.environment() == self.environment(),
    {
        let mut r = self;
        r.z = None;
        r
    }

    /// `LOCAL...`: Local files/directories to copy.
    ///
    /// The previous local files/directories will be overwritten.
    pub fn local(self, local: Vec<String>) -> (r: Self)
        ensures
            r@ == (PushModel { local: texts(local@), ..self@ }),
            r.environment() == self.environment(),
    {
        let mut r = self;
        r.local = local;
        r
    }

    /// `REMOTE`: Remote destination.
    ///
    /// The previous remote destination will be overwritten.
    pub fn remote(self, remote: &str) -> (r: Self)
        ensures
            r@ == (PushModel { remote: remote@, ..self@ }),
            r.environment() == self.environment(),
    {
        let mut r = self;
        r.remote = owned(remote);
        r
    }

}

impl<'a> AdbCommand<'a> for AdbPush<'a> {
    open spec fn arguments(&self) -> Seq<Seq<char>> {
        option_texts(self@.options) + push_args(self@)
    }

    open spec fn global_options(&self) -> Seq<OptionModel> {
        self@.options
    }

    open spec fn adb(&self) -> Adb {
        self.environment()
    }

    fn command_line(&self) -> (r: Vec<String>) {
        let v = start("push");
        let v = with_flag(v, self.sync, "--sync");
        let v = with_compression(
            v,
            match self.z {
                Some(t) => Some(t.as_ref()),
                None => None,
            },
        );
        let v = with_list(v, self.local.as_slice());
        let v = with_arg(v, self.remote.as_str());
        self.acb.command_line(v)
    }

    fn builder(&self) -> (r: &AdbCommandBuilder<'a>) {
        &self.acb
    }
}

impl Adb {
    /// `push [--sync] [-z ALGORITHM] [-Z] LOCAL... REMOTE`: Copy local files/directories to device.
    /// - `--sync`: Only push files that are newer on the host than the device.
    /// - `-n`: Dry run, push files to device without storing to the filesystem.
    /// - `-z`: enable compression with a specified algorithm (any/none/brotli/lz4/zstd).
    /// - `-Z`: Disable compression.
    pub fn push(&self, local: Vec<String>, remote: &str) -> (r: AdbPush<'_>)
        ensures
            r@ == (PushModel {
                options: Seq::<OptionModel>::empty(),
                sync: false,
                n: false,
                z: None,
                local: texts(local@),
                remote: remote@,
            }),
            r.environment() == *self,
    {
        AdbPush::new(self.command(), local, remote)
    }
}

impl<'a> AdbCommandBuilder<'a> {
    /// `push [--sync] [-z ALGORITHM] [-Z] LOCAL... REMOTE`: Copy local files/directories to device.
    pub fn push(self, local: Vec<String>, remote: &str) -> (r: AdbPush<'a>)
        ensures
            r@ == (PushModel {
                options: self.options(),
                sync: false,
                n: false,
                z: None,
                local: texts(local@),
                remote: remote@,
            }),
            r.environment() == self.environment(),
    {
        AdbPush::new(self, local, remote)
    }
}

/// `pull [-a] [-z ALGORITHM] [-Z] REMOTE... LOCAL`: Copy files/dirs from device
/// - `-a`: preserve file timestamp and mode.
/// - `-z`: enable compression with a specified algorithm (any/none/brotli/lz4/zstd).
/// - `-Z`: disable compression.
#[derive(Debug, Clone, PartialEq, Eq)]
pub struct AdbPull<'a> {
    acb: AdbCommandBuilder<'a>,
    /// `-a`: Preserve file timestamps and permissions.
    a: bool,
    /// - `-z ALGORITHM`: Enable compression with a specified algorithm. (if [`Some`])
    /// - `-Z`: Disable compression. (if [`None`])
    z: Option<AdbCompressionAlgorithm>,
    /// Remote files/directories to copy.
    remote: Vec<String>,
    /// Local destination.
    local: String,
}

/// A command `pull` as plain values: its global options and its own settings.
pub struct PullModel {
    pub options: Seq<OptionModel>,
    pub a: bool,
    pub z: Option<AdbCompressionAlgorithm>,
    pub remote: Seq<Seq<char>>,
    pub local: Seq<char>,
}

/// The arguments of a command `pull` after the global options.
pub open spec fn pull_args(m: PullModel) -> Seq<Seq<char>> {
    seq!["pull"@] + flag(m.a, "-a"@) + compression(
        match m.z {
            Some(v) => Some(compression_algorithm_name(v)),
            None => None,
        },
    ) + m.remote + seq![m.local]
}

impl<'a> View for AdbPull<'a> {
    type V = PullModel;

    closed spec fn view(&self) -> PullModel {
        PullModel {
            options: self.acb.options(),
            a: self.a,
            z: self.z,
            remote: texts(self.remote@),
            local: self.local@,
        }
    }
}

impl<'a> AdbPull<'a> {
    /// The environment used in this command.
    pub closed spec fn environment(&self) -> Adb {
        self.acb.environment()
    }

    /// Creates a new `AdbPull` instance,
    /// `a` (preserve file timestamp and mode), `z` (compression) is disabled.
    pub fn new(acb: AdbCommandBuilder<'a>, remote: Vec<String>, local: &str) -> (r: Self)
        ensures
            r@ == (PullModel {
                options: acb.options(),
                a: false,
                z: None,
                remote: texts(remote@),
                local: local@,
            }),
            r.environment() == acb.environment(),
    {
        Self { acb, a: false, z: None, remote: remote, local: owned(local) }
    }

    /// `-a`: Preserve file timestamps and permissions.
    pub fn a(self) -> (r: Self)
        ensures
            r@ == (PullModel { a: true, ..self@ }),
            r.environment() == self.environment(),
    {
        let mut r = self;
        r.a = true;
        r
    }

    /// `-z ALGORITHM`: Enable compression with a specified algorithm.
    ///
    /// The previous compression algorithm will be overwritten.
    pub fn z(self, algorithm: AdbCompressionAlgorithm) -> (r: Self)
        ensures
            r@ == (PullModel { z: Some(algorithm), ..self@ }),
            r.environment() == self.environment(),
    {
        let mut r = self;
        r.z = Some(algorithm);
        r
    }

    /// `-Z`: Disable compression.
    ///
    /// The previous compression algorithm will be overwritten.
    #[allow(non_snake_case)]
    pub fn Z(self) -> (r: Self)
        ensures
            r@ == (PullModel { z: None, ..self@ }),
            r.environment() == self.environment(),
    {
        let mut r = self;
        r.z = None;
        r
    }

    /// `REMOTE...`: Remote files/directories to copy.
    ///
    /// The previous remote files/directories will be overwritten.
    pub fn remote(self, remote: Vec<String>) -> (r: Self)
        ensures
            r@ == (PullModel { remote: texts(remote@), ..self@ }),
            r.environment() == self.environment(),
    {
        let mut r = self;
        r.remote = remote;
        r
    }

    /// `LOCAL`: Local destination.
    ///
    /// The previous local destination will be overwritten.
    pub fn local(self, local: &str) -> (r: Self)
        ensures
            r@ == (PullModel { local: local@, ..self@ }),
            r.environment() == self.environment(),
    {
        let mut r = self;
        r.local = owned(local);
        r
    }

}

impl<'a> AdbCommand<'a> for AdbPull<'a> {
    open spec fn arguments(&self) -> Seq<Seq<char>> {
        option_texts(self@.options) + pull_args(self@)
    }

    open spec fn global_options(&self) -> Seq<OptionModel> {
        self@.options
    }

    open spec fn adb(&self) -> Adb {
        self.environment()
    }

    fn command_line(&self) -> (r: Vec<String>) {
        let v = start("pull");
        let v = with_flag(v, self.a, "-a");
        let v = with_compression(
            v,
            match self.z {
                Some(t) => Some(t.as_ref()),
                None => None,
            },
        );
        let v = with_list(v, self.remote.as_slice());
        let v = with_arg(v, self.local.as_str());
        self.acb.command_line(v)
    }

    fn builder(&self) -> (r: &AdbCommandBuilder<'a>) {
        &self.acb
    }
}

impl Adb {
    /// `pull [-a] [-z ALGORITHM] [-Z] REMOTE... LOCAL`: Copy files/dirs from device
    /// - `-a`: preserve file timestamp and mode.
    /// - `-z`: enable compression with a specified algorithm (any/none/brotli/lz4/zstd).
    /// - `-Z`: disable compression.
    pub fn pull(&self, remote: Vec<String>, local: &str) -> (r: AdbPull<'_>)
        ensures
            r@ == (PullModel {
                options: Seq::<OptionModel>::empty(),
                a: false,
                z: None,
                remote: texts(remote@),
                local: local@,
            }),
            r.environment() == *self,
    {
        AdbPull::new(self.command(), remote, local)
    }
}

impl<'a> AdbCommandBuilder<'a> {
    /// `pull [-a] [-z ALGORITHM] [-Z] REMOTE... LOCAL`: Copy files/dirs from device
    pub fn pull(self, remote: Vec<String>, local: &str) -> (r: AdbPull<'a>)
        ensures
            r@ == (PullModel {
                options: self.options(),
                a: false,
                z: None,
                remote: texts(remote@),
                local: local@,
            }),
            r.environment() == self.environment(),
    {
        AdbPull::new(self, remote, local)
    }
}

/// Sync target for `sync` command.
#[derive(Debug, Clone, Copy, PartialEq, Eq, Hash, Structural)]
pub enum AdbSyncTarget {
    /// `all`
    All,
    /// `data`
    Data,
    /// `odm`
    Odm,
    /// `oem`
    Oem,
    /// `product`
    Product,
    /// `system`
    System,
    /// `system_ext`
    SystemExt,
    /// `vendor`
    Vendor,
}

/// The word for a sync target.
pub open spec fn sync_target_name(v: AdbSyncTarget) -> Seq<char> {
    match v {
        AdbSyncTarget::All => "all"@,
        AdbSyncTarget::Data => "data"@,
        AdbSyncTarget::Odm => "odm"@,
        AdbSyncTarget::Oem => "oem"@,
        AdbSyncTarget::Product => "product"@,
        AdbSyncTarget::System => "system"@,
        AdbSyncTarget::SystemExt => "system_ext"@,
        AdbSyncTarget::Vendor => "vendor"@,
    }
}

/// What a word denotes as a sync target.
pub open spec fn sync_target_parse(s: Seq<char>) -> Result<AdbSyncTarget, Failure> {
    if s == "all"@ {
        Ok(AdbSyncTarget::All)
    }     else if s == "data"@ {
        Ok(AdbSyncTarget::Data)
    }     else if s == "odm"@ {
        Ok(AdbSyncTarget::Odm)
    }     else if s == "oem"@ {
        Ok(AdbSyncTarget::Oem)
    }     else if s == "product"@ {
        Ok(AdbSyncTarget::Product)
    }     else if s == "system"@ {
        Ok(AdbSyncTarget::System)
    }     else if s == "system_ext"@ {
        Ok(AdbSyncTarget::SystemExt)
    }     else if s == "vendor"@ {
        Ok(AdbSyncTarget::Vendor)
    } else {
        Err(described(s, "SyncTarget"@, "Unknown sync target"@))
    }
}

impl View for AdbSyncTarget {
    type V = AdbSyncTarget;

    open spec fn view(&self) -> AdbSyncTarget {
        *self
    }
}

impl AdbSyncTarget {
    /// The word for the value.
    pub fn as_ref(&self) -> (r: &'static str)
        ensures
            r@ == sync_target_name(*self),
    {
        match self {
            AdbSyncTarget::All => "all",
            AdbSyncTarget::Data => "data",
            AdbSyncTarget::Odm => "odm",
            AdbSyncTarget::Oem => "oem",
            AdbSyncTarget::Product => "product",
            AdbSyncTarget::System => "system",
            AdbSyncTarget::SystemExt => "system_ext",
            AdbSyncTarget::Vendor => "vendor",
        }
    }

    /// The word for the value, as a string.
    pub fn to_string(&self) -> (r: String)
        ensures
            r@ == sync_target_name(*self),
    {
        owned(self.as_ref())
    }

    /// Reads the value from its word.
    pub fn from_str(s: &str) -> (r: Result<Self, AdbError>)
        ensures
            agrees(r, sync_target_parse(s@)),
    {
        let v = chars_of(s);
        if is_text(v.as_slice(), "all") {
            Ok(AdbSyncTarget::All)
        }         else if is_text(v.as_slice(), "data") {
            Ok(AdbSyncTarget::Data)
        }         else if is_text(v.as_slice(), "odm") {
            Ok(AdbSyncTarget::Odm)
        }         else if is_text(v.as_slice(), "oem") {
            Ok(AdbSyncTarget::Oem)
        }         else if is_text(v.as_slice(), "product") {
            Ok(AdbSyncTarget::Product)
        }         else if is_text(v.as_slice(), "system") {
            Ok(AdbSyncTarget::System)
        }         else if is_text(v.as_slice(), "system_ext") {
            Ok(AdbSyncTarget::SystemExt)
        }         else if is_text(v.as_slice(), "vendor") {
            Ok(AdbSyncTarget::Vendor)
        } else {
            Err(AdbError::invalid(v.as_slice(), "SyncTarget", "Unknown sync target"))
        }
    }
}

/// The word for a sync target is read back as that value.
pub proof fn lemma_sync_target_round_trip(v: AdbSyncTarget)
    ensures
        sync_target_parse(sync_target_name(v)) == Ok::<AdbSyncTarget, Failure>(v),
{
    reveal_strlit("all");
    reveal_strlit("data");
    reveal_strlit("odm");
    reveal_strlit("oem");
    reveal_strlit("product");
    reveal_strlit("system");
    reveal_strlit("system_ext");
    reveal_strlit("vendor");
    let s = sync_target_name(v);
    match v {
        AdbSyncTarget::All => {
        },
        AdbSyncTarget::Data => {
            assert(s != "all"@) by {
                assert(s.len() != "all"@.len() || exists|i: int| 0 <= i < s.len() && s[i] != "all"@[i]) by {
                }
            }
        },
        AdbSyncTarget::Odm => {
            assert(s != "all"@) by {
                assert(s.len() != "all"@.len() || exists|i: int| 0 <= i < s.len() && s[i] != "all"@[i]) by {
                    assert(s[0] != "all"@[0]);
                }
            }
            assert(s != "data"@) by {
                assert(s.len() != "data"@.len() || exists|i: int| 0 <= i < s.len() && s[i] != "data"@[i]) by {
                }
            }
        },
        AdbSyncTarget::Oem => {
            assert(s != "all"@) by {
                assert(s.len() != "all"@.len() || exists|i: int| 0 <= i < s.len() && s[i] != "all"@[i]) by {
                    assert(s[0] != "all"@[0]);
                }
            }
            assert(s != "data"@) by {
                assert(s.len() != "data"@.len() || exists|i: int| 0 <= i < s.len() && s[i] != "data"@[i]) by {
                }
            }
            assert(s != "odm"@) by {
                assert(s.len() != "odm"@.len() || exists|i: int| 0 <= i < s.len() && s[i] != "odm"@[i]) by {
                    assert(s[1] != "odm"@[1]);
                }
            }
        },
        AdbSyncTarget::Product => {
            assert(s != "all"@) by {
                assert(s.len() != "all"@.len() || exists|i: int| 0 <= i < s.len() && s[i] != "all"@[i]) by {
                }
            }
            assert(s != "data"@) by {
                assert(s.len() != "data"@.len() || exists|i: int| 0 <= i < s.len() && s[i] != "data"@[i]) by {
                }
            }
            assert(s != "odm"@) by {
                assert(s.len() != "odm"@.len() || exists|i: int| 0 <= i < s.len() && s[i] != "odm"@[i]) by {
                }
            }
            assert(s != "oem"@) by {
                assert(s.len() != "oem"@.len() || exists|i: int| 0 <= i < s.len() && s[i] != "oem"@[i]) by {
                }
            }
        },
        AdbSyncTarget::System => {
            assert(s != "all"@) by {
                assert(s.len() != "all"@.len() || exists|i: int| 0 <= i < s.len() && s[i] != "all"@[i]) by {
                }
            }
            assert(s != "data"@) by {
                assert(s.len() != "data"@.len() || exists|i: int| 0 <= i < s.len() && s[i] != "data"@[i]) by {
                }
            }
            assert(s != "odm"@) by {
                assert(s.len() != "odm"@.len() || exists|i: int| 0 <= i < s.len() && s[i] != "odm"@[i]) by {
                }
            }
            assert(s != "oem"@) by {
                assert(s.len() != "oem"@.len() || exists|i: int| 0 <= i < s.len() && s[i] != "oem"@[i]) by {
                }
            }
            assert(s != "product"@) by {
                assert(s.len() != "product"@.len() || exists|i: int| 0 <= i < s.len() && s[i] != "product"@[i]) by {
                }
            }
        },
        AdbSyncTarget::SystemExt => {
            assert(s != "all"@) by {
                assert(s.len() != "all"@.len() || exists|i: int| 0 <= i < s.len() && s[i] != "all"@[i]) by {
                }
            }
            assert(s != "data"@) by {
                assert(s.len() != "data"@.len() || exists|i: int| 0 <= i < s.len() && s[i] != "data"@[i]) by {
                }
            }
            assert(s != "odm"@) by {
                assert(s.len() != "odm"@.len() || exists|i: int| 0 <= i < s.len() && s[i] != "odm"@[i]) by {
                }
            }
            assert(s != "oem"@) by {
                assert(s.len() != "oem"@.len() || exists|i: int| 0 <= i < s.len() && s[i] != "oem"@[i]) by {
                }
            }
            assert(s != "product"@) by {
                assert(s.len() != "product"@.len() || exists|i: int| 0 <= i < s.len() && s[i] != "product"@[i]) by {
                }
            }
            assert(s != "system"@) by {
                assert(s.len() != "system"@.len() || exists|i: int| 0 <= i < s.len() && s[i] != "system"@[i]) by {
                }
            }
        },
        AdbSyncTarget::Vendor => {
            assert(s != "all"@) by {
                assert(s.len() != "all"@.len() || exists|i: int| 0 <= i < s.len() && s[i] != "all"@[i]) by {
                }
            }
            assert(s != "data"@) by {
                assert(s.len() != "data"@.len() || exists|i: int| 0 <= i < s.len() && s[i] != "data"@[i]) by {
                }
            }
            assert(s != "odm"@) by {
                assert(s.len() != "odm"@.len() || exists|i: int| 0 <= i < s.len() && s[i] != "odm"@[i]) by {
                }
            }
            assert(s != "oem"@) by {
                assert(s.len() != "oem"@.len() || exists|i: int| 0 <= i < s.len() && s[i] != "oem"@[i]) by {
                }
            }
            assert(s != "product"@) by {
                assert(s.len() != "product"@.len() || exists|i: int| 0 <= i < s.len() && s[i] != "product"@[i]) by {
                }
            }
            assert(s != "system"@) by {
                assert(s.len() != "system"@.len() || exists|i: int| 0 <= i < s.len() && s[i] != "system"@[i]) by {
                    assert(s[0] != "system"@[0]);
                }
            }
            assert(s != "system_ext"@) by {
                assert(s.len() != "system_ext"@.len() || exists|i: int| 0 <= i < s.len() && s[i] != "system_ext"@[i]) by {
                }
            }
        },
    }
}

/// `sync [-l] [-z ALGORITHM] [-Z] [all|data|odm|oem|product|system|system_ext|vendor]`:
/// Sync a local build from `$ANDROID_PRODUCT_OUT` to the device (default `all`)
/// `-n`: Dry run. Push files to device without storing to the filesystem.
/// `-l`: List files that would be copied, but don't copy them.
/// `-z`: Enable compression with a specified algorithm (any/none/brotli/lz4/zstd)
/// `-Z`: Disable compression.
#[derive(Debug, Clone, PartialEq, Eq)]
pub struct AdbSync<'a> {
    acb: AdbCommandBuilder<'a>,
    /// `-n`: Dry run. Push files to device without storing to the filesystem.
    n: bool,
    /// `-l`: List files that would be copied, but don't copy them.
    l: bool,
    /// - `-z ALGORITHM`: Enable compression with a specified algorithm. (if [`Some`])
    /// - `-Z`: Disable compression. (if [`None`])
    z: Option<AdbCompressionAlgorithm>,
    /// Sync target.
    target: Option<AdbSyncTarget>,
}

/// A command `sync` as plain values: its global options and its own settings.
pub struct SyncModel {
    pub options: Seq<OptionModel>,
    pub n: bool,
    pub l: bool,
    pub z: Option<AdbCompressionAlgorithm>,
    pub target: Option<AdbSyncTarget>,
}

/// The arguments of a command `sync` after the global options.
pub open spec fn sync_args(m: SyncModel) -> Seq<Seq<char>> {
    seq!["sync"@] + flag(m.n, "-n"@) + flag(m.l, "-l"@) + compression(
        match m.z {
            Some(v) => Some(compression_algorithm_name(v)),
            None => None,
        },
    ) + optional(
        match m.target {
            Some(v) => Some(sync_target_name(v)),
            None => None,
        },
    )
}

impl<'a> View for AdbSync<'a> {
    type V = SyncModel;

    closed spec fn view(&self) -> SyncModel {
        SyncModel {
            options: self.acb.options(),
            n: self.n,
            l: self.l,
            z: self.z,
            target: self.target,
        }
    }
}

impl<'a> AdbSync<'a> {
    /// The environment used in this command.
    pub closed spec fn environment(&self) -> Adb {
        self.acb.environment()
    }

    /// Creates a new `AdbSync` instance,
    /// `n` (dry run), `l` (list files), `z` (compression) is disabled.
    pub fn new(acb: AdbCommandBuilder<'a>) -> (r: Self)
        ensures
            r@ == (SyncModel {
                options: acb.options(),
                n: false,
                l: false,
                z: None,
                target: None,
            }),
            r.environment() == acb.environment(),
    {
        Self { acb, n: false, l: false, z: None, target: None }
    }

    /// `-n`: Dry run. Push files to device without storing to the filesystem.
    pub fn n(self) -> (r: Self)
        ensures
            r@ == (SyncModel { n: true, ..self@ }),
            r.environment() == self.environment(),
    {
        let mut r = self;
        r.n = true;
        r
    }

    /// `-l`: List files that would be copied, but don't copy them.
    pub fn l(self) -> (r: Self)
        ensures
            r@ == (SyncModel { l: true, ..self@ }),
            r.environment() == self.environment(),
    {
        let mut r = self;
        r.l = true;
        r
    }

    /// `-z ALGORITHM`: Enable compression with a specified algorithm.
    ///
    /// The previous compression algorithm will be overwritten.
    pub fn z(self, algorithm: AdbCompressionAlgorithm) -> (r: Self)
        ensures
            r@ == (SyncModel { z: Some(algorithm), ..self@ }),
            r.environment() == self.environment(),
    {
        let mut r = self;
        r.z = Some(algorithm);
        r
    }

    /// `-Z`: Disable compression.
    ///
    /// The previous compression algorithm will be overwritten.
    #[allow(non_snake_case)]
    pub fn Z(self) -> (r: Self)
        ensures
            r@ == (SyncModel { z: None, ..self@ }),
            r.environment() == self.environment(),
    {
        let mut r = self;
        r.z = None;
        r
    }

    /// `TARGET`: Sync target.
    ///
    /// The previous sync target will be overwritten.
    pub fn arg(self, target: AdbSyncTarget) -> (r: Self)
        ensures
            r@ == (SyncModel { target: Some(target), ..self@ }),
            r.environment() == self.environment(),
    {
        let mut r = self;
        r.target = Some(target);
        r
    }

}

impl<'a> AdbCommand<'a> for AdbSync<'a> {
    open spec fn arguments(&self) -> Seq<Seq<char>> {
        option_texts(self@.options) + sync_args(self@)
    }

    open spec fn global_options(&self) -> Seq<OptionModel> {
        self@.options
    }

    open spec fn adb(&self) -> Adb {
        self.environment()
    }

    fn command_line(&self) -> (r: Vec<String>) {
        let v = start("sync");
        let v = with_flag(v, self.n, "-n");
        let v = with_flag(v, self.l, "-l");
        let v = with_compression(
            v,
            match self.z {
                Some(t) => Some(t.as_ref()),
                None => None,
            },
        );
        let v = with_optional(
            v,
            match self.target {
                Some(t) => Some(t.as_ref()),
                None => None,
            },
        );
        self.acb.command_line(v)
    }

    fn builder(&self) -> (r: &AdbCommandBuilder<'a>) {
        &self.acb
    }
}

impl Adb {
    /// `sync [-l] [-z ALGORITHM] [-Z] [all|data|odm|oem|product|system|system_ext|vendor]`:
    /// Sync a local build from `$ANDROID_PRODUCT_OUT` to the device (default `all`)
    /// `-n`: Dry run. Push files to device without storing to the filesystem.
    /// `-l`: List files that would be copied, but don't copy them.
    /// `-z`: Enable compression with a specified algorithm (any/none/brotli/lz4/zstd)
    /// `-Z`: Disable compression.
    pub fn sync(&self) -> (r: AdbSync<'_>)
        ensures
            r@ == (SyncModel {
                options: Seq::<OptionModel>::empty(),
                n: false,
                l: false,
                z: None,
                target: None,
            }),
            r.environment() == *self,
    {
        AdbSync::new(self.command())
    }
}

impl<'a> AdbCommandBuilder<'a> {
    /// `sync [-l] [-z ALGORITHM] [-Z] [all|data|odm|oem|product|system|system_ext|vendor]`:
    /// Sync a local build from `$ANDROID_PRODUCT_OUT` to the device (default `all`)
    pub fn sync(self) -> (r: AdbSync<'a>)
        ensures
            r@ == (SyncModel {
                options: self.options(),
                n: false,
                l: false,
                z: None,
                target: None,
            }),
            r.environment() == self.environment(),
    {
        AdbSync::new(self)
    }
}

} // verus!
