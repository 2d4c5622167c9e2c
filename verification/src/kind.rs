//! The closed set of format adapters, as one value that can be stored and
//! compared.

use crate::command::{AdapterError, CommandSpec, CommandView};
use crate::extractor::arj::ArjExtractor;
use crate::extractor::bzip2::Bzip2Extractor;
use crate::extractor::cab::CabExtractor;
use crate::extractor::compress::CompressExtractor;
use crate::extractor::gzip::GzipExtractor;
use crate::extractor::iso::IsoExtractor;
use crate::extractor::lha::LhaExtractor;
use crate::extractor::lzip::LzipExtractor;
use crate::extractor::lzma::LzmaExtractor;
use crate::extractor::lzop::LzopExtractor;
use crate::extractor::pkg::DebRpmExtractor;
use crate::extractor::rar::RarExtractor;
use crate::extractor::sevenz::SevenzExtractor;
use crate::extractor::sfx::SfxExtractor;
use crate::extractor::tar::{archive_extension, flag_for, TarExtractor};
use crate::extractor::xz::XzExtractor;
use crate::extractor::zip::ZipExtractor;
use crate::extractor::zstd::ZstdExtractor;
use crate::extractor::Extractor;
use crate::trust::Platform;
use vstd::prelude::*;

verus! {

/// One of the adapters that the library ships.
#[derive(Clone, Copy, Debug, PartialEq, Eq, Structural)]
pub enum ExtractorKind {
    Arj,
    Bzip2,
    Cab,
    Compress,
    Gzip,
    Iso,
    Lha,
    Lzip,
    Lzma,
    Lzop,
    DebRpm,
    Rar,
    Sevenz,
    Sfx,
    Tar,
    Xz,
    Zip,
    Zstd,
}

/// Every adapter, in the order in which a registry takes them up.
pub open spec fn all_kinds() -> Seq<ExtractorKind> {
    seq![
        ExtractorKind::Arj,
        ExtractorKind::Bzip2,
        ExtractorKind::Cab,
        ExtractorKind::Compress,
        ExtractorKind::Gzip,
        ExtractorKind::Iso,
        ExtractorKind::Lha,
        ExtractorKind::Lzip,
        ExtractorKind::Lzma,
        ExtractorKind::Lzop,
        ExtractorKind::DebRpm,
        ExtractorKind::Rar,
        ExtractorKind::Sevenz,
        ExtractorKind::Sfx,
        ExtractorKind::Tar,
        ExtractorKind::Xz,
        ExtractorKind::Zip,
        ExtractorKind::Zstd,
    ]
}

/// Every adapter, in the order in which a registry takes them up.
pub fn every_kind() -> (r: Vec<ExtractorKind>)
    ensures
        r@ == all_kinds(),
{
    let r = vec![
        ExtractorKind::Arj,
        ExtractorKind::Bzip2,
        ExtractorKind::Cab,
        ExtractorKind::Compress,
        ExtractorKind::Gzip,
        ExtractorKind::Iso,
        ExtractorKind::Lha,
        ExtractorKind::Lzip,
        ExtractorKind::Lzma,
        ExtractorKind::Lzop,
        ExtractorKind::DebRpm,
        ExtractorKind::Rar,
        ExtractorKind::Sevenz,
        ExtractorKind::Sfx,
        ExtractorKind::Tar,
        ExtractorKind::Xz,
        ExtractorKind::Zip,
        ExtractorKind::Zstd,
    ];
    assert(r@ =~= all_kinds());
    r
}

impl Extractor for ExtractorKind {
    open spec fn extensions(&self) -> Seq<Seq<char>> {
        match self {
            ExtractorKind::Arj => ArjExtractor.extensions(),
            ExtractorKind::Bzip2 => Bzip2Extractor.extensions(),
            ExtractorKind::Cab => CabExtractor.extensions(),
            ExtractorKind::Compress => CompressExtractor.extensions(),
            ExtractorKind::Gzip => GzipExtractor.extensions(),
            ExtractorKind::Iso => IsoExtractor.extensions(),
            ExtractorKind::Lha => LhaExtractor.extensions(),
            ExtractorKind::Lzip => LzipExtractor.extensions(),
            ExtractorKind::Lzma => LzmaExtractor.extensions(),
            ExtractorKind::Lzop => LzopExtractor.extensions(),
            ExtractorKind::DebRpm => DebRpmExtractor.extensions(),
            ExtractorKind::Rar => RarExtractor.extensions(),
            ExtractorKind::Sevenz => SevenzExtractor.extensions(),
            ExtractorKind::Sfx => SfxExtractor.extensions(),
            ExtractorKind::Tar => TarExtractor.extensions(),
            ExtractorKind::Xz => XzExtractor.extensions(),
            ExtractorKind::Zip => ZipExtractor.extensions(),
            ExtractorKind::Zstd => ZstdExtractor.extensions(),
        }
    }

    open spec fn candidates(&self, platform: Platform) -> Seq<Seq<char>> {
        match self {
            ExtractorKind::Arj => ArjExtractor.candidates(platform),
            ExtractorKind::Bzip2 => Bzip2Extractor.candidates(platform),
            ExtractorKind::Cab => CabExtractor.candidates(platform),
            ExtractorKind::Compress => CompressExtractor.candidates(platform),
            ExtractorKind::Gzip => GzipExtractor.candidates(platform),
            ExtractorKind::Iso => IsoExtractor.candidates(platform),
            ExtractorKind::Lha => LhaExtractor.candidates(platform),
            ExtractorKind::Lzip => LzipExtractor.candidates(platform),
            ExtractorKind::Lzma => LzmaExtractor.candidates(platform),
            ExtractorKind::Lzop => LzopExtractor.candidates(platform),
            ExtractorKind::DebRpm => DebRpmExtractor.candidates(platform),
            ExtractorKind::Rar => RarExtractor.candidates(platform),
            ExtractorKind::Sevenz => SevenzExtractor.candidates(platform),
            ExtractorKind::Sfx => SfxExtractor.candidates(platform),
            ExtractorKind::Tar => TarExtractor.candidates(platform),
            ExtractorKind::Xz => XzExtractor.candidates(platform),
            ExtractorKind::Zip => ZipExtractor.candidates(platform),
            ExtractorKind::Zstd => ZstdExtractor.candidates(platform),
        }
    }

    open spec fn command(
        &self,
        tool: Option<Seq<char>>,
        binary: Seq<char>,
        file: Seq<char>,
        file_name: Option<Seq<char>>,
        output_dir: Seq<char>,
        verbose: bool,
    ) -> Result<CommandView, Seq<char>> {
        match self {
            ExtractorKind::Arj => ArjExtractor.command(tool, binary, file, file_name, output_dir, verbose),
            ExtractorKind::Bzip2 => Bzip2Extractor.command(tool, binary, file, file_name, output_dir, verbose),
            ExtractorKind::Cab => CabExtractor.command(tool, binary, file, file_name, output_dir, verbose),
            ExtractorKind::Compress => CompressExtractor.command(tool, binary, file, file_name, output_dir, verbose),
            ExtractorKind::Gzip => GzipExtractor.command(tool, binary, file, file_name, output_dir, verbose),
            ExtractorKind::Iso => IsoExtractor.command(tool, binary, file, file_name, output_dir, verbose),
            ExtractorKind::Lha => LhaExtractor.command(tool, binary, file, file_name, output_dir, verbose),
            ExtractorKind::Lzip => LzipExtractor.command(tool, binary, file, file_name, output_dir, verbose),
            ExtractorKind::Lzma => LzmaExtractor.command(tool, binary, file, file_name, output_dir, verbose),
            ExtractorKind::Lzop => LzopExtractor.command(tool, binary, file, file_name, output_dir, verbose),
            ExtractorKind::DebRpm => DebRpmExtractor.command(tool, binary, file, file_name, output_dir, verbose),
            ExtractorKind::Rar => RarExtractor.command(tool, binary, file, file_name, output_dir, verbose),
            ExtractorKind::Sevenz => SevenzExtractor.command(tool, binary, file, file_name, output_dir, verbose),
            ExtractorKind::Sfx => SfxExtractor.command(tool, binary, file, file_name, output_dir, verbose),
            ExtractorKind::Tar => TarExtractor.command(tool, binary, file, file_name, output_dir, verbose),
            ExtractorKind::Xz => XzExtractor.command(tool, binary, file, file_name, output_dir, verbose),
            ExtractorKind::Zip => ZipExtractor.command(tool, binary, file, file_name, output_dir, verbose),
            ExtractorKind::Zstd => ZstdExtractor.command(tool, binary, file, file_name, output_dir, verbose),
        }
    }

    fn file_extensions(&self) -> (r: Vec<&'static str>) {
        match self {
            ExtractorKind::Arj => ArjExtractor.file_extensions(),
            ExtractorKind::Bzip2 => Bzip2Extractor.file_extensions(),
            ExtractorKind::Cab => CabExtractor.file_extensions(),
            ExtractorKind::Compress => CompressExtractor.file_extensions(),
            ExtractorKind::Gzip => GzipExtractor.file_extensions(),
            ExtractorKind::Iso => IsoExtractor.file_extensions(),
            ExtractorKind::Lha => LhaExtractor.file_extensions(),
            ExtractorKind::Lzip => LzipExtractor.file_extensions(),
            ExtractorKind::Lzma => LzmaExtractor.file_extensions(),
            ExtractorKind::Lzop => LzopExtractor.file_extensions(),
            ExtractorKind::DebRpm => DebRpmExtractor.file_extensions(),
            ExtractorKind::Rar => RarExtractor.file_extensions(),
            ExtractorKind::Sevenz => SevenzExtractor.file_extensions(),
            ExtractorKind::Sfx => SfxExtractor.file_extensions(),
            ExtractorKind::Tar => TarExtractor.file_extensions(),
            ExtractorKind::Xz => XzExtractor.file_extensions(),
            ExtractorKind::Zip => ZipExtractor.file_extensions(),
            ExtractorKind::Zstd => ZstdExtractor.file_extensions(),
        }
    }

    fn binary_names(&self, platform: Platform) -> (r: Vec<&'static str>) {
        match self {
            ExtractorKind::Arj => ArjExtractor.binary_names(platform),
            ExtractorKind::Bzip2 => Bzip2Extractor.binary_names(platform),
            ExtractorKind::Cab => CabExtractor.binary_names(platform),
            ExtractorKind::Compress => CompressExtractor.binary_names(platform),
            ExtractorKind::Gzip => GzipExtractor.binary_names(platform),
            ExtractorKind::Iso => IsoExtractor.binary_names(platform),
            ExtractorKind::Lha => LhaExtractor.binary_names(platform),
            ExtractorKind::Lzip => LzipExtractor.binary_names(platform),
            ExtractorKind::Lzma => LzmaExtractor.binary_names(platform),
            ExtractorKind::Lzop => LzopExtractor.binary_names(platform),
            ExtractorKind::DebRpm => DebRpmExtractor.binary_names(platform),
            ExtractorKind::Rar => RarExtractor.binary_names(platform),
            ExtractorKind::Sevenz => SevenzExtractor.binary_names(platform),
            ExtractorKind::Sfx => SfxExtractor.binary_names(platform),
            ExtractorKind::Tar => TarExtractor.binary_names(platform),
            ExtractorKind::Xz => XzExtractor.binary_names(platform),
            ExtractorKind::Zip => ZipExtractor.binary_names(platform),
            ExtractorKind::Zstd => ZstdExtractor.binary_names(platform),
        }
    }

    fn command_for(
        &self,
        tool: &Option<String>,
        binary: &str,
        file: &str,
        file_name: &Option<String>,
        output_dir: &str,
        verbose: bool,
    ) -> (r: Result<CommandSpec, AdapterError>) {
        match self {
            ExtractorKind::Arj => ArjExtractor.command_for(tool, binary, file, file_name, output_dir, verbose),
            ExtractorKind::Bzip2 => Bzip2Extractor.command_for(tool, binary, file, file_name, output_dir, verbose),
            ExtractorKind::Cab => CabExtractor.command_for(tool, binary, file, file_name, output_dir, verbose),
            ExtractorKind::Compress => CompressExtractor.command_for(tool, binary, file, file_name, output_dir, verbose),
            ExtractorKind::Gzip => GzipExtractor.command_for(tool, binary, file, file_name, output_dir, verbose),
            ExtractorKind::Iso => IsoExtractor.command_for(tool, binary, file, file_name, output_dir, verbose),
            ExtractorKind::Lha => LhaExtractor.command_for(tool, binary, file, file_name, output_dir, verbose),
            ExtractorKind::Lzip => LzipExtractor.command_for(tool, binary, file, file_name, output_dir, verbose),
            ExtractorKind::Lzma => LzmaExtractor.command_for(tool, binary, file, file_name, output_dir, verbose),
            ExtractorKind::Lzop => LzopExtractor.command_for(tool, binary, file, file_name, output_dir, verbose),
            ExtractorKind::DebRpm => DebRpmExtractor.command_for(tool, binary, file, file_name, output_dir, verbose),
            ExtractorKind::Rar => RarExtractor.command_for(tool, binary, file, file_name, output_dir, verbose),
            ExtractorKind::Sevenz => SevenzExtractor.command_for(tool, binary, file, file_name, output_dir, verbose),
            ExtractorKind::Sfx => SfxExtractor.command_for(tool, binary, file, file_name, output_dir, verbose),
            ExtractorKind::Tar => TarExtractor.command_for(tool, binary, file, file_name, output_dir, verbose),
            ExtractorKind::Xz => XzExtractor.command_for(tool, binary, file, file_name, output_dir, verbose),
            ExtractorKind::Zip => ZipExtractor.command_for(tool, binary, file, file_name, output_dir, verbose),
            ExtractorKind::Zstd => ZstdExtractor.command_for(tool, binary, file, file_name, output_dir, verbose),
        }
    }
}

/// `tool` is among the adapter's candidates on some platform.
pub open spec fn lists_tool(kind: ExtractorKind, tool: Seq<char>) -> bool {
    kind.candidates(Platform::Linux).contains(tool) || kind.candidates(Platform::MacOs).contains(
        tool,
    )
}

/// The candidate lists and the builders agree: a builder makes a command
/// only for a tool that its adapter lists as a candidate.
pub proof fn lemma_built_tool_is_listed(
    kind: ExtractorKind,
    tool: Seq<char>,
    binary: Seq<char>,
    file: Seq<char>,
    file_name: Option<Seq<char>>,
    output_dir: Seq<char>,
    verbose: bool,
)
    requires
        kind.command(Some(tool), binary, file, file_name, output_dir, verbose) is Ok,
    ensures
        lists_tool(kind, tool),
{
    let on_linux = kind.candidates(Platform::Linux);
    let on_macos = kind.candidates(Platform::MacOs);
    assert forall|i: int| 0 <= i < on_linux.len() implies on_linux.contains(
        #[trigger] on_linux[i],
    ) by {}
    assert forall|i: int| 0 <= i < on_macos.len() implies on_macos.contains(
        #[trigger] on_macos[i],
    ) by {}
    assert(on_linux.len() <= 4 && on_macos.len() <= 5);
    assert(on_linux.len() > 0 ==> on_linux.contains(on_linux[0]));
    assert(on_linux.len() > 1 ==> on_linux.contains(on_linux[1]));
    assert(on_linux.len() > 2 ==> on_linux.contains(on_linux[2]));
    assert(on_linux.len() > 3 ==> on_linux.contains(on_linux[3]));
    assert(on_macos.len() > 0 ==> on_macos.contains(on_macos[0]));
    assert(on_macos.len() > 1 ==> on_macos.contains(on_macos[1]));
    assert(on_macos.len() > 2 ==> on_macos.contains(on_macos[2]));
    assert(on_macos.len() > 3 ==> on_macos.contains(on_macos[3]));
    assert(on_macos.len() > 4 ==> on_macos.contains(on_macos[4]));
}

/// A builder never refuses a candidate of its adapter for its name: it makes
/// a command for each, given an archive path with a final component where
/// the command needs one, and for tar an extension that tar can take.
pub proof fn lemma_listed_tool_is_recognised(
    kind: ExtractorKind,
    platform: Platform,
    i: int,
    binary: Seq<char>,
    file: Seq<char>,
    file_name: Option<Seq<char>>,
    output_dir: Seq<char>,
    verbose: bool,
)
    requires
        0 <= i < kind.candidates(platform).len(),
        kind == ExtractorKind::Compress ==> file_name is Some,
        kind == ExtractorKind::Tar ==> (archive_extension(file_name) matches Some(ext) ==> flag_for(
            ext,
        ) is Some),
    ensures
        kind.command(
            Some(kind.candidates(platform)[i]),
            binary,
            file,
            file_name,
            output_dir,
            verbose,
        ) is Ok,
{
}

} // verus!
