use extr::command::{refuse, refuse_plain, AdapterError, CommandSpec};
use extr::error::DispatchError;
use extr::extractor::arj::ArjExtractor;
use extr::extractor::bzip2::Bzip2Extractor;
use extr::extractor::cab::CabExtractor;
use extr::extractor::compress::CompressExtractor;
use extr::extractor::gzip::GzipExtractor;
use extr::extractor::iso::IsoExtractor;
use extr::extractor::lha::LhaExtractor;
use extr::extractor::lzip::LzipExtractor;
use extr::extractor::lzma::LzmaExtractor;
use extr::extractor::lzop::LzopExtractor;
use extr::extractor::pkg::DebRpmExtractor;
use extr::extractor::rar::RarExtractor;
use extr::extractor::sevenz::SevenzExtractor;
use extr::extractor::sfx::SfxExtractor;
use extr::extractor::tar::{tar_flag, tar_flag_any_case, TarExtractor};
use extr::extractor::tools::{
    bsdtar_command, seven_zip_command, stream_command, unar_command,
};
use extr::extractor::xz::XzExtractor;
use extr::extractor::zip::ZipExtractor;
use extr::extractor::zstd::ZstdExtractor;
use extr::extractor::Extractor;
use extr::kind::{every_kind, ExtractorKind};
use extr::trust::Platform;

fn command(program: &str, args: &[&str], dir: Option<&str>) -> CommandSpec {
    CommandSpec {
        program: program.to_string(),
        args: args.iter().map(|a| a.to_string()).collect(),
        current_dir: dir.map(|d| d.to_string()),
        copy_input_to: None,
    }
}

fn refusal(message: &str) -> Result<CommandSpec, AdapterError> {
    Err(AdapterError { message: message.to_string() })
}

#[test]
fn command_builder_steps() {
    let mut cmd = CommandSpec::new("/usr/bin/tool");
    cmd.arg("x");
    cmd.arg_if(false, "-q");
    cmd.arg_if(true, "-v");
    cmd.dir("out");
    assert_eq!(cmd, command("/usr/bin/tool", &["x", "-v"], Some("out")));
    cmd.staged("out/in");
    assert_eq!(cmd.copy_input_to, Some("out/in".to_string()));
}

#[test]
fn shared_tool_lines() {
    assert_eq!(
        unar_command("/usr/bin/unar", "a.rar", "out", false),
        command("/usr/bin/unar", &["-o", "out", "a.rar", "-q"], None)
    );
    assert_eq!(
        unar_command("/usr/bin/unar", "a.rar", "out", true),
        command("/usr/bin/unar", &["-o", "out", "a.rar"], None)
    );
    assert_eq!(
        seven_zip_command("/usr/bin/7z", "a.iso", "out", false),
        command("/usr/bin/7z", &["x", "-y", "-oout", "a.iso", "-bso0", "-bd"], None)
    );
    assert_eq!(
        seven_zip_command("/usr/bin/7z", "a.iso", "out", true),
        command("/usr/bin/7z", &["x", "-y", "-oout", "a.iso"], None)
    );
    assert_eq!(
        bsdtar_command("/usr/bin/bsdtar", "a.iso", "out", true),
        command("/usr/bin/bsdtar", &["-xf", "a.iso", "-C", "out", "-v"], None)
    );
    assert_eq!(
        stream_command(true, "/usr/bin/xz", "a.xz", "out", true),
        command("/usr/bin/xz", &["-d", "-k", "-v", "a.xz"], Some("out"))
    );
    assert_eq!(
        stream_command(false, "/usr/bin/unxz", "a.xz", "out", false),
        command("/usr/bin/unxz", &["-k", "a.xz"], Some("out"))
    );
}

#[test]
fn tar_with_compression_flags() {
    let t = TarExtractor;
    assert_eq!(
        t.build_command("/usr/bin/tar", "/tmp/a.tar.gz", "out", false),
        Ok(command("/usr/bin/tar", &["-xf", "/tmp/a.tar.gz", "-C", "out", "-z"], None))
    );
    assert_eq!(
        t.build_command("/usr/bin/gtar", "a.tbz2", "out", true),
        Ok(command("/usr/bin/gtar", &["-xf", "a.tbz2", "-C", "out", "-v", "-j"], None))
    );
    assert_eq!(
        t.build_command("/usr/bin/bsdtar", "a.tar.xz", "out", false),
        Ok(command("/usr/bin/bsdtar", &["-xf", "a.tar.xz", "-C", "out", "-J"], None))
    );
    assert_eq!(
        t.build_command("/usr/bin/tar", "a.tar.zst", "out", false),
        Ok(command("/usr/bin/tar", &["-xf", "a.tar.zst", "-C", "out", "--zstd"], None))
    );
    assert_eq!(
        t.build_command("/usr/bin/tar", "archive", "out", false),
        Ok(command("/usr/bin/tar", &["-xf", "archive", "-C", "out"], None))
    );
    assert_eq!(
        t.build_command("/usr/bin/tar", "archive.", "out", false),
        Ok(command("/usr/bin/tar", &["-xf", "archive.", "-C", "out"], None))
    );
}

#[test]
fn tar_through_unar_and_refusals() {
    let t = TarExtractor;
    assert_eq!(
        t.build_command("/usr/bin/unar", "a.tar.gz", "out", false),
        Ok(command("/usr/bin/unar", &["-o", "out", "a.tar.gz", "-q"], None))
    );
    assert_eq!(
        t.build_command("/usr/bin/tar", "a.lz4", "out", false),
        refusal("Unsupported tar extension tar.lz4")
    );
    assert_eq!(
        t.build_command("/usr/bin/unzip", "a.tar.gz", "out", false),
        refusal("Unsupported tar extraction tool: unzip")
    );
    assert_eq!(
        t.build_command("/usr/bin/star", "a.tar", "out", false),
        refusal("Unsupported tar extraction tool: star")
    );
    assert_eq!(t.build_command("/", "a.tar.gz", "out", false), refusal("Invalid binary path"));
    assert_eq!(tar_flag("tgz"), Some("-z"));
    assert_eq!(tar_flag("txz"), Some("-J"));
    assert_eq!(tar_flag(""), Some(""));
    assert_eq!(tar_flag("tar"), Some(""));
    assert_eq!(tar_flag("GZ"), None);
    assert_eq!(tar_flag_any_case("GZ"), Some("-z"));
    assert_eq!(tar_flag_any_case("gz"), Some("-z"));
    assert_eq!(tar_flag_any_case("Tbz2"), Some("-j"));
    assert_eq!(tar_flag_any_case("lz4"), None);
}

#[test]
fn plain_tar_needs_no_flag() {
    let t = TarExtractor;
    assert_eq!(
        t.build_command("/usr/bin/tar", "a.tar", "out", false),
        Ok(command("/usr/bin/tar", &["-xf", "a.tar", "-C", "out"], None))
    );
    assert_eq!(
        t.build_command("/usr/bin/bsdtar", "/data/a.TAR", "out", true),
        Ok(command("/usr/bin/bsdtar", &["-xf", "/data/a.TAR", "-C", "out", "-v"], None))
    );
}

#[test]
fn tar_takes_extensions_in_any_case() {
    let t = TarExtractor;
    assert_eq!(
        t.build_command("/usr/bin/tar", "a.TGZ", "out", false),
        Ok(command("/usr/bin/tar", &["-xf", "a.TGZ", "-C", "out", "-z"], None))
    );
    assert_eq!(
        t.build_command("/usr/bin/gtar", "a.tar.XZ", "out", false),
        Ok(command("/usr/bin/gtar", &["-xf", "a.tar.XZ", "-C", "out", "-J"], None))
    );
}

#[test]
fn every_tar_candidate_is_recognised() {
    let t = TarExtractor;
    for tool in t.binary_names(Platform::Linux) {
        let binary = format!("/usr/bin/{}", tool);
        for file in ["a.tar", "a.tar.gz", "a.tgz", "a.tar.bz2", "a.tbz2", "a.tar.xz", "a.txz", "a.tar.zst"] {
            assert!(t.build_command(&binary, file, "out", false).is_ok());
        }
    }
}

#[test]
fn zip_tools() {
    let z = ZipExtractor;
    assert_eq!(
        z.build_command("/usr/bin/unzip", "a.zip", "out", false),
        Ok(command("/usr/bin/unzip", &["-q", "a.zip", "-d", "out"], None))
    );
    assert_eq!(
        z.build_command("/usr/bin/unzip", "a.zip", "out", true),
        Ok(command("/usr/bin/unzip", &["a.zip", "-d", "out"], None))
    );
    assert_eq!(
        z.build_command("/usr/bin/7z", "a.zip", "out", false),
        Ok(command("/usr/bin/7z", &["x", "-y", "-o", "out", "a.zip", "-bd"], None))
    );
    assert_eq!(
        z.build_command("/usr/bin/bsdtar", "a.zip", "out", false),
        Ok(command("/usr/bin/bsdtar", &["-xf", "a.zip", "-C", "out"], None))
    );
    assert_eq!(
        z.build_command("/usr/bin/jar", "a.jar", "out", true),
        Ok(command("/usr/bin/jar", &["xf", "a.jar", "-v"], Some("out")))
    );
    assert_eq!(
        z.build_command("/usr/bin/unar", "a.zip", "out", true),
        Ok(command("/usr/bin/unar", &["-o", "out", "a.zip"], None))
    );
    assert_eq!(
        z.build_command("/usr/bin/zipper", "a.zip", "out", true),
        refusal("Unsupported zip extraction tool: zipper")
    );
}

#[test]
fn seven_zip_family() {
    let s = SevenzExtractor;
    for tool in ["7z", "7za", "7zr"] {
        let binary = format!("/usr/bin/{}", tool);
        assert_eq!(
            s.build_command(&binary, "a.7z", "out", false),
            Ok(command(&binary, &["x", "-oout", "a.7z", "-y", "-bso0", "-bd"], None))
        );
    }
    assert_eq!(
        s.build_command("/usr/bin/7z", "a.7z", "out", true),
        Ok(command("/usr/bin/7z", &["x", "-oout", "a.7z", "-y"], None))
    );
    assert_eq!(
        s.build_command("/usr/bin/bsdtar", "a.7z", "out", true),
        Ok(command("/usr/bin/bsdtar", &["-xf", "a.7z", "-C", "out", "-v"], None))
    );
    assert_eq!(
        s.build_command("/usr/bin/p7zip", "a.7z", "out", true),
        refusal("Unsupported 7z extraction tool: p7zip")
    );
    assert_eq!(s.build_command("..", "a.7z", "out", true), refusal("Invalid binary path"));
}

#[test]
fn arj_rar_lha_pkg_tools() {
    assert_eq!(
        ArjExtractor.build_command("/usr/bin/arj", "a.arj", "out", false),
        Ok(command("/usr/bin/arj", &["x", "-y", "a.arj", "out", "-i"], None))
    );
    assert_eq!(
        ArjExtractor.build_command("/usr/bin/7z", "a.arj", "out", true),
        Ok(command("/usr/bin/7z", &["x", "-y", "-oout", "a.arj"], None))
    );
    assert_eq!(
        ArjExtractor.build_command("/usr/bin/zip", "a.arj", "out", true),
        refusal("Unsupported ARJ tool: zip")
    );
    assert_eq!(
        RarExtractor.build_command("/usr/bin/unrar", "a.rar", "out", false),
        Ok(command("/usr/bin/unrar", &["x", "-y", "a.rar", "out", "-idq"], None))
    );
    assert_eq!(
        RarExtractor.build_command("/usr/bin/rar", "a.rar", "out", false),
        refusal("Unsupported RAR tool: rar")
    );
    assert_eq!(
        LhaExtractor.build_command("/usr/bin/lhasa", "a.lzh", "out", true),
        Ok(command("/usr/bin/lhasa", &["x", "-v", "-f", "a.lzh", "out"], None))
    );
    assert_eq!(
        LhaExtractor.build_command("/usr/bin/lha", "a.lzh", "out", false),
        Ok(command("/usr/bin/lha", &["x", "-f", "a.lzh", "out"], None))
    );
    assert_eq!(
        LhaExtractor.build_command("/usr/bin/tar", "a.lzh", "out", false),
        refusal("Unsupported LHA/LZH extraction tool: /usr/bin/tar")
    );
    assert_eq!(
        DebRpmExtractor.build_command("/usr/bin/dpkg", "a.deb", "out", true),
        Ok(command("/usr/bin/dpkg", &["-x", "a.deb", "out"], None))
    );
    assert_eq!(
        DebRpmExtractor.build_command("/usr/bin/rpm2cpio", "a.rpm", "out", true),
        Ok(command("/usr/bin/rpm2cpio", &["a.rpm", "|", "cpio", "-idm", "-D", "out"], None))
    );
    assert_eq!(
        DebRpmExtractor.build_command("/usr/bin/ar", "a.deb", "out", true),
        Ok(command("/usr/bin/ar", &["x", "a.deb", "--output", "out"], None))
    );
    assert_eq!(
        DebRpmExtractor.build_command("/usr/bin/rpm", "a.rpm", "out", true),
        refusal("Unsupported package tool: rpm")
    );
}

#[test]
fn two_tool_formats() {
    assert_eq!(
        CabExtractor.build_command("/usr/bin/cabextract", "a.cab", "out", false),
        Ok(command("/usr/bin/cabextract", &["-d", "out", "a.cab", "-q"], None))
    );
    assert_eq!(
        CabExtractor.build_command("/usr/bin/7z", "a.cab", "out", false),
        Ok(command("/usr/bin/7z", &["x", "-y", "-oout", "a.cab", "-bso0", "-bd"], None))
    );
    assert_eq!(
        IsoExtractor.build_command("/usr/bin/7z", "a.iso", "out", true),
        Ok(command("/usr/bin/7z", &["x", "-y", "-oout", "a.iso"], None))
    );
    assert_eq!(
        IsoExtractor.build_command("/usr/bin/bsdtar", "a.iso", "out", false),
        Ok(command("/usr/bin/bsdtar", &["-xf", "a.iso", "-C", "out"], None))
    );
    assert_eq!(
        SfxExtractor.build_command("/usr/bin/unar", "a.exe", "out", false),
        Ok(command("/usr/bin/unar", &["-o", "out", "a.exe", "-q"], None))
    );
    assert_eq!(
        SfxExtractor.build_command("/usr/bin/7z", "a.exe", "out", false),
        Ok(command("/usr/bin/7z", &["x", "-y", "-oout", "a.exe", "-bso0", "-bd"], None))
    );
}

#[test]
fn single_stream_formats() {
    assert_eq!(
        GzipExtractor.build_command("/usr/bin/gzip", "a.gz", "out", false),
        Ok(command("/usr/bin/gzip", &["-d", "-k", "a.gz"], Some("out")))
    );
    assert_eq!(
        GzipExtractor.build_command("/usr/bin/gunzip", "a.gz", "out", true),
        Ok(command("/usr/bin/gunzip", &["-k", "-v", "a.gz"], Some("out")))
    );
    assert_eq!(
        Bzip2Extractor.build_command("/usr/bin/bzip2", "a.bz2", "out", true),
        Ok(command("/usr/bin/bzip2", &["-d", "-k", "-v", "a.bz2"], Some("out")))
    );
    assert_eq!(
        Bzip2Extractor.build_command("/usr/bin/bunzip2", "a.bz2", "out", false),
        Ok(command("/usr/bin/bunzip2", &["-k", "a.bz2"], Some("out")))
    );
    assert_eq!(
        LzipExtractor.build_command("/usr/bin/lzip", "a.lz", "out", false),
        Ok(command("/usr/bin/lzip", &["-d", "-k", "a.lz"], Some("out")))
    );
    assert_eq!(
        LzmaExtractor.build_command("/usr/bin/unlzma", "a.lzma", "out", false),
        Ok(command("/usr/bin/unlzma", &["-k", "a.lzma"], Some("out")))
    );
    assert_eq!(
        XzExtractor.build_command("/usr/bin/xz", "a.xz", "out", false),
        Ok(command("/usr/bin/xz", &["-d", "-k", "a.xz"], Some("out")))
    );
    assert_eq!(
        ZstdExtractor.build_command("/usr/bin/unzstd", "a.zst", "out", true),
        Ok(command("/usr/bin/unzstd", &["-k", "-v", "a.zst"], Some("out")))
    );
    assert_eq!(
        ZstdExtractor.build_command("/usr/bin/zstd", "a.zst", "out", false),
        Ok(command("/usr/bin/zstd", &["-d", "-k", "a.zst"], Some("out")))
    );
    assert_eq!(
        LzopExtractor.build_command("/usr/bin/lzop", "a.lzo", "out", true),
        Ok(command("/usr/bin/lzop", &["-d", "-p", "out", "-k", "-v", "a.lzo"], None))
    );
}

#[test]
fn compress_stages_a_copy() {
    let built = CompressExtractor.build_command("/usr/bin/uncompress", "/data/a.Z", "out", false);
    let mut expected = command("/usr/bin/uncompress", &["out/a.Z"], Some("out"));
    expected.copy_input_to = Some("out/a.Z".to_string());
    assert_eq!(built, Ok(expected));
    assert_eq!(
        CompressExtractor.build_command("/usr/bin/uncompress", "/", "out", false),
        refusal("Invalid archive path")
    );
}

#[test]
fn command_from_known_components() {
    let built = TarExtractor.command_for(
        &Some("tar".to_string()),
        "/usr/bin/tar",
        "a.tgz",
        &Some("a.tgz".to_string()),
        "out",
        false,
    );
    assert_eq!(built, Ok(command("/usr/bin/tar", &["-xf", "a.tgz", "-C", "out", "-z"], None)));
    let none = ZipExtractor.command_for(&None, "x", "a.zip", &None, "out", false);
    assert_eq!(none, refusal("Invalid binary path"));
}

#[test]
fn candidates_by_platform() {
    assert_eq!(ZipExtractor.binary_names(Platform::Linux), vec!["unzip", "7z", "bsdtar", "jar"]);
    assert_eq!(
        ZipExtractor.binary_names(Platform::MacOs),
        vec!["unar", "unzip", "7z", "bsdtar", "jar"]
    );
    assert_eq!(ArjExtractor.binary_names(Platform::MacOs), vec!["unar", "arj"]);
    assert_eq!(ArjExtractor.binary_names(Platform::Bsd), vec!["arj", "7z"]);
    assert_eq!(RarExtractor.binary_names(Platform::MacOs), vec!["unar", "unrar"]);
    assert_eq!(RarExtractor.binary_names(Platform::Other), vec!["unrar", "7z"]);
    assert_eq!(
        SevenzExtractor.binary_names(Platform::MacOs),
        vec!["unar", "7z", "7za", "7zr", "bsdtar"]
    );
    assert_eq!(TarExtractor.binary_names(Platform::Linux), vec!["unar", "tar", "gtar", "bsdtar"]);
    assert_eq!(
        TarExtractor.file_extensions(),
        vec!["tar", "tar.gz", "tgz", "tar.bz2", "tbz2", "tar.xz", "txz", "tar.zst"]
    );
    assert_eq!(CompressExtractor.file_extensions(), vec!["z"]);
}

#[test]
fn kinds_stand_for_their_adapters() {
    let kinds = every_kind();
    assert_eq!(kinds.len(), 18);
    assert_eq!(kinds[0], ExtractorKind::Arj);
    assert_eq!(kinds[17], ExtractorKind::Zstd);
    assert_eq!(ExtractorKind::Tar.file_extensions(), TarExtractor.file_extensions());
    assert_eq!(
        ExtractorKind::DebRpm.binary_names(Platform::Linux),
        vec!["bsdtar", "ar", "dpkg", "rpm2cpio"]
    );
    assert_eq!(
        ExtractorKind::Lha.build_command("/usr/bin/unar", "a.lha", "out", true),
        LhaExtractor.build_command("/usr/bin/unar", "a.lha", "out", true)
    );
    assert_eq!(
        ExtractorKind::Zip.build_command("/usr/bin/unzip", "a.zip", "out", true),
        Ok(command("/usr/bin/unzip", &["a.zip", "-d", "out"], None))
    );
    assert_eq!(
        ExtractorKind::Zip.build_command("/usr/bin/gzip", "a.zip", "out", true),
        refusal("Unsupported zip extraction tool: gzip")
    );
}

#[test]
fn refusals_carry_their_message() {
    assert_eq!(refuse("Unsupported tool: ", "x"), refusal("Unsupported tool: x"));
    assert_eq!(refuse_plain("Invalid binary path"), refusal("Invalid binary path"));
    assert_eq!(
        DispatchError::AdapterBuild { reason: "no".to_string() }.message(),
        "no"
    );
    assert_eq!(CommandSpec::new("t"), command("t", &[], None));
}

#[test]
fn every_candidate_is_recognised_by_its_adapter() {
    let platforms = [Platform::Linux, Platform::MacOs, Platform::Bsd, Platform::Other];
    for kind in every_kind() {
        for platform in platforms {
            for tool in kind.binary_names(platform) {
                for ext in kind.file_extensions() {
                    let binary = format!("/usr/bin/{}", tool);
                    let file = format!("archive.{}", ext);
                    assert!(kind.build_command(&binary, &file, "out", false).is_ok());
                    assert!(kind.build_command(&binary, &file, "out", true).is_ok());
                }
            }
        }
    }
}

#[test]
fn unknown_tool_is_refused_by_every_adapter() {
    for kind in every_kind() {
        for ext in kind.file_extensions() {
            let file = format!("archive.{}", ext);
            assert!(kind.build_command("/usr/bin/no-such-tool", &file, "out", false).is_err());
            assert_eq!(kind.build_command("/", &file, "out", false), refusal("Invalid binary path"));
        }
    }
}

#[test]
fn refusals_name_the_tool() {
    assert_eq!(
        GzipExtractor.build_command("/usr/bin/zip", "a.gz", "out", false),
        refusal("Unsupported gzip extraction tool: zip")
    );
    assert_eq!(
        Bzip2Extractor.build_command("/usr/bin/gzip", "a.bz2", "out", false),
        refusal("Unsupported bzip2 extraction tool: gzip")
    );
    assert_eq!(
        LzipExtractor.build_command("/usr/bin/lzma", "a.lz", "out", false),
        refusal("Unsupported lzip extraction tool: lzma")
    );
    assert_eq!(
        LzmaExtractor.build_command("/usr/bin/xz", "a.lzma", "out", false),
        refusal("Unsupported LZMA extraction tool: xz")
    );
    assert_eq!(
        XzExtractor.build_command("/usr/bin/lzma", "a.xz", "out", false),
        refusal("Unsupported xz extraction tool: lzma")
    );
    assert_eq!(
        ZstdExtractor.build_command("/usr/bin/xz", "a.zst", "out", false),
        refusal("Unsupported Zstandard extraction tool: xz")
    );
    assert_eq!(
        LzopExtractor.build_command("/usr/bin/lzo", "a.lzo", "out", false),
        refusal("Unsupported lzop extraction tool: lzo")
    );
    assert_eq!(
        CabExtractor.build_command("/usr/bin/unzip", "a.cab", "out", false),
        refusal("Unsupported CAB extraction tool: unzip")
    );
    assert_eq!(
        IsoExtractor.build_command("/usr/bin/tar", "a.iso", "out", false),
        refusal("Unsupported ISO extraction tool: tar")
    );
    assert_eq!(
        SfxExtractor.build_command("/usr/bin/bsdtar", "a.exe", "out", false),
        refusal("Unsupported SFX extraction tool: bsdtar")
    );
    assert_eq!(
        CompressExtractor.build_command("/usr/bin/gzip", "a.Z", "out", false),
        refusal("Unsupported compress extraction tool: gzip")
    );
}
