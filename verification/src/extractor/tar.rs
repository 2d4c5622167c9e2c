//! Tar archives, plain or compressed.

use crate::command::{refuse, refuse_plain, AdapterError, CommandSpec, CommandView};
use crate::extractor::tools::{bsdtar_command, bsdtar_view, unar_command, unar_view};
use crate::extractor::Extractor;
use crate::paths::{extension_of, name_extension};
use crate::text::{lowercased, str_equal, to_lower, views};
use crate::trust::Platform;
use vstd::prelude::*;

verus! {

/// The adapter for tar archives, plain or compressed.
pub struct TarExtractor;

/// The extension of the archive, where its path has a final component with
/// one.
pub open spec fn archive_extension(file_name: Option<Seq<char>>) -> Option<Seq<char>> {
    match file_name {
        Some(n) => extension_of(n),
        None => None,
    }
}

/// The flag that tells `tar` how the archive is compressed: `None` for an
/// extension that tar cannot take, an empty flag where none is needed, as
/// for a plain `.tar`.
pub open spec fn compression_flag(ext: Seq<char>) -> Option<Seq<char>> {
    if ext == "gz"@ || ext == "tgz"@ {
        Some("-z"@)
    } else if ext == "bz2"@ || ext == "tbz2"@ {
        Some("-j"@)
    } else if ext == "xz"@ || ext == "txz"@ {
        Some("-J"@)
    } else if ext == "zst"@ {
        Some("--zstd"@)
    } else if ext == "tar"@ || ext == ""@ {
        Some(""@)
    } else {
        None
    }
}

/// The flag for an extension in whatever case: the extension is taken as
/// written where tar knows it so, else in lower case, as the file's key was.
pub open spec fn flag_for(ext: Seq<char>) -> Option<Seq<char>> {
    match compression_flag(ext) {
        Some(flag) => Some(flag),
        None => compression_flag(lowercased(ext)),
    }
}

/// Whether the adapter knows how to invoke a tool of this name.
pub open spec fn speaks_tar(tool: Seq<char>) -> bool {
    tool == "tar"@ || tool == "gtar"@ || tool == "bsdtar"@
}

/// The flag that tells `tar` how the archive is compressed.
pub fn tar_flag(ext: &str) -> (r: Option<&'static str>)
    ensures
        match r {
            Some(f) => compression_flag(ext@) == Some(f@),
            None => compression_flag(ext@) is None,
        },
{
    if str_equal(ext, "gz") || str_equal(ext, "tgz") {
        Some("-z")
    } else if str_equal(ext, "bz2") || str_equal(ext, "tbz2") {
        Some("-j")
    } else if str_equal(ext, "xz") || str_equal(ext, "txz") {
        Some("-J")
    } else if str_equal(ext, "zst") {
        Some("--zstd")
    } else if str_equal(ext, "tar") || str_equal(ext, "") {
        Some("")
    } else {
        None
    }
}

/// The flag for an extension in whatever case.
pub fn tar_flag_any_case(ext: &str) -> (r: Option<&'static str>)
    ensures
        match r {
            Some(f) => flag_for(ext@) == Some(f@),
            None => flag_for(ext@) is None,
        },
{
    match tar_flag(ext) {
        Some(flag) => Some(flag),
        None => {
            let lowered = to_lower(ext);
            tar_flag(lowered.as_str())
        },
    }
}

impl Extractor for TarExtractor {
    open spec fn extensions(&self) -> Seq<Seq<char>> {
        seq![
            "tar"@,
            "tar.gz"@,
            "tgz"@,
            "tar.bz2"@,
            "tbz2"@,
            "tar.xz"@,
            "txz"@,
            "tar.zst"@,
        ]
    }

    open spec fn candidates(&self, platform: Platform) -> Seq<Seq<char>> {
        seq!["unar"@, "tar"@, "gtar"@, "bsdtar"@]
    }

    open spec fn command(
        &self,
        tool: Option<Seq<char>>,
        binary: Seq<char>,
        file: Seq<char>,
        file_name: Option<Seq<char>>,
        output_dir: Seq<char>,
        verbose: bool,
    ) -> Result<CommandView, Seq<char>> {
        let base = bsdtar_view(binary, file, output_dir, verbose);
        match tool {
            None => Err("Invalid binary path"@),
            Some(t) => {
                if t == "unar"@ {
                    Ok(unar_view(binary, file, output_dir, verbose))
                } else if speaks_tar(t) {
                    match archive_extension(file_name) {
                        None => Ok(base),
                        Some(ext) => match flag_for(ext) {
                            None => Err("Unsupported tar extension tar."@ + ext),
                            Some(flag) => Ok(base.arg_if(flag.len() > 0, flag)),
                        },
                    }
                } else {
                    Err("Unsupported tar extraction tool: "@ + t)
                }
            },
        }
    }

    fn file_extensions(&self) -> (r: Vec<&'static str>) {
        let r = vec!["tar", "tar.gz", "tgz", "tar.bz2", "tbz2", "tar.xz", "txz", "tar.zst"];
        assert(views(r@) =~= self.extensions());
        r
    }

    fn binary_names(&self, platform: Platform) -> (r: Vec<&'static str>) {
        let r = vec!["unar", "tar", "gtar", "bsdtar"];
        assert(views(r@) =~= self.candidates(platform));
        r
    }

    fn command_for(
        &self,
        tool: &Option<String>,
        binary: &str,
        file: &str,
        file_name: &Option<String>,
        output_dir: &str,
        verbose: bool,
    ) -> (r: Result<CommandSpec, AdapterError>) {
        let t = match tool {
            None => {
                return refuse_plain("Invalid binary path");
            },
            Some(name) => name.as_str(),
        };
        if str_equal(t, "unar") {
            return Ok(unar_command(binary, file, output_dir, verbose));
        }
        if !(str_equal(t, "tar") || str_equal(t, "gtar") || str_equal(t, "bsdtar")) {
            return refuse("Unsupported tar extraction tool: ", t);
        }
        let mut cmd = bsdtar_command(binary, file, output_dir, verbose);
        let ext = match file_name {
            Some(n) => name_extension(n.as_str()),
            None => None,
        };
        match ext {
            None => Ok(cmd),
            Some(e) => match tar_flag_any_case(e.as_str()) {
                None => refuse("Unsupported tar extension tar.", e.as_str()),
                Some(flag) => {
                    cmd.arg_if(flag.unicode_len() > 0, flag);
                    Ok(cmd)
                },
            },
        }
    }
}

} // verus!
